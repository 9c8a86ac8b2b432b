//! Audio output through the PWM channel.
use crate::mmio::RegOp;
use crate::pwm::{half_duty_ops, PWM};
use vstd::prelude::*;

verus! {

/// Audio on the PWM channel.
pub struct Audio;

impl Audio {
    /// Run the PWM at `sample_rate` Hz with a 50 % duty cycle.
    pub fn init(sample_rate: u32) -> (ops: Vec<RegOp>)
        requires
            sample_rate > 0,
        ensures
            ops@ == half_duty_ops(sample_rate),
    {
        PWM::half_duty(sample_rate)
    }
}

} // verus!
