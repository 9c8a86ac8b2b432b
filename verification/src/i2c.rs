//! I2C1 (BSC1) master, transmit side.
use crate::mmio::{Block, RegOp, store, until_set, wait_set, wr};
use vstd::prelude::*;

verus! {

/// Control.
pub const C: usize = 0x00;
/// Status.
pub const S: usize = 0x04;
/// Data length.
pub const DLEN: usize = 0x08;
/// Slave address.
pub const A: usize = 0x0C;
/// Data FIFO.
pub const FIFO: usize = 0x10;
/// Clock divider.
pub const DIV: usize = 0x14;
/// FIFO can accept data.
pub const S_TXD: u32 = 0x10;
/// Transfer done.
pub const S_DONE: u32 = 0x02;

/// The I2C1 controller.
pub struct I2C;

/// The two steps that push byte `b` into the FIFO.
pub open spec fn byte_ops(b: u8) -> Seq<RegOp> {
    seq![wait_set(Block::I2c1, S, S_TXD), wr(Block::I2c1, FIFO, b as u32)]
}

/// The FIFO pushes of all of `data`, in order.
pub open spec fn bytes_ops(data: Seq<u8>) -> Seq<RegOp>
    decreases data.len(),
{
    if data.len() == 0 {
        Seq::empty()
    } else {
        bytes_ops(data.drop_last()) + byte_ops(data.last())
    }
}

/// The program of [`I2C::write`].
pub open spec fn write_ops(addr: u8, data: Seq<u8>) -> Seq<RegOp> {
    seq![
        wr(Block::I2c1, A, addr as u32),
        wr(Block::I2c1, DLEN, data.len() as u32),
        wr(Block::I2c1, S, 0),
        wr(Block::I2c1, C, 0x80),
        wr(Block::I2c1, C, 0x8080),
    ] + bytes_ops(data) + seq![wait_set(Block::I2c1, S, S_DONE)]
}

/// The values a program stores into the I2C FIFO, in order.
pub open spec fn fifo_writes(ops: Seq<RegOp>) -> Seq<u32>
    decreases ops.len(),
{
    if ops.len() == 0 {
        Seq::empty()
    } else {
        let rest = fifo_writes(ops.drop_last());
        match ops.last() {
            RegOp::Write { reg, value } => if reg == crate::mmio::reg(Block::I2c1, FIFO) {
                rest.push(value)
            } else {
                rest
            },
            _ => rest,
        }
    }
}

proof fn lemma_fifo_writes_append(a: Seq<RegOp>, b: Seq<RegOp>)
    ensures
        fifo_writes(a + b) == fifo_writes(a) + fifo_writes(b),
    decreases b.len(),
{
    if b.len() == 0 {
        assert(a + b =~= a);
        assert(fifo_writes(a) + fifo_writes(b) =~= fifo_writes(a));
    } else {
        lemma_fifo_writes_append(a, b.drop_last());
        assert((a + b).drop_last() =~= a + b.drop_last());
        assert((a + b).last() == b.last());
        let x = fifo_writes(a);
        let y = fifo_writes(b.drop_last());
        assert(x + y.push(b.last()->Write_value) =~= (x + y).push(b.last()->Write_value));
    }
}

/// The bytes an I2C transfer pushes into the FIFO are exactly `data`, one
/// FIFO write per byte, in order; the length programmed into `DLEN` is their
/// number.
pub proof fn lemma_write_sends_data(addr: u8, data: Seq<u8>)
    requires
        data.len() <= u32::MAX,
    ensures
        fifo_writes(write_ops(addr, data)) == data.map_values(|b: u8| b as u32),
        write_ops(addr, data)[1] == wr(Block::I2c1, DLEN, fifo_writes(write_ops(addr, data)).len() as u32),
{
    lemma_bytes_fifo(data);
    let head = seq![
        wr(Block::I2c1, A, addr as u32),
        wr(Block::I2c1, DLEN, data.len() as u32),
        wr(Block::I2c1, S, 0),
        wr(Block::I2c1, C, 0x80),
        wr(Block::I2c1, C, 0x8080),
    ];
    let tail = seq![wait_set(Block::I2c1, S, S_DONE)];
    lemma_fifo_writes_append(head, bytes_ops(data));
    lemma_fifo_writes_append(head + bytes_ops(data), tail);
    let e = Seq::<RegOp>::empty();
    assert(fifo_writes(e) == Seq::<u32>::empty());
    let h1 = e.push(head[0]);
    let h2 = h1.push(head[1]);
    let h3 = h2.push(head[2]);
    let h4 = h3.push(head[3]);
    assert(h1.drop_last() =~= e);
    assert(h2.drop_last() =~= h1);
    assert(h3.drop_last() =~= h2);
    assert(h4.drop_last() =~= h3);
    assert(head.drop_last() =~= h4);
    assert(fifo_writes(h1) == fifo_writes(e));
    assert(fifo_writes(h2) == fifo_writes(h1));
    assert(fifo_writes(h3) == fifo_writes(h2));
    assert(fifo_writes(h4) == fifo_writes(h3));
    assert(fifo_writes(head) == fifo_writes(h4));
    assert(tail.drop_last() =~= e);
    assert(fifo_writes(tail) == fifo_writes(e));
    assert(fifo_writes(head + bytes_ops(data) + tail) =~= data.map_values(|b: u8| b as u32));
}

proof fn lemma_bytes_fifo(data: Seq<u8>)
    ensures
        fifo_writes(bytes_ops(data)) == data.map_values(|b: u8| b as u32),
    decreases data.len(),
{
    if data.len() == 0 {
        assert(fifo_writes(bytes_ops(data)) =~= data.map_values(|b: u8| b as u32));
    } else {
        lemma_bytes_fifo(data.drop_last());
        let one = byte_ops(data.last());
        lemma_fifo_writes_append(bytes_ops(data.drop_last()), one);
        let e = Seq::<RegOp>::empty();
        assert(fifo_writes(e) == Seq::<u32>::empty());
        let w = seq![wait_set(Block::I2c1, S, S_TXD)];
        assert(w.drop_last() =~= e);
        assert(one.drop_last() =~= w);
        assert(fifo_writes(w) == fifo_writes(e));
        assert(fifo_writes(one) == fifo_writes(w).push(data.last() as u32));
        assert(fifo_writes(one) =~= seq![data.last() as u32]);
        assert(data.map_values(|b: u8| b as u32) =~= data.drop_last().map_values(|b: u8| b as u32).push(
            data.last() as u32,
        ));
    }
}

impl I2C {
    /// Set the clock divider.
    pub fn init(div: u32) -> (ops: Vec<RegOp>)
        ensures
            ops@ == seq![wr(Block::I2c1, DIV, div)],
    {
        vec![store(Block::I2c1, DIV, div)]
    }

    /// Send `data` to the device at `addr`: program address and length,
    /// clear the status, start the transfer, feed the FIFO byte by byte and
    /// wait for the done flag.
    pub fn write(addr: u8, data: &[u8]) -> (ops: Vec<RegOp>)
        ensures
            ops@ == write_ops(addr, data@),
    {
        let mut ops: Vec<RegOp> = vec![
            store(Block::I2c1, A, addr as u32),
            store(Block::I2c1, DLEN, data.len() as u32),
            store(Block::I2c1, S, 0),
            store(Block::I2c1, C, 0x80),
            store(Block::I2c1, C, 0x8080),
        ];
        let ghost head = ops@;
        let mut i: usize = 0;
        while i < data.len()
            invariant
                i <= data@.len(),
                head == seq![
                    wr(Block::I2c1, A, addr as u32),
                    wr(Block::I2c1, DLEN, data@.len() as u32),
                    wr(Block::I2c1, S, 0),
                    wr(Block::I2c1, C, 0x80),
                    wr(Block::I2c1, C, 0x8080),
                ],
                ops@ == head + bytes_ops(data@.subrange(0, i as int)),
            decreases data@.len() - i,
        {
            let b = data[i];
            ops.push(until_set(Block::I2c1, S, S_TXD));
            ops.push(store(Block::I2c1, FIFO, b as u32));
            assert(data@.subrange(0, i as int + 1).drop_last() =~= data@.subrange(0, i as int));
            assert(ops@ =~= head + bytes_ops(data@.subrange(0, i as int + 1)));
            i = i + 1;
        }
        ops.push(until_set(Block::I2c1, S, S_DONE));
        assert(data@.subrange(0, data@.len() as int) =~= data@);
        ops
    }
}

} // verus!
