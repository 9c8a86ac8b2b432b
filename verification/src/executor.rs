//! Fixed-capacity table of tasks for a run-to-completion executor.
use vstd::prelude::*;

verus! {

/// Number of task slots.
pub const TASK_SLOTS: usize = 32;

/// Slots holding tasks of type `T`.
pub struct Executor<T> {
    tasks: Vec<Option<T>>,
}

impl<T> View for Executor<T> {
    type V = Seq<Option<T>>;

    closed spec fn view(&self) -> Seq<Option<T>> {
        self.tasks@
    }
}

/// Whether some slot is free.
pub open spec fn has_free_slot<T>(s: Seq<Option<T>>) -> bool {
    exists|k: int| 0 <= k < s.len() && s[k] is None
}

/// `k` is the first free slot.
pub open spec fn first_free<T>(s: Seq<Option<T>>, k: int) -> bool {
    &&& 0 <= k < s.len()
    &&& s[k] is None
    &&& forall|j: int| 0 <= j < k ==> s[j] is Some
}

impl<T> Executor<T> {
    /// An executor with every slot free.
    pub fn new() -> (e: Self)
        ensures
            e@ == Seq::new(TASK_SLOTS as nat, |i: int| None::<T>),
    {
        let mut tasks: Vec<Option<T>> = Vec::new();
        let mut i: usize = 0;
        while i < TASK_SLOTS
            invariant
                i <= TASK_SLOTS,
                tasks@ == Seq::new(i as nat, |k: int| None::<T>),
            decreases TASK_SLOTS - i,
        {
            tasks.push(None);
            i = i + 1;
            assert(tasks@ =~= Seq::new(i as nat, |k: int| None::<T>));
        }
        Executor { tasks }
    }

    /// Put `fut` in the first free slot.  A full table is refused by the
    /// precondition (the queue has no room to grow).
    pub fn spawn(&mut self, fut: T)
        requires
            has_free_slot(old(self)@),
        ensures
            exists|k: int| first_free(old(self)@, k) && final(self)@ == old(self)@.update(k, Some(fut)),
    {
        let mut i: usize = 0;
        while i < self.tasks.len()
            invariant
                i <= self.tasks@.len(),
                self.tasks@ == old(self)@,
                has_free_slot(self.tasks@),
                forall|j: int| 0 <= j < i ==> self.tasks@[j] is Some,
            decreases self.tasks@.len() - i,
        {
            if self.tasks[i].is_none() {
                assert(first_free(old(self)@, i as int));
                self.tasks.set(i, Some(fut));
                return;
            }
            i = i + 1;
        }
    }

    /// Whether some slot is free.
    pub fn can_spawn(&self) -> (b: bool)
        ensures
            b == has_free_slot(self@),
    {
        let mut i: usize = 0;
        while i < self.tasks.len()
            invariant
                i <= self.tasks@.len(),
                forall|j: int| 0 <= j < i ==> self.tasks@[j] is Some,
            decreases self.tasks@.len() - i,
        {
            if self.tasks[i].is_none() {
                return true;
            }
            i = i + 1;
        }
        false
    }

    /// Take the task out of slot `i` to poll it, leaving the slot free.
    pub fn take(&mut self, i: usize) -> (t: Option<T>)
        requires
            i < old(self)@.len(),
        ensures
            t == old(self)@[i as int],
            final(self)@ == old(self)@.update(i as int, None),
    {
        let mut slot: Option<T> = None;
        std::mem::swap(&mut slot, &mut self.tasks[i]);
        slot
    }

    /// Put a task that is not finished back into slot `i`.
    pub fn restore(&mut self, i: usize, t: T)
        requires
            i < old(self)@.len(),
        ensures
            final(self)@ == old(self)@.update(i as int, Some(t)),
    {
        self.tasks.set(i, Some(t));
    }

    /// Number of slots.
    pub fn slots(&self) -> (n: usize)
        ensures
            n == self@.len(),
    {
        self.tasks.len()
    }
}

} // verus!
