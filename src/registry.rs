//! The registry of the listener tasks that the gateway has spawned.
use vstd::prelude::*;

verus! {

/// The handles of spawned listener tasks, in the order they were spawned.
/// Handles are only appended while the gateway runs, and all are taken out
/// together at shutdown.
pub struct TaskRegistry<H> {
    handles: Vec<H>,
}

impl<H> View for TaskRegistry<H> {
    type V = Seq<H>;

    closed spec fn view(&self) -> Seq<H> {
        self.handles@
    }
}

impl<H> TaskRegistry<H> {
    /// An empty registry.
    pub fn new() -> (r: Self)
        ensures
            r@ == Seq::<H>::empty(),
    {
        TaskRegistry { handles: Vec::new() }
    }

    /// Records the handle of a task that was just spawned.
    pub fn register(&mut self, h: H)
        ensures
            final(self)@ == old(self)@.push(h),
    {
        self.handles.push(h);
    }

    /// The number of recorded handles.
    pub fn len(&self) -> (r: usize)
        ensures
            r == self@.len(),
    {
        self.handles.len()
    }

    /// Whether no handle is recorded.
    pub fn is_empty(&self) -> (r: bool)
        ensures
            r == (self@.len() == 0),
    {
        self.handles.len() == 0
    }

    /// The recorded handles, without taking them out.
    pub fn handles(&self) -> (r: &Vec<H>)
        ensures
            r@ == self@,
    {
        &self.handles
    }

    /// Takes out every recorded handle, in spawn order, and leaves the
    /// registry empty.
    pub fn drain(&mut self) -> (r: Vec<H>)
        ensures
            r@ == old(self)@,
            final(self)@ == Seq::<H>::empty(),
    {
        let mut out: Vec<H> = Vec::new();
        core::mem::swap(&mut out, &mut self.handles);
        out
    }
}

} // verus!
