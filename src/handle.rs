use vstd::prelude::*;

verus! {

/// The exclusively owned reference to the running worker process.
///
/// The child is present from a successful spawn until it is taken for
/// termination, and absent before the spawn and after the take.
pub struct SidecarHandle<C> {
    child: Option<C>,
}

impl<C> View for SidecarHandle<C> {
    type V = Option<C>;

    closed spec fn view(&self) -> Option<C> {
        self.child
    }
}

impl<C> SidecarHandle<C> {
    /// A handle that holds no worker yet.
    pub fn new() -> (h: Self)
        ensures
            h@ is None,
    {
        SidecarHandle { child: None }
    }

    /// A handle that holds a freshly spawned worker.
    pub fn holding(child: C) -> (h: Self)
        ensures
            h@ == Some(child),
    {
        SidecarHandle { child: Some(child) }
    }

    /// Whether a worker is held.
    pub fn is_present(&self) -> (r: bool)
        ensures
            r == self@ is Some,
    {
        self.child.is_some()
    }

    /// Takes the worker out of the handle, leaving it empty.
    pub fn take(&mut self) -> (r: Option<C>)
        ensures
            r == old(self)@,
            final(self)@ is None,
    {
        self.child.take()
    }
}

} // verus!
