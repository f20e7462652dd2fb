use vstd::prelude::*;

verus! {

/// A single-slot notification channel: it holds at most one pending value.
/// The interrupt handler stores into it and foreground code consumes from
/// it; waking a suspended task is left to the scheduler that polls.
#[derive(Clone, Copy, PartialEq, Eq, Structural, Debug)]
pub struct Signal<T> {
    pub value: Option<T>,
}

impl<T: Copy> Signal<T> {
    /// An empty channel.
    pub fn new() -> (r: Signal<T>)
        ensures
            r.value is None,
    {
        Signal { value: None }
    }

    /// Drops any pending value.
    pub fn reset(&mut self)
        ensures
            final(self).value is None,
    {
        self.value = None;
    }

    /// Stores `v`, replacing a value that was not consumed yet.
    pub fn signal(&mut self, v: T)
        ensures
            final(self).value == Some(v),
    {
        self.value = Some(v);
    }

    /// Whether a value is pending, without consuming it.
    pub fn signaled(&self) -> (r: bool)
        ensures
            r == self.value is Some,
    {
        self.value.is_some()
    }

    /// Consumes the pending value, if there is one.
    pub fn poll_wait(&mut self) -> (r: Option<T>)
        ensures
            r == old(self).value,
            final(self).value is None,
    {
        let r = self.value;
        self.value = None;
        r
    }
}

} // verus!
