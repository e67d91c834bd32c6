use vstd::prelude::*;

verus! {

/// Diagnostic state handed to the operations by their caller: a count of
/// the operations performed so far.
pub struct AppState {
    operation_count: u32,
}

impl AppState {
    /// The state before any operation.
    pub fn new() -> (r: AppState)
        ensures
            r.count() == 0,
    {
        AppState { operation_count: 0 }
    }

    pub closed spec fn count(&self) -> u32 {
        self.operation_count
    }

    /// How many operations were recorded.
    pub fn operation_count(&self) -> (r: u32)
        ensures
            r == self.count(),
    {
        self.operation_count
    }

    /// Records one more operation and returns the new count, which wraps
    /// around after `u32::MAX`.
    pub fn record_operation(&mut self) -> (r: u32)
        ensures
            r == final(self).count(),
            final(self).count() == (if old(self).count() == u32::MAX {
                0
            } else {
                (old(self).count() + 1) as u32
            }),
    {
        self.operation_count = self.operation_count.wrapping_add(1);
        self.operation_count
    }
}

impl Default for AppState {
    fn default() -> (r: AppState)
        ensures
            r.count() == 0,
    {
        AppState::new()
    }
}

} // verus!
