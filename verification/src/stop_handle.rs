use vstd::prelude::*;

verus! {

/// Cooperative shutdown signal for a mail service.
///
/// The flag starts unset, can be set (idempotently) to request shutdown, and
/// is read freely. The driver loop owns the handle it consults; a clone
/// carries the value it was made from.
#[derive(Clone, Copy, Debug)]
pub struct StopServiceHandle {
    pub stopped: bool,
}

impl StopServiceHandle {
    /// True once a stop was requested on this handle.
    pub open spec fn is_stopped(&self) -> bool {
        self.stopped
    }

    /// A fresh handle with no stop requested yet.
    pub fn new() -> (r: Self)
        ensures
            !r.is_stopped(),
    {
        StopServiceHandle { stopped: false }
    }

    /// Whether shutdown has been requested on this handle.
    pub fn should_stop(&self) -> (r: bool)
        ensures
            r == self.is_stopped(),
    {
        self.stopped
    }

    /// Request shutdown. Setting the flag twice has the same effect as once.
    pub fn stop(&mut self)
        ensures
            final(self).is_stopped(),
    {
        self.stopped = true;
    }
}

} // verus!
