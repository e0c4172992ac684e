use vstd::prelude::*;

use crate::handle::{DequeueOutcome, MailQueue};
use crate::stop_handle::StopServiceHandle;

verus! {

/// The consuming end of the ingress queue, tied to the shutdown flag: each
/// poll first closes the queue if a stop has been requested, so producers are
/// refused from then on while the service still drains what was queued.
pub struct AutoClose<T> {
    pub inner: MailQueue<T>,
    pub stop_handle: StopServiceHandle,
}

impl<T> AutoClose<T> {
    /// Ties a queue's consuming end to a shutdown flag.
    pub fn new(inner: MailQueue<T>, stop_handle: StopServiceHandle) -> (r: Self)
        ensures
            r.inner == inner,
            r.stop_handle == stop_handle,
    {
        AutoClose { inner, stop_handle }
    }

    /// Consumes the oldest element, closing the queue first if a stop was
    /// requested.
    pub fn poll(&mut self) -> (r: DequeueOutcome<T>)
        requires
            old(self).inner.wf(),
        ensures
            final(self).inner.wf(),
            final(self).stop_handle == old(self).stop_handle,
            final(self).inner.cap == old(self).inner.cap,
            final(self).inner.closed == (old(self).inner.closed
                || old(self).stop_handle.is_stopped()),
            old(self).inner.items@.len() > 0 ==> match r {
                DequeueOutcome::Item(item) => item == old(self).inner.items@[0]
                    && final(self).inner.items@ == old(self).inner.items@.drop_first(),
                _ => false,
            },
            old(self).inner.items@.len() == 0 ==> final(self).inner.items@
                == old(self).inner.items@ && r == (if old(self).inner.closed
                || old(self).stop_handle.is_stopped() {
                DequeueOutcome::<T>::Drained
            } else {
                DequeueOutcome::<T>::Empty
            }),
    {
        if self.stop_handle.should_stop() {
            self.inner.close();
        }
        self.inner.dequeue()
    }
}

} // verus!
