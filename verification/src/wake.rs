//! Waking a parked consumer.
//!
//! A wakeup carries nothing. The handle counts, for the contracts alone, how often it
//! was signalled, so that they can say who is woken and who is not.
use std::sync::Arc;

use tokio::sync::Notify;
use vstd::prelude::*;

use crate::share::share;

verus! {

/// The wakeup primitive of `tokio::sync`. Nothing is claimed of what it holds.
#[verifier::external_type_specification]
#[verifier::external_body]
pub struct ExNotify(Notify);

/// `Notify::new`: a wakeup primitive that nobody has signalled. Nothing is claimed of it.
pub assume_specification[ Notify::new ]() -> Notify
;

/// The signalling side of one consumer's wakeups.
pub struct WakeHandle {
    notify: Arc<Notify>,
    signalled: Ghost<nat>,
}

impl WakeHandle {
    /// How often the consumer was signalled.
    pub closed spec fn signals(&self) -> nat {
        self.signalled@
    }

    /// Where the consumer waits.
    pub closed spec fn channel(&self) -> Arc<Notify> {
        self.notify
    }

    /// A handle that was never signalled.
    pub fn new() -> (handle: Self)
        ensures
            handle.signals() == 0,
    {
        WakeHandle { notify: Arc::new(Notify::new()), signalled: Ghost(0) }
    }

    /// The side on which the consumer waits: what is signalled here is heard there.
    pub fn waiter(&self) -> (waiter: Arc<Notify>)
        ensures
            waiter == self.channel(),
    {
        share(&self.notify)
    }

    /// Calls `Notify::notify_one` on the channel, which wakes one waiting task, or lets the
    /// next one that waits go on at once.
    ///
    /// The claim is that the call is counted: nothing else writes the count, so it says how
    /// often the channel was signalled. What the call does to other tasks lies with their
    /// scheduler and is not claimed.
    #[verifier::external_body]
    fn notify_one(&mut self)
        ensures
            final(self).signals() == old(self).signals() + 1,
            final(self).channel() == old(self).channel(),
    {
        self.notify.notify_one();
    }

    /// Signals the consumer once. A consumer that is not waiting finds the signal when
    /// it next waits, so none is lost between a look and a wait.
    pub fn signal(&mut self)
        ensures
            final(self).signals() == old(self).signals() + 1,
            final(self).channel() == old(self).channel(),
    {
        self.notify_one();
    }
}

} // verus!
