//! The event loop as a handler sees it.

use core::marker::PhantomData;
use vstd::prelude::*;

verus! {

/// The reactor that drives a handler of type `H`.
///
/// Every callback receives the loop by exclusive reference, so that the
/// handler can act on it while it is being called. Of the loop's state, this
/// type holds what a callback can change: whether the loop goes on running.
/// Polling, timers and the message channel belong to the code that runs the
/// loop.
pub struct EventLoop<H> {
    run: bool,
    handler: PhantomData<H>,
}

impl<H> EventLoop<H> {
    /// Whether the loop will go on dispatching events.
    pub closed spec fn running(self) -> bool {
        self.run
    }

    /// A loop that is running.
    pub fn new() -> (event_loop: Self)
        ensures
            event_loop.running(),
    {
        EventLoop { run: true, handler: PhantomData }
    }

    /// Whether the loop will go on dispatching events.
    pub fn is_running(&self) -> (running: bool)
        ensures
            running == self.running(),
    {
        self.run
    }

    /// Asks the loop to stop. A loop that was shut down stays so.
    pub fn shutdown(&mut self)
        ensures
            !final(self).running(),
    {
        self.run = false;
    }
}

/// A loop is no more than its running flag: two loops that agree on it are
/// the same loop.
pub proof fn lemma_running_is_all<H>(a: EventLoop<H>, b: EventLoop<H>)
    requires
        a.running() == b.running(),
    ensures
        a == b,
{
}

} // verus!
