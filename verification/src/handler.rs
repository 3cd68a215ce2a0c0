//! The two handler interfaces and the adapter between them.
//!
//! [`HandlerExt`] is what an event loop calls. [`Handler`] is the simpler
//! interface for callbacks that cannot fail. The adapter at the end of this
//! file gives every `Handler` the operations of `HandlerExt`.
//!
//! The operations of `Handler` take the handler as their first argument
//! rather than as `self`. On a type that has both interfaces, `h.ready(..)`
//! therefore always means the operation of `HandlerExt`, and
//! `Handler::ready(&mut h, ..)` the one of `Handler`.

use crate::event_loop::EventLoop;
use crate::event_set::EventSet;
use crate::token::Token;
use vstd::prelude::*;

verus! {

/// `std::io::Error`, the error of every adapted handler. The type is opaque
/// here: nothing is claimed of what such a value holds.
#[verifier::external_type_specification]
#[verifier::external_body]
pub struct ExIoError(std::io::Error);

/// The callbacks that an event loop invokes, each of which may fail.
///
/// The loop borrows the handler exclusively for the length of one callback,
/// so no two callbacks ever run against the same handler at once. A callback
/// that returns `Err` tells the driver of the loop that this dispatch failed.
/// What the driver does then is its own choice.
///
/// Every operation has a default that changes nothing and succeeds, so an
/// implementation writes only the callbacks it cares about. A contract of
/// this trait cannot say what an overriding callback does: an implementation
/// states that in its own `ensures`.
pub trait HandlerExt: Sized {
    /// What identifies an expired timer.
    type Timeout;

    /// What is sent to the handler through the loop's channel. The sender may
    /// run on another thread, so the message must be `Send`.
    type Message: Send;

    /// How a callback reports failure. An I/O error can always be turned into
    /// one.
    type Error: From<std::io::Error>;

    /// Called when the source registered under `token` is ready. `events`
    /// holds every operation that the source became ready for: the loop makes
    /// one call per source and iteration, not one per kind of readiness.
    fn ready(
        &mut self,
        event_loop: &mut EventLoop<Self>,
        token: Token,
        events: EventSet,
    ) -> (res: Result<(), Self::Error>)
        default_ensures
            res is Ok,
            *final(self) == *old(self),
            *final(event_loop) == *old(event_loop),
    {
        Ok(())
    }

    /// Called when a message sent through the loop's channel arrives.
    fn notify(
        &mut self,
        event_loop: &mut EventLoop<Self>,
        msg: Self::Message,
    ) -> (res: Result<(), Self::Error>)
        default_ensures
            res is Ok,
            *final(self) == *old(self),
            *final(event_loop) == *old(event_loop),
    {
        Ok(())
    }

    /// Called when a timer that was set earlier has expired.
    fn timeout(
        &mut self,
        event_loop: &mut EventLoop<Self>,
        timeout: Self::Timeout,
    ) -> (res: Result<(), Self::Error>)
        default_ensures
            res is Ok,
            *final(self) == *old(self),
            *final(event_loop) == *old(event_loop),
    {
        Ok(())
    }

    /// Called when a signal, rather than an event, has ended the loop's wait.
    fn interrupted(&mut self, event_loop: &mut EventLoop<Self>) -> (res: Result<(), Self::Error>)
        default_ensures
            res is Ok,
            *final(self) == *old(self),
            *final(event_loop) == *old(event_loop),
    {
        Ok(())
    }
}

/// The same four callbacks for a handler that cannot fail.
///
/// The operations return nothing. A handler that meets a failure deals with
/// it before it returns. Every operation has a default that changes nothing.
pub trait Handler: Sized {
    /// What identifies an expired timer.
    type Timeout;

    /// What is sent to the handler through the loop's channel. The sender may
    /// run on another thread, so the message must be `Send`.
    type Message: Send;

    /// Called when the source registered under `token` is ready. `events`
    /// holds every operation that the source became ready for.
    fn ready(handler: &mut Self, event_loop: &mut EventLoop<Self>, token: Token, events: EventSet)
        default_ensures
            *final(handler) == *old(handler),
            *final(event_loop) == *old(event_loop),
    {
    }

    /// Called when a message sent through the loop's channel arrives.
    fn notify(handler: &mut Self, event_loop: &mut EventLoop<Self>, msg: Self::Message)
        default_ensures
            *final(handler) == *old(handler),
            *final(event_loop) == *old(event_loop),
    {
    }

    /// Called when a timer that was set earlier has expired.
    fn timeout(handler: &mut Self, event_loop: &mut EventLoop<Self>, timeout: Self::Timeout)
        default_ensures
            *final(handler) == *old(handler),
            *final(event_loop) == *old(event_loop),
    {
    }

    /// Called when a signal, rather than an event, has ended the loop's wait.
    fn interrupted(handler: &mut Self, event_loop: &mut EventLoop<Self>)
        default_ensures
            *final(handler) == *old(handler),
            *final(event_loop) == *old(event_loop),
    {
    }
}

/// The adapter: every [`Handler`] is a [`HandlerExt`] whose error is
/// `std::io::Error` and whose operations never fail.
///
/// Each operation makes one call of the operation of the same name in
/// `Handler`, with the arguments it was given, and returns `Ok(())`. The
/// contracts say so through `call_ensures`: the states in which the handler
/// and the loop are left are states that this one call of the `Handler`
/// operation, started where the adapted operation started, can end in. For a
/// handler that states what its callbacks do, that is what they state; for a
/// callback left at its default, nothing has changed.
impl<T, M, S> HandlerExt for S where M: Send, S: Handler<Timeout = T, Message = M> {
    type Timeout = T;

    type Message = M;

    type Error = std::io::Error;

    fn ready(
        &mut self,
        event_loop: &mut EventLoop<Self>,
        token: Token,
        events: EventSet,
    ) -> (res: Result<(), std::io::Error>)
        ensures
            res is Ok,
            exists|h: &mut S, l: &mut EventLoop<S>|
                {
                    &&& *h == *old(self) && *final(h) == *final(self)
                    &&& *l == *old(event_loop) && *final(l) == *final(event_loop)
                    &&& #[trigger] call_ensures(<S as Handler>::ready, (h, l, token, events), ())
                },
    {
        <S as Handler>::ready(self, event_loop, token, events);
        Ok(())
    }

    fn notify(
        &mut self,
        event_loop: &mut EventLoop<Self>,
        msg: M,
    ) -> (res: Result<(), std::io::Error>)
        ensures
            res is Ok,
            exists|h: &mut S, l: &mut EventLoop<S>|
                {
                    &&& *h == *old(self) && *final(h) == *final(self)
                    &&& *l == *old(event_loop) && *final(l) == *final(event_loop)
                    &&& #[trigger] call_ensures(<S as Handler>::notify, (h, l, msg), ())
                },
    {
        <S as Handler>::notify(self, event_loop, msg);
        Ok(())
    }

    fn timeout(
        &mut self,
        event_loop: &mut EventLoop<Self>,
        timeout: T,
    ) -> (res: Result<(), std::io::Error>)
        ensures
            res is Ok,
            exists|h: &mut S, l: &mut EventLoop<S>|
                {
                    &&& *h == *old(self) && *final(h) == *final(self)
                    &&& *l == *old(event_loop) && *final(l) == *final(event_loop)
                    &&& #[trigger] call_ensures(<S as Handler>::timeout, (h, l, timeout), ())
                },
    {
        <S as Handler>::timeout(self, event_loop, timeout);
        Ok(())
    }

    fn interrupted(&mut self, event_loop: &mut EventLoop<Self>) -> (res: Result<(), std::io::Error>)
        ensures
            res is Ok,
            exists|h: &mut S, l: &mut EventLoop<S>|
                {
                    &&& *h == *old(self) && *final(h) == *final(self)
                    &&& *l == *old(event_loop) && *final(l) == *final(event_loop)
                    &&& #[trigger] call_ensures(<S as Handler>::interrupted, (h, l), ())
                },
    {
        <S as Handler>::interrupted(self, event_loop);
        Ok(())
    }
}

} // verus!
