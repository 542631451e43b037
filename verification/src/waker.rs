//! The waker: a registration whose only purpose is to make a poll return.

use crate::error::Error;
use crate::interest::{Interest, Token, READABLE};
use crate::request::{Submit, SubmitView};
use crate::selector::{EventKind, Registration, Selector};
use vstd::prelude::*;

verus! {

/// A source that announces `Readable` whenever it is asked to.
///
/// Waking goes through the provider: `wake` hands out a request that does
/// nothing, and the event is announced when that request completes.
pub struct Waker {
    registration: Registration,
}

impl View for Waker {
    type V = Registration;

    closed spec fn view(&self) -> Registration {
        self.registration
    }
}

/// The interest of a waker: readable edges.
pub open spec fn waker_interest() -> Interest {
    Interest { bits: READABLE }
}

impl Waker {
    /// A waker registered with `selector` under `token`.
    pub fn new(selector: &mut Selector, token: Token) -> (r: Result<Waker, Error>)
        requires
            old(selector).wf(),
            old(selector)@.can_register(),
        ensures
            final(selector).wf(),
            r matches Ok(waker) && waker@ == old(selector)@.next_registration(
                token,
                waker_interest(),
            ),
            final(selector)@ == old(selector)@.register(token, waker_interest()),
    {
        Ok(Waker { registration: Registration::new(selector, token, Interest::readable()) })
    }

    /// The token the waker was made with.
    pub fn token(&self) -> (t: Token)
        ensures
            t == self@.token,
    {
        self.registration.token()
    }

    /// Asks for a wake-up: returns the request to submit. Its completion is
    /// to be reported with `complete_wake`.
    pub fn wake(&self) -> (r: Result<Submit, Error>)
        ensures
            r matches Ok(submit) && submit@ == SubmitView::Wake,
    {
        Ok(Submit::Wake)
    }

    /// The request of a `wake` completed: announces `Readable`. Returns
    /// whether the event was queued, which is when the thread parked in a
    /// poll has to be woken.
    pub fn complete_wake(&self, selector: &mut Selector) -> (queued: bool)
        requires
            old(selector).wf(),
        ensures
            final(selector).wf(),
            queued == self@.announces(old(selector)@, EventKind::Readable),
            final(selector)@ == self@.announce(old(selector)@, EventKind::Readable),
    {
        self.registration.push_event(selector, EventKind::Readable)
    }

    /// Lets go of the waker: its registration is given up.
    pub fn close(self, selector: &mut Selector)
        requires
            old(selector).wf(),
        ensures
            final(selector).wf(),
            final(selector)@ == self@.released(old(selector)@),
    {
        self.registration.release(selector)
    }
}

} // verus!
