//! The awakener: a waker that is registered like any other source.

use crate::error::{other, Error};
use crate::interest::{check_opts, Interest, PollOpt, Refusal, Token};
use crate::request::{submit_view, Submit, SubmitView};
use crate::selector::{EventKind, Registration, Selector, SelectorView};
use vstd::prelude::*;

verus! {

/// A source that announces `Readable` whenever it is asked to, once it is
/// registered. Its value is its registration, if it has one.
pub struct Awakener {
    registration: Option<Registration>,
}

impl View for Awakener {
    type V = Option<Registration>;

    closed spec fn view(&self) -> Option<Registration> {
        self.registration
    }
}

/// The selector after the source with registration `r`, if any, announced
/// `kind`.
pub open spec fn announce(r: Option<Registration>, s: SelectorView, kind: EventKind) -> SelectorView {
    match r {
        Some(r) => r.announce(s, kind),
        None => s,
    }
}

/// Why a call to register an awakener with registration `r` and these
/// options is refused, if it is.
pub open spec fn register_refusal(r: Option<Registration>, opts: PollOpt) -> Option<Refusal> {
    if !opts.supported() {
        Some(Refusal::UnsupportedOptions)
    } else if r is Some {
        Some(Refusal::AlreadyRegistered)
    } else {
        None
    }
}

/// Why a call to reregister an awakener with registration `r` and these
/// options is refused, if it is.
pub open spec fn reregister_refusal(r: Option<Registration>, s: SelectorView, opts: PollOpt) -> Option<
    Refusal,
> {
    if !opts.supported() {
        Some(Refusal::UnsupportedOptions)
    } else if !(r matches Some(reg) && reg.belongs_to(s)) {
        Some(Refusal::NotRegistered)
    } else {
        None
    }
}

/// Why a call to deregister an awakener with registration `r` is refused,
/// if it is.
pub open spec fn deregister_refusal(r: Option<Registration>, s: SelectorView) -> Option<Refusal> {
    if !(r matches Some(reg) && reg.belongs_to(s)) {
        Some(Refusal::NotRegistered)
    } else {
        None
    }
}

impl Awakener {
    /// An awakener that is not registered.
    pub fn new() -> (r: Result<Awakener, Error>)
        ensures
            r matches Ok(a) && a@ is None,
    {
        Ok(Awakener { registration: None })
    }

    /// Asks for a wake-up: returns the request to submit, or none if the
    /// awakener is not registered. The request's completion is to be
    /// reported with `complete_wakeup`.
    pub fn wakeup(&self) -> (r: Result<Option<Submit>, Error>)
        ensures
            r matches Ok(submit) && submit_view(submit) == (if self@ is Some {
                Some(SubmitView::Wake)
            } else {
                None
            }),
    {
        match &self.registration {
            Some(_) => Ok(Some(Submit::Wake)),
            None => Ok(None),
        }
    }

    /// The request of a `wakeup` completed: announces `Readable` if the
    /// awakener is still registered. Returns whether the event was queued.
    pub fn complete_wakeup(&self, selector: &mut Selector) -> (queued: bool)
        requires
            old(selector).wf(),
        ensures
            final(selector).wf(),
            queued == (self@ matches Some(r) && r.announces(old(selector)@, EventKind::Readable)),
            final(selector)@ == announce(self@, old(selector)@, EventKind::Readable),
    {
        match &self.registration {
            Some(registration) => registration.push_event(selector, EventKind::Readable),
            None => false,
        }
    }

    /// Whether the awakener holds a registration.
    pub fn is_registered(&self) -> (registered: bool)
        ensures
            registered == (self@ is Some),
    {
        self.registration.is_some()
    }

    /// Nothing is left to clean up after a wake-up.
    pub fn cleanup(&self) {
    }

    /// Registers the awakener with `selector`. Only edge-triggered options
    /// are accepted, and an awakener registers once.
    pub fn register(
        &mut self,
        selector: &mut Selector,
        token: Token,
        interest: Interest,
        opts: PollOpt,
    ) -> (r: Result<(), Error>)
        requires
            old(selector).wf(),
            old(selector)@.can_register(),
        ensures
            final(selector).wf(),
            match register_refusal(old(self)@, opts) {
                Some(refusal) => {
                    &&& r matches Err(e) && e@ == refusal.awakener_error()
                    &&& final(self)@ == old(self)@
                    &&& final(selector)@ == old(selector)@
                },
                None => {
                    &&& r is Ok
                    &&& final(self)@ == Some(old(selector)@.next_registration(token, interest))
                    &&& final(selector)@ == old(selector)@.register(token, interest)
                },
            },
    {
        match check_opts(opts) {
            Err(e) => {
                return Err(e);
            },
            Ok(_) => {},
        }
        if self.registration.is_some() {
            return Err(other("awakener already registered"));
        }
        self.registration = Some(Registration::new(selector, token, interest));
        Ok(())
    }

    /// Changes the token and the interest that the awakener is registered
    /// with.
    pub fn reregister(
        &mut self,
        selector: &mut Selector,
        token: Token,
        interest: Interest,
        opts: PollOpt,
    ) -> (r: Result<(), Error>)
        requires
            old(selector).wf(),
        ensures
            final(selector).wf(),
            match reregister_refusal(old(self)@, old(selector)@, opts) {
                Some(refusal) => {
                    &&& r matches Err(e) && e@ == refusal.awakener_error()
                    &&& final(self)@ == old(self)@
                    &&& final(selector)@ == old(selector)@
                },
                None => {
                    &&& r is Ok
                    &&& old(self)@ matches Some(before)
                    &&& if before.changes(old(selector)@, token, interest) {
                        &&& final(self)@ == Some(before.with_details(token, interest))
                        &&& final(selector)@ == before.with_details(token, interest).recorded(
                            old(selector)@,
                        )
                    } else {
                        &&& final(self)@ == old(self)@
                        &&& final(selector)@ == old(selector)@
                    }
                },
            },
    {
        match check_opts(opts) {
            Err(e) => {
                return Err(e);
            },
            Ok(_) => {},
        }
        match &mut self.registration {
            Some(registration) => {
                if registration.selector != selector.id() {
                    return Err(other("awakener have not been registered previously"));
                }
                registration.change_details(selector, token, interest);
                Ok(())
            },
            None => Err(other("awakener have not been registered previously")),
        }
    }

    /// Gives the registration up.
    pub fn deregister(&mut self, selector: &mut Selector) -> (r: Result<(), Error>)
        requires
            old(selector).wf(),
        ensures
            final(selector).wf(),
            match deregister_refusal(old(self)@, old(selector)@) {
                Some(refusal) => {
                    &&& r matches Err(e) && e@ == refusal.awakener_error()
                    &&& final(self)@ == old(self)@
                    &&& final(selector)@ == old(selector)@
                },
                None => {
                    &&& r is Ok
                    &&& final(self)@ is None
                    &&& old(self)@ matches Some(before) && final(selector)@ == before.released(
                        old(selector)@,
                    )
                },
            },
    {
        let belongs = match &self.registration {
            Some(registration) => registration.selector == selector.id(),
            None => false,
        };
        if !belongs {
            return Err(other("awakener have not been registered previously"));
        }
        match self.registration.take() {
            Some(registration) => registration.release(selector),
            None => {},
        }
        Ok(())
    }
}

} // verus!
