//! The listener: one accept request at a time, started again after each
//! result is taken.

use crate::error::{other, result_view, would_block, Error, ErrorView};
use crate::interest::{Interest, Refusal, Token};
use crate::request::{submit_view, Effects, EffectsView, Submit, SubmitView};
use crate::selector::{EventKind, Provider, Registration, Selector, SelectorView};
use crate::state::{State, StateView};
use crate::stream::{blank_read_buffer, StreamView, TcpStream};
use vstd::prelude::*;

verus! {

/// A listener as a value.
///
/// `C` is what cancels a submitted request, `S` an accepted native stream.
pub struct ListenerView<C, S> {
    /// The file descriptor of the native listener.
    pub fd: u64,
    /// `Ready` holds the connection that the last accept request brought.
    pub accept_state: StateView<(), Option<C>, S>,
    pub registration: Option<Registration>,
    pub provider: Option<Provider>,
}

/// A listener, a selector and what is left to the caller, after a step that
/// involves all three.
pub struct ListenerStep<C, S> {
    pub listener: ListenerView<C, S>,
    pub selector: SelectorView,
    pub effects: EffectsView,
}

/// A listener and the outcome of an accept on it.
pub struct AcceptStep<C, S> {
    pub listener: ListenerView<C, S>,
    /// The accepted connection, or why there is none.
    pub result: Result<S, ErrorView>,
    pub submit: Option<SubmitView>,
}

impl<C, S> ListenerView<C, S> {
    /// A listener on `fd` with nothing submitted and no registration.
    pub open spec fn fresh(fd: u64) -> ListenerView<C, S> {
        ListenerView { fd, accept_state: StateView::New(()), registration: None, provider: None }
    }

    /// Whether announcing `kind` queues a message with `s`.
    pub open spec fn announces(self, s: SelectorView, kind: EventKind) -> bool {
        self.registration matches Some(r) && r.announces(s, kind)
    }

    /// The selector after the listener announced `kind`: through its
    /// registration if it has one, else not at all.
    pub open spec fn announce(self, s: SelectorView, kind: EventKind) -> SelectorView {
        match self.registration {
            Some(r) => r.announce(s, kind),
            None => s,
        }
    }

    /// Whether an accept request is due: the listener has a provider and no
    /// accept is under way or waiting to be taken.
    pub open spec fn accept_due(self) -> bool {
        self.provider is Some && self.accept_state is New
    }

    /// Submits an accept request where one is due.
    pub open spec fn schedule_accept(self) -> (ListenerView<C, S>, Option<SubmitView>) {
        if self.accept_due() {
            (
                ListenerView { accept_state: StateView::Pending(None), ..self },
                Some(SubmitView::Accept { fd: self.fd }),
            )
        } else {
            (self, None)
        }
    }

    /// The listener after the caller reported what cancels the accept
    /// request it submitted, and the handle if the listener did not keep it.
    pub open spec fn accept_submitted(self, handle: C) -> (ListenerView<C, S>, Option<C>) {
        if self.accept_state == StateView::<(), Option<C>, S>::Pending(None) {
            (ListenerView { accept_state: StateView::Pending(Some(handle)), ..self }, None)
        } else {
            (self, Some(handle))
        }
    }

    /// The listener with an idle accept machine.
    pub open spec fn idle(self) -> ListenerView<C, S> {
        ListenerView { accept_state: StateView::New(()), ..self }
    }

    /// An accept. An idle machine answers `WouldBlock` and starts an accept
    /// request, a pending one answers `WouldBlock`. A waiting connection is
    /// handed out and a latched failure returned, once, and the next accept
    /// request starts.
    pub open spec fn accept(self) -> AcceptStep<C, S> {
        match self.accept_state {
            StateView::New(_) => AcceptStep {
                listener: self.schedule_accept().0,
                result: Err(ErrorView::would_block()),
                submit: self.schedule_accept().1,
            },
            StateView::Pending(_) => AcceptStep {
                listener: self,
                result: Err(ErrorView::would_block()),
                submit: None,
            },
            StateView::Ready(stream) => AcceptStep {
                listener: self.idle().schedule_accept().0,
                result: Ok(stream),
                submit: self.idle().schedule_accept().1,
            },
            StateView::Error(e) => AcceptStep {
                listener: self.idle().schedule_accept().0,
                result: Err(e),
                submit: self.idle().schedule_accept().1,
            },
        }
    }

    /// The edge that a completed accept announces: `Readable` for a
    /// connection, `ReadError` for a failure.
    pub open spec fn accept_edge(res: Result<S, ErrorView>) -> EventKind {
        match res {
            Ok(_) => EventKind::Readable,
            Err(_) => EventKind::ReadError,
        }
    }

    /// The accept request completed with `res`.
    pub open spec fn accept_completed(self, s: SelectorView, res: Result<S, ErrorView>) -> ListenerStep<
        C,
        S,
    > {
        ListenerStep {
            listener: ListenerView { accept_state: StateView::of_result(res), ..self },
            selector: self.announce(s, Self::accept_edge(res)),
            effects: EffectsView { wake: self.announces(s, Self::accept_edge(res)), submit: None },
        }
    }

    /// Why a call to register is refused, if it is.
    pub open spec fn register_refusal(self) -> Option<Refusal> {
        if self.registration is Some {
            Some(Refusal::AlreadyRegistered)
        } else {
            None
        }
    }

    /// An unregistered listener registers with `s`: it gets a registration
    /// and a provider, and its first accept request starts.
    pub open spec fn registered(self, s: SelectorView, token: Token, interest: Interest) -> ListenerStep<
        C,
        S,
    > {
        let attached = ListenerView {
            registration: Some(s.next_registration(token, interest)),
            provider: Some(Provider { selector: s.id }),
            ..self
        };
        ListenerStep {
            listener: attached.schedule_accept().0,
            selector: s.register(token, interest),
            effects: EffectsView { wake: false, submit: attached.schedule_accept().1 },
        }
    }

    /// Whether the listener holds a registration of the selector `s`.
    pub open spec fn registered_with(self, s: SelectorView) -> bool {
        self.registration matches Some(r) && r.belongs_to(s)
    }

    /// Why a call to reregister or deregister is refused, if it is.
    pub open spec fn change_refusal(self, s: SelectorView) -> Option<Refusal> {
        if !self.registered_with(s) {
            Some(Refusal::NotRegistered)
        } else {
            None
        }
    }

    /// The edge that tells where the accept machine stands, if a connection
    /// or a failure waits.
    pub open spec fn accept_state_edge(self) -> Option<EventKind> {
        match self.accept_state {
            StateView::Ready(_) => Some(EventKind::Readable),
            StateView::Error(_) => Some(EventKind::ReadError),
            _ => None,
        }
    }

    /// A listener registered with `s` changes its token and interest. If
    /// that changes anything, the selector records it and the listener
    /// announces a connection or a failure that waits; if not, nothing
    /// happens.
    pub open spec fn reregistered(self, s: SelectorView, token: Token, interest: Interest) -> ListenerStep<
        C,
        S,
    > {
        let r = self.registration->0;
        if r.changes(s, token, interest) {
            let changed = ListenerView {
                registration: Some(r.with_details(token, interest)),
                ..self
            };
            let recorded = r.with_details(token, interest).recorded(s);
            match self.accept_state_edge() {
                Some(kind) => ListenerStep {
                    listener: changed,
                    selector: changed.announce(recorded, kind),
                    effects: EffectsView { wake: changed.announces(recorded, kind), submit: None },
                },
                None => ListenerStep {
                    listener: changed,
                    selector: recorded,
                    effects: EffectsView::none(),
                },
            }
        } else {
            ListenerStep { listener: self, selector: s, effects: EffectsView::none() }
        }
    }

    /// The listener without its registration. Its accept request goes on,
    /// and so does its completion, but it announces nothing any more.
    pub open spec fn detached(self) -> ListenerView<C, S> {
        ListenerView { registration: None, ..self }
    }

    /// The selector after the listener gave its registration up, if it had
    /// one.
    pub open spec fn released(self, s: SelectorView) -> SelectorView {
        match self.registration {
            Some(r) => r.released(s),
            None => s,
        }
    }

    /// What cancels the pending accept request, if the listener holds it.
    pub open spec fn accept_handle(self) -> Option<C> {
        match self.accept_state {
            StateView::Pending(h) => h,
            _ => None,
        }
    }

    /// The listener after its user let go of it: without registration, and
    /// without the handle of its pending accept request, which is to be
    /// cancelled.
    pub open spec fn closed(self) -> ListenerView<C, S> {
        ListenerView {
            registration: None,
            accept_state: match self.accept_state {
                StateView::Pending(_) => StateView::Pending(None),
                other => other,
            },
            ..self
        }
    }
}

/// A listener whose connections arrive through accept requests.
///
/// `C` is what cancels a submitted request, `S` an accepted native stream.
pub struct TcpListener<C, S> {
    fd: u64,
    accept_state: State<(), Option<C>, S>,
    registration: Option<Registration>,
    provider: Option<Provider>,
}

impl<C, S> View for TcpListener<C, S> {
    type V = ListenerView<C, S>;

    closed spec fn view(&self) -> ListenerView<C, S> {
        ListenerView {
            fd: self.fd,
            accept_state: self.accept_state.plain(),
            registration: self.registration,
            provider: self.provider,
        }
    }
}

/// The outcome of an accept as a value: the connection as it arrived, or the
/// failure.
pub open spec fn accepted_view<C, S>(res: Result<TcpStream<C, S>, Error>) -> Result<
    StreamView<C, S>,
    ErrorView,
> {
    match res {
        Ok(stream) => Ok(stream@),
        Err(e) => Err(e@),
    }
}

/// The stream that an accepted connection becomes: connected, with nothing
/// buffered, nothing submitted and no registration.
pub open spec fn accepted_stream<C, S>(res: Result<S, ErrorView>) -> Result<
    StreamView<C, S>,
    ErrorView,
> {
    match res {
        Ok(native) => Ok(StreamView::fresh(StateView::Ready(native), blank_read_buffer())),
        Err(e) => Err(e),
    }
}

impl<C, S> TcpListener<C, S> {
    /// A listener over the native listener with file descriptor `fd`.
    pub fn new(fd: u64) -> (listener: Self)
        ensures
            listener@ == ListenerView::<C, S>::fresh(fd),
    {
        TcpListener { fd, accept_state: State::New(()), registration: None, provider: None }
    }

    /// The file descriptor of the native listener.
    pub fn fd(&self) -> (fd: u64)
        ensures
            fd == self@.fd,
    {
        self.fd
    }

    /// Whether an accept request is under way.
    pub fn accept_pending(&self) -> (pending: bool)
        ensures
            pending == (self@.accept_state is Pending),
    {
        self.accept_state.is_pending()
    }

    /// Whether the listener holds a registration.
    pub fn is_registered(&self) -> (registered: bool)
        ensures
            registered == (self@.registration is Some),
    {
        self.registration.is_some()
    }

    /// The token the listener is registered with, if it is registered.
    pub fn token(&self) -> (token: Option<Token>)
        ensures
            token == (match self@.registration {
                Some(r) => Some(r.token),
                None => None,
            }),
    {
        match &self.registration {
            Some(registration) => Some(registration.token()),
            None => None,
        }
    }

    fn push_event(&self, selector: &mut Selector, kind: EventKind) -> (queued: bool)
        requires
            old(selector).wf(),
        ensures
            final(selector).wf(),
            queued == self@.announces(old(selector)@, kind),
            final(selector)@ == self@.announce(old(selector)@, kind),
    {
        match &self.registration {
            Some(registration) => registration.push_event(selector, kind),
            None => false,
        }
    }

    /// Starts an accept request if the listener is registered and none is
    /// under way or waiting to be taken: returns the request to submit.
    pub fn schedule_accept(&mut self) -> (submit: Option<Submit>)
        ensures
            final(self)@ == old(self)@.schedule_accept().0,
            submit_view(submit) == old(self)@.schedule_accept().1,
    {
        if self.provider.is_none() || !self.accept_state.is_new() {
            return None;
        }
        self.accept_state = State::Pending(None);
        Some(Submit::Accept { fd: self.fd })
    }

    /// Tells the listener what cancels the accept request that the caller
    /// just submitted for it. The handle comes back if no such request is
    /// waiting for one.
    pub fn accept_submitted(&mut self, handle: C) -> (back: Option<C>)
        ensures
            final(self)@ == old(self)@.accept_submitted(handle).0,
            back == old(self)@.accept_submitted(handle).1,
    {
        match &self.accept_state {
            State::Pending(None) => {
                self.accept_state = State::Pending(Some(handle));
                None
            },
            _ => Some(handle),
        }
    }

    /// Takes the connection that waits, as a stream. Never waits itself:
    /// where no connection is at hand it answers `WouldBlock`. The second
    /// part of the result is the accept request to submit next, if one is
    /// due.
    pub fn accept(&mut self) -> (r: (Result<TcpStream<C, S>, Error>, Option<Submit>))
        ensures
            final(self)@ == old(self)@.accept().listener,
            accepted_view(r.0) == accepted_stream::<C, S>(old(self)@.accept().result),
            r.0 matches Ok(stream) ==> stream.wf(),
            submit_view(r.1) == old(self)@.accept().submit,
    {
        let mut state: State<(), Option<C>, S> = State::New(());
        std::mem::swap(&mut self.accept_state, &mut state);
        let ret = match state {
            State::New(_) => Err(would_block()),
            State::Pending(handle) => {
                self.accept_state = State::Pending(handle);
                return (Err(would_block()), None);
            },
            State::Ready(stream) => Ok(TcpStream::from_stream(stream)),
            State::Error(e) => Err(e),
        };
        let submit = self.schedule_accept();
        (ret, submit)
    }

    /// The accept request completed with `res`: the connection or the
    /// failure waits to be taken, and `Readable` or `ReadError` is
    /// announced.
    pub fn complete_accept(&mut self, selector: &mut Selector, res: Result<S, Error>) -> (effects:
        Effects)
        requires
            old(selector).wf(),
            old(self)@.accept_state is Pending,
        ensures
            final(selector).wf(),
            final(self)@ == old(self)@.accept_completed(old(selector)@, result_view(res)).listener,
            final(selector)@ == old(self)@.accept_completed(
                old(selector)@,
                result_view(res),
            ).selector,
            effects@ == old(self)@.accept_completed(old(selector)@, result_view(res)).effects,
    {
        self.accept_state = State::from_result(res);
        let kind = if self.accept_state.is_error() {
            EventKind::ReadError
        } else {
            EventKind::Readable
        };
        let wake = self.push_event(selector, kind);
        Effects { wake, submit: None }
    }

    /// Registers the listener with `selector` under `token`, for edges that
    /// `interest` covers, and starts its first accept request. A listener
    /// registers once.
    pub fn register(&mut self, selector: &mut Selector, token: Token, interest: Interest) -> (r:
        Result<Effects, Error>)
        requires
            old(selector).wf(),
            old(selector)@.can_register(),
        ensures
            final(selector).wf(),
            match old(self)@.register_refusal() {
                Some(refusal) => {
                    &&& r matches Err(e) && e@ == refusal.listener_error()
                    &&& final(self)@ == old(self)@
                    &&& final(selector)@ == old(selector)@
                },
                None => {
                    &&& r matches Ok(effects) && effects@ == old(self)@.registered(
                        old(selector)@,
                        token,
                        interest,
                    ).effects
                    &&& final(self)@ == old(self)@.registered(
                        old(selector)@,
                        token,
                        interest,
                    ).listener
                    &&& final(selector)@ == old(self)@.registered(
                        old(selector)@,
                        token,
                        interest,
                    ).selector
                },
            },
    {
        if self.registration.is_some() {
            return Err(other("I/O source already registered with a `Registry`"));
        }
        self.registration = Some(Registration::new(selector, token, interest));
        self.provider = Some(Provider::new(selector));
        let submit = self.schedule_accept();
        Ok(Effects { wake: false, submit })
    }

    /// Changes the token and the interest that the listener is registered
    /// with. If that changes anything and a connection or a failure waits,
    /// it is announced again, so that it is not lost on the new interest.
    pub fn reregister(&mut self, selector: &mut Selector, token: Token, interest: Interest) -> (r:
        Result<Effects, Error>)
        requires
            old(selector).wf(),
        ensures
            final(selector).wf(),
            match old(self)@.change_refusal(old(selector)@) {
                Some(refusal) => {
                    &&& r matches Err(e) && e@ == refusal.listener_error()
                    &&& final(self)@ == old(self)@
                    &&& final(selector)@ == old(selector)@
                },
                None => {
                    &&& r matches Ok(effects) && effects@ == old(self)@.reregistered(
                        old(selector)@,
                        token,
                        interest,
                    ).effects
                    &&& final(self)@ == old(self)@.reregistered(
                        old(selector)@,
                        token,
                        interest,
                    ).listener
                    &&& final(selector)@ == old(self)@.reregistered(
                        old(selector)@,
                        token,
                        interest,
                    ).selector
                },
            },
    {
        let changed = match &mut self.registration {
            Some(registration) => {
                if registration.selector != selector.id() {
                    return Err(other("I/O source not registered with `Registry`"));
                }
                registration.change_details(selector, token, interest)
            },
            None => {
                return Err(other("I/O source not registered with `Registry`"));
            },
        };
        let mut wake = false;
        if changed && self.accept_state.is_ready() {
            wake = self.push_event(selector, EventKind::Readable);
        }
        if changed && self.accept_state.is_error() {
            wake = self.push_event(selector, EventKind::ReadError);
        }
        Ok(Effects { wake, submit: None })
    }

    /// Gives the registration up. An accept request that is under way goes
    /// on, and its completion still changes the listener, but nothing is
    /// announced any more.
    pub fn deregister(&mut self, selector: &mut Selector) -> (r: Result<(), Error>)
        requires
            old(selector).wf(),
        ensures
            final(selector).wf(),
            match old(self)@.change_refusal(old(selector)@) {
                Some(refusal) => {
                    &&& r matches Err(e) && e@ == refusal.listener_error()
                    &&& final(self)@ == old(self)@
                    &&& final(selector)@ == old(selector)@
                },
                None => {
                    &&& r is Ok
                    &&& final(self)@ == old(self)@.detached()
                    &&& final(selector)@ == old(self)@.released(old(selector)@)
                },
            },
    {
        let belongs = match &self.registration {
            Some(registration) => registration.selector == selector.id(),
            None => false,
        };
        if !belongs {
            return Err(other("I/O source not registered with `Registry`"));
        }
        match self.registration.take() {
            Some(registration) => registration.release(selector),
            None => {},
        }
        Ok(())
    }

    /// Lets go of the listener, as its user does when dropping it: the
    /// registration is given up, and the handle of a pending accept request
    /// is handed out to be cancelled.
    pub fn close(&mut self, selector: &mut Selector) -> (cancel: Option<C>)
        requires
            old(selector).wf(),
        ensures
            final(selector).wf(),
            final(self)@ == old(self)@.closed(),
            final(selector)@ == old(self)@.released(old(selector)@),
            cancel == old(self)@.accept_handle(),
    {
        match self.registration.take() {
            Some(registration) => registration.release(selector),
            None => {},
        }
        match self.accept_state.as_pending_mut() {
            Some(handle) => handle.take(),
            None => None,
        }
    }
}

} // verus!
