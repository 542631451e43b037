//! The four-state machine behind every request that a source makes.

use crate::error::{Error, ErrorView};
use vstd::prelude::*;

verus! {

/// Where one kind of request of a source stands.
///
/// `New`: idle, nothing submitted. `Pending`: submitted, the completion is
/// outstanding; the payload holds what cancels it. `Ready`: completed with a
/// result that waits to be consumed. `Error`: completed with a failure.
#[derive(Debug)]
pub enum State<N, P, R> {
    New(N),
    Pending(P),
    Ready(R),
    Error(Error),
}

/// A state as a value: as [`State`], with the payloads and the failure taken
/// by their views.
pub enum StateView<N, P, R> {
    New(N),
    Pending(P),
    Ready(R),
    Error(ErrorView),
}

impl<N, P, R> StateView<N, P, R> {
    /// The state that a completion with `res` leaves behind.
    pub open spec fn of_result(res: Result<R, ErrorView>) -> StateView<N, P, R> {
        match res {
            Ok(r) => StateView::Ready(r),
            Err(e) => StateView::Error(e),
        }
    }
}

impl<N, P, R> State<N, P, R> {
    /// This state as a value, with `new` applied to an idle payload and
    /// `ready` to a result.
    pub open spec fn view_as<N2, R2>(
        self,
        new: spec_fn(N) -> N2,
        ready: spec_fn(R) -> R2,
    ) -> StateView<N2, P, R2> {
        match self {
            State::New(n) => StateView::New(new(n)),
            State::Pending(p) => StateView::Pending(p),
            State::Ready(r) => StateView::Ready(ready(r)),
            State::Error(e) => StateView::Error(e@),
        }
    }

    /// This state as a value, the payloads as they are.
    pub open spec fn plain(self) -> StateView<N, P, R> {
        match self {
            State::New(n) => StateView::New(n),
            State::Pending(p) => StateView::Pending(p),
            State::Ready(r) => StateView::Ready(r),
            State::Error(e) => StateView::Error(e@),
        }
    }

    /// The state that a completion with `res` leaves behind.
    pub open spec fn of_result(res: Result<R, Error>) -> State<N, P, R> {
        match res {
            Ok(r) => State::Ready(r),
            Err(e) => State::Error(e),
        }
    }

    /// The state that a completion with `res` leaves behind: `Ready` with the
    /// value, or `Error` with the failure.
    pub fn from_result(res: Result<R, Error>) -> (s: State<N, P, R>)
        ensures
            s == Self::of_result(res),
    {
        match res {
            Ok(r) => State::Ready(r),
            Err(e) => State::Error(e),
        }
    }

    /// The result, if one waits.
    pub fn as_ready(&self) -> (r: Option<&R>)
        ensures
            r == (match *self {
                State::Ready(v) => Some(&v),
                _ => None,
            }),
    {
        match self {
            State::Ready(r) => Some(r),
            _ => None,
        }
    }

    /// The payload of a pending state, to be changed in place.
    pub fn as_pending_mut(&mut self) -> (p: Option<&mut P>)
        ensures
            match *old(self) {
                State::Pending(v) => p matches Some(r) && *r == v && *final(self)
                    == State::<N, P, R>::Pending(*final(r)),
                _ => p.is_none() && *final(self) == *old(self),
            },
    {
        match self {
            State::Pending(p) => Some(p),
            _ => None,
        }
    }

    /// Whether nothing is submitted.
    pub open spec fn spec_is_new(&self) -> bool {
        self is New
    }

    /// Whether nothing is submitted.
    #[verifier::when_used_as_spec(spec_is_new)]
    pub fn is_new(&self) -> (b: bool)
        ensures
            b == (self is New),
    {
        match self {
            State::New(_) => true,
            _ => false,
        }
    }

    /// Whether a completion is outstanding.
    pub open spec fn spec_is_pending(&self) -> bool {
        self is Pending
    }

    /// Whether a completion is outstanding.
    #[verifier::when_used_as_spec(spec_is_pending)]
    pub fn is_pending(&self) -> (b: bool)
        ensures
            b == (self is Pending),
    {
        match self {
            State::Pending(_) => true,
            _ => false,
        }
    }

    /// Whether a result waits.
    pub open spec fn spec_is_ready(&self) -> bool {
        self is Ready
    }

    /// Whether a result waits.
    #[verifier::when_used_as_spec(spec_is_ready)]
    pub fn is_ready(&self) -> (b: bool)
        ensures
            b == (self is Ready),
    {
        match self {
            State::Ready(_) => true,
            _ => false,
        }
    }

    /// Whether a failure is latched.
    pub open spec fn spec_is_error(&self) -> bool {
        self is Error
    }

    /// Whether a failure is latched.
    #[verifier::when_used_as_spec(spec_is_error)]
    pub fn is_error(&self) -> (b: bool)
        ensures
            b == (self is Error),
    {
        match self {
            State::Error(_) => true,
            _ => false,
        }
    }

    /// Takes the failure out of an `Error` state and leaves `replacement`
    /// behind. Any other state stays as it is, and `replacement` is dropped.
    pub fn take_error(&mut self, replacement: State<N, P, R>) -> (e: Option<Error>)
        ensures
            match *old(self) {
                State::Error(err) => e == Some(err) && *final(self) == replacement,
                _ => e.is_none() && *final(self) == *old(self),
            },
    {
        if self.is_error() {
            let mut taken = replacement;
            std::mem::swap(self, &mut taken);
            match taken {
                State::Error(err) => Some(err),
                _ => None,
            }
        } else {
            None
        }
    }

    /// The state's name: "new", "pending", "ready" or "error".
    pub fn name(&self) -> (n: &'static str)
        ensures
            n@ == (match *self {
                State::New(_) => "new"@,
                State::Pending(_) => "pending"@,
                State::Ready(_) => "ready"@,
                State::Error(_) => "error"@,
            }),
    {
        match self {
            State::New(_) => "new",
            State::Pending(_) => "pending",
            State::Ready(_) => "ready",
            State::Error(_) => "error",
        }
    }
}

} // verus!
