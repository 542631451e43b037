//! What an operation on a source asks its caller to do: submit a request to
//! the provider, and wake whoever is parked in a poll.

use vstd::prelude::*;

verus! {

/// A request for the provider. Its completion is handed back to the source
/// that asked for it.
#[derive(Debug)]
pub enum Submit {
    /// Accept a connection on the listener with this file descriptor.
    Accept { fd: u64 },
    /// Connect to this address.
    Connect { addr: String },
    /// Read from the connected stream into this buffer, which comes back
    /// with the completion.
    Read { buf: Vec<u8> },
    /// Write these bytes to the connected stream.
    Write { chunk: Vec<u8> },
    /// A request that does nothing but complete.
    Wake,
}

/// A request as a value.
pub enum SubmitView {
    Accept { fd: u64 },
    Connect { addr: Seq<char> },
    Read { buf: Seq<u8> },
    Write { chunk: Seq<u8> },
    Wake,
}

impl View for Submit {
    type V = SubmitView;

    open spec fn view(&self) -> SubmitView {
        match *self {
            Submit::Accept { fd } => SubmitView::Accept { fd },
            Submit::Connect { addr } => SubmitView::Connect { addr: addr@ },
            Submit::Read { buf } => SubmitView::Read { buf: buf@ },
            Submit::Write { chunk } => SubmitView::Write { chunk: chunk@ },
            Submit::Wake => SubmitView::Wake,
        }
    }
}

/// A request that may be none, as a value.
pub open spec fn submit_view(submit: Option<Submit>) -> Option<SubmitView> {
    match submit {
        Some(s) => Some(s@),
        None => None,
    }
}

/// What the caller of an operation has to do after it.
#[derive(Debug)]
pub struct Effects {
    /// An event was queued: wake the thread that is parked in a poll.
    pub wake: bool,
    /// Submit this request, then tell the source what cancels it.
    pub submit: Option<Submit>,
}

/// Effects as a value.
pub struct EffectsView {
    pub wake: bool,
    pub submit: Option<SubmitView>,
}

impl EffectsView {
    /// Nothing to do.
    pub open spec fn none() -> EffectsView {
        EffectsView { wake: false, submit: None }
    }
}

impl View for Effects {
    type V = EffectsView;

    open spec fn view(&self) -> EffectsView {
        EffectsView {
            wake: self.wake,
            submit: submit_view(self.submit),
        }
    }
}

impl Effects {
    /// Nothing to do.
    pub fn none() -> (e: Effects)
        ensures
            e@ == EffectsView::none(),
    {
        Effects { wake: false, submit: None }
    }
}

} // verus!
