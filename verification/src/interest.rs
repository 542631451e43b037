//! Tokens, interests and poll options: what an application says when it
//! registers a source.

use crate::error::{other, Error, ErrorView};
use vstd::prelude::*;

verus! {

/// An identifier chosen by the application; every event of a source carries
/// the token the source was registered with.
#[derive(Clone, Copy, Debug, PartialEq, Eq, Hash, Structural)]
pub struct Token(pub usize);

/// The bit of an interest that asks for readable edges.
pub const READABLE: u8 = 1;

/// The bit of an interest that asks for writable edges.
pub const WRITABLE: u8 = 2;

/// The directions in which an application wants readiness edges.
///
/// Bit 0 is "readable" and bit 1 is "writable". Other bits are carried along
/// and mean nothing here.
#[derive(Clone, Copy, Debug, PartialEq, Eq, Structural)]
pub struct Interest {
    pub bits: u8,
}

impl Interest {
    /// Interest in readable edges only.
    pub fn readable() -> (i: Interest)
        ensures
            i.bits == READABLE,
            i.is_readable(),
            !i.is_writable(),
    {
        assert(1u8 & 1 == 1 && 1u8 & 2 != 2) by (bit_vector);
        Interest { bits: READABLE }
    }

    /// Interest in writable edges only.
    pub fn writable() -> (i: Interest)
        ensures
            i.bits == WRITABLE,
            !i.is_readable(),
            i.is_writable(),
    {
        assert(2u8 & 1 != 1 && 2u8 & 2 == 2) by (bit_vector);
        Interest { bits: WRITABLE }
    }

    /// An interest made of the given bits.
    pub fn from_bits(bits: u8) -> (i: Interest)
        ensures
            i.bits == bits,
    {
        Interest { bits }
    }

    /// Whether the interest covers readable edges.
    pub open spec fn spec_is_readable(self) -> bool {
        self.bits & READABLE == READABLE
    }

    /// Whether the interest covers writable edges.
    pub open spec fn spec_is_writable(self) -> bool {
        self.bits & WRITABLE == WRITABLE
    }

    /// Both interests together.
    pub fn add(self, other: Interest) -> (sum: Interest)
        ensures
            sum.bits == self.bits | other.bits,
            sum.is_readable() == (self.is_readable() || other.is_readable()),
            sum.is_writable() == (self.is_writable() || other.is_writable()),
    {
        let a: u8 = self.bits;
        let b: u8 = other.bits;
        assert(((a | b) & 1 == 1) == (a & 1 == 1 || b & 1 == 1)) by (bit_vector);
        assert(((a | b) & 2 == 2) == (a & 2 == 2 || b & 2 == 2)) by (bit_vector);
        Interest { bits: a | b }
    }

    /// Whether the interest covers readable edges.
    #[verifier::when_used_as_spec(spec_is_readable)]
    pub fn is_readable(self) -> (r: bool)
        ensures
            r == self.is_readable(),
    {
        self.bits & READABLE == READABLE
    }

    /// Whether the interest covers writable edges.
    #[verifier::when_used_as_spec(spec_is_writable)]
    pub fn is_writable(self) -> (w: bool)
        ensures
            w == self.is_writable(),
    {
        self.bits & WRITABLE == WRITABLE
    }
}

/// How readiness is to be reported. Only edge-triggered reporting exists here.
#[derive(Clone, Copy, Debug, PartialEq, Eq, Structural)]
pub struct PollOpt {
    pub edge: bool,
    pub level: bool,
    pub oneshot: bool,
}

impl PollOpt {
    /// No option.
    pub fn empty() -> (o: PollOpt)
        ensures
            o == (PollOpt { edge: false, level: false, oneshot: false }),
    {
        PollOpt { edge: false, level: false, oneshot: false }
    }

    /// Edge-triggered: an event for each change from "cannot make progress"
    /// to "can make progress".
    pub fn edge() -> (o: PollOpt)
        ensures
            o == (PollOpt { edge: true, level: false, oneshot: false }),
    {
        PollOpt { edge: true, level: false, oneshot: false }
    }

    /// Level-triggered: events for as long as progress can be made.
    pub fn level() -> (o: PollOpt)
        ensures
            o == (PollOpt { edge: false, level: true, oneshot: false }),
    {
        PollOpt { edge: false, level: true, oneshot: false }
    }

    /// One-shot: no more events after the first until registered anew.
    pub fn oneshot() -> (o: PollOpt)
        ensures
            o == (PollOpt { edge: false, level: false, oneshot: true }),
    {
        PollOpt { edge: false, level: false, oneshot: true }
    }

    /// The options of `self` and of `other` together.
    pub fn union(self, other: PollOpt) -> (o: PollOpt)
        ensures
            o.edge == (self.edge || other.edge),
            o.level == (self.level || other.level),
            o.oneshot == (self.oneshot || other.oneshot),
    {
        PollOpt {
            edge: self.edge || other.edge,
            level: self.level || other.level,
            oneshot: self.oneshot || other.oneshot,
        }
    }

    /// Whether edge-triggered reporting is asked for.
    pub fn is_edge(self) -> (b: bool)
        ensures
            b == self.edge,
    {
        self.edge
    }

    /// Whether level-triggered reporting is asked for.
    pub fn is_level(self) -> (b: bool)
        ensures
            b == self.level,
    {
        self.level
    }

    /// Whether one-shot reporting is asked for.
    pub fn is_oneshot(self) -> (b: bool)
        ensures
            b == self.oneshot,
    {
        self.oneshot
    }

    /// The options that a registration accepts: neither level-triggered nor
    /// one-shot.
    pub open spec fn supported(self) -> bool {
        !self.level && !self.oneshot
    }
}

/// The message of the error that answers unsupported poll options.
pub open spec fn unsupported_opts_message() -> Seq<char> {
    "Oneshot and level-triggered events are not supported in SGX"@
}

/// Why a registration call was refused.
pub enum Refusal {
    /// Level-triggered or one-shot readiness was asked for.
    UnsupportedOptions,
    /// The source is registered already.
    AlreadyRegistered,
    /// The source is not registered with the selector.
    NotRegistered,
}

impl Refusal {
    /// The error that tells a stream's caller of this refusal.
    pub open spec fn stream_error(self) -> ErrorView {
        match self {
            Refusal::UnsupportedOptions => ErrorView::other(unsupported_opts_message()),
            Refusal::AlreadyRegistered => ErrorView::other("I/O source already registered"@),
            Refusal::NotRegistered => ErrorView::other("I/O source not registered"@),
        }
    }

    /// The error that tells a listener's caller of this refusal.
    pub open spec fn listener_error(self) -> ErrorView {
        match self {
            Refusal::UnsupportedOptions => ErrorView::other(unsupported_opts_message()),
            Refusal::AlreadyRegistered => ErrorView::other(
                "I/O source already registered with a `Registry`"@,
            ),
            Refusal::NotRegistered => ErrorView::other(
                "I/O source not registered with `Registry`"@,
            ),
        }
    }

    /// The error that tells an awakener's caller of this refusal.
    pub open spec fn awakener_error(self) -> ErrorView {
        match self {
            Refusal::UnsupportedOptions => ErrorView::other(unsupported_opts_message()),
            Refusal::AlreadyRegistered => ErrorView::other("awakener already registered"@),
            Refusal::NotRegistered => ErrorView::other(
                "awakener have not been registered previously"@,
            ),
        }
    }
}

/// Accepts edge-triggered options and rejects level-triggered and one-shot
/// ones with an error of kind `Other`.
pub fn check_opts(opts: PollOpt) -> (r: Result<(), Error>)
    ensures
        r.is_ok() == opts.supported(),
        r matches Err(e) ==> e@ == ErrorView::other(unsupported_opts_message()),
{
    if opts.is_level() || opts.is_oneshot() {
        return Err(other("Oneshot and level-triggered events are not supported in SGX"));
    }
    Ok(())
}

} // verus!
