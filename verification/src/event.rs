//! What can be asked of a delivered event.

use crate::interest::Token;
use crate::selector::{Event, EventKind};
use vstd::prelude::*;

verus! {

/// The token of the source that the event is for.
pub fn token(e: &Event) -> (t: Token)
    ensures
        t == e.token,
{
    e.token
}

/// Whether the event is on the reading side: readable, read-closed or a
/// read error.
pub fn is_readable(e: &Event) -> (b: bool)
    ensures
        b == (e.kind == EventKind::Readable || e.kind == EventKind::ReadClosed || e.kind
            == EventKind::ReadError),
{
    match e.kind {
        EventKind::Readable | EventKind::ReadClosed | EventKind::ReadError => true,
        _ => false,
    }
}

/// Whether the event is on the writing side: writable, write-closed or a
/// write error.
pub fn is_writable(e: &Event) -> (b: bool)
    ensures
        b == (e.kind == EventKind::Writable || e.kind == EventKind::WriteClosed || e.kind
            == EventKind::WriteError),
{
    match e.kind {
        EventKind::Writable | EventKind::WriteClosed | EventKind::WriteError => true,
        _ => false,
    }
}

/// Whether the event reports a failure.
pub fn is_error(e: &Event) -> (b: bool)
    ensures
        b == (e.kind == EventKind::ReadError || e.kind == EventKind::WriteError),
{
    match e.kind {
        EventKind::ReadError | EventKind::WriteError => true,
        _ => false,
    }
}

/// Whether the event says that the reading side was closed.
pub fn is_read_closed(e: &Event) -> (b: bool)
    ensures
        b == (e.kind == EventKind::ReadClosed),
{
    match e.kind {
        EventKind::ReadClosed => true,
        _ => false,
    }
}

/// Whether the event says that the writing side was closed.
pub fn is_write_closed(e: &Event) -> (b: bool)
    ensures
        b == (e.kind == EventKind::WriteClosed),
{
    match e.kind {
        EventKind::WriteClosed => true,
        _ => false,
    }
}

/// Never: there is no priority readiness here.
pub fn is_priority(_e: &Event) -> (b: bool)
    ensures
        !b,
{
    false
}

/// Never: there is no asynchronous-I/O readiness here.
pub fn is_aio(_e: &Event) -> (b: bool)
    ensures
        !b,
{
    false
}

/// Never: there is no list-I/O readiness here.
pub fn is_lio(_e: &Event) -> (b: bool)
    ensures
        !b,
{
    false
}

/// The event as `format!("{:?}", ..)` of the standard library prints it, for
/// a person to read. Nothing is claimed of the text.
#[verifier::external_body]
pub fn debug_details(e: &Event) -> (text: String) {
    format!("{:?}", e)
}

} // verus!
