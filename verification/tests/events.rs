use enclave_io::error::{is_connection_closed, other, would_block, Error};
use enclave_io::event;
use enclave_io::interest::{check_opts, Interest, PollOpt, Token, READABLE, WRITABLE};
use enclave_io::selector::{Event, EventKind};
use std::io::ErrorKind;

#[test]
fn event_accessors() {
    // kind, readable, writable, error, read closed, write closed
    let table = [
        (EventKind::Readable, true, false, false, false, false),
        (EventKind::ReadClosed, true, false, false, true, false),
        (EventKind::ReadError, true, false, true, false, false),
        (EventKind::Writable, false, true, false, false, false),
        (EventKind::WriteClosed, false, true, false, false, true),
        (EventKind::WriteError, false, true, true, false, false),
    ];
    for row in table.iter() {
        let e = Event::new(row.0, Token(77));
        assert_eq!(event::token(&e), Token(77));
        assert_eq!(event::is_readable(&e), row.1);
        assert_eq!(event::is_writable(&e), row.2);
        assert_eq!(event::is_error(&e), row.3);
        assert_eq!(event::is_read_closed(&e), row.4);
        assert_eq!(event::is_write_closed(&e), row.5);
        assert!(!event::is_priority(&e));
        assert!(!event::is_aio(&e));
        assert!(!event::is_lio(&e));
    }
}

#[test]
fn debug_details_names_kind_and_token() {
    let text = event::debug_details(&Event::new(EventKind::WriteClosed, Token(31)));
    assert!(text.contains("WriteClosed"));
    assert!(text.contains("31"));
    let other = event::debug_details(&Event::new(EventKind::Readable, Token(2)));
    assert_ne!(text, other);
}

#[test]
fn interest_bits() {
    assert_eq!(READABLE, 1);
    assert_eq!(WRITABLE, 2);
    assert_eq!(Interest::readable().bits, 1);
    assert_eq!(Interest::writable().bits, 2);
    let both = Interest::readable().add(Interest::writable());
    assert_eq!(both.bits, 3);
    assert!(both.is_readable());
    assert!(both.is_writable());
    assert!(Interest::readable().is_readable());
    assert!(!Interest::readable().is_writable());
    assert!(!Interest::writable().is_readable());
    assert!(Interest::writable().is_writable());
    let extra = Interest::from_bits(0b1100);
    assert!(!extra.is_readable());
    assert!(!extra.is_writable());
    assert_eq!(extra.add(Interest::readable()).bits, 0b1101);
    assert!(extra.add(Interest::readable()).is_readable());
}

#[test]
fn poll_options() {
    assert!(PollOpt::edge().is_edge());
    assert!(!PollOpt::edge().is_level());
    assert!(!PollOpt::edge().is_oneshot());
    assert!(PollOpt::level().is_level());
    assert!(PollOpt::oneshot().is_oneshot());
    assert!(!PollOpt::empty().is_edge());
    let mixed = PollOpt::edge().union(PollOpt::oneshot());
    assert!(mixed.is_edge());
    assert!(mixed.is_oneshot());
    assert!(!mixed.is_level());
}

#[test]
fn check_opts_accepts_edge_only() {
    assert!(check_opts(PollOpt::edge()).is_ok());
    assert!(check_opts(PollOpt::empty()).is_ok());
    for opts in [
        PollOpt::level(),
        PollOpt::oneshot(),
        PollOpt::edge().union(PollOpt::level()),
        PollOpt::edge().union(PollOpt::oneshot()),
        PollOpt::level().union(PollOpt::oneshot()),
    ] {
        let e = check_opts(opts).unwrap_err();
        assert_eq!(e.kind(), ErrorKind::Other);
        assert_eq!(
            e.to_string(),
            "Oneshot and level-triggered events are not supported in SGX"
        );
    }
}

#[test]
fn error_constructors() {
    let e = other("no");
    assert_eq!(e.kind(), ErrorKind::Other);
    assert_eq!(e.message(), "no");
    let w = would_block();
    assert_eq!(w.kind(), ErrorKind::WouldBlock);
    assert_eq!(w.message(), "");
    let k = Error::from_kind(ErrorKind::WriteZero);
    assert_eq!(k.kind(), ErrorKind::WriteZero);
    assert_eq!(k.to_string(), "");
    let n = Error::new(ErrorKind::NotFound, "missing");
    assert_eq!(n.kind(), ErrorKind::NotFound);
    assert_eq!(n.to_string(), "missing");
}

#[test]
fn connection_closed_kinds() {
    for kind in [ErrorKind::ConnectionReset, ErrorKind::ConnectionAborted, ErrorKind::BrokenPipe] {
        assert!(is_connection_closed(&Error::from_kind(kind)));
    }
    for kind in [
        ErrorKind::ConnectionRefused,
        ErrorKind::WouldBlock,
        ErrorKind::Other,
        ErrorKind::WriteZero,
        ErrorKind::TimedOut,
        ErrorKind::UnexpectedEof,
    ] {
        assert!(!is_connection_closed(&Error::from_kind(kind)));
    }
}
