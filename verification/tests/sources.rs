use enclave_io::awakener::Awakener;
use enclave_io::error::Error;
use enclave_io::interest::{Interest, PollOpt, Token};
use enclave_io::listener::TcpListener;
use enclave_io::request::Submit;
use enclave_io::selector::{Event, EventKind, Events, RegistrationId, Selector};
use enclave_io::stream::{Shutdown, TcpStream, DEFAULT_FAKE_TTL};
use enclave_io::waker::Waker;
use std::io::ErrorKind;
use std::time::Duration;

type Stream = TcpStream<u32, u32>;
type Listener = TcpListener<u32, u32>;

fn both() -> Interest {
    Interest::readable().add(Interest::writable())
}

fn drained(selector: &mut Selector) -> Vec<Event> {
    let mut events = Events::with_capacity(64);
    selector.select(&mut events);
    events.to_vec()
}

/// A connected stream, registered under `token`, whose first read request
/// is under way. The buffer of that request is returned with it.
fn connected(selector: &mut Selector, token: Token, interest: Interest) -> (Stream, Vec<u8>) {
    let mut stream = Stream::from_stream(50);
    let effects = stream.register(selector, token, interest, PollOpt::edge()).unwrap();
    let buf = match effects.submit {
        Some(Submit::Read { buf }) => buf,
        other => panic!("expected a read request, got {:?}", other),
    };
    assert!(stream.read_submitted(1).is_none());
    (stream, buf)
}

#[test]
fn stream_registers_once() {
    let mut selector = Selector::new(1);
    let mut stream = Stream::connect_str("host:1").unwrap();
    assert!(!stream.is_registered());
    assert_eq!(stream.token(), None);
    stream.register(&mut selector, Token(1), both(), PollOpt::edge()).unwrap();
    assert!(stream.is_registered());
    assert_eq!(stream.token(), Some(Token(1)));
    let e = stream.register(&mut selector, Token(2), both(), PollOpt::edge()).unwrap_err();
    assert_eq!(e.kind(), ErrorKind::Other);
    assert_eq!(e.to_string(), "I/O source already registered");
    assert!(e.to_string().contains("already registered"));
    assert_eq!(stream.token(), Some(Token(1)));
    assert_eq!(selector.registered(RegistrationId(2)), None);
}

#[test]
fn listener_registers_once() {
    let mut selector = Selector::new(1);
    let mut listener = Listener::new(3);
    assert!(!listener.is_registered());
    listener.register(&mut selector, Token(1), Interest::readable()).unwrap();
    assert!(listener.is_registered());
    assert_eq!(listener.token(), Some(Token(1)));
    let e = listener.register(&mut selector, Token(2), Interest::readable()).unwrap_err();
    assert_eq!(e.kind(), ErrorKind::Other);
    assert_eq!(e.to_string(), "I/O source already registered with a `Registry`");
    assert!(e.to_string().contains("already registered"));
    assert_eq!(selector.registered(RegistrationId(2)), None);
}

#[test]
fn stream_refuses_level_and_oneshot() {
    let mut selector = Selector::new(1);
    let mut stream = Stream::connect_str("host:1").unwrap();
    for opts in [PollOpt::level(), PollOpt::oneshot(), PollOpt::edge().union(PollOpt::oneshot())] {
        let e = stream.register(&mut selector, Token(1), both(), opts).unwrap_err();
        assert_eq!(e.kind(), ErrorKind::Other);
        assert_eq!(e.to_string(), "Oneshot and level-triggered events are not supported in SGX");
        assert!(e.to_string().contains("not supported in SGX"));
        assert!(!stream.is_registered());
    }
    assert_eq!(selector.registered(RegistrationId(1)), None);
    stream.register(&mut selector, Token(1), both(), PollOpt::edge()).unwrap();
    // The options are looked at before anything else.
    let e = stream.register(&mut selector, Token(1), both(), PollOpt::level()).unwrap_err();
    assert_eq!(e.to_string(), "Oneshot and level-triggered events are not supported in SGX");
    let e = stream.reregister(&mut selector, Token(1), both(), PollOpt::oneshot()).unwrap_err();
    assert_eq!(e.to_string(), "Oneshot and level-triggered events are not supported in SGX");
}

#[test]
fn unregistered_sources_cannot_change_or_leave() {
    let mut selector = Selector::new(1);
    let mut stream = Stream::connect_str("host:1").unwrap();
    let e = stream.reregister(&mut selector, Token(1), both(), PollOpt::edge()).unwrap_err();
    assert_eq!(e.kind(), ErrorKind::Other);
    assert_eq!(e.to_string(), "I/O source not registered");
    let e = stream.deregister(&mut selector).unwrap_err();
    assert_eq!(e.to_string(), "I/O source not registered");

    let mut listener = Listener::new(3);
    let e = listener.reregister(&mut selector, Token(1), both()).unwrap_err();
    assert_eq!(e.kind(), ErrorKind::Other);
    assert_eq!(e.to_string(), "I/O source not registered with `Registry`");
    let e = listener.deregister(&mut selector).unwrap_err();
    assert_eq!(e.to_string(), "I/O source not registered with `Registry`");

    // Leaving twice fails the second time.
    listener.register(&mut selector, Token(1), Interest::readable()).unwrap();
    listener.deregister(&mut selector).unwrap();
    assert!(listener.deregister(&mut selector).is_err());
    assert_eq!(selector.registered(RegistrationId(1)), None);
}

#[test]
fn a_source_is_registered_with_one_selector() {
    let mut mine = Selector::new(1);
    let mut other = Selector::new(2);
    let mut stream = Stream::connect_str("host:1").unwrap();
    stream.register(&mut mine, Token(1), both(), PollOpt::edge()).unwrap();
    let e = stream.reregister(&mut other, Token(2), both(), PollOpt::edge()).unwrap_err();
    assert_eq!(e.to_string(), "I/O source not registered");
    let e = stream.deregister(&mut other).unwrap_err();
    assert_eq!(e.to_string(), "I/O source not registered");
    assert_eq!(stream.token(), Some(Token(1)));
    assert_eq!(mine.registered(RegistrationId(1)), Some((Token(1), both())));
}

#[test]
fn reregister_with_the_same_details_is_silent() {
    let mut selector = Selector::new(1);
    let (mut stream, buf) = connected(&mut selector, Token(1), both());
    stream.complete_read(&mut selector, Ok(2), buf);
    assert_eq!(drained(&mut selector).len(), 2);

    let effects = stream.reregister(&mut selector, Token(1), both(), PollOpt::edge()).unwrap();
    assert!(!effects.wake);
    assert!(effects.submit.is_none());
    assert!(!selector.has_pending());
    assert!(drained(&mut selector).is_empty());

    let mut listener = Listener::new(3);
    listener.register(&mut selector, Token(2), Interest::readable()).unwrap();
    listener.accept_submitted(1);
    listener.complete_accept(&mut selector, Ok(7));
    assert_eq!(drained(&mut selector).len(), 1);
    let effects = listener.reregister(&mut selector, Token(2), Interest::readable()).unwrap();
    assert!(!effects.wake);
    assert!(drained(&mut selector).is_empty());
}

#[test]
fn stream_announces_where_it_stands_on_a_change() {
    let mut selector = Selector::new(1);
    let (mut stream, buf) = connected(&mut selector, Token(1), Interest::writable());
    assert_eq!(drained(&mut selector), vec![Event::new(EventKind::Writable, Token(1))]);
    // Bytes arrive while nobody is interested in reading.
    let effects = stream.complete_read(&mut selector, Ok(3), buf);
    assert!(!effects.wake);
    assert!(drained(&mut selector).is_empty());

    let effects = stream.reregister(&mut selector, Token(4), both(), PollOpt::edge()).unwrap();
    assert!(effects.wake);
    assert_eq!(
        drained(&mut selector),
        vec![
            Event::new(EventKind::Writable, Token(4)),
            Event::new(EventKind::Readable, Token(4)),
        ]
    );

    let effects =
        stream.reregister(&mut selector, Token(4), Interest::readable(), PollOpt::edge()).unwrap();
    assert!(effects.wake);
    assert_eq!(drained(&mut selector), vec![Event::new(EventKind::Readable, Token(4))]);
}

#[test]
fn stream_announces_latched_failures_on_a_change() {
    let mut selector = Selector::new(1);
    let mut stream = Stream::connect_str("host:1").unwrap();
    stream.register(&mut selector, Token(1), Interest::readable(), PollOpt::edge()).unwrap();
    stream.connect_submitted(1);
    let effects =
        stream.complete_connect(&mut selector, Err(Error::from_kind(ErrorKind::TimedOut)));
    assert!(effects.wake);
    assert!(effects.submit.is_none());
    assert_eq!(drained(&mut selector), vec![Event::new(EventKind::WriteError, Token(1))]);
    let effects =
        stream.reregister(&mut selector, Token(2), Interest::readable(), PollOpt::edge()).unwrap();
    assert!(effects.wake);
    assert_eq!(drained(&mut selector), vec![Event::new(EventKind::WriteError, Token(2))]);

    let (mut other, buf) = connected(&mut selector, Token(5), Interest::writable());
    drained(&mut selector);
    other.complete_read(&mut selector, Err(Error::from_kind(ErrorKind::InvalidData)), buf);
    assert_eq!(drained(&mut selector), vec![Event::new(EventKind::ReadError, Token(5))]);
    other.reregister(&mut selector, Token(6), Interest::writable(), PollOpt::edge()).unwrap();
    assert_eq!(
        drained(&mut selector),
        vec![
            Event::new(EventKind::Writable, Token(6)),
            Event::new(EventKind::ReadError, Token(6)),
        ]
    );
}

#[test]
fn listener_announces_a_waiting_connection_again() {
    let mut selector = Selector::new(1);
    let mut listener = Listener::new(3);
    listener.register(&mut selector, Token(1), Interest::writable()).unwrap();
    listener.accept_submitted(1);
    let effects = listener.complete_accept(&mut selector, Ok(7));
    assert!(!effects.wake);
    assert!(drained(&mut selector).is_empty());

    let effects = listener.reregister(&mut selector, Token(2), Interest::readable()).unwrap();
    assert!(effects.wake);
    assert_eq!(drained(&mut selector), vec![Event::new(EventKind::Readable, Token(2))]);

    // A change that the waiting connection does not pass announces nothing.
    let effects = listener.reregister(&mut selector, Token(3), Interest::writable()).unwrap();
    assert!(!effects.wake);
    assert!(drained(&mut selector).is_empty());
}

#[test]
fn listener_announces_a_waiting_failure_again() {
    let mut selector = Selector::new(1);
    let mut listener = Listener::new(3);
    listener.register(&mut selector, Token(1), Interest::readable()).unwrap();
    listener.accept_submitted(1);
    let effects =
        listener.complete_accept(&mut selector, Err(Error::new(ErrorKind::Other, "no more fds")));
    assert!(effects.wake);
    assert_eq!(drained(&mut selector), vec![Event::new(EventKind::ReadError, Token(1))]);
    let effects = listener.reregister(&mut selector, Token(2), Interest::writable()).unwrap();
    assert!(effects.wake);
    assert_eq!(drained(&mut selector), vec![Event::new(EventKind::ReadError, Token(2))]);

    let (res, submit) = listener.accept();
    let e = res.err().unwrap();
    assert_eq!(e.kind(), ErrorKind::Other);
    assert_eq!(e.to_string(), "no more fds");
    assert!(matches!(submit, Some(Submit::Accept { fd: 3 })));
}

#[test]
fn accept_before_registering_would_block() {
    let mut listener = Listener::new(3);
    assert_eq!(listener.fd(), 3);
    let (res, submit) = listener.accept();
    assert_eq!(res.err().unwrap().kind(), ErrorKind::WouldBlock);
    assert!(submit.is_none());
    assert!(listener.schedule_accept().is_none());
    assert!(!listener.accept_pending());
}

#[test]
fn one_accept_request_at_a_time() {
    let mut selector = Selector::new(1);
    let mut listener = Listener::new(3);
    let effects = listener.register(&mut selector, Token(1), Interest::readable()).unwrap();
    assert!(!effects.wake);
    assert!(matches!(effects.submit, Some(Submit::Accept { fd: 3 })));
    assert!(listener.accept_pending());
    assert!(listener.schedule_accept().is_none());
    assert_eq!(listener.accept_submitted(11), None);
    // A second handle is not wanted.
    assert_eq!(listener.accept_submitted(12), Some(12));
    let (res, submit) = listener.accept();
    assert_eq!(res.err().unwrap().kind(), ErrorKind::WouldBlock);
    assert!(submit.is_none());
    assert!(listener.accept_pending());

    listener.complete_accept(&mut selector, Ok(7));
    assert!(!listener.accept_pending());
    assert!(listener.schedule_accept().is_none());
    let (res, submit) = listener.accept();
    assert_eq!(*res.ok().unwrap().stream().unwrap(), 7);
    assert!(matches!(submit, Some(Submit::Accept { fd: 3 })));
    assert!(listener.accept_pending());
}

#[test]
fn closing_a_listener_hands_out_what_cancels() {
    let mut selector = Selector::new(1);
    let mut listener = Listener::new(3);
    assert_eq!(listener.close(&mut selector), None);
    listener.register(&mut selector, Token(1), Interest::readable()).unwrap();
    listener.accept_submitted(11);
    assert_eq!(listener.close(&mut selector), Some(11));
    assert_eq!(listener.close(&mut selector), None);
    assert!(!listener.is_registered());
    assert_eq!(selector.registered(RegistrationId(1)), None);
    // The completion of the cancelled request is taken and announces nothing.
    let effects = listener.complete_accept(&mut selector, Err(Error::from_kind(ErrorKind::Interrupted)));
    assert!(!effects.wake);
    assert!(drained(&mut selector).is_empty());
}

#[test]
fn a_new_stream_connects_when_registered() {
    let mut selector = Selector::new(1);
    let mut stream = Stream::connect_str("example.org:80").unwrap();
    assert!(!stream.connect_pending());
    assert_eq!(stream.stream().err().unwrap().kind(), ErrorKind::WouldBlock);
    let (res, submit) = stream.write(&[1]);
    assert_eq!(res.unwrap_err().kind(), ErrorKind::WouldBlock);
    assert!(submit.is_none());
    let mut buf = [0u8; 4];
    let (res, submit) = stream.read(&mut buf);
    assert_eq!(res.unwrap_err().kind(), ErrorKind::WouldBlock);
    assert!(submit.is_none());

    let effects = stream.register(&mut selector, Token(1), both(), PollOpt::edge()).unwrap();
    assert!(!effects.wake);
    match effects.submit {
        Some(Submit::Connect { addr }) => assert_eq!(addr, "example.org:80"),
        other => panic!("expected a connect request, got {:?}", other),
    }
    assert!(stream.connect_pending());
    assert_eq!(stream.connect_submitted(5), None);
    assert_eq!(stream.connect_submitted(6), Some(6));

    let effects = stream.complete_connect(&mut selector, Ok(9));
    assert!(effects.wake);
    match effects.submit {
        Some(Submit::Read { buf }) => assert_eq!(buf.len(), 16 * 1024),
        other => panic!("expected a read request, got {:?}", other),
    }
    assert!(!stream.connect_pending());
    assert!(stream.read_pending());
    assert_eq!(*stream.stream().unwrap(), 9);
    assert_eq!(drained(&mut selector), vec![Event::new(EventKind::Writable, Token(1))]);
}

#[test]
fn read_edges() {
    let mut selector = Selector::new(1);
    let table = [
        (Ok(5), EventKind::Readable),
        (Ok(0), EventKind::ReadClosed),
        (Err(ErrorKind::ConnectionReset), EventKind::ReadClosed),
        (Err(ErrorKind::ConnectionAborted), EventKind::ReadClosed),
        (Err(ErrorKind::BrokenPipe), EventKind::ReadClosed),
        (Err(ErrorKind::TimedOut), EventKind::ReadError),
    ];
    for (i, (res, kind)) in table.iter().enumerate() {
        let (mut stream, buf) = connected(&mut selector, Token(i), Interest::readable());
        let res = match res {
            Ok(n) => Ok(*n),
            Err(kind) => Err(Error::from_kind(*kind)),
        };
        let effects = stream.complete_read(&mut selector, res, buf);
        assert!(effects.wake);
        assert!(effects.submit.is_none());
        assert!(!stream.read_pending());
        assert_eq!(drained(&mut selector), vec![Event::new(*kind, Token(i))]);
    }
}

#[test]
fn write_edges() {
    let mut selector = Selector::new(1);
    let table = [
        (Ok(3), EventKind::Writable),
        (Ok(0), EventKind::WriteClosed),
        (Err(ErrorKind::ConnectionReset), EventKind::WriteClosed),
        (Err(ErrorKind::ConnectionAborted), EventKind::WriteClosed),
        (Err(ErrorKind::BrokenPipe), EventKind::WriteClosed),
        (Err(ErrorKind::PermissionDenied), EventKind::WriteError),
    ];
    for (i, (res, kind)) in table.iter().enumerate() {
        let (mut stream, _buf) = connected(&mut selector, Token(i), Interest::writable());
        drained(&mut selector);
        let (written, submit) = stream.write(&[7, 8, 9]);
        assert_eq!(written.unwrap(), 3);
        match submit {
            Some(Submit::Write { chunk }) => assert_eq!(chunk, vec![7, 8, 9]),
            other => panic!("expected a write request, got {:?}", other),
        }
        assert!(stream.write_pending());
        assert_eq!(stream.write_lent(), 3);
        let res = match res {
            Ok(n) => Ok(*n),
            Err(kind) => Err(Error::from_kind(*kind)),
        };
        let effects = stream.complete_write(&mut selector, res);
        assert!(effects.wake);
        assert!(effects.submit.is_none());
        assert!(!stream.write_pending());
        assert_eq!(stream.write_lent(), 0);
        assert_eq!(drained(&mut selector), vec![Event::new(*kind, Token(i))]);
    }
}

#[test]
fn a_write_that_sent_nothing_is_write_zero() {
    let mut selector = Selector::new(1);
    let (mut stream, _buf) = connected(&mut selector, Token(1), Interest::writable());
    stream.write(&[1, 2]);
    stream.complete_write(&mut selector, Ok(0));
    assert_eq!(stream.write_buffered(), 2);
    let (res, submit) = stream.write(&[3]);
    assert_eq!(res.unwrap_err().kind(), ErrorKind::WriteZero);
    assert!(submit.is_none());
    assert_eq!(stream.write_buffered(), 2);
    // The failure was taken: the next write goes on.
    let (res, submit) = stream.write(&[3]);
    assert_eq!(res.unwrap(), 1);
    match submit {
        Some(Submit::Write { chunk }) => assert_eq!(chunk, vec![1, 2, 3]),
        other => panic!("expected a write request, got {:?}", other),
    }
}

#[test]
fn a_partial_write_goes_on_by_itself() {
    let mut selector = Selector::new(1);
    let (mut stream, _buf) = connected(&mut selector, Token(1), Interest::writable());
    drained(&mut selector);
    let (res, submit) = stream.write(&[1, 2, 3, 4, 5]);
    assert_eq!(res.unwrap(), 5);
    assert!(submit.is_some());
    assert_eq!(stream.write_submitted(8), None);
    // More is written while the request is under way: no second request.
    let (res, submit) = stream.write(&[6]);
    assert_eq!(res.unwrap(), 1);
    assert!(submit.is_none());

    let effects = stream.complete_write(&mut selector, Ok(2));
    assert!(!effects.wake);
    match effects.submit {
        Some(Submit::Write { chunk }) => assert_eq!(chunk, vec![3, 4, 5, 6]),
        other => panic!("expected a write request, got {:?}", other),
    }
    assert!(!selector.has_pending());
    let effects = stream.complete_write(&mut selector, Ok(4));
    assert!(effects.wake);
    assert!(effects.submit.is_none());
    assert_eq!(stream.write_buffered(), 0);
    assert_eq!(drained(&mut selector), vec![Event::new(EventKind::Writable, Token(1))]);
}

#[test]
fn the_write_buffer_holds_sixteen_kibibytes() {
    let mut selector = Selector::new(1);
    let (mut stream, _buf) = connected(&mut selector, Token(1), Interest::writable());
    let big = vec![1u8; 20_000];
    let (res, submit) = stream.write(&big);
    assert_eq!(res.unwrap(), 16_384);
    match submit {
        Some(Submit::Write { chunk }) => assert_eq!(chunk.len(), 16_384),
        other => panic!("expected a write request, got {:?}", other),
    }
    let (res, submit) = stream.write(&big);
    assert_eq!(res.unwrap_err().kind(), ErrorKind::WouldBlock);
    assert!(submit.is_none());
    let effects = stream.complete_write(&mut selector, Ok(16_000));
    assert!(effects.submit.is_some());
    let (res, _) = stream.write(&big);
    assert_eq!(res.unwrap(), 16_000);
    assert_eq!(stream.write_buffered(), 16_384);
}

#[test]
fn empty_buffers_touch_nothing() {
    let mut selector = Selector::new(1);
    let (mut stream, buf) = connected(&mut selector, Token(1), both());
    stream.write(&[1]);
    stream.complete_write(&mut selector, Err(Error::from_kind(ErrorKind::TimedOut)));
    stream.complete_read(&mut selector, Err(Error::from_kind(ErrorKind::TimedOut)), buf);
    let mut empty: [u8; 0] = [];
    let (res, submit) = stream.read(&mut empty);
    assert_eq!(res.unwrap(), 0);
    assert!(submit.is_none());
    let (res, submit) = stream.write(&[]);
    assert_eq!(res.unwrap(), 0);
    assert!(submit.is_none());
    // Both failures are still latched.
    let (res, _) = stream.write(&[1]);
    assert_eq!(res.unwrap_err().kind(), ErrorKind::TimedOut);
    let mut one = [0u8; 1];
    let (res, submit) = stream.read(&mut one);
    assert_eq!(res.unwrap_err().kind(), ErrorKind::TimedOut);
    assert!(matches!(submit, Some(Submit::Read { .. })));
}

#[test]
fn the_end_of_the_stream_is_sticky() {
    let mut selector = Selector::new(1);
    let (mut stream, buf) = connected(&mut selector, Token(1), Interest::readable());
    stream.complete_read(&mut selector, Ok(0), buf);
    let mut out = [9u8; 4];
    for _ in 0..3 {
        let (res, submit) = stream.read(&mut out);
        assert_eq!(res.unwrap(), 0);
        assert!(submit.is_none());
        assert_eq!(out, [9, 9, 9, 9]);
        assert!(!stream.read_pending());
    }
}

#[test]
fn reading_drains_then_starts_the_next_request() {
    let mut selector = Selector::new(1);
    let (mut stream, mut buf) = connected(&mut selector, Token(1), Interest::readable());
    buf[..5].copy_from_slice(&[1, 2, 3, 4, 5]);
    stream.complete_read(&mut selector, Ok(5), buf);
    let mut out = [0u8; 3];
    let (res, submit) = stream.read(&mut out);
    assert_eq!(res.unwrap(), 3);
    assert_eq!(out, [1, 2, 3]);
    assert!(submit.is_none());
    let (res, submit) = stream.read(&mut out);
    assert_eq!(res.unwrap(), 2);
    assert_eq!(out, [4, 5, 3]);
    let buf = match submit {
        Some(Submit::Read { buf }) => buf,
        other => panic!("expected a read request, got {:?}", other),
    };
    assert_eq!(buf.len(), 16 * 1024);
    assert!(stream.read_pending());
    assert_eq!(stream.read_submitted(3), None);
    let (res, submit) = stream.read(&mut out);
    assert_eq!(res.unwrap_err().kind(), ErrorKind::WouldBlock);
    assert!(submit.is_none());
    assert!(stream.read_pending());
}

#[test]
fn vectored_read_fills_buffers_in_order() {
    let mut selector = Selector::new(1);
    let (mut stream, mut buf) = connected(&mut selector, Token(1), Interest::readable());
    buf[..6].copy_from_slice(&[1, 2, 3, 4, 5, 6]);
    stream.complete_read(&mut selector, Ok(6), buf);
    let mut bufs = vec![vec![0u8; 2], vec![], vec![0u8; 3], vec![9u8; 4], vec![9u8; 1]];
    let (res, submit) = stream.readv(&mut bufs);
    assert_eq!(res.unwrap(), 6);
    assert_eq!(bufs, vec![vec![1, 2], vec![], vec![3, 4, 5], vec![6, 9, 9, 9], vec![9]]);
    assert!(matches!(submit, Some(Submit::Read { .. })));

    let (res, submit) = stream.readv(&mut bufs);
    assert_eq!(res.unwrap_err().kind(), ErrorKind::WouldBlock);
    assert!(submit.is_none());
    assert_eq!(bufs, vec![vec![1, 2], vec![], vec![3, 4, 5], vec![6, 9, 9, 9], vec![9]]);
}

#[test]
fn vectored_read_without_room_reads_nothing() {
    let mut selector = Selector::new(1);
    let (mut stream, buf) = connected(&mut selector, Token(1), Interest::readable());
    let mut none: Vec<Vec<u8>> = Vec::new();
    let (res, _) = stream.readv(&mut none);
    assert_eq!(res.unwrap_err().kind(), ErrorKind::WouldBlock);
    stream.complete_read(&mut selector, Ok(2), buf);
    let (res, submit) = stream.readv(&mut none);
    assert_eq!(res.unwrap(), 0);
    assert!(submit.is_none());
    let mut out = [0u8; 4];
    assert_eq!(stream.read(&mut out).0.unwrap(), 2);
}

#[test]
fn vectored_write_gathers_buffers_in_order() {
    let mut selector = Selector::new(1);
    let (mut stream, _buf) = connected(&mut selector, Token(1), Interest::writable());
    let (res, submit) = stream.writev(&[&[1, 2][..], &[][..], &[3][..], &[4, 5, 6][..]]);
    assert_eq!(res.unwrap(), 6);
    match submit {
        Some(Submit::Write { chunk }) => assert_eq!(chunk, vec![1, 2, 3, 4, 5, 6]),
        other => panic!("expected a write request, got {:?}", other),
    }
    let (res, submit) = stream.writev(&[]);
    assert_eq!(res.unwrap_err().kind(), ErrorKind::WouldBlock);
    assert!(submit.is_none());
}

#[test]
fn vectored_write_stops_when_the_buffer_is_full() {
    let mut selector = Selector::new(1);
    let (mut stream, _buf) = connected(&mut selector, Token(1), Interest::writable());
    let a = vec![1u8; 16_000];
    let b = vec![2u8; 1_000];
    let c = vec![3u8; 10];
    let (res, submit) = stream.writev(&[&a[..], &b[..], &c[..]]);
    assert_eq!(res.unwrap(), 16_384);
    match submit {
        Some(Submit::Write { chunk }) => {
            assert_eq!(chunk.len(), 16_384);
            assert_eq!(chunk[15_999], 1);
            assert_eq!(chunk[16_000], 2);
            assert_eq!(chunk[16_383], 2);
        }
        other => panic!("expected a write request, got {:?}", other),
    }
}

#[test]
fn take_error_looks_at_connect_then_read_then_write() {
    let mut selector = Selector::new(1);
    let (mut stream, buf) = connected(&mut selector, Token(1), both());
    assert!(stream.take_error().unwrap().is_none());
    stream.write(&[1]);
    stream.complete_write(&mut selector, Err(Error::from_kind(ErrorKind::PermissionDenied)));
    stream.complete_read(&mut selector, Err(Error::from_kind(ErrorKind::ConnectionReset)), buf);
    assert_eq!(stream.take_error().unwrap().unwrap().kind(), ErrorKind::ConnectionReset);
    assert_eq!(stream.take_error().unwrap().unwrap().kind(), ErrorKind::PermissionDenied);
    assert!(stream.take_error().unwrap().is_none());
}

#[test]
fn a_connect_failure_stays() {
    let mut selector = Selector::new(1);
    let mut stream = Stream::connect_str("host:1").unwrap();
    stream.register(&mut selector, Token(1), both(), PollOpt::edge()).unwrap();
    stream.complete_connect(&mut selector, Err(Error::new(ErrorKind::ConnectionRefused, "no")));
    let first = stream.take_error().unwrap().unwrap();
    assert_eq!(first.kind(), ErrorKind::ConnectionRefused);
    assert_eq!(first.to_string(), "no");
    // The machine stays failed, with an error of kind `Other` in place of the one taken.
    assert_eq!(stream.take_error().unwrap().unwrap().kind(), ErrorKind::Other);
    assert_eq!(stream.take_error().unwrap().unwrap().kind(), ErrorKind::Other);
    assert_eq!(stream.write(&[1]).0.unwrap_err().kind(), ErrorKind::WouldBlock);
    assert_eq!(stream.stream().err().unwrap().kind(), ErrorKind::WouldBlock);
}

#[test]
fn closing_a_stream_cancels_connect_and_read_only() {
    let mut selector = Selector::new(1);
    let mut connecting = Stream::connect_str("host:1").unwrap();
    connecting.register(&mut selector, Token(1), both(), PollOpt::edge()).unwrap();
    connecting.connect_submitted(21);
    let cancelled = connecting.close(&mut selector);
    assert_eq!(cancelled.connect, Some(21));
    assert_eq!(cancelled.read, None);
    assert!(connecting.connect_pending());
    assert!(!connecting.is_registered());
    assert_eq!(selector.registered(RegistrationId(1)), None);

    let (mut stream, _buf) = connected(&mut selector, Token(2), both());
    drained(&mut selector);
    stream.write(&[1, 2, 3]);
    stream.write_submitted(31);
    let cancelled = stream.close(&mut selector);
    assert_eq!(cancelled.connect, None);
    assert_eq!(cancelled.read, Some(1));
    assert!(stream.write_pending());
    assert_eq!(stream.write_buffered(), 3);
    let again = stream.close(&mut selector);
    assert_eq!(again.connect, None);
    assert_eq!(again.read, None);
    // The write goes on to its end, and nothing is announced.
    let effects = stream.complete_write(&mut selector, Ok(1));
    assert!(!effects.wake);
    match effects.submit {
        Some(Submit::Write { chunk }) => assert_eq!(chunk, vec![2, 3]),
        other => panic!("expected a write request, got {:?}", other),
    }
    let effects = stream.complete_write(&mut selector, Ok(2));
    assert!(!effects.wake);
    assert!(effects.submit.is_none());
    assert!(drained(&mut selector).is_empty());
}

#[test]
fn completions_after_deregistering_are_silent() {
    let mut selector = Selector::new(1);
    let (mut stream, buf) = connected(&mut selector, Token(1), both());
    drained(&mut selector);
    stream.write(&[1, 2]);
    stream.deregister(&mut selector).unwrap();
    assert!(!stream.is_registered());
    let effects = stream.complete_read(&mut selector, Ok(4), buf);
    assert!(!effects.wake);
    let effects = stream.complete_write(&mut selector, Ok(2));
    assert!(!effects.wake);
    assert!(!selector.has_pending());
    assert!(drained(&mut selector).is_empty());
    // The stream itself has moved on.
    let mut out = [0u8; 8];
    assert_eq!(stream.read(&mut out).0.unwrap(), 4);
    assert_eq!(stream.write_buffered(), 0);
    // It can register again, and then announces itself.
    let effects = stream.register(&mut selector, Token(9), both(), PollOpt::edge()).unwrap();
    assert!(effects.wake);
    assert_eq!(drained(&mut selector), vec![Event::new(EventKind::Writable, Token(9))]);
}

#[test]
fn socket_options_are_accepted_and_ignored() {
    let mut stream = Stream::from_stream(1);
    assert!(stream.shutdown(Shutdown::Both).is_ok());
    assert!(stream.shutdown(Shutdown::Read).is_ok());
    assert!(stream.shutdown(Shutdown::Write).is_ok());
    assert!(stream.set_nodelay(true).is_ok());
    assert_eq!(stream.nodelay().unwrap(), false);
    assert!(stream.set_recv_buffer_size(1).is_ok());
    assert_eq!(stream.recv_buffer_size().unwrap(), 16 * 1024);
    assert!(stream.set_send_buffer_size(1).is_ok());
    assert_eq!(stream.send_buffer_size().unwrap(), 16 * 1024);
    assert!(stream.set_keepalive(Some(Duration::from_secs(1))).is_ok());
    assert_eq!(stream.keepalive().unwrap(), None);
    assert!(stream.set_ttl(5).is_ok());
    assert_eq!(stream.ttl().unwrap(), 64);
    assert_eq!(DEFAULT_FAKE_TTL, 64);
    assert!(stream.set_only_v6(true).is_ok());
    assert_eq!(stream.only_v6().unwrap(), false);
    assert!(stream.set_linger(Some(Duration::from_secs(1))).is_ok());
    assert_eq!(stream.linger().unwrap(), None);
    let mut buf = [3u8; 4];
    assert_eq!(stream.peek(&mut buf).unwrap(), 0);
    assert_eq!(buf, [3, 3, 3, 3]);
    assert!(stream.flush().is_ok());
}

#[test]
fn a_waker_wakes_once_per_wake() {
    let mut selector = Selector::new(1);
    let waker = Waker::new(&mut selector, Token(99)).unwrap();
    assert_eq!(waker.token(), Token(99));
    assert_eq!(selector.registered(RegistrationId(1)), Some((Token(99), Interest::readable())));
    assert!(matches!(waker.wake().unwrap(), Submit::Wake));
    // Nothing is announced before the request completes.
    assert!(!selector.has_pending());
    assert!(waker.complete_wake(&mut selector));
    assert_eq!(drained(&mut selector), vec![Event::new(EventKind::Readable, Token(99))]);
    assert!(drained(&mut selector).is_empty());
    waker.close(&mut selector);
    assert_eq!(selector.registered(RegistrationId(1)), None);
}

#[test]
fn an_awakener_wakes_only_when_registered() {
    let mut selector = Selector::new(1);
    let mut awakener = Awakener::new().unwrap();
    assert!(!awakener.is_registered());
    assert!(awakener.wakeup().unwrap().is_none());
    assert!(!awakener.complete_wakeup(&mut selector));
    awakener.cleanup();

    let e = awakener
        .register(&mut selector, Token(5), Interest::readable(), PollOpt::level())
        .unwrap_err();
    assert_eq!(e.to_string(), "Oneshot and level-triggered events are not supported in SGX");
    let e = awakener
        .reregister(&mut selector, Token(5), Interest::readable(), PollOpt::edge())
        .unwrap_err();
    assert_eq!(e.kind(), ErrorKind::Other);
    assert_eq!(e.to_string(), "awakener have not been registered previously");
    let e = awakener.deregister(&mut selector).unwrap_err();
    assert_eq!(e.to_string(), "awakener have not been registered previously");

    awakener.register(&mut selector, Token(5), Interest::readable(), PollOpt::edge()).unwrap();
    assert!(awakener.is_registered());
    let e = awakener
        .register(&mut selector, Token(6), Interest::readable(), PollOpt::edge())
        .unwrap_err();
    assert_eq!(e.kind(), ErrorKind::Other);
    assert_eq!(e.to_string(), "awakener already registered");

    assert!(matches!(awakener.wakeup().unwrap(), Some(Submit::Wake)));
    assert!(awakener.complete_wakeup(&mut selector));
    assert_eq!(drained(&mut selector), vec![Event::new(EventKind::Readable, Token(5))]);

    awakener.reregister(&mut selector, Token(7), Interest::readable(), PollOpt::edge()).unwrap();
    assert_eq!(selector.registered(RegistrationId(1)), Some((Token(7), Interest::readable())));
    assert!(awakener.complete_wakeup(&mut selector));
    assert_eq!(drained(&mut selector), vec![Event::new(EventKind::Readable, Token(7))]);

    awakener.deregister(&mut selector).unwrap();
    assert!(!awakener.is_registered());
    assert_eq!(selector.registered(RegistrationId(1)), None);
    assert!(!awakener.complete_wakeup(&mut selector));
}
