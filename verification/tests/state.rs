use enclave_io::error::Error;
use enclave_io::state::State;
use std::io::ErrorKind;

type Machine = State<u8, u16, u32>;

#[test]
fn state_predicates() {
    let states: [Machine; 4] = [
        State::New(1),
        State::Pending(2),
        State::Ready(3),
        State::Error(Error::from_kind(ErrorKind::Other)),
    ];
    let expected = [
        (true, false, false, false, "new"),
        (false, true, false, false, "pending"),
        (false, false, true, false, "ready"),
        (false, false, false, true, "error"),
    ];
    for (state, want) in states.iter().zip(expected.iter()) {
        assert_eq!(state.is_new(), want.0);
        assert_eq!(state.is_pending(), want.1);
        assert_eq!(state.is_ready(), want.2);
        assert_eq!(state.is_error(), want.3);
        assert_eq!(state.name(), want.4);
    }
}

#[test]
fn as_ready_gives_the_result_only() {
    let ready: Machine = State::Ready(3);
    assert_eq!(ready.as_ready(), Some(&3));
    let pending: Machine = State::Pending(2);
    assert_eq!(pending.as_ready(), None);
    let new: Machine = State::New(1);
    assert_eq!(new.as_ready(), None);
}

#[test]
fn as_pending_mut_reaches_the_payload() {
    let mut pending: Machine = State::Pending(2);
    *pending.as_pending_mut().unwrap() = 20;
    assert!(matches!(pending, State::Pending(20)));
    let mut ready: Machine = State::Ready(3);
    assert!(ready.as_pending_mut().is_none());
    assert!(matches!(ready, State::Ready(3)));
}

#[test]
fn take_error_takes_only_errors() {
    let mut failed: Machine = State::Error(Error::new(ErrorKind::BrokenPipe, "gone"));
    let taken = failed.take_error(State::New(9)).unwrap();
    assert_eq!(taken.kind(), ErrorKind::BrokenPipe);
    assert_eq!(taken.message(), "gone");
    assert!(matches!(failed, State::New(9)));
    assert!(failed.take_error(State::Pending(1)).is_none());
    assert!(matches!(failed, State::New(9)));

    let mut ready: Machine = State::Ready(3);
    assert!(ready.take_error(State::New(9)).is_none());
    assert!(matches!(ready, State::Ready(3)));
}

#[test]
fn from_result_is_ready_or_error() {
    let ok: Machine = State::from_result(Ok(5));
    assert!(matches!(ok, State::Ready(5)));
    let err: Machine = State::from_result(Err(Error::from_kind(ErrorKind::TimedOut)));
    match err {
        State::Error(e) => assert_eq!(e.kind(), ErrorKind::TimedOut),
        _ => panic!("expected an error state"),
    }
}
