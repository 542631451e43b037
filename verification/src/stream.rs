//! The stream: three request machines (connect, read, write) behind one
//! byte-stream interface, with a buffer in each direction.

use crate::buffer::{
    gathered, slices_view, total_len, vecs_view, ReadBuffer, ReadBufferView,
    WriteBuffer, WriteBufferView, READ_BUFFER_SIZE, WRITE_BUFFER_SIZE,
};
use crate::error::{is_connection_closed, other, result_view, would_block, Error, ErrorView};
use crate::interest::{check_opts, Interest, PollOpt, Refusal, Token};
use crate::request::{submit_view, Effects, EffectsView, Submit, SubmitView};
use crate::selector::{EventKind, Provider, Registration, Selector, SelectorView};
use crate::state::{State, StateView};
use std::io::ErrorKind;
use std::time::Duration;
use vstd::prelude::*;

verus! {

/// A stream as a value.
///
/// `C` is what cancels a submitted request, `S` the connected native stream.
pub struct StreamView<C, S> {
    /// `New` holds the address to connect to, `Ready` the connected stream.
    pub connect_state: StateView<Seq<char>, Option<C>, S>,
    /// What the application wrote and the provider has not taken yet.
    pub write_buffer: WriteBufferView,
    pub write_state: StateView<(), Option<C>, ()>,
    /// The buffer for the next read request, while the stream holds it.
    pub read_buf: Option<Seq<u8>>,
    /// `Ready` holds what the last read request brought in.
    pub read_state: StateView<(), Option<C>, ReadBufferView>,
    pub registration: Option<Registration>,
    pub provider: Option<Provider>,
}

/// A stream, a selector and what is left to the caller, after a step that
/// involves all three.
pub struct StreamStep<C, S> {
    pub stream: StreamView<C, S>,
    pub selector: SelectorView,
    pub effects: EffectsView,
}

/// A stream and the outcome of a read or a write on it.
pub struct TransferStep<C, S> {
    pub stream: StreamView<C, S>,
    /// How many bytes were moved, or why none was.
    pub result: Result<nat, ErrorView>,
    pub submit: Option<SubmitView>,
}

impl<C, S> StreamView<C, S> {
    /// The buffers are well formed; bytes are lent out only while a write is
    /// pending; and the stream holds its read buffer exactly when no read is
    /// pending and no read result waits.
    pub open spec fn wf(self) -> bool {
        &&& self.write_buffer.wf()
        &&& (self.write_state is Pending || self.write_buffer.lent == 0)
        &&& (self.read_buf is Some <==> !(self.read_state is Pending || self.read_state is Ready))
        &&& (self.read_state matches StateView::Ready(rb) ==> rb.wf())
    }

    /// A stream in the given connect state, with nothing buffered, nothing
    /// submitted and no registration.
    pub open spec fn fresh(
        connect_state: StateView<Seq<char>, Option<C>, S>,
        read_buf: Seq<u8>,
    ) -> StreamView<C, S> {
        StreamView {
            connect_state,
            write_buffer: WriteBufferView {
                data: Seq::empty(),
                capacity: WRITE_BUFFER_SIZE as nat,
                lent: 0,
            },
            write_state: StateView::New(()),
            read_buf: Some(read_buf),
            read_state: StateView::New(()),
            registration: None,
            provider: None,
        }
    }

    /// Whether announcing `kind` queues a message with `s`.
    pub open spec fn announces(self, s: SelectorView, kind: EventKind) -> bool {
        self.registration matches Some(r) && r.announces(s, kind)
    }

    /// The selector after the stream announced `kind`: through its
    /// registration if it has one, else not at all.
    pub open spec fn announce(self, s: SelectorView, kind: EventKind) -> SelectorView {
        match self.registration {
            Some(r) => r.announce(s, kind),
            None => s,
        }
    }

    /// Submits the connect request of an idle stream that has a provider.
    pub open spec fn schedule_connect(self) -> (StreamView<C, S>, Option<SubmitView>) {
        match self.connect_state {
            StateView::New(addr) if self.provider is Some => (
                StreamView { connect_state: StateView::Pending(None), ..self },
                Some(SubmitView::Connect { addr }),
            ),
            _ => (self, None),
        }
    }

    /// Whether a read request is due: the stream has a provider, is
    /// connected, has no read under way and holds its read buffer.
    pub open spec fn read_due(self) -> bool {
        self.provider is Some && self.read_state is New && self.connect_state is Ready
            && self.read_buf is Some
    }

    /// Submits a read request where one is due, lending the read buffer out.
    pub open spec fn schedule_read(self) -> (StreamView<C, S>, Option<SubmitView>) {
        if self.read_due() {
            (
                StreamView { read_state: StateView::Pending(None), read_buf: None, ..self },
                Some(SubmitView::Read { buf: self.read_buf->0 }),
            )
        } else {
            (self, None)
        }
    }

    /// Whether a write request is due: the stream has a provider, is
    /// connected, has no write under way and holds bytes to send.
    pub open spec fn write_due(self) -> bool {
        self.provider is Some && self.write_state is New && self.connect_state is Ready
            && self.write_buffer.data.len() > 0
    }

    /// Submits a write request where one is due, lending the buffered bytes
    /// out as its chunk.
    pub open spec fn schedule_write(self) -> (StreamView<C, S>, Option<SubmitView>) {
        if self.write_due() {
            (
                StreamView {
                    write_state: StateView::Pending(None),
                    write_buffer: self.write_buffer.lending(),
                    ..self
                },
                Some(SubmitView::Write { chunk: self.write_buffer.data }),
            )
        } else {
            (self, None)
        }
    }

    /// What follows a settled connect: a connected stream announces
    /// `Writable` and starts reading; a failed one announces `WriteError`.
    pub open spec fn post_connect(self, s: SelectorView) -> StreamStep<C, S> {
        match self.connect_state {
            StateView::Ready(_) => StreamStep {
                stream: self.schedule_read().0,
                selector: self.announce(s, EventKind::Writable),
                effects: EffectsView {
                    wake: self.announces(s, EventKind::Writable),
                    submit: self.schedule_read().1,
                },
            },
            StateView::Error(_) => StreamStep {
                stream: self,
                selector: self.announce(s, EventKind::WriteError),
                effects: EffectsView {
                    wake: self.announces(s, EventKind::WriteError),
                    submit: None,
                },
            },
            _ => StreamStep { stream: self, selector: s, effects: EffectsView::none() },
        }
    }

    /// Gets a newly registered stream going: an idle one connects, a
    /// connected one announces itself and starts reading.
    pub open spec fn schedule_connect_or_read(self, s: SelectorView) -> StreamStep<C, S> {
        match self.connect_state {
            StateView::New(_) => StreamStep {
                stream: self.schedule_connect().0,
                selector: s,
                effects: EffectsView { wake: false, submit: self.schedule_connect().1 },
            },
            StateView::Ready(_) => self.post_connect(s),
            _ => StreamStep { stream: self, selector: s, effects: EffectsView::none() },
        }
    }

    /// The stream after the caller reported what cancels the connect request
    /// it submitted, and the handle if the stream did not keep it.
    pub open spec fn connect_submitted(self, handle: C) -> (StreamView<C, S>, Option<C>) {
        if self.connect_state == StateView::<Seq<char>, Option<C>, S>::Pending(None) {
            (StreamView { connect_state: StateView::Pending(Some(handle)), ..self }, None)
        } else {
            (self, Some(handle))
        }
    }

    /// As `connect_submitted`, for a read request.
    pub open spec fn read_submitted(self, handle: C) -> (StreamView<C, S>, Option<C>) {
        if self.read_state == StateView::<(), Option<C>, ReadBufferView>::Pending(None) {
            (StreamView { read_state: StateView::Pending(Some(handle)), ..self }, None)
        } else {
            (self, Some(handle))
        }
    }

    /// As `connect_submitted`, for a write request.
    pub open spec fn write_submitted(self, handle: C) -> (StreamView<C, S>, Option<C>) {
        if self.write_state == StateView::<(), Option<C>, ()>::Pending(None) {
            (StreamView { write_state: StateView::Pending(Some(handle)), ..self }, None)
        } else {
            (self, Some(handle))
        }
    }

    /// The connect request completed with `res`.
    pub open spec fn connect_completed(self, s: SelectorView, res: Result<S, ErrorView>) -> StreamStep<
        C,
        S,
    > {
        StreamView { connect_state: StateView::of_result(res), ..self }.post_connect(s)
    }

    /// The edge that a completed read announces: `Readable` for bytes,
    /// `ReadClosed` for the end of the stream or a connection that the peer
    /// closed, `ReadError` for any other failure.
    pub open spec fn read_edge(res: Result<usize, ErrorView>) -> EventKind {
        match res {
            Ok(n) => if n == 0 {
                EventKind::ReadClosed
            } else {
                EventKind::Readable
            },
            Err(e) => if e.closes_connection() {
                EventKind::ReadClosed
            } else {
                EventKind::ReadError
            },
        }
    }

    /// The read request completed with `res`, and its buffer `buf` came back.
    pub open spec fn read_completed(
        self,
        s: SelectorView,
        res: Result<usize, ErrorView>,
        buf: Seq<u8>,
    ) -> StreamStep<C, S> {
        StreamStep {
            stream: match res {
                Ok(n) => StreamView {
                    read_state: StateView::Ready(
                        ReadBufferView { storage: buf, position: 0, len: n as nat },
                    ),
                    ..self
                },
                Err(e) => StreamView {
                    read_state: StateView::Error(e),
                    read_buf: Some(buf),
                    ..self
                },
            },
            selector: self.announce(s, Self::read_edge(res)),
            effects: EffectsView { wake: self.announces(s, Self::read_edge(res)), submit: None },
        }
    }

    /// The edge that a completed write announces when it does not start the
    /// next write: `Writable` when bytes were sent, `WriteClosed` when none
    /// was or the peer closed the connection, `WriteError` for any other
    /// failure.
    pub open spec fn write_edge(res: Result<usize, ErrorView>) -> EventKind {
        match res {
            Ok(n) => if n == 0 {
                EventKind::WriteClosed
            } else {
                EventKind::Writable
            },
            Err(e) => if e.closes_connection() {
                EventKind::WriteClosed
            } else {
                EventKind::WriteError
            },
        }
    }

    /// The stream right after a write request completed with `res`, before
    /// anything is announced or submitted: sent bytes left the buffer and the
    /// machine is idle again, or the failure is latched. A completion that
    /// sent nothing counts as the failure `WriteZero`.
    pub open spec fn write_settled(self, res: Result<usize, ErrorView>) -> StreamView<C, S> {
        match res {
            Ok(n) => if n == 0 {
                StreamView {
                    write_state: StateView::Error(ErrorView::of_kind(ErrorKind::WriteZero)),
                    write_buffer: self.write_buffer.consumed(0),
                    ..self
                }
            } else {
                StreamView {
                    write_state: StateView::New(()),
                    write_buffer: self.write_buffer.consumed(n as nat),
                    ..self
                }
            },
            Err(e) => StreamView {
                write_state: StateView::Error(e),
                write_buffer: self.write_buffer.consumed(0),
                ..self
            },
        }
    }

    /// Whether a completed write goes on with the next write without
    /// announcing anything: it sent bytes and more are buffered.
    pub open spec fn write_continues(self, res: Result<usize, ErrorView>) -> bool {
        res matches Ok(n) && n > 0 && self.write_settled(res).write_buffer.data.len() > 0
    }

    /// The write request completed with `res`.
    pub open spec fn write_completed(self, s: SelectorView, res: Result<usize, ErrorView>) -> StreamStep<
        C,
        S,
    > {
        if self.write_continues(res) {
            StreamStep {
                stream: self.write_settled(res).schedule_write().0,
                selector: s,
                effects: EffectsView {
                    wake: false,
                    submit: self.write_settled(res).schedule_write().1,
                },
            }
        } else {
            StreamStep {
                stream: self.write_settled(res),
                selector: self.announce(s, Self::write_edge(res)),
                effects: EffectsView {
                    wake: self.announces(s, Self::write_edge(res)),
                    submit: None,
                },
            }
        }
    }
}

impl<C, S> StreamView<C, S> {
    /// A read that offers room for `room` bytes. An idle machine answers
    /// `WouldBlock` and starts a read, a pending one answers `WouldBlock`. A
    /// waiting result hands on as many bytes as fit; once its last byte is
    /// handed on the machine is idle again and the next read starts, but a
    /// result of no bytes stays for good: the stream has ended. A latched
    /// failure is returned once, and the next read starts.
    pub open spec fn read_with_room(self, room: nat) -> TransferStep<C, S> {
        match self.read_state {
            StateView::New(_) => TransferStep {
                stream: self.schedule_read().0,
                result: Err(ErrorView::would_block()),
                submit: self.schedule_read().1,
            },
            StateView::Pending(_) => TransferStep {
                stream: self,
                result: Err(ErrorView::would_block()),
                submit: None,
            },
            StateView::Ready(rb) => TransferStep {
                stream: self.after_read(rb.advanced(room)).schedule_read().0,
                result: Ok(rb.gives(room)),
                submit: self.after_read(rb.advanced(room)).schedule_read().1,
            },
            StateView::Error(e) => TransferStep {
                stream: StreamView { read_state: StateView::New(()), ..self }.schedule_read().0,
                result: Err(e),
                submit: StreamView { read_state: StateView::New(()), ..self }.schedule_read().1,
            },
        }
    }

    /// The stream that takes the read result `rb` back after bytes were
    /// handed on from it: idle with its buffer back if the result brought
    /// bytes and all are handed on, else still holding the result.
    pub open spec fn after_read(self, rb: ReadBufferView) -> StreamView<C, S> {
        if rb.position == rb.len && rb.len > 0 {
            StreamView { read_state: StateView::New(()), read_buf: Some(rb.storage), ..self }
        } else {
            StreamView { read_state: StateView::Ready(rb), ..self }
        }
    }

    /// A read into one buffer of `room` bytes: no room, no read.
    pub open spec fn read(self, room: nat) -> TransferStep<C, S> {
        if room == 0 {
            TransferStep { stream: self, result: Ok(0), submit: None }
        } else {
            self.read_with_room(room)
        }
    }

    /// What a buffer that held `before` holds after a read into it.
    pub open spec fn read_fills(self, before: Seq<u8>) -> Seq<u8> {
        match self.read_state {
            StateView::Ready(rb) => rb.filled(before),
            _ => before,
        }
    }

    /// A write that offers `bytes`. A latched failure is returned once and
    /// nothing is taken. A stream that is not connected, or whose buffer is
    /// full, answers `WouldBlock`. Else as many bytes as fit are buffered and
    /// a write request starts if none is under way.
    pub open spec fn write_bytes(self, bytes: Seq<u8>) -> TransferStep<C, S> {
        match self.write_state {
            StateView::Error(e) => TransferStep {
                stream: StreamView { write_state: StateView::New(()), ..self },
                result: Err(e),
                submit: None,
            },
            _ => if !(self.connect_state is Ready) || self.write_buffer.accepts(bytes.len())
                == 0 {
                TransferStep { stream: self, result: Err(ErrorView::would_block()), submit: None }
            } else {
                TransferStep {
                    stream: self.buffering(bytes).schedule_write().0,
                    result: Ok(self.write_buffer.accepts(bytes.len())),
                    submit: self.buffering(bytes).schedule_write().1,
                }
            },
        }
    }

    /// A read into the buffers `bufs`, one after the other.
    pub open spec fn readv(self, bufs: Seq<Seq<u8>>) -> TransferStep<C, S> {
        self.read_with_room(total_len(bufs))
    }

    /// What the buffer at index `k` of `bufs` holds after a read into all of
    /// them.
    pub open spec fn readv_fills(self, bufs: Seq<Seq<u8>>, k: int) -> Seq<u8> {
        match self.read_state {
            StateView::Ready(rb) => rb.scattered(bufs, k),
            _ => bufs[k],
        }
    }

    /// A write from the buffers `bufs`, one after the other.
    pub open spec fn writev(self, bufs: Seq<Seq<u8>>) -> TransferStep<C, S> {
        self.write_bytes(gathered(bufs))
    }

    /// The stream with as many of `bytes` as fit added to its write buffer.
    pub open spec fn buffering(self, bytes: Seq<u8>) -> StreamView<C, S> {
        StreamView { write_buffer: self.write_buffer.written(bytes), ..self }
    }

    /// A write from one buffer: no bytes, no write.
    pub open spec fn write(self, bytes: Seq<u8>) -> TransferStep<C, S> {
        if bytes.len() == 0 {
            TransferStep { stream: self, result: Ok(0), submit: None }
        } else {
            self.write_bytes(bytes)
        }
    }

    /// Takes a latched failure out: that of the connect machine first, which
    /// stays failed, then that of the read machine, then that of the write
    /// machine, which become idle.
    pub open spec fn take_error(self) -> (StreamView<C, S>, Option<ErrorView>) {
        if let StateView::Error(e) = self.connect_state {
            (
                StreamView {
                    connect_state: StateView::Error(ErrorView::of_kind(ErrorKind::Other)),
                    ..self
                },
                Some(e),
            )
        } else if let StateView::Error(e) = self.read_state {
            (StreamView { read_state: StateView::New(()), ..self }, Some(e))
        } else if let StateView::Error(e) = self.write_state {
            (StreamView { write_state: StateView::New(()), ..self }, Some(e))
        } else {
            (self, None)
        }
    }

    /// Why a call to register with these options is refused, if it is.
    pub open spec fn register_refusal(self, opts: PollOpt) -> Option<Refusal> {
        if !opts.supported() {
            Some(Refusal::UnsupportedOptions)
        } else if self.registration is Some {
            Some(Refusal::AlreadyRegistered)
        } else {
            None
        }
    }

    /// An unregistered stream registers with `s`: it gets a registration and
    /// a provider, and gets going.
    pub open spec fn registered(self, s: SelectorView, token: Token, interest: Interest) -> StreamStep<
        C,
        S,
    > {
        StreamView {
            registration: Some(s.next_registration(token, interest)),
            provider: Some(Provider { selector: s.id }),
            ..self
        }.schedule_connect_or_read(s.register(token, interest))
    }

    /// Whether the stream holds a registration of the selector `s`.
    pub open spec fn registered_with(self, s: SelectorView) -> bool {
        self.registration matches Some(r) && r.belongs_to(s)
    }

    /// Why a call to reregister with these options is refused, if it is.
    pub open spec fn reregister_refusal(self, s: SelectorView, opts: PollOpt) -> Option<Refusal> {
        if !opts.supported() {
            Some(Refusal::UnsupportedOptions)
        } else if !self.registered_with(s) {
            Some(Refusal::NotRegistered)
        } else {
            None
        }
    }

    /// The edge that tells where the connect machine stands, if it has
    /// settled.
    pub open spec fn connect_edge(self) -> Option<EventKind> {
        match self.connect_state {
            StateView::Ready(_) => Some(EventKind::Writable),
            StateView::Error(_) => Some(EventKind::WriteError),
            _ => None,
        }
    }

    /// The edge that tells where the read machine stands, if a result or a
    /// failure waits.
    pub open spec fn read_state_edge(self) -> Option<EventKind> {
        match self.read_state {
            StateView::Ready(_) => Some(EventKind::Readable),
            StateView::Error(_) => Some(EventKind::ReadError),
            _ => None,
        }
    }

    /// The selector after the stream announced `edge`, if there is one.
    pub open spec fn announce_edge(self, s: SelectorView, edge: Option<EventKind>) -> SelectorView {
        match edge {
            Some(kind) => self.announce(s, kind),
            None => s,
        }
    }

    /// Whether announcing `edge` queues a message.
    pub open spec fn announces_edge(self, s: SelectorView, edge: Option<EventKind>) -> bool {
        edge matches Some(kind) && self.announces(s, kind)
    }

    /// The selector after the stream announced where it stands: first its
    /// connect machine, then its read machine.
    pub open spec fn announce_current_state(self, s: SelectorView) -> SelectorView {
        self.announce_edge(self.announce_edge(s, self.connect_edge()), self.read_state_edge())
    }

    /// Whether announcing where the stream stands queues a message.
    pub open spec fn announces_current_state(self, s: SelectorView) -> bool {
        self.announces_edge(s, self.connect_edge()) || self.announces_edge(
            self.announce_edge(s, self.connect_edge()),
            self.read_state_edge(),
        )
    }

    /// A stream registered with `s` changes its token and interest. If that
    /// changes anything, the selector records it and the stream announces
    /// where it stands; if not, nothing happens.
    pub open spec fn reregistered(self, s: SelectorView, token: Token, interest: Interest) -> StreamStep<
        C,
        S,
    > {
        let r = self.registration->0;
        if r.changes(s, token, interest) {
            let changed = StreamView {
                registration: Some(r.with_details(token, interest)),
                ..self
            };
            let recorded = r.with_details(token, interest).recorded(s);
            StreamStep {
                stream: changed,
                selector: changed.announce_current_state(recorded),
                effects: EffectsView {
                    wake: changed.announces_current_state(recorded),
                    submit: None,
                },
            }
        } else {
            StreamStep { stream: self, selector: s, effects: EffectsView::none() }
        }
    }

    /// Why a call to deregister is refused, if it is.
    pub open spec fn deregister_refusal(self, s: SelectorView) -> Option<Refusal> {
        if !self.registered_with(s) {
            Some(Refusal::NotRegistered)
        } else {
            None
        }
    }

    /// The stream without its registration. Its requests go on, and so do
    /// their completions, but it announces nothing any more.
    pub open spec fn detached(self) -> StreamView<C, S> {
        StreamView { registration: None, ..self }
    }

    /// The selector after the stream gave its registration up, if it had one.
    pub open spec fn released(self, s: SelectorView) -> SelectorView {
        match self.registration {
            Some(r) => r.released(s),
            None => s,
        }
    }

    /// What cancels the pending connect request, if the stream holds it.
    pub open spec fn connect_handle(self) -> Option<C> {
        match self.connect_state {
            StateView::Pending(h) => h,
            _ => None,
        }
    }

    /// What cancels the pending read request, if the stream holds it.
    pub open spec fn read_handle(self) -> Option<C> {
        match self.read_state {
            StateView::Pending(h) => h,
            _ => None,
        }
    }

    /// The stream after its user let go of it: without registration, and
    /// without the handles of its pending connect and read requests, which
    /// are to be cancelled. A pending write goes on: what was accepted for
    /// writing is written.
    pub open spec fn closed(self) -> StreamView<C, S> {
        StreamView {
            registration: None,
            connect_state: match self.connect_state {
                StateView::Pending(_) => StateView::Pending(None),
                other => other,
            },
            read_state: match self.read_state {
                StateView::Pending(_) => StateView::Pending(None),
                other => other,
            },
            ..self
        }
    }
}

/// The time to live that a stream reports. It cannot be set.
pub const DEFAULT_FAKE_TTL: u32 = 64;

/// Which side of a connection to shut down.
#[derive(Clone, Copy, Debug, PartialEq, Eq, Structural)]
pub enum Shutdown {
    Read,
    Write,
    Both,
}

/// The handles of the requests that are to be cancelled when a stream is let
/// go of.
#[derive(Debug)]
pub struct Cancelled<C> {
    pub connect: Option<C>,
    pub read: Option<C>,
}

/// The outcome of a read or a write, with the failure taken by its view.
pub open spec fn transfer_view(res: Result<usize, Error>) -> Result<nat, ErrorView> {
    match res {
        Ok(n) => Ok(n as nat),
        Err(e) => Err(e@),
    }
}

/// An error that may be none, as a value.
pub open spec fn error_view(e: Option<Error>) -> Option<ErrorView> {
    match e {
        Some(e) => Some(e@),
        None => None,
    }
}

/// A stream over a connection that completions drive.
///
/// `C` is what cancels a submitted request, `S` the connected native stream.
pub struct TcpStream<C, S> {
    connect_state: State<String, Option<C>, S>,
    write_buffer: WriteBuffer,
    write_state: State<(), Option<C>, ()>,
    read_buf: Option<Vec<u8>>,
    read_state: State<(), Option<C>, ReadBuffer>,
    registration: Option<Registration>,
    provider: Option<Provider>,
}

impl<C, S> View for TcpStream<C, S> {
    type V = StreamView<C, S>;

    closed spec fn view(&self) -> StreamView<C, S> {
        StreamView {
            connect_state: self.connect_state.view_as(|a: String| a@, |s: S| s),
            write_buffer: self.write_buffer@,
            write_state: self.write_state.plain(),
            read_buf: match self.read_buf {
                Some(b) => Some(b@),
                None => None,
            },
            read_state: self.read_state.view_as(|u: ()| u, |b: ReadBuffer| b@),
            registration: self.registration,
            provider: self.provider,
        }
    }
}

/// The contents of a read buffer that was never used: zeros.
pub open spec fn blank_read_buffer() -> Seq<u8> {
    Seq::new(READ_BUFFER_SIZE as nat, |i: int| 0u8)
}

impl<C, S> TcpStream<C, S> {
    /// The stream's value is well formed.
    pub open spec fn wf(&self) -> bool {
        self@.wf()
    }

    fn new(connect_state: State<String, Option<C>, S>) -> (stream: Self)
        ensures
            stream.wf(),
            stream@ == StreamView::fresh(
                connect_state.view_as(|a: String| a@, |s: S| s),
                blank_read_buffer(),
            ),
    {
        let read_buf: Vec<u8> = vec![0u8; READ_BUFFER_SIZE];
        assert(read_buf@ =~= blank_read_buffer());
        TcpStream {
            connect_state,
            write_buffer: WriteBuffer::new(WRITE_BUFFER_SIZE),
            write_state: State::New(()),
            read_buf: Some(read_buf),
            read_state: State::New(()),
            registration: None,
            provider: None,
        }
    }

    /// A stream that will connect to `addr` once it is registered.
    pub fn connect_str(addr: &str) -> (r: Result<Self, Error>)
        ensures
            r matches Ok(stream) && stream.wf() && stream@ == StreamView::<C, S>::fresh(
                StateView::New(addr@),
                blank_read_buffer(),
            ),
    {
        Ok(Self::new(State::New(addr.to_owned())))
    }

    /// A stream over a native stream that is connected already.
    pub fn from_stream(stream: S) -> (s: Self)
        ensures
            s.wf(),
            s@ == StreamView::<C, S>::fresh(StateView::Ready(stream), blank_read_buffer()),
    {
        Self::new(State::Ready(stream))
    }

    fn push_event(&self, selector: &mut Selector, kind: EventKind) -> (queued: bool)
        requires
            old(selector).wf(),
        ensures
            final(selector).wf(),
            queued == self@.announces(old(selector)@, kind),
            final(selector)@ == self@.announce(old(selector)@, kind),
    {
        match &self.registration {
            Some(registration) => registration.push_event(selector, kind),
            None => false,
        }
    }

    fn schedule_connect(&mut self) -> (submit: Option<Submit>)
        requires
            old(self).wf(),
        ensures
            final(self).wf(),
            final(self)@ == old(self)@.schedule_connect().0,
            submit_view(submit) == old(self)@.schedule_connect().1,
    {
        if self.provider.is_none() || !self.connect_state.is_new() {
            return None;
        }
        let mut state: State<String, Option<C>, S> = State::Pending(None);
        std::mem::swap(&mut self.connect_state, &mut state);
        match state {
            State::New(addr) => Some(Submit::Connect { addr }),
            _ => None,
        }
    }

    fn schedule_read(&mut self) -> (submit: Option<Submit>)
        requires
            old(self).wf(),
        ensures
            final(self).wf(),
            final(self)@ == old(self)@.schedule_read().0,
            submit_view(submit) == old(self)@.schedule_read().1,
    {
        if self.provider.is_none() || !self.read_state.is_new() || !self.connect_state.is_ready() {
            return None;
        }
        match self.read_buf.take() {
            Some(buf) => {
                self.read_state = State::Pending(None);
                Some(Submit::Read { buf })
            },
            None => None,
        }
    }

    fn schedule_write(&mut self) -> (submit: Option<Submit>)
        requires
            old(self).wf(),
        ensures
            final(self).wf(),
            final(self)@ == old(self)@.schedule_write().0,
            submit_view(submit) == old(self)@.schedule_write().1,
    {
        if self.provider.is_none() || !self.write_state.is_new() || !self.connect_state.is_ready() {
            return None;
        }
        match self.write_buffer.consumable_chunk() {
            Some(chunk) => {
                self.write_state = State::Pending(None);
                Some(Submit::Write { chunk })
            },
            None => None,
        }
    }

    fn post_connect(&mut self, selector: &mut Selector) -> (effects: Effects)
        requires
            old(self).wf(),
            old(selector).wf(),
        ensures
            final(self).wf(),
            final(selector).wf(),
            final(self)@ == old(self)@.post_connect(old(selector)@).stream,
            final(selector)@ == old(self)@.post_connect(old(selector)@).selector,
            effects@ == old(self)@.post_connect(old(selector)@).effects,
    {
        if self.connect_state.is_ready() {
            let wake = self.push_event(selector, EventKind::Writable);
            let submit = self.schedule_read();
            Effects { wake, submit }
        } else if self.connect_state.is_error() {
            let wake = self.push_event(selector, EventKind::WriteError);
            Effects { wake, submit: None }
        } else {
            Effects::none()
        }
    }

    fn schedule_connect_or_read(&mut self, selector: &mut Selector) -> (effects: Effects)
        requires
            old(self).wf(),
            old(selector).wf(),
        ensures
            final(self).wf(),
            final(selector).wf(),
            final(self)@ == old(self)@.schedule_connect_or_read(old(selector)@).stream,
            final(selector)@ == old(self)@.schedule_connect_or_read(old(selector)@).selector,
            effects@ == old(self)@.schedule_connect_or_read(old(selector)@).effects,
    {
        if self.connect_state.is_new() {
            let submit = self.schedule_connect();
            Effects { wake: false, submit }
        } else if self.connect_state.is_ready() {
            self.post_connect(selector)
        } else {
            Effects::none()
        }
    }

    /// Tells the stream what cancels the connect request that the caller
    /// just submitted for it. The handle comes back if no such request is
    /// waiting for one.
    pub fn connect_submitted(&mut self, handle: C) -> (back: Option<C>)
        requires
            old(self).wf(),
        ensures
            final(self).wf(),
            final(self)@ == old(self)@.connect_submitted(handle).0,
            back == old(self)@.connect_submitted(handle).1,
    {
        match &self.connect_state {
            State::Pending(None) => {
                self.connect_state = State::Pending(Some(handle));
                None
            },
            _ => Some(handle),
        }
    }

    /// As `connect_submitted`, for a read request.
    pub fn read_submitted(&mut self, handle: C) -> (back: Option<C>)
        requires
            old(self).wf(),
        ensures
            final(self).wf(),
            final(self)@ == old(self)@.read_submitted(handle).0,
            back == old(self)@.read_submitted(handle).1,
    {
        match &self.read_state {
            State::Pending(None) => {
                self.read_state = State::Pending(Some(handle));
                None
            },
            _ => Some(handle),
        }
    }

    /// As `connect_submitted`, for a write request.
    pub fn write_submitted(&mut self, handle: C) -> (back: Option<C>)
        requires
            old(self).wf(),
        ensures
            final(self).wf(),
            final(self)@ == old(self)@.write_submitted(handle).0,
            back == old(self)@.write_submitted(handle).1,
    {
        match &self.write_state {
            State::Pending(None) => {
                self.write_state = State::Pending(Some(handle));
                None
            },
            _ => Some(handle),
        }
    }

    /// The connect request completed with `res`: the stream is connected or
    /// has failed, and says so. A connected stream announces `Writable` and
    /// starts reading; a failed one announces `WriteError`.
    pub fn complete_connect(&mut self, selector: &mut Selector, res: Result<S, Error>) -> (effects:
        Effects)
        requires
            old(self).wf(),
            old(selector).wf(),
            old(self)@.connect_state is Pending,
        ensures
            final(self).wf(),
            final(selector).wf(),
            final(self)@ == old(self)@.connect_completed(old(selector)@, result_view(res)).stream,
            final(selector)@ == old(self)@.connect_completed(
                old(selector)@,
                result_view(res),
            ).selector,
            effects@ == old(self)@.connect_completed(old(selector)@, result_view(res)).effects,
    {
        self.connect_state = State::from_result(res);
        self.post_connect(selector)
    }

    /// The read request completed with `res`, and its buffer came back.
    /// Bytes announce `Readable`, the end of the stream `ReadClosed`; a
    /// failure is latched and announces `ReadClosed` if the peer closed the
    /// connection, else `ReadError`.
    pub fn complete_read(
        &mut self,
        selector: &mut Selector,
        res: Result<usize, Error>,
        buf: Vec<u8>,
    ) -> (effects: Effects)
        requires
            old(self).wf(),
            old(selector).wf(),
            old(self)@.read_state is Pending,
            res matches Ok(n) ==> n <= buf@.len(),
        ensures
            final(self).wf(),
            final(selector).wf(),
            final(self)@ == old(self)@.read_completed(
                old(selector)@,
                result_view(res),
                buf@,
            ).stream,
            final(selector)@ == old(self)@.read_completed(
                old(selector)@,
                result_view(res),
                buf@,
            ).selector,
            effects@ == old(self)@.read_completed(old(selector)@, result_view(res), buf@).effects,
    {
        let kind = match res {
            Ok(len) => {
                self.read_state = State::Ready(ReadBuffer::new(buf, len));
                if len == 0 {
                    EventKind::ReadClosed
                } else {
                    EventKind::Readable
                }
            },
            Err(e) => {
                let is_closed = is_connection_closed(&e);
                self.read_state = State::Error(e);
                self.read_buf = Some(buf);
                if is_closed {
                    EventKind::ReadClosed
                } else {
                    EventKind::ReadError
                }
            },
        };
        let wake = self.push_event(selector, kind);
        Effects { wake, submit: None }
    }

    /// The write request completed with `res`. Sent bytes leave the buffer;
    /// if more are buffered the next write is submitted, else `Writable` is
    /// announced. A completion that sent nothing latches `WriteZero` and
    /// announces `WriteClosed`; a failure is latched and announces
    /// `WriteClosed` if the peer closed the connection, else `WriteError`.
    pub fn complete_write(&mut self, selector: &mut Selector, res: Result<usize, Error>) -> (effects:
        Effects)
        requires
            old(self).wf(),
            old(selector).wf(),
            res matches Ok(n) ==> n <= old(self)@.write_buffer.lent,
        ensures
            final(self).wf(),
            final(selector).wf(),
            final(self)@ == old(self)@.write_completed(old(selector)@, result_view(res)).stream,
            final(selector)@ == old(self)@.write_completed(
                old(selector)@,
                result_view(res),
            ).selector,
            effects@ == old(self)@.write_completed(old(selector)@, result_view(res)).effects,
    {
        match res {
            Ok(n) => {
                if n == 0 {
                    self.write_buffer.consume(0);
                    self.write_state = State::Error(Error::from_kind(ErrorKind::WriteZero));
                    let wake = self.push_event(selector, EventKind::WriteClosed);
                    Effects { wake, submit: None }
                } else {
                    self.write_buffer.consume(n);
                    self.write_state = State::New(());
                    if !self.write_buffer.is_empty() {
                        let submit = self.schedule_write();
                        Effects { wake: false, submit }
                    } else {
                        let wake = self.push_event(selector, EventKind::Writable);
                        Effects { wake, submit: None }
                    }
                }
            },
            Err(e) => {
                let is_closed = is_connection_closed(&e);
                self.write_buffer.consume(0);
                self.write_state = State::Error(e);
                let wake = self.push_event(
                    selector,
                    if is_closed {
                        EventKind::WriteClosed
                    } else {
                        EventKind::WriteError
                    },
                );
                Effects { wake, submit: None }
            },
        }
    }

    fn finish_read(&mut self, rb: ReadBuffer) -> (submit: Option<Submit>)
        requires
            rb.wf(),
            old(self)@.write_buffer.wf(),
            old(self)@.write_state is Pending || old(self)@.write_buffer.lent == 0,
            old(self)@.read_state is New,
            old(self)@.read_buf is None,
        ensures
            final(self).wf(),
            final(self)@ == old(self)@.after_read(rb@).schedule_read().0,
            submit_view(submit) == old(self)@.after_read(rb@).schedule_read().1,
    {
        if rb.remaining_bytes() == 0 && rb.len() > 0 {
            self.read_buf = Some(rb.into_inner());
        } else {
            self.read_state = State::Ready(rb);
        }
        self.schedule_read()
    }

    /// Reads into `buf`: hands on bytes that a completed read request
    /// brought in. With an empty `buf` it returns `Ok(0)` and touches
    /// nothing. It never waits: where no bytes are at hand it answers
    /// `WouldBlock`. The second part of the result is the read request to
    /// submit next, if one is due.
    pub fn read(&mut self, buf: &mut [u8]) -> (r: (Result<usize, Error>, Option<Submit>))
        requires
            old(self).wf(),
        ensures
            final(self).wf(),
            final(self)@ == old(self)@.read(old(buf)@.len()).stream,
            transfer_view(r.0) == old(self)@.read(old(buf)@.len()).result,
            submit_view(r.1) == old(self)@.read(old(buf)@.len()).submit,
            final(buf)@ == (if r.0 is Ok {
                old(self)@.read_fills(old(buf)@)
            } else {
                old(buf)@
            }),
    {
        if buf.len() == 0 {
            assert(old(self)@.read_fills(old(buf)@) =~= old(buf)@);
            return (Ok(0), None);
        }
        let mut state: State<(), Option<C>, ReadBuffer> = State::New(());
        std::mem::swap(&mut self.read_state, &mut state);
        match state {
            State::New(_) => {
                let submit = self.schedule_read();
                (Err(would_block()), submit)
            },
            State::Pending(handle) => {
                self.read_state = State::Pending(handle);
                (Err(would_block()), None)
            },
            State::Ready(rb) => {
                let mut rb = rb;
                let n = rb.read(buf);
                let submit = self.finish_read(rb);
                (Ok(n), submit)
            },
            State::Error(e) => {
                let submit = self.schedule_read();
                (Err(e), submit)
            },
        }
    }

    /// Writes from `buf`: buffers as many of its bytes as fit, to be sent by
    /// write requests. With an empty `buf` it returns `Ok(0)` and touches
    /// nothing. It never waits: a stream that is not connected or whose
    /// buffer is full answers `WouldBlock`. The second part of the result is
    /// the write request to submit next, if one is due.
    pub fn write(&mut self, buf: &[u8]) -> (r: (Result<usize, Error>, Option<Submit>))
        requires
            old(self).wf(),
        ensures
            final(self).wf(),
            final(self)@ == old(self)@.write(buf@).stream,
            transfer_view(r.0) == old(self)@.write(buf@).result,
            submit_view(r.1) == old(self)@.write(buf@).submit,
    {
        if buf.len() == 0 {
            return (Ok(0), None);
        }
        if let Some(e) = self.write_state.take_error(State::New(())) {
            return (Err(e), None);
        }
        if !self.connect_state.is_ready() {
            return (Err(would_block()), None);
        }
        let written = self.write_buffer.write(buf);
        if written == 0 {
            assert(self.write_buffer@ =~= old(self)@.write_buffer);
            return (Err(would_block()), None);
        }
        let submit = self.schedule_write();
        (Ok(written), submit)
    }

    /// Reads into the buffers `bufs`, filling one after the other; else as
    /// `read`, but that it looks at the stream even when there is no room.
    pub fn readv(&mut self, bufs: &mut [Vec<u8>]) -> (r: (Result<usize, Error>, Option<Submit>))
        requires
            old(self).wf(),
        ensures
            final(self).wf(),
            final(self)@ == old(self)@.readv(vecs_view(old(bufs)@)).stream,
            transfer_view(r.0) == old(self)@.readv(vecs_view(old(bufs)@)).result,
            submit_view(r.1) == old(self)@.readv(vecs_view(old(bufs)@)).submit,
            final(bufs)@.len() == old(bufs)@.len(),
            forall|k: int|
                0 <= k < old(bufs)@.len() ==> (#[trigger] final(bufs)@[k])@ == (if r.0 is Ok {
                    old(self)@.readv_fills(vecs_view(old(bufs)@), k)
                } else {
                    old(bufs)@[k]@
                }),
    {
        let mut state: State<(), Option<C>, ReadBuffer> = State::New(());
        std::mem::swap(&mut self.read_state, &mut state);
        match state {
            State::New(_) => {
                let submit = self.schedule_read();
                (Err(would_block()), submit)
            },
            State::Pending(handle) => {
                self.read_state = State::Pending(handle);
                (Err(would_block()), None)
            },
            State::Ready(rb) => {
                let mut rb = rb;
                let ghost first = rb@;
                let ghost rooms = vecs_view(old(bufs)@);
                let mut n: usize = 0;
                let mut i: usize = 0;
                assert(rooms.take(0) =~= Seq::<Seq<u8>>::empty());
                while i < bufs.len()
                    invariant
                        i <= bufs@.len(),
                        bufs@.len() == old(bufs)@.len(),
                        rooms == vecs_view(old(bufs)@),
                        first.wf(),
                        rb.wf(),
                        rb@ == first.advanced(total_len(rooms.take(i as int))),
                        n == first.gives(total_len(rooms.take(i as int))),
                        forall|k: int|
                            0 <= k < i ==> (#[trigger] bufs@[k])@ == first.scattered(rooms, k),
                        forall|k: int| i <= k < bufs@.len() ==> bufs@[k] == old(bufs)@[k],
                    decreases bufs@.len() - i,
                {
                    proof {
                        first.lemma_advanced_twice(
                            total_len(rooms.take(i as int)),
                            rooms[i as int].len(),
                        );
                        assert(rooms.take(i + 1).drop_last() =~= rooms.take(i as int));
                        assert(rooms.take(i + 1).last() == rooms[i as int]);
                    }
                    let got = rb.read(bufs[i].as_mut_slice());
                    n = n + got;
                    i = i + 1;
                }
                assert(rooms.take(rooms.len() as int) =~= rooms);
                let submit = self.finish_read(rb);
                (Ok(n), submit)
            },
            State::Error(e) => {
                let submit = self.schedule_read();
                (Err(e), submit)
            },
        }
    }

    /// Writes from the buffers `bufs`, one after the other; else as `write`,
    /// but that it looks at the stream even when there are no bytes.
    pub fn writev(&mut self, bufs: &[&[u8]]) -> (r: (Result<usize, Error>, Option<Submit>))
        requires
            old(self).wf(),
        ensures
            final(self).wf(),
            final(self)@ == old(self)@.writev(slices_view(bufs@)).stream,
            transfer_view(r.0) == old(self)@.writev(slices_view(bufs@)).result,
            submit_view(r.1) == old(self)@.writev(slices_view(bufs@)).submit,
    {
        if let Some(e) = self.write_state.take_error(State::New(())) {
            return (Err(e), None);
        }
        if !self.connect_state.is_ready() {
            return (Err(would_block()), None);
        }
        let ghost before = self.write_buffer@;
        let ghost offered = slices_view(bufs@);
        let mut written: usize = 0;
        let mut i: usize = 0;
        assert(offered.take(0) =~= Seq::<Seq<u8>>::empty());
        assert(before.written(Seq::<u8>::empty()).data =~= before.data);
        while i < bufs.len()
            invariant
                i <= bufs@.len(),
                offered == slices_view(bufs@),
                before.wf(),
                self.write_buffer.wf(),
                self.write_buffer@ == before.written(gathered(offered.take(i as int))),
                written == before.accepts(gathered(offered.take(i as int)).len()),
                self.connect_state == old(self).connect_state,
                self.write_state == old(self).write_state,
                self.read_buf == old(self).read_buf,
                self.read_state == old(self).read_state,
                self.registration == old(self).registration,
                self.provider == old(self).provider,
            decreases bufs@.len() - i,
        {
            proof {
                before.lemma_written_twice(gathered(offered.take(i as int)), offered[i as int]);
                assert(offered.take(i + 1).drop_last() =~= offered.take(i as int));
            }
            let took = self.write_buffer.write(bufs[i]);
            written = written + took;
            i = i + 1;
        }
        assert(offered.take(offered.len() as int) =~= offered);
        if written == 0 {
            assert(self.write_buffer@ =~= before);
            return (Err(would_block()), None);
        }
        let submit = self.schedule_write();
        (Ok(written), submit)
    }

    /// Takes a latched failure out, if there is one: that of the connect
    /// machine first, then that of the read machine, then that of the write
    /// machine.
    pub fn take_error(&mut self) -> (r: Result<Option<Error>, Error>)
        requires
            old(self).wf(),
        ensures
            final(self).wf(),
            final(self)@ == old(self)@.take_error().0,
            r matches Ok(e) && error_view(e) == old(self)@.take_error().1,
    {
        if let Some(err) = self.connect_state.take_error(
            State::Error(Error::from_kind(ErrorKind::Other)),
        ) {
            return Ok(Some(err));
        }
        if let Some(err) = self.read_state.take_error(State::New(())) {
            return Ok(Some(err));
        }
        if let Some(err) = self.write_state.take_error(State::New(())) {
            return Ok(Some(err));
        }
        Ok(None)
    }

    /// The connected native stream, or `WouldBlock` while there is none.
    pub fn stream(&self) -> (r: Result<&S, Error>)
        ensures
            match self@.connect_state {
                StateView::Ready(s) => r matches Ok(native) && *native == s,
                _ => r matches Err(e) && e@ == ErrorView::would_block(),
            },
    {
        match self.connect_state.as_ready() {
            Some(stream) => Ok(stream),
            None => Err(would_block()),
        }
    }

    /// Registers the stream with `selector` under `token`, for edges that
    /// `interest` covers. Only edge-triggered options are accepted, and a
    /// stream registers once. A stream that is registered connects, or, if
    /// it is connected, announces `Writable` and starts to read.
    pub fn register(
        &mut self,
        selector: &mut Selector,
        token: Token,
        interest: Interest,
        opts: PollOpt,
    ) -> (r: Result<Effects, Error>)
        requires
            old(self).wf(),
            old(selector).wf(),
            old(selector)@.can_register(),
        ensures
            final(self).wf(),
            final(selector).wf(),
            match old(self)@.register_refusal(opts) {
                Some(refusal) => {
                    &&& r matches Err(e) && e@ == refusal.stream_error()
                    &&& final(self)@ == old(self)@
                    &&& final(selector)@ == old(selector)@
                },
                None => {
                    &&& r matches Ok(effects) && effects@ == old(self)@.registered(
                        old(selector)@,
                        token,
                        interest,
                    ).effects
                    &&& final(self)@ == old(self)@.registered(old(selector)@, token, interest).stream
                    &&& final(selector)@ == old(self)@.registered(
                        old(selector)@,
                        token,
                        interest,
                    ).selector
                },
            },
    {
        match check_opts(opts) {
            Err(e) => {
                return Err(e);
            },
            Ok(_) => {},
        }
        if self.registration.is_some() {
            return Err(other("I/O source already registered"));
        }
        self.registration = Some(Registration::new(selector, token, interest));
        self.provider = Some(Provider::new(selector));
        Ok(self.schedule_connect_or_read(selector))
    }

    fn announce_current_state(&self, selector: &mut Selector) -> (queued: bool)
        requires
            old(selector).wf(),
        ensures
            final(selector).wf(),
            final(selector)@ == self@.announce_current_state(old(selector)@),
            queued == self@.announces_current_state(old(selector)@),
    {
        let mut queued = false;
        if self.connect_state.is_ready() {
            queued = self.push_event(selector, EventKind::Writable);
        }
        if self.connect_state.is_error() {
            queued = self.push_event(selector, EventKind::WriteError);
        }
        if self.read_state.is_ready() {
            let more = self.push_event(selector, EventKind::Readable);
            queued = queued || more;
        }
        if self.read_state.is_error() {
            let more = self.push_event(selector, EventKind::ReadError);
            queued = queued || more;
        }
        queued
    }

    /// Changes the token and the interest that the stream is registered
    /// with. If that changes anything, the stream announces where it stands,
    /// so that readiness it reached before is not lost on the new interest.
    pub fn reregister(
        &mut self,
        selector: &mut Selector,
        token: Token,
        interest: Interest,
        opts: PollOpt,
    ) -> (r: Result<Effects, Error>)
        requires
            old(self).wf(),
            old(selector).wf(),
        ensures
            final(self).wf(),
            final(selector).wf(),
            match old(self)@.reregister_refusal(old(selector)@, opts) {
                Some(refusal) => {
                    &&& r matches Err(e) && e@ == refusal.stream_error()
                    &&& final(self)@ == old(self)@
                    &&& final(selector)@ == old(selector)@
                },
                None => {
                    &&& r matches Ok(effects) && effects@ == old(self)@.reregistered(
                        old(selector)@,
                        token,
                        interest,
                    ).effects
                    &&& final(self)@ == old(self)@.reregistered(
                        old(selector)@,
                        token,
                        interest,
                    ).stream
                    &&& final(selector)@ == old(self)@.reregistered(
                        old(selector)@,
                        token,
                        interest,
                    ).selector
                },
            },
    {
        match check_opts(opts) {
            Err(e) => {
                return Err(e);
            },
            Ok(_) => {},
        }
        let changed = match &mut self.registration {
            Some(registration) => {
                if registration.selector != selector.id() {
                    return Err(other("I/O source not registered"));
                }
                registration.change_details(selector, token, interest)
            },
            None => {
                return Err(other("I/O source not registered"));
            },
        };
        if changed {
            let wake = self.announce_current_state(selector);
            Ok(Effects { wake, submit: None })
        } else {
            Ok(Effects::none())
        }
    }

    /// Gives the registration up. Requests that are under way go on, and
    /// their completions still change the stream, but nothing is announced
    /// any more.
    pub fn deregister(&mut self, selector: &mut Selector) -> (r: Result<(), Error>)
        requires
            old(self).wf(),
            old(selector).wf(),
        ensures
            final(self).wf(),
            final(selector).wf(),
            match old(self)@.deregister_refusal(old(selector)@) {
                Some(refusal) => {
                    &&& r matches Err(e) && e@ == refusal.stream_error()
                    &&& final(self)@ == old(self)@
                    &&& final(selector)@ == old(selector)@
                },
                None => {
                    &&& r is Ok
                    &&& final(self)@ == old(self)@.detached()
                    &&& final(selector)@ == old(self)@.released(old(selector)@)
                },
            },
    {
        let belongs = match &self.registration {
            Some(registration) => registration.selector == selector.id(),
            None => false,
        };
        if !belongs {
            return Err(other("I/O source not registered"));
        }
        match self.registration.take() {
            Some(registration) => registration.release(selector),
            None => {},
        }
        Ok(())
    }

    /// Lets go of the stream, as its user does when dropping it: the
    /// registration is given up, and the handles of the pending connect and
    /// read requests are handed out to be cancelled. A pending write is not
    /// cancelled, and the stream still takes its completion.
    pub fn close(&mut self, selector: &mut Selector) -> (cancelled: Cancelled<C>)
        requires
            old(self).wf(),
            old(selector).wf(),
        ensures
            final(self).wf(),
            final(selector).wf(),
            final(self)@ == old(self)@.closed(),
            final(selector)@ == old(self)@.released(old(selector)@),
            cancelled.connect == old(self)@.connect_handle(),
            cancelled.read == old(self)@.read_handle(),
    {
        match self.registration.take() {
            Some(registration) => registration.release(selector),
            None => {},
        }
        let connect = match self.connect_state.as_pending_mut() {
            Some(handle) => handle.take(),
            None => None,
        };
        let read = match self.read_state.as_pending_mut() {
            Some(handle) => handle.take(),
            None => None,
        };
        Cancelled { connect, read }
    }

    /// Whether a connect request is under way.
    pub fn connect_pending(&self) -> (pending: bool)
        ensures
            pending == (self@.connect_state is Pending),
    {
        self.connect_state.is_pending()
    }

    /// Whether a read request is under way.
    pub fn read_pending(&self) -> (pending: bool)
        ensures
            pending == (self@.read_state is Pending),
    {
        self.read_state.is_pending()
    }

    /// Whether a write request is under way.
    pub fn write_pending(&self) -> (pending: bool)
        ensures
            pending == (self@.write_state is Pending),
    {
        self.write_state.is_pending()
    }

    /// How many bytes are lent out as the chunk of the write request that is
    /// under way: the most that its completion may report as sent.
    pub fn write_lent(&self) -> (n: usize)
        ensures
            n == self@.write_buffer.lent,
    {
        self.write_buffer.lent()
    }

    /// How many bytes wait in the write buffer.
    pub fn write_buffered(&self) -> (n: usize)
        ensures
            n == self@.write_buffer.data.len(),
    {
        self.write_buffer.len()
    }

    /// Whether the stream holds a registration.
    pub fn is_registered(&self) -> (registered: bool)
        ensures
            registered == (self@.registration is Some),
    {
        self.registration.is_some()
    }

    /// The token the stream is registered with, if it is registered.
    pub fn token(&self) -> (token: Option<Token>)
        ensures
            token == (match self@.registration {
                Some(r) => Some(r.token),
                None => None,
            }),
    {
        match &self.registration {
            Some(registration) => Some(registration.token()),
            None => None,
        }
    }

    /// Accepted and without effect: a connection cannot be shut down here.
    pub fn shutdown(&self, _how: Shutdown) -> (r: Result<(), Error>)
        ensures
            r is Ok,
    {
        Ok(())
    }

    /// Accepted and without effect.
    pub fn set_nodelay(&self, _nodelay: bool) -> (r: Result<(), Error>)
        ensures
            r is Ok,
    {
        Ok(())
    }

    /// Always `false`.
    pub fn nodelay(&self) -> (r: Result<bool, Error>)
        ensures
            r matches Ok(on) && !on,
    {
        Ok(false)
    }

    /// Accepted and without effect.
    pub fn set_recv_buffer_size(&self, _size: usize) -> (r: Result<(), Error>)
        ensures
            r is Ok,
    {
        Ok(())
    }

    /// Always the size of the stream's own buffer.
    pub fn recv_buffer_size(&self) -> (r: Result<usize, Error>)
        ensures
            r matches Ok(size) && size == WRITE_BUFFER_SIZE,
    {
        Ok(WRITE_BUFFER_SIZE)
    }

    /// Accepted and without effect.
    pub fn set_send_buffer_size(&self, _size: usize) -> (r: Result<(), Error>)
        ensures
            r is Ok,
    {
        Ok(())
    }

    /// Always the size of the stream's own buffer.
    pub fn send_buffer_size(&self) -> (r: Result<usize, Error>)
        ensures
            r matches Ok(size) && size == WRITE_BUFFER_SIZE,
    {
        Ok(WRITE_BUFFER_SIZE)
    }

    /// Accepted and without effect.
    pub fn set_keepalive(&self, _keepalive: Option<Duration>) -> (r: Result<(), Error>)
        ensures
            r is Ok,
    {
        Ok(())
    }

    /// Always none.
    pub fn keepalive(&self) -> (r: Result<Option<Duration>, Error>)
        ensures
            r matches Ok(keepalive) && keepalive is None,
    {
        Ok(None)
    }

    /// Accepted and without effect.
    pub fn set_ttl(&self, _ttl: u32) -> (r: Result<(), Error>)
        ensures
            r is Ok,
    {
        Ok(())
    }

    /// Always `DEFAULT_FAKE_TTL`.
    pub fn ttl(&self) -> (r: Result<u32, Error>)
        ensures
            r matches Ok(ttl) && ttl == DEFAULT_FAKE_TTL,
    {
        Ok(DEFAULT_FAKE_TTL)
    }

    /// Accepted and without effect.
    pub fn set_only_v6(&self, _only_v6: bool) -> (r: Result<(), Error>)
        ensures
            r is Ok,
    {
        Ok(())
    }

    /// Always `false`.
    pub fn only_v6(&self) -> (r: Result<bool, Error>)
        ensures
            r matches Ok(on) && !on,
    {
        Ok(false)
    }

    /// Accepted and without effect.
    pub fn set_linger(&self, _dur: Option<Duration>) -> (r: Result<(), Error>)
        ensures
            r is Ok,
    {
        Ok(())
    }

    /// Always none.
    pub fn linger(&self) -> (r: Result<Option<Duration>, Error>)
        ensures
            r matches Ok(linger) && linger is None,
    {
        Ok(None)
    }

    /// Looks at nothing: returns `Ok(0)` and leaves `buf` and the stream as
    /// they are.
    pub fn peek(&self, buf: &mut [u8]) -> (r: Result<usize, Error>)
        ensures
            r matches Ok(n) && n == 0,
            final(buf)@ == old(buf)@,
    {
        Ok(0)
    }

    /// Nothing to do: what was written is sent by write requests.
    pub fn flush(&mut self) -> (r: Result<(), Error>)
        ensures
            r is Ok,
            *final(self) == *old(self),
    {
        Ok(())
    }
}

} // verus!
