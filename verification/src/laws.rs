//! What holds of the selector and its sources whatever they are used for.

use crate::buffer::{gathered, total_len, ReadBufferView, WriteBufferView};
use crate::channel::Message;
use crate::error::ErrorView;
use crate::interest::{Interest, PollOpt, Refusal, Token};
use crate::listener::ListenerView;
use crate::request::{EffectsView, SubmitView};
use crate::selector::{
    deliveries, delivery, leftover, Event, EventKind, Registration, SelectorView,
};
use crate::stream::StreamView;
use vstd::prelude::*;

verus! {

/// Whether the selector `s` knows the registration `r` as `r` knows itself:
/// `r` is of `s`, and `s` has its token and interest under its id.
pub open spec fn live(r: Registration, s: SelectorView) -> bool {
    &&& r.belongs_to(s)
    &&& s.registrations.contains_key(r.id.0)
    &&& s.registrations[r.id.0] == (r.token, r.interest)
}

/// The events of a drain as a sequence of at most one event.
pub open spec fn delivered(registrations: Map<usize, (Token, Interest)>, msg: Message) -> Seq<
    Event,
> {
    match delivery(registrations, msg) {
        Some(event) => seq![event],
        None => Seq::empty(),
    }
}

/// A drain delivers no more events than the buffer has room for, and no more
/// than messages are queued.
pub proof fn drain_is_bounded(
    registrations: Map<usize, (Token, Interest)>,
    queue: Seq<Message>,
    room: nat,
)
    ensures
        deliveries(registrations, queue, room).len() <= room,
        deliveries(registrations, queue, room).len() <= queue.len(),
        leftover(registrations, queue, room).len() <= queue.len(),
    decreases queue.len(),
{
    if room > 0 && queue.len() > 0 {
        match delivery(registrations, queue[0]) {
            Some(_) => drain_is_bounded(registrations, queue.drop_first(), (room - 1) as nat),
            None => drain_is_bounded(registrations, queue.drop_first(), room),
        }
    }
}

/// A drain that does not fill the buffer leaves nothing queued: every
/// message is delivered or dropped once, and a second drain right after it
/// delivers nothing.
pub proof fn drain_is_at_most_once(
    registrations: Map<usize, (Token, Interest)>,
    queue: Seq<Message>,
    room: nat,
)
    requires
        deliveries(registrations, queue, room).len() < room,
    ensures
        leftover(registrations, queue, room) == Seq::<Message>::empty(),
        deliveries(registrations, leftover(registrations, queue, room), room) == Seq::<
            Event,
        >::empty(),
    decreases queue.len(),
{
    if queue.len() > 0 {
        match delivery(registrations, queue[0]) {
            Some(_) => drain_is_at_most_once(registrations, queue.drop_first(), (room - 1) as nat),
            None => drain_is_at_most_once(registrations, queue.drop_first(), room),
        }
    }
}

/// Events are delivered in the order in which they were announced: a message
/// queued behind others is delivered behind theirs, as soon as a drain has
/// room for it.
pub proof fn drain_is_first_in_first_out(
    registrations: Map<usize, (Token, Interest)>,
    queue: Seq<Message>,
    msg: Message,
    room: nat,
)
    ensures
        deliveries(registrations, queue.push(msg), room) == deliveries(
            registrations,
            queue,
            room,
        ) + (if deliveries(registrations, queue, room).len() < room {
            delivered(registrations, msg)
        } else {
            Seq::empty()
        }),
    decreases queue.len(),
{
    let longer = queue.push(msg);
    if room == 0 {
    } else if queue.len() == 0 {
        assert(longer.drop_first() =~= Seq::<Message>::empty());
        assert(longer[0] == msg);
        assert(deliveries(registrations, Seq::<Message>::empty(), room) =~= Seq::<Event>::empty());
        assert(deliveries(registrations, Seq::<Message>::empty(), (room - 1) as nat) =~= Seq::<
            Event,
        >::empty());
        assert(deliveries(registrations, longer, room) =~= delivered(registrations, msg));
    } else {
        assert(longer.drop_first() =~= queue.drop_first().push(msg));
        assert(longer[0] == queue[0]);
        match delivery(registrations, queue[0]) {
            Some(event) => {
                drain_is_first_in_first_out(
                    registrations,
                    queue.drop_first(),
                    msg,
                    (room - 1) as nat,
                );
                assert(deliveries(registrations, longer, room) =~= deliveries(
                    registrations,
                    queue,
                    room,
                ) + (if deliveries(registrations, queue, room).len() < room {
                    delivered(registrations, msg)
                } else {
                    Seq::empty()
                }));
            },
            None => {
                drain_is_first_in_first_out(registrations, queue.drop_first(), msg, room);
            },
        }
    }
}

/// Every delivered event stems from a queued message of a registration that
/// is live, carries that registration's token, and is of a kind that its
/// interest lets pass.
pub proof fn drain_delivers_only_live(
    registrations: Map<usize, (Token, Interest)>,
    queue: Seq<Message>,
    room: nat,
    i: int,
)
    requires
        0 <= i < deliveries(registrations, queue, room).len(),
    ensures
        exists|j: int|
            0 <= j < queue.len() && #[trigger] delivery(registrations, queue[j]) == Some(
                deliveries(registrations, queue, room)[i],
            ),
    decreases queue.len(),
{
    let rest = queue.drop_first();
    match delivery(registrations, queue[0]) {
        Some(event) => {
            if i == 0 {
                assert(delivery(registrations, queue[0]) == Some(
                    deliveries(registrations, queue, room)[i],
                ));
            } else {
                drain_delivers_only_live(registrations, rest, (room - 1) as nat, i - 1);
                let j = choose|j: int|
                    0 <= j < rest.len() && #[trigger] delivery(registrations, rest[j]) == Some(
                        deliveries(registrations, rest, (room - 1) as nat)[i - 1],
                    );
                assert(queue[j + 1] == rest[j]);
                assert(delivery(registrations, queue[j + 1]) == Some(
                    deliveries(registrations, queue, room)[i],
                ));
            }
        },
        None => {
            drain_delivers_only_live(registrations, rest, room, i);
            let j = choose|j: int|
                0 <= j < rest.len() && #[trigger] delivery(registrations, rest[j]) == Some(
                    deliveries(registrations, rest, room)[i],
                );
            assert(queue[j + 1] == rest[j]);
            assert(delivery(registrations, queue[j + 1]) == Some(
                deliveries(registrations, queue, room)[i],
            ));
        },
    }
}

/// An error edge passes every interest, at the announcing side and at the
/// delivering side alike.
pub proof fn error_edges_always_pass(r: Registration, s: SelectorView, interest: Interest)
    ensures
        EventKind::ReadError.matches(interest),
        EventKind::WriteError.matches(interest),
        r.belongs_to(s) ==> r.announces(s, EventKind::ReadError) && r.announces(
            s,
            EventKind::WriteError,
        ),
        live(r, s) ==> delivery(s.registrations, (r.id, EventKind::ReadError)) == Some(
            Event { kind: EventKind::ReadError, token: r.token },
        ) && delivery(s.registrations, (r.id, EventKind::WriteError)) == Some(
            Event { kind: EventKind::WriteError, token: r.token },
        ),
{
}

/// A registration that a selector hands out is live in it, gets an id that
/// no live registration has, and leaves the others as they are.
pub proof fn registration_is_fresh(s: SelectorView, token: Token, interest: Interest)
    requires
        s.wf(),
        s.can_register(),
    ensures
        s.register(token, interest).wf(),
        !s.registrations.contains_key(s.next_id),
        s.next_id != 0,
        live(s.next_registration(token, interest), s.register(token, interest)),
        forall|other: Registration|
            live(other, s) ==> #[trigger] live(other, s.register(token, interest)),
{
}

/// A live registration stays live until it is given up: whatever is
/// announced or drained, and whichever other registration is made, changed
/// or given up. A change of its own keeps it live with the new token and
/// interest. Given up, it is live no more.
pub proof fn live_until_released(
    r: Registration,
    other: Registration,
    s: SelectorView,
    token: Token,
    interest: Interest,
    kind: EventKind,
    room: nat,
)
    requires
        s.wf(),
        live(r, s),
        other.id != r.id,
    ensures
        s.can_register() ==> live(r, s.register(token, interest)),
        live(r, other.with_details(token, interest).recorded(s)),
        live(r, other.released(s)),
        live(r, other.announce(s, kind)),
        live(r, r.announce(s, kind)),
        live(r, s.drained(room)),
        live(r.with_details(token, interest), r.with_details(token, interest).recorded(s)),
        !live(r, r.released(s)),
{
}

/// After a registration is given up, no select delivers anything for it:
/// what it had announced before is dropped when the drain reaches it, and the
/// other registrations are delivered as before.
pub proof fn deregistered_is_silent(r: Registration, s: SelectorView, kind: EventKind)
    requires
        r.belongs_to(s),
    ensures
        delivery(r.released(s).registrations, (r.id, kind)) is None,
        forall|msg: Message|
            msg.0 != r.id ==> #[trigger] delivery(r.released(s).registrations, msg) == delivery(
                s.registrations,
                msg,
            ),
{
}

/// With no registration left, a select delivers nothing, whatever is queued.
pub proof fn nothing_registered_nothing_delivered(queue: Seq<Message>, room: nat)
    ensures
        deliveries(Map::<usize, (Token, Interest)>::empty(), queue, room) == Seq::<Event>::empty(),
    decreases queue.len(),
{
    if room > 0 && queue.len() > 0 {
        nothing_registered_nothing_delivered(queue.drop_first(), room);
    }
}

/// A stream that gave its registration up announces nothing: completions
/// that arrive later change the stream and leave the selector alone.
pub proof fn detached_stream_announces_nothing<C, S>(
    stream: StreamView<C, S>,
    s: SelectorView,
    connected: Result<S, ErrorView>,
    read: Result<usize, ErrorView>,
    buf: Seq<u8>,
    written: Result<usize, ErrorView>,
)
    ensures
        stream.detached().connect_completed(s, connected).selector == s,
        !stream.detached().connect_completed(s, connected).effects.wake,
        stream.detached().read_completed(s, read, buf).selector == s,
        !stream.detached().read_completed(s, read, buf).effects.wake,
        stream.detached().write_completed(s, written).selector == s,
        !stream.detached().write_completed(s, written).effects.wake,
{
}

/// A listener that gave its registration up announces nothing.
pub proof fn detached_listener_announces_nothing<C, S>(
    listener: ListenerView<C, S>,
    s: SelectorView,
    accepted: Result<S, ErrorView>,
)
    ensures
        listener.detached().accept_completed(s, accepted).selector == s,
        !listener.detached().accept_completed(s, accepted).effects.wake,
{
}

/// Whether `text` holds `part` somewhere.
pub open spec fn contains(text: Seq<char>, part: Seq<char>) -> bool {
    exists|i: int| 0 <= i <= text.len() - part.len() && #[trigger] text.subrange(
        i,
        i + part.len(),
    ) == part
}

/// Once a connection arrived for a listener that is registered for readable
/// edges, a select with room left delivers a readable event with the
/// listener's token behind what was queued before; the next accept hands the
/// connection out, and the accept after that answers `WouldBlock`.
pub proof fn accept_is_live<C, S>(
    listener: ListenerView<C, S>,
    r: Registration,
    s: SelectorView,
    native: S,
    room: nat,
)
    requires
        listener.registration == Some(r),
        live(r, s),
        r.interest.is_readable(),
        listener.accept_state is Pending,
        deliveries(s.registrations, s.queue, room).len() < room,
    ensures
        ({
            let step = listener.accept_completed(s, Ok(native));
            &&& step.effects.wake
            &&& deliveries(step.selector.registrations, step.selector.queue, room) == deliveries(
                s.registrations,
                s.queue,
                room,
            ).push(Event { kind: EventKind::Readable, token: r.token })
            &&& step.listener.accept().result == Ok::<S, ErrorView>(native)
            &&& step.listener.accept().listener.accept().result == Err::<S, ErrorView>(
                ErrorView::would_block(),
            )
        }),
{
    drain_is_first_in_first_out(s.registrations, s.queue, (r.id, EventKind::Readable), room);
}

/// When the connect request of a stream that is registered for writable
/// edges succeeds, exactly one message is queued, a writable edge, and the
/// first read request is submitted only then: whatever the reading side
/// announces is queued, and so delivered, behind that edge.
pub proof fn connect_edge_comes_first<C, S>(
    stream: StreamView<C, S>,
    r: Registration,
    s: SelectorView,
    native: S,
)
    requires
        stream.wf(),
        stream.registration == Some(r),
        r.belongs_to(s),
        r.interest.is_writable(),
        stream.provider is Some,
        stream.connect_state is Pending,
        stream.read_state is New,
    ensures
        ({
            let step = stream.connect_completed(s, Ok(native));
            &&& step.selector.queue == s.queue.push((r.id, EventKind::Writable))
            &&& step.effects.wake
            &&& step.effects.submit == Some(SubmitView::Read { buf: stream.read_buf->0 })
            &&& step.stream.read_state is Pending
        }),
{
}

/// Each machine has at most one request under way: right after a request
/// was submitted, none is due, for the listener's accepts and for each of a
/// stream's three machines.
pub proof fn one_request_at_a_time<C, S>(listener: ListenerView<C, S>, stream: StreamView<C, S>)
    ensures
        listener.schedule_accept().1 is Some ==> listener.schedule_accept().0.accept_state
            is Pending && listener.schedule_accept().0.schedule_accept().1 is None,
        stream.schedule_connect().1 is Some ==> stream.schedule_connect().0.connect_state
            is Pending && stream.schedule_connect().0.schedule_connect().1 is None,
        stream.schedule_read().1 is Some ==> stream.schedule_read().0.read_state is Pending
            && stream.schedule_read().0.schedule_read().1 is None,
        stream.schedule_write().1 is Some ==> stream.schedule_write().0.write_state is Pending
            && stream.schedule_write().0.schedule_write().1 is None,
{
}

/// A stream holds its read buffer exactly when no read is under way and no
/// read result waits, through every step: the buffer goes out with a read
/// request, stays in the result that the request brings, and is back once
/// the result is used up or the request has failed.
pub proof fn read_buffer_is_accounted_for<C, S>(
    stream: StreamView<C, S>,
    s: SelectorView,
    res: Result<usize, ErrorView>,
    buf: Seq<u8>,
    room: nat,
)
    requires
        stream.wf(),
    ensures
        stream.schedule_read().0.wf(),
        stream.read_with_room(room).stream.wf(),
        (stream.read_state is Pending && (res matches Ok(n) ==> n <= buf.len() <= usize::MAX))
            ==> stream.read_completed(s, res, buf).stream.wf(),
        stream.closed().wf(),
        stream.detached().wf(),
        stream.take_error().0.wf(),
{
}

/// Reads hand on the bytes that a read request brought in, in order, each
/// byte once: a read gives the next bytes behind the cursor, as many as fit,
/// and moves the cursor behind them.
pub proof fn reads_lose_and_repeat_nothing(rb: ReadBufferView, before: Seq<u8>)
    requires
        rb.wf(),
    ensures
        ({
            let n = rb.gives(before.len());
            &&& rb.filled(before).len() == before.len()
            &&& rb.filled(before).subrange(0, n as int) == rb.storage.subrange(
                rb.position as int,
                (rb.position + n) as int,
            )
            &&& rb.filled(before).skip(n as int) == before.skip(n as int)
            &&& rb.advanced(before.len()).remaining() == rb.remaining().skip(n as int)
            &&& rb.advanced(before.len()).wf()
        }),
{
    let n = rb.gives(before.len());
    assert(rb.filled(before).subrange(0, n as int) =~= rb.storage.subrange(
        rb.position as int,
        (rb.position + n) as int,
    ));
    assert(rb.filled(before).skip(n as int) =~= before.skip(n as int));
    assert(rb.advanced(before.len()).remaining() =~= rb.remaining().skip(n as int));
}

/// Gathering buffers keeps every byte: the gathered bytes are as many as the
/// buffers hold together.
pub proof fn gathering_keeps_every_byte(bufs: Seq<Seq<u8>>)
    ensures
        gathered(bufs).len() == total_len(bufs),
    decreases bufs.len(),
{
    if bufs.len() > 0 {
        gathering_keeps_every_byte(bufs.drop_last());
    }
}

/// Writes lose and repeat nothing: what the buffer takes in is queued behind
/// what it holds, a chunk is all that it holds, and what was sent of the
/// chunk leaves the front of the queue.
pub proof fn writes_lose_and_repeat_nothing(wb: WriteBufferView, bytes: Seq<u8>, sent: nat)
    requires
        wb.wf(),
        sent <= wb.written(bytes).data.len(),
    ensures
        ({
            let taken = wb.accepts(bytes.len());
            &&& wb.written(bytes).wf()
            &&& wb.written(bytes).data == wb.data + bytes.take(taken as int)
            &&& wb.written(bytes).lending().lent == wb.written(bytes).data.len()
            &&& wb.written(bytes).lending().consumed(sent).data == (wb.data + bytes.take(
                taken as int,
            )).skip(sent as int)
            &&& wb.written(bytes).lending().consumed(sent).wf()
        }),
{
    let taken = wb.accepts(bytes.len());
    assert(bytes.take(taken as int) =~= bytes.subrange(0, taken as int));
}

/// What a stream accepts for writing is what it offers to the provider, in
/// order: the first write into an idle, connected stream submits what was
/// taken in; when part of that is sent, the rest is submitted, with no
/// event; when all is sent, a writable edge is announced. Letting go of the
/// stream in between changes none of it but that nothing is announced.
pub proof fn accepted_bytes_are_sent<C, S>(
    stream: StreamView<C, S>,
    s: SelectorView,
    bytes: Seq<u8>,
    n: usize,
)
    requires
        stream.wf(),
        stream.provider is Some,
        stream.connect_state is Ready,
        stream.write_state is New,
        stream.write_buffer.data.len() == 0,
        stream.write_buffer.capacity > 0,
        bytes.len() > 0,
        0 < n <= stream.write_buffer.accepts(bytes.len()),
    ensures
        ({
            let taken = stream.write_buffer.accepts(bytes.len());
            let written = stream.write_bytes(bytes);
            let done = written.stream.write_completed(s, Ok(n));
            let dropped = written.stream.closed().write_completed(s, Ok(n));
            &&& written.result == Ok::<nat, ErrorView>(taken)
            &&& written.submit == Some(SubmitView::Write { chunk: bytes.take(taken as int) })
            &&& n < taken ==> done.effects.submit == Some(
                SubmitView::Write { chunk: bytes.subrange(n as int, taken as int) },
            ) && done.selector == s
            &&& n == taken ==> done.effects.submit is None && done.selector == stream.announce(
                s,
                EventKind::Writable,
            ) && done.stream.write_buffer.data.len() == 0
            &&& dropped.effects.submit == done.effects.submit
            &&& dropped.selector == s
        }),
{
    let taken = stream.write_buffer.accepts(bytes.len());
    let written = stream.write_bytes(bytes);
    assert(written.stream.write_buffer.data =~= bytes.take(taken as int));
    assert(bytes.take(taken as int).skip(n as int) =~= bytes.subrange(n as int, taken as int));
}

/// What a read request brings in is what reads hand on: after a request
/// brought `n` bytes, a read gives the first of them, as many as fit; once
/// the last is given, the next read request is submitted with the same
/// buffer, and until then none is.
pub proof fn arrived_bytes_are_read<C, S>(
    stream: StreamView<C, S>,
    s: SelectorView,
    buf: Seq<u8>,
    n: usize,
    before: Seq<u8>,
)
    requires
        stream.wf(),
        stream.provider is Some,
        stream.connect_state is Ready,
        stream.read_state is Pending,
        0 < n <= buf.len() <= usize::MAX,
        before.len() > 0,
    ensures
        ({
            let arrived = stream.read_completed(s, Ok(n), buf).stream;
            let given = if before.len() <= n {
                before.len()
            } else {
                n as nat
            };
            let read = arrived.read(before.len());
            &&& read.result == Ok::<nat, ErrorView>(given)
            &&& arrived.read_fills(before) == buf.take(given as int) + before.skip(given as int)
            &&& given == n ==> read.submit == Some(SubmitView::Read { buf }) && read.stream.read_state
                is Pending
            &&& given < n ==> read.submit is None && read.stream.read_state is Ready
        }),
{
    let arrived = stream.read_completed(s, Ok(n), buf).stream;
    let given = if before.len() <= n {
        before.len()
    } else {
        n as nat
    };
    assert(arrived.read_fills(before) =~= buf.take(given as int) + before.skip(given as int));
}

/// A source registers once: a stream that is registered refuses to be
/// registered again, with an error whose message says "already registered".
pub proof fn stream_registers_once<C, S>(
    stream: StreamView<C, S>,
    s: SelectorView,
    token: Token,
    interest: Interest,
    opts: PollOpt,
)
    requires
        opts.supported(),
    ensures
        stream.registered(s, token, interest).stream.register_refusal(opts) == Some(
            Refusal::AlreadyRegistered,
        ),
        contains(Refusal::AlreadyRegistered.stream_error().message, "already registered"@),
{
    reveal_strlit("I/O source already registered");
    reveal_strlit("already registered");
    let text = "I/O source already registered"@;
    let part = "already registered"@;
    assert(text.subrange(11, 11 + part.len() as int) =~= part);
}

/// A listener that is registered refuses to be registered again, with an
/// error whose message says "already registered".
pub proof fn listener_registers_once<C, S>(
    listener: ListenerView<C, S>,
    s: SelectorView,
    token: Token,
    interest: Interest,
)
    ensures
        listener.registered(s, token, interest).listener.register_refusal() == Some(
            Refusal::AlreadyRegistered,
        ),
        contains(Refusal::AlreadyRegistered.listener_error().message, "already registered"@),
{
    reveal_strlit("I/O source already registered with a `Registry`");
    reveal_strlit("already registered");
    let text = "I/O source already registered with a `Registry`"@;
    let part = "already registered"@;
    assert(text.subrange(11, 11 + part.len() as int) =~= part);
}

/// An awakener that is registered refuses to be registered again, with an
/// error whose message says "already registered".
pub proof fn awakener_registers_once(r: Registration, opts: PollOpt)
    requires
        opts.supported(),
    ensures
        crate::awakener::register_refusal(Some(r), opts) == Some(Refusal::AlreadyRegistered),
        contains(Refusal::AlreadyRegistered.awakener_error().message, "already registered"@),
{
    reveal_strlit("awakener already registered");
    reveal_strlit("already registered");
    let text = "awakener already registered"@;
    let part = "already registered"@;
    assert(text.subrange(9, 9 + part.len() as int) =~= part);
}

/// Level-triggered and one-shot options are refused, whatever the state of
/// the source, with the same error for every source, whose message says "not
/// supported in SGX".
pub proof fn unsupported_options_are_refused<C, S>(
    stream: StreamView<C, S>,
    awakener: Option<Registration>,
    s: SelectorView,
    opts: PollOpt,
)
    requires
        opts.level || opts.oneshot,
    ensures
        stream.register_refusal(opts) == Some(Refusal::UnsupportedOptions),
        stream.reregister_refusal(s, opts) == Some(Refusal::UnsupportedOptions),
        crate::awakener::register_refusal(awakener, opts) == Some(Refusal::UnsupportedOptions),
        crate::awakener::reregister_refusal(awakener, s, opts) == Some(
            Refusal::UnsupportedOptions,
        ),
        Refusal::UnsupportedOptions.stream_error() == Refusal::UnsupportedOptions.awakener_error(),
        contains(Refusal::UnsupportedOptions.stream_error().message, "not supported in SGX"@),
{
    reveal_strlit("Oneshot and level-triggered events are not supported in SGX");
    reveal_strlit("not supported in SGX");
    let text = "Oneshot and level-triggered events are not supported in SGX"@;
    let part = "not supported in SGX"@;
    assert(text.subrange(39, 39 + part.len() as int) =~= part);
}

/// Reregistering a stream with the token and interest it has is accepted
/// and changes nothing: no event is queued, nothing is to be woken, and the
/// selector's map stays as it is.
pub proof fn stream_reregister_is_idempotent<C, S>(
    stream: StreamView<C, S>,
    r: Registration,
    s: SelectorView,
    opts: PollOpt,
)
    requires
        stream.registration == Some(r),
        r.belongs_to(s),
        opts.supported(),
    ensures
        stream.reregister_refusal(s, opts) is None,
        stream.reregistered(s, r.token, r.interest).stream == stream,
        stream.reregistered(s, r.token, r.interest).selector == s,
        stream.reregistered(s, r.token, r.interest).effects == EffectsView::none(),
{
}

/// Reregistering a listener with the token and interest it has is accepted
/// and changes nothing.
pub proof fn listener_reregister_is_idempotent<C, S>(
    listener: ListenerView<C, S>,
    r: Registration,
    s: SelectorView,
)
    requires
        listener.registration == Some(r),
        r.belongs_to(s),
    ensures
        listener.change_refusal(s) is None,
        listener.reregistered(s, r.token, r.interest).listener == listener,
        listener.reregistered(s, r.token, r.interest).selector == s,
        listener.reregistered(s, r.token, r.interest).effects == EffectsView::none(),
{
}

/// A listener on which a connection or a failure waits when its token or
/// interest changes announces that again: the edge is queued last, and a
/// select that reaches it delivers it with the new token. A waiting
/// connection is announced if the new interest covers readable edges, a
/// waiting failure in any case.
pub proof fn listener_reannounces<C, S>(
    listener: ListenerView<C, S>,
    r: Registration,
    s: SelectorView,
    token: Token,
    interest: Interest,
)
    requires
        listener.registration == Some(r),
        live(r, s),
        r.changes(s, token, interest),
        listener.accept_state is Error || (listener.accept_state is Ready
            && interest.is_readable()),
    ensures
        ({
            let step = listener.reregistered(s, token, interest);
            let kind = listener.accept_state_edge()->0;
            &&& listener.accept_state_edge() is Some
            &&& step.effects.wake
            &&& step.selector.queue == s.queue.push((r.id, kind))
            &&& delivery(step.selector.registrations, (r.id, kind)) == Some(
                Event { kind, token },
            )
        }),
{
}

/// The message of the registration `r` for `edge`, if there is an edge and
/// `interest` lets it pass.
pub open spec fn passing(r: Registration, edge: Option<EventKind>, interest: Interest) -> Seq<
    Message,
> {
    match edge {
        Some(kind) => if kind.matches(interest) {
            seq![(r.id, kind)]
        } else {
            Seq::empty()
        },
        None => Seq::empty(),
    }
}

/// A stream announces where it stands when its token or interest changes:
/// the edge of a settled connect machine is queued if the new interest lets
/// it pass, and behind it the edge of a read machine on which a result or a
/// failure waits; a select that reaches them delivers them with the new
/// token.
pub proof fn stream_reannounces<C, S>(
    stream: StreamView<C, S>,
    r: Registration,
    s: SelectorView,
    token: Token,
    interest: Interest,
)
    requires
        stream.registration == Some(r),
        live(r, s),
        r.changes(s, token, interest),
    ensures
        ({
            let step = stream.reregistered(s, token, interest);
            let connect = stream.connect_edge();
            let read = stream.read_state_edge();
            let first = passing(r, connect, interest);
            let second = passing(r, read, interest);
            &&& step.selector.queue == s.queue + first + second
            &&& step.effects.wake == (first.len() + second.len() > 0)
            &&& forall|kind: EventKind|
                kind.matches(interest) ==> #[trigger] delivery(
                    step.selector.registrations,
                    (r.id, kind),
                ) == Some(Event { kind, token })
        }),
{
    let step = stream.reregistered(s, token, interest);
    let connect = stream.connect_edge();
    let read = stream.read_state_edge();
    let first = passing(r, connect, interest);
    let second = passing(r, read, interest);
    assert(step.selector.queue =~= s.queue + first + second);
}

/// Letting go of a stream does not touch what it has accepted for writing:
/// the buffered bytes and the write machine stay, and the completion of a
/// pending write goes on exactly as it would have, submitting the next
/// write while bytes are left.
pub proof fn close_keeps_writes<C, S>(
    stream: StreamView<C, S>,
    s: SelectorView,
    res: Result<usize, ErrorView>,
)
    ensures
        stream.closed().write_buffer == stream.write_buffer,
        stream.closed().write_state == stream.write_state,
        stream.closed().provider == stream.provider,
        stream.closed().connect_state is Ready == stream.connect_state is Ready,
        stream.closed().write_completed(s, res).stream.write_buffer == stream.write_completed(
            s,
            res,
        ).stream.write_buffer,
        stream.closed().write_completed(s, res).effects.submit == stream.write_completed(
            s,
            res,
        ).effects.submit,
        stream.closed().write_completed(s, res).selector == s,
{
}

/// A wake-up is delivered once: when the request of a wake completes, a
/// select with room left delivers a readable event with the waker's token
/// behind what was queued before, and nothing is left for the select after
/// it.
pub proof fn wake_is_delivered_once(waker: Registration, s: SelectorView, room: nat)
    requires
        live(waker, s),
        waker.interest.is_readable(),
        deliveries(s.registrations, s.queue, room).len() + 1 < room,
    ensures
        ({
            let woken = waker.announce(s, EventKind::Readable);
            &&& waker.announces(s, EventKind::Readable)
            &&& deliveries(woken.registrations, woken.queue, room) == deliveries(
                s.registrations,
                s.queue,
                room,
            ).push(Event { kind: EventKind::Readable, token: waker.token })
            &&& woken.drained(room).queue == Seq::<Message>::empty()
            &&& deliveries(woken.drained(room).registrations, woken.drained(room).queue, room)
                == Seq::<Event>::empty()
        }),
{
    let woken = waker.announce(s, EventKind::Readable);
    drain_is_first_in_first_out(s.registrations, s.queue, (waker.id, EventKind::Readable), room);
    drain_is_at_most_once(woken.registrations, woken.queue, room);
}

} // verus!
