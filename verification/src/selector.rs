//! The selector: the map of live registrations and the queue of announced
//! events, and the registrations through which sources announce.

use crate::channel::{EventChannel, Message};
use crate::interest::{Interest, Token};
use std::collections::HashMap;
use vstd::prelude::*;

verus! {

/// The key under which a selector knows a registration. Never zero; a
/// selector hands its ids out in increasing order.
#[derive(Clone, Copy, Debug, PartialEq, Eq, Hash, Structural)]
pub struct RegistrationId(pub usize);

impl RegistrationId {
    /// Takes the next id from `counter`.
    pub fn new(counter: &mut usize) -> (id: RegistrationId)
        requires
            *old(counter) < usize::MAX,
        ensures
            id.0 == *old(counter),
            *final(counter) == *old(counter) + 1,
    {
        let id = RegistrationId(*counter);
        *counter = *counter + 1;
        id
    }
}

/// The readiness edges that a source can announce.
#[derive(Clone, Copy, Debug, PartialEq, Eq, Structural)]
pub enum EventKind {
    Readable,
    ReadClosed,
    ReadError,
    Writable,
    WriteClosed,
    WriteError,
}

impl EventKind {
    /// Whether an edge of this kind is for a recipient with `interest`:
    /// readable and read-closed edges for one that reads, writable and
    /// write-closed edges for one that writes, error edges always.
    pub open spec fn matches(self, interest: Interest) -> bool {
        match self {
            EventKind::Readable | EventKind::ReadClosed => interest.is_readable(),
            EventKind::Writable | EventKind::WriteClosed => interest.is_writable(),
            EventKind::ReadError | EventKind::WriteError => true,
        }
    }

    /// Whether an edge of this kind is for a recipient with `interest`.
    pub fn matches_interest(&self, interest: &Interest) -> (m: bool)
        ensures
            m == self.matches(*interest),
    {
        match self {
            EventKind::Readable | EventKind::ReadClosed => interest.is_readable(),
            EventKind::Writable | EventKind::WriteClosed => interest.is_writable(),
            EventKind::ReadError | EventKind::WriteError => true,
        }
    }
}

/// One readiness edge as a poller sees it: its kind and the token of the
/// source it is for.
#[derive(Clone, Copy, Debug, PartialEq, Eq, Structural)]
pub struct Event {
    pub kind: EventKind,
    pub token: Token,
}

impl Event {
    /// The event of `kind` for the source registered under `token`.
    pub fn new(kind: EventKind, token: Token) -> (e: Event)
        ensures
            e == (Event { kind, token }),
    {
        Event { kind, token }
    }
}

/// A buffer of events with a fixed capacity.
pub struct Events {
    list: Vec<Event>,
    capacity: usize,
}

impl View for Events {
    type V = Seq<Event>;

    closed spec fn view(&self) -> Seq<Event> {
        self.list@
    }
}

impl Events {
    /// How many events the buffer has room for.
    pub closed spec fn spec_capacity(&self) -> usize {
        self.capacity
    }

    /// No more events than the capacity.
    pub closed spec fn wf(&self) -> bool {
        self.list@.len() <= self.capacity
    }

    /// An empty buffer with room for `capacity` events.
    pub fn with_capacity(capacity: usize) -> (events: Events)
        ensures
            events.wf(),
            events@ == Seq::<Event>::empty(),
            events.capacity() == capacity,
    {
        Events { list: Vec::with_capacity(capacity), capacity }
    }

    /// How many events the buffer has room for.
    #[verifier::when_used_as_spec(spec_capacity)]
    pub fn capacity(&self) -> (c: usize)
        ensures
            c == self.capacity(),
    {
        self.capacity
    }

    /// How many events the buffer holds.
    pub fn len(&self) -> (n: usize)
        ensures
            n == self@.len(),
    {
        self.list.len()
    }

    /// Whether the buffer holds no event.
    pub fn is_empty(&self) -> (e: bool)
        ensures
            e == (self@.len() == 0),
    {
        self.list.len() == 0
    }

    /// The event at index `i`, if there is one.
    pub fn get(&self, i: usize) -> (e: Option<Event>)
        ensures
            e == (if i < self@.len() {
                Some(self@[i as int])
            } else {
                None
            }),
    {
        if i < self.list.len() {
            Some(self.list[i])
        } else {
            None
        }
    }

    /// Removes every event; the capacity stays.
    pub fn clear(&mut self)
        ensures
            final(self)@ == Seq::<Event>::empty(),
            final(self).capacity() == old(self).capacity(),
            final(self).wf(),
    {
        self.list.clear();
    }

    /// The events as a vector, in order.
    pub fn to_vec(&self) -> (v: Vec<Event>)
        ensures
            v@ == self@,
    {
        self.list.clone()
    }

    fn push(&mut self, event: Event)
        requires
            old(self)@.len() < old(self).capacity(),
        ensures
            final(self)@ == old(self)@.push(event),
            final(self).capacity() == old(self).capacity(),
            final(self).wf(),
    {
        self.list.push(event);
    }
}

/// The event that a selector delivers for a queued message: none when the
/// message's registration is gone or its kind does not match the recorded
/// interest, else the kind with the recorded token.
pub open spec fn delivery(registrations: Map<usize, (Token, Interest)>, msg: Message) -> Option<
    Event,
> {
    if registrations.contains_key(msg.0.0) && msg.1.matches(registrations[msg.0.0].1) {
        Some(Event { kind: msg.1, token: registrations[msg.0.0].0 })
    } else {
        None
    }
}

/// The events that draining `queue` delivers into a buffer with room for
/// `room` more events: the deliveries of the queued messages in order, until
/// the room is used up.
pub open spec fn deliveries(
    registrations: Map<usize, (Token, Interest)>,
    queue: Seq<Message>,
    room: nat,
) -> Seq<Event>
    decreases queue.len(),
{
    if room == 0 || queue.len() == 0 {
        Seq::empty()
    } else {
        match delivery(registrations, queue[0]) {
            Some(event) => seq![event] + deliveries(
                registrations,
                queue.drop_first(),
                (room - 1) as nat,
            ),
            None => deliveries(registrations, queue.drop_first(), room),
        }
    }
}

/// The messages that stay queued after such a drain: everything behind the
/// message whose delivery filled the buffer.
pub open spec fn leftover(
    registrations: Map<usize, (Token, Interest)>,
    queue: Seq<Message>,
    room: nat,
) -> Seq<Message>
    decreases queue.len(),
{
    if room == 0 || queue.len() == 0 {
        queue
    } else {
        match delivery(registrations, queue[0]) {
            Some(_) => leftover(registrations, queue.drop_first(), (room - 1) as nat),
            None => leftover(registrations, queue.drop_first(), room),
        }
    }
}

/// A selector as a value: its id, the next registration id it will hand out,
/// the token and interest of each live registration, and the queued messages.
pub struct SelectorView {
    pub id: usize,
    pub next_id: usize,
    pub registrations: Map<usize, (Token, Interest)>,
    pub queue: Seq<Message>,
    pub has_waker: bool,
}

impl SelectorView {
    /// No id is zero, and every id in use was handed out before.
    pub open spec fn wf(self) -> bool {
        &&& 1 <= self.next_id
        &&& forall|id: usize| #[trigger]
            self.registrations.contains_key(id) ==> 1 <= id < self.next_id
    }

    /// Whether an id is left to hand out.
    pub open spec fn can_register(self) -> bool {
        self.next_id < usize::MAX
    }

    /// The registration that the selector hands out next for `token` and
    /// `interest`.
    pub open spec fn next_registration(self, token: Token, interest: Interest) -> Registration {
        Registration { id: RegistrationId(self.next_id), selector: self.id, token, interest }
    }

    /// The selector after a registration with `token` and `interest` was
    /// added under the next id.
    pub open spec fn register(self, token: Token, interest: Interest) -> SelectorView {
        SelectorView {
            next_id: (self.next_id + 1) as usize,
            registrations: self.registrations.insert(self.next_id, (token, interest)),
            ..self
        }
    }

    /// The selector after a drain into a buffer with room for `room` events:
    /// only the messages that the drain did not reach stay queued.
    pub open spec fn drained(self, room: nat) -> SelectorView {
        SelectorView { queue: leftover(self.registrations, self.queue, room), ..self }
    }

    /// The selector with `msg` queued behind the others.
    pub open spec fn pushed(self, msg: Message) -> SelectorView {
        SelectorView { queue: self.queue.push(msg), ..self }
    }
}

/// The event bus of a set of sources.
pub struct Selector {
    id: usize,
    next_id: usize,
    registrations: HashMap<usize, (Token, Interest)>,
    channel: EventChannel,
    has_waker: bool,
}

impl View for Selector {
    type V = SelectorView;

    closed spec fn view(&self) -> SelectorView {
        SelectorView {
            id: self.id,
            next_id: self.next_id,
            registrations: self.registrations@,
            queue: self.channel@,
            has_waker: self.has_waker,
        }
    }
}

impl Selector {
    /// The two ends of the event queue belong together, and the selector's
    /// value is well formed.
    pub closed spec fn wf(&self) -> bool {
        &&& self.channel.wf()
        &&& self@.wf()
    }

    /// A selector with the given id, no registration and no queued event.
    pub fn new(id: usize) -> (selector: Selector)
        ensures
            selector.wf(),
            selector@ == (SelectorView {
                id,
                next_id: 1,
                registrations: Map::empty(),
                queue: Seq::empty(),
                has_waker: false,
            }),
    {
        Selector {
            id,
            next_id: 1,
            registrations: HashMap::new(),
            channel: EventChannel::new(),
            has_waker: false,
        }
    }

    /// The id this selector was made with.
    pub fn id(&self) -> (id: usize)
        ensures
            id == self@.id,
    {
        self.id
    }

    /// Notes that a waker was made for this selector; returns whether one
    /// had been noted before.
    pub fn register_waker(&mut self) -> (had: bool)
        requires
            old(self).wf(),
        ensures
            final(self).wf(),
            had == old(self)@.has_waker,
            final(self)@ == (SelectorView { has_waker: true, ..old(self)@ }),
    {
        let had = self.has_waker;
        self.has_waker = true;
        had
    }

    /// The token and interest recorded under `id`, if a registration with
    /// that id is live.
    pub fn registered(&self, id: RegistrationId) -> (details: Option<(Token, Interest)>)
        ensures
            details == (if self@.registrations.contains_key(id.0) {
                Some(self@.registrations[id.0])
            } else {
                None
            }),
    {
        broadcast use vstd::std_specs::hash::group_hash_axioms;

        match self.registrations.get(&id.0) {
            Some(details) => Some(*details),
            None => None,
        }
    }

    /// Whether the selector has an id left for one more registration.
    pub fn can_register(&self) -> (can: bool)
        ensures
            can == self@.can_register(),
    {
        self.next_id < usize::MAX
    }

    /// Whether an announced event waits to be delivered.
    pub fn has_pending(&self) -> (pending: bool)
        ensures
            pending == (self@.queue.len() > 0),
    {
        !self.channel.is_empty()
    }

    /// How long a poll that precedes a drain may wait, in nanoseconds: not at
    /// all when an event is queued already, else as long as the caller said
    /// (`None`: until woken).
    pub fn poll_timeout(&self, timeout: Option<u128>) -> (wait: Option<u128>)
        ensures
            wait == (if self@.queue.len() > 0 {
                Some(0u128)
            } else {
                timeout
            }),
    {
        if self.has_pending() {
            Some(0)
        } else {
            timeout
        }
    }

    /// Empties `events`, then moves queued messages into it in order: a
    /// message of a registration that is gone, or whose kind its interest does
    /// not match, is dropped; every other one becomes an event with the
    /// registration's token. Stops when `events` is full; what it did not
    /// reach stays queued.
    pub fn select(&mut self, events: &mut Events)
        requires
            old(self).wf(),
        ensures
            final(self).wf(),
            final(events).wf(),
            final(events).capacity() == old(events).capacity(),
            final(events)@ == deliveries(
                old(self)@.registrations,
                old(self)@.queue,
                old(events).capacity() as nat,
            ),
            final(self)@ == old(self)@.drained(old(events).capacity() as nat),
    {
        broadcast use vstd::std_specs::hash::group_hash_axioms;

        events.clear();
        let ghost regs = self@.registrations;
        let ghost queue = self@.queue;
        let ghost room = events.capacity() as nat;
        loop
            invariant
                self.wf(),
                events.wf(),
                events.capacity() == room,
                self@.registrations == regs,
                self@.id == old(self)@.id,
                self@.next_id == old(self)@.next_id,
                self@.has_waker == old(self)@.has_waker,
                deliveries(regs, queue, room) == events@ + deliveries(
                    regs,
                    self@.queue,
                    (room - events@.len()) as nat,
                ),
                leftover(regs, queue, room) == leftover(
                    regs,
                    self@.queue,
                    (room - events@.len()) as nat,
                ),
            ensures
                events@.len() >= room || self@.queue.len() == 0,
            decreases self@.queue.len(),
        {
            if events.len() >= events.capacity() {
                break ;
            }
            let received = self.channel.try_recv();
            match received {
                None => {
                    break ;
                },
                Some(msg) => {
                    let id = msg.0;
                    let kind = msg.1;
                    match self.registrations.get(&id.0) {
                        Some(details) => {
                            if kind.matches_interest(&details.1) {
                                events.push(Event::new(kind, details.0));
                            }
                        },
                        None => {},
                    }
                },
            }
        }
        assert(events@ + Seq::<Event>::empty() =~= events@);
        assert(self@ =~= old(self)@.drained(room));
    }
}

/// A handle to the request provider of one selector, named by the selector's
/// id. A source that holds one can submit requests.
#[derive(Clone, Copy, Debug, PartialEq, Eq, Structural)]
pub struct Provider {
    pub selector: usize,
}

impl Provider {
    /// The provider of `selector`.
    pub fn new(selector: &Selector) -> (p: Provider)
        ensures
            p.selector == selector@.id,
    {
        Provider { selector: selector.id }
    }
}

/// What a registered source holds: its id in the selector's map, the id of
/// that selector, and its own copy of the token and interest recorded there.
#[derive(Debug)]
pub struct Registration {
    pub id: RegistrationId,
    pub selector: usize,
    pub token: Token,
    pub interest: Interest,
}

impl Registration {
    /// Whether this registration was made with the selector `s`.
    pub open spec fn belongs_to(self, s: SelectorView) -> bool {
        self.selector == s.id
    }

    /// Whether announcing `kind` to `s` queues a message: the registration is
    /// of that selector and its interest lets the kind pass.
    pub open spec fn announces(self, s: SelectorView, kind: EventKind) -> bool {
        self.belongs_to(s) && kind.matches(self.interest)
    }

    /// The selector after this registration announced `kind` to it.
    pub open spec fn announce(self, s: SelectorView, kind: EventKind) -> SelectorView {
        if self.announces(s, kind) {
            s.pushed((self.id, kind))
        } else {
            s
        }
    }

    /// Whether a change to `token` and `interest` is one: the registration is
    /// of the selector `s` and one of the two differs from what it holds.
    pub open spec fn changes(self, s: SelectorView, token: Token, interest: Interest) -> bool {
        self.belongs_to(s) && (self.token != token || self.interest != interest)
    }

    /// This registration with another token and interest.
    pub open spec fn with_details(self, token: Token, interest: Interest) -> Registration {
        Registration { token, interest, ..self }
    }

    /// The selector with this registration's token and interest recorded under
    /// its id, where the id is in the selector's map.
    pub open spec fn recorded(self, s: SelectorView) -> SelectorView {
        if s.registrations.contains_key(self.id.0) {
            SelectorView {
                registrations: s.registrations.insert(self.id.0, (self.token, self.interest)),
                ..s
            }
        } else {
            s
        }
    }

    /// The selector after this registration was given up: its id is no longer
    /// in the map of the selector it belongs to.
    pub open spec fn released(self, s: SelectorView) -> SelectorView {
        if self.belongs_to(s) {
            SelectorView { registrations: s.registrations.remove(self.id.0), ..s }
        } else {
            s
        }
    }

    /// Registers with `selector`: takes a fresh id and records `token` and
    /// `interest` under it.
    pub fn new(selector: &mut Selector, token: Token, interest: Interest) -> (r: Registration)
        requires
            old(selector).wf(),
            old(selector)@.can_register(),
        ensures
            final(selector).wf(),
            r == old(selector)@.next_registration(token, interest),
            final(selector)@ == old(selector)@.register(token, interest),
    {
        broadcast use vstd::std_specs::hash::group_hash_axioms;

        let id = RegistrationId::new(&mut selector.next_id);
        selector.registrations.insert(id.0, (token, interest));
        assert(selector@ =~= old(selector)@.register(token, interest));
        Registration { id, selector: selector.id, token, interest }
    }

    /// The provider of the selector this registration belongs to.
    pub fn provider(&self) -> (p: Provider)
        ensures
            p.selector == self.selector,
    {
        Provider { selector: self.selector }
    }

    /// Changes token and interest, here and in the selector's map. Returns
    /// whether anything changed; with the values it holds already, or with a
    /// selector that is not its own, nothing does.
    pub fn change_details(&mut self, selector: &mut Selector, token: Token, interest: Interest) -> (changed: bool)
        requires
            old(selector).wf(),
        ensures
            final(selector).wf(),
            changed == old(self).changes(old(selector)@, token, interest),
            changed ==> *final(self) == old(self).with_details(token, interest) && final(selector)@ == final(self).recorded(old(selector)@),
            !changed ==> *final(self) == *old(self) && final(selector)@ == old(selector)@,
    {
        broadcast use vstd::std_specs::hash::group_hash_axioms;

        if selector.id != self.selector || (self.token == token && self.interest == interest) {
            return false;
        }
        self.token = token;
        self.interest = interest;
        if selector.registrations.contains_key(&self.id.0) {
            selector.registrations.insert(self.id.0, (self.token, self.interest));
        }
        assert(selector@ =~= self.recorded(old(selector)@));
        true
    }

    /// The token this registration holds.
    pub fn token(&self) -> (t: Token)
        ensures
            t == self.token,
    {
        self.token
    }

    /// Announces an edge of `kind`: queues it with the selector when the
    /// interest lets the kind pass (an error edge always passes) and the
    /// selector is this registration's own. Returns whether it was queued,
    /// which is when a thread parked in a poll has to be woken.
    pub fn push_event(&self, selector: &mut Selector, kind: EventKind) -> (queued: bool)
        requires
            old(selector).wf(),
        ensures
            final(selector).wf(),
            queued == self.announces(old(selector)@, kind),
            final(selector)@ == self.announce(old(selector)@, kind),
    {
        if selector.id == self.selector && kind.matches_interest(&self.interest) {
            selector.channel.send((self.id, kind));
            assert(selector@ =~= self.announce(old(selector)@, kind));
            true
        } else {
            false
        }
    }

    /// Gives the registration up: its id leaves the selector's map. Messages
    /// of this id that are queued already stay queued and are dropped when
    /// the selector reaches them.
    pub fn release(self, selector: &mut Selector)
        requires
            old(selector).wf(),
        ensures
            final(selector).wf(),
            final(selector)@ == self.released(old(selector)@),
    {
        broadcast use vstd::std_specs::hash::group_hash_axioms;

        if selector.id == self.selector {
            selector.registrations.remove(&self.id.0);
            assert(selector@ =~= self.released(old(selector)@));
        }
    }
}

} // verus!
