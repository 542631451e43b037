//! The queue of announced events, kept in an unbounded `crossbeam_channel`.
//!
//! The channel's two ends are held together and reached only through
//! [`EventChannel`], whose methods take `&mut self`: what is said below of the
//! queued messages is said of a channel that one owner uses at a time.

use crate::selector::{EventKind, RegistrationId};
use crossbeam_channel::{Receiver, Sender};
use vstd::prelude::*;

verus! {

/// What travels through the channel: who announces, and which edge.
pub type Message = (RegistrationId, EventKind);

/// `crossbeam_channel::Sender`, a sending end of a channel. Nothing is known
/// of what is inside.
#[verifier::external_type_specification]
#[verifier::external_body]
#[verifier::reject_recursive_types(T)]
pub struct ExSender<T>(crossbeam_channel::Sender<T>);

/// `crossbeam_channel::Receiver`, a receiving end of a channel. Nothing is
/// known of what is inside but what `queued` and `same_channel` name.
#[verifier::external_type_specification]
#[verifier::external_body]
#[verifier::reject_recursive_types(T)]
pub struct ExReceiver<T>(crossbeam_channel::Receiver<T>);

/// The messages that were sent into the channel of `rx` and not yet received,
/// oldest first.
pub uninterp spec fn queued(rx: Receiver<Message>) -> Seq<Message>;

/// Whether `tx` is a sending end of the channel that `rx` receives from.
pub uninterp spec fn same_channel(tx: Sender<Message>, rx: Receiver<Message>) -> bool;

/// `crossbeam_channel::unbounded`: the two ends of one new channel, which
/// holds no message yet.
#[verifier::external_body]
fn channel_unbounded() -> (ends: (Sender<Message>, Receiver<Message>))
    ensures
        same_channel(ends.0, ends.1),
        queued(ends.1) == Seq::<Message>::empty(),
{
    crossbeam_channel::unbounded()
}

/// `Sender::send` on an unbounded channel whose receiving end is alive: the
/// message is appended behind those already queued. The receiving end is
/// passed along because the queue it stands for grows.
#[verifier::external_body]
fn channel_send(tx: &Sender<Message>, rx: &mut Receiver<Message>, msg: Message)
    requires
        same_channel(*tx, *old(rx)),
    ensures
        same_channel(*tx, *final(rx)),
        queued(*final(rx)) == queued(*old(rx)).push(msg),
{
    let _ = tx.send(msg);
}

/// `Receiver::try_recv`: takes the oldest queued message out, or returns
/// `None` and leaves the channel as it was when nothing is queued.
#[verifier::external_body]
fn channel_try_recv(rx: &mut Receiver<Message>) -> (msg: Option<Message>)
    ensures
        forall|tx: Sender<Message>|
            same_channel(tx, *old(rx)) ==> #[trigger] same_channel(tx, *final(rx)),
        queued(*old(rx)).len() == 0 ==> msg.is_none() && queued(*final(rx)) == queued(*old(rx)),
        queued(*old(rx)).len() > 0 ==> msg == Some(queued(*old(rx))[0]) && queued(*final(rx))
            == queued(*old(rx)).drop_first(),
{
    rx.try_recv().ok()
}

/// `Receiver::is_empty`: whether no message is queued.
#[verifier::external_body]
fn channel_is_empty(rx: &Receiver<Message>) -> (empty: bool)
    ensures
        empty == (queued(*rx).len() == 0),
{
    rx.is_empty()
}

/// An unbounded first-in first-out queue of messages.
pub struct EventChannel {
    tx: Sender<Message>,
    rx: Receiver<Message>,
}

impl View for EventChannel {
    type V = Seq<Message>;

    /// The queued messages, oldest first.
    closed spec fn view(&self) -> Seq<Message> {
        queued(self.rx)
    }
}

impl EventChannel {
    /// Both ends belong to one channel.
    pub closed spec fn wf(&self) -> bool {
        same_channel(self.tx, self.rx)
    }

    /// A new, empty channel.
    pub fn new() -> (ch: EventChannel)
        ensures
            ch.wf(),
            ch@ == Seq::<Message>::empty(),
    {
        let (tx, rx) = channel_unbounded();
        EventChannel { tx, rx }
    }

    /// Appends `msg` behind the queued messages.
    pub fn send(&mut self, msg: Message)
        requires
            old(self).wf(),
        ensures
            final(self).wf(),
            final(self)@ == old(self)@.push(msg),
    {
        channel_send(&self.tx, &mut self.rx, msg);
    }

    /// Takes the oldest message out, if there is one.
    pub fn try_recv(&mut self) -> (msg: Option<Message>)
        requires
            old(self).wf(),
        ensures
            final(self).wf(),
            old(self)@.len() == 0 ==> msg.is_none() && final(self)@ == old(self)@,
            old(self)@.len() > 0 ==> msg == Some(old(self)@[0]) && final(self)@ == old(self)@.drop_first(),
    {
        channel_try_recv(&mut self.rx)
    }

    /// Whether nothing is queued.
    pub fn is_empty(&self) -> (empty: bool)
        ensures
            empty == (self@.len() == 0),
    {
        channel_is_empty(&self.rx)
    }
}

} // verus!
