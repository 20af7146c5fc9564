//! The subscriptions to train events, and the delivery of events to their subscribers.

use vstd::prelude::*;

use dashmap::mapref::one::Ref;
use dashmap::DashMap;
use std::collections::hash_map::RandomState;
use tokio::sync::mpsc::error::SendError;
use tokio::sync::mpsc::{UnboundedReceiver, UnboundedSender};

use crate::error::Error;
use crate::protocol::event::Event;

verus! {

/// Declares `dashmap::DashMap`, a concurrent hash map; opaque to Verus.
#[verifier::external_type_specification]
#[verifier::external_body]
#[verifier::reject_recursive_types(K)]
#[verifier::reject_recursive_types(V)]
#[verifier::reject_recursive_types(S)]
pub struct ExDashMap<K, V, S = RandomState>(DashMap<K, V, S>);

/// Declares `dashmap::mapref::one::Ref`, a read guard on one entry; opaque to Verus.
#[verifier::external_type_specification]
#[verifier::external_body]
#[verifier::reject_recursive_types(K)]
#[verifier::reject_recursive_types(V)]
#[verifier::reject_recursive_types(S)]
pub struct ExRef<'a, K, V, S = RandomState>(Ref<'a, K, V, S>);

/// Declares `tokio::sync::mpsc::UnboundedSender`; opaque to Verus.
#[verifier::external_type_specification]
#[verifier::external_body]
#[verifier::reject_recursive_types(T)]
pub struct ExUnboundedSender<T>(UnboundedSender<T>);

/// Declares `tokio::sync::mpsc::UnboundedReceiver`; opaque to Verus.
#[verifier::external_type_specification]
#[verifier::external_body]
#[verifier::reject_recursive_types(T)]
pub struct ExUnboundedReceiver<T>(UnboundedReceiver<T>);

/// Declares `tokio::sync::mpsc::error::SendError`; opaque to Verus.
#[verifier::external_type_specification]
#[verifier::external_body]
#[verifier::reject_recursive_types(T)]
pub struct ExSendError<T>(SendError<T>);

/// The contents of a subscription map: for each train id (a key, taken by its view), the
/// sender stored under it.
pub uninterp spec fn stored_senders(
    m: DashMap<String, UnboundedSender<Event>, RandomState>,
) -> Map<Seq<char>, UnboundedSender<Event>>;

/// The sender that an entry guard of a subscription map gives access to.
pub uninterp spec fn entry_value(
    entry: Ref<'_, String, UnboundedSender<Event>, RandomState>,
) -> UnboundedSender<Event>;

/// Whether `sender` and `receiver` are the two ends of one channel: what is sent through
/// the one arrives at the other.
pub uninterp spec fn same_channel(
    sender: UnboundedSender<Event>,
    receiver: UnboundedReceiver<Event>,
) -> bool;

/// Calls `DashMap::new`; claims that the new map stores nothing.
#[verifier::external_body]
fn subscriptions_new() -> (m: DashMap<String, UnboundedSender<Event>, RandomState>)
    ensures
        stored_senders(m).dom() == Set::<Seq<char>>::empty(),
{
    DashMap::new()
}

/// Calls `DashMap::insert`; claims that afterwards the map stores `sender` under the key
/// and keeps what it stored under every other key (the sender stored before under the
/// key, if any, is replaced and dropped).
#[verifier::external_body]
fn subscriptions_insert(
    m: &mut DashMap<String, UnboundedSender<Event>, RandomState>,
    train_id: String,
    sender: UnboundedSender<Event>,
)
    ensures
        stored_senders(*final(m)) == stored_senders(*old(m)).insert(train_id@, sender),
{
    let _ = m.insert(train_id, sender);
}

/// Calls `DashMap::get`; claims that it finds an entry exactly when the map stores
/// something under the key, and that the entry gives access to what is stored there.
#[verifier::external_body]
fn subscriptions_get<'a>(
    m: &'a DashMap<String, UnboundedSender<Event>, RandomState>,
    train_id: &str,
) -> (r: Option<Ref<'a, String, UnboundedSender<Event>, RandomState>>)
    ensures
        r is Some <==> stored_senders(*m).contains_key(train_id@),
        r matches Some(e) ==> entry_value(e) == stored_senders(*m)[train_id@],
{
    m.get(train_id)
}

/// Calls `Ref::value`; claims that it gives the sender the entry refers to.
#[verifier::external_body]
fn entry_sender<'a, 'b>(
    entry: &'b Ref<'a, String, UnboundedSender<Event>, RandomState>,
) -> (r: &'b UnboundedSender<Event>)
    ensures
        *r == entry_value(*entry),
{
    entry.value()
}

/// Calls `tokio::sync::mpsc::unbounded_channel`; claims that the pair are the two ends of
/// one new channel.
#[verifier::external_body]
fn open_channel() -> (r: (UnboundedSender<Event>, UnboundedReceiver<Event>))
    ensures
        same_channel(r.0, r.1),
{
    tokio::sync::mpsc::unbounded_channel()
}

/// Calls `UnboundedSender::send`. Whether it succeeds depends on whether the receiving
/// side still exists, so nothing is claimed of the result.
#[verifier::external_body]
fn send_event(sender: &UnboundedSender<Event>, event: Event) -> Result<(), SendError<Event>> {
    sender.send(event)
}

/// What handing an event to its subscriber comes to, given the outcome of the send:
/// success where the send succeeded, and otherwise a `ChannelError` with the event's
/// name.
pub fn delivery_result(sent: Result<(), SendError<Event>>, event_name: String) -> (r: Result<(), Error>)
    ensures
        sent is Ok ==> r is Ok,
        sent is Err ==> (r matches Err(Error::ChannelError(m)) && m@ == event_name@),
{
    match sent {
        Ok(()) => Ok(()),
        Err(_) => Err(Error::ChannelError(event_name)),
    }
}

/// The event subscriptions of a plugin: for each subscribed train, the sender through
/// which its events reach the subscriber.
#[derive(Debug)]
pub struct Standby {
    events: DashMap<String, UnboundedSender<Event>, RandomState>,
}

impl Standby {
    /// The sender stored for each subscribed train, by train id.
    pub closed spec fn senders(&self) -> Map<Seq<char>, UnboundedSender<Event>> {
        stored_senders(self.events)
    }

    /// The ids of the subscribed trains.
    pub open spec fn subscriptions(&self) -> Set<Seq<char>> {
        self.senders().dom()
    }

    /// Whether the events of train `train_id` reach `receiver`: the sender stored for the
    /// train is the other end of `receiver`'s channel.
    pub open spec fn delivers_to(&self, train_id: Seq<char>, receiver: UnboundedReceiver<Event>) -> bool {
        self.senders().contains_key(train_id) && same_channel(self.senders()[train_id], receiver)
    }

    /// A standby without subscriptions.
    pub fn new() -> (r: Standby)
        ensures
            r.senders() == Map::<Seq<char>, UnboundedSender<Event>>::empty(),
    {
        let r = Standby { events: subscriptions_new() };
        assert(r.senders() =~= Map::<Seq<char>, UnboundedSender<Event>>::empty());
        r
    }

    /// Subscribes to the events of the train `train_id` and returns the receiver on which
    /// they arrive: the sender of a new channel is stored for the train, in place of the
    /// one stored before (whose receiver then gets no more events), and the senders of all
    /// other trains stay as they were.
    pub fn receive_events(&mut self, train_id: String) -> (r: UnboundedReceiver<Event>)
        ensures
            final(self).senders() == old(self).senders().insert(
                train_id@,
                final(self).senders()[train_id@],
            ),
            final(self).delivers_to(train_id@, r),
    {
        let ghost id = train_id@;
        let (tx, rx) = open_channel();
        subscriptions_insert(&mut self.events, train_id, tx);
        proof {
            assert(self.senders()[id] == tx);
        }
        rx
    }

    /// The entry for the subscriber of train `train_id`, if there is one; it gives access
    /// to the sender stored for the train.
    fn subscriber(&self, train_id: &str) -> (r: Option<Ref<'_, String, UnboundedSender<Event>, RandomState>>)
        ensures
            r is Some <==> self.subscriptions().contains(train_id@),
            r matches Some(e) ==> entry_value(e) == self.senders()[train_id@],
    {
        subscriptions_get(&self.events, train_id)
    }

    /// Hands an event to the subscriber of its train, through the sender stored for the
    /// train. An event of a train without subscription is dropped. Where the subscriber is
    /// gone, the result is a `ChannelError` that names the event.
    pub fn process_event(&self, event: Event) -> (r: Result<(), Error>)
        ensures
            !self.subscriptions().contains(event.id@) ==> r is Ok,
            match r {
                Ok(()) => true,
                Err(e) => self.subscriptions().contains(event.id@) && (e matches Error::ChannelError(
                    m,
                ) && m@ == event.name@),
            },
    {
        let name = event.name.clone();
        let entry = self.subscriber(event.id.as_str());
        match entry {
            Some(entry) => {
                let sender = entry_sender(&entry);
                assert(*sender == self.senders()[event.id@]);
                let sent = send_event(sender, event);
                delivery_result(sent, name)
            },
            None => Ok(()),
        }
    }
}

/// A subscription stays in force until the same train is subscribed again: where the
/// events of train `id` reach `receiver`, they still do after a subscription to another
/// train, which stores a sender for that train only.
pub proof fn lemma_subscription_survives_other_subscriptions(
    before: Standby,
    after: Standby,
    id: Seq<char>,
    other: Seq<char>,
    sender: UnboundedSender<Event>,
    receiver: UnboundedReceiver<Event>,
)
    requires
        before.delivers_to(id, receiver),
        other != id,
        after.senders() == before.senders().insert(other, sender),
    ensures
        after.delivers_to(id, receiver),
{
}

impl Default for Standby {
    fn default() -> (r: Standby)
        ensures
            r.senders() == Map::<Seq<char>, UnboundedSender<Event>>::empty(),
    {
        Standby::new()
    }
}

} // verus!
