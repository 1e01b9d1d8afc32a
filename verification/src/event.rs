//! The event bus: a publish/subscribe side channel that is independent of the
//! request/response path.
//!
//! The bus keeps one mailbox for each live subscription. Publishing appends
//! the event to every mailbox that is live at that moment; a subscription
//! takes its events out in the order in which they were published. A
//! subscription that is cancelled gives its mailbox up at once.

use std::collections::VecDeque;
use std::sync::Arc;
use vstd::prelude::*;
use vstd::rwlock::RwLock;
use vstd::rwlock::RwLockPredicate;

verus! {

/// Event payload emitted over transports.
#[derive(Debug)]
pub struct TransportEvent {
    pub topic: String,
    pub payload: Vec<u8>,
}

/// What an event holds, as plain values.
pub struct EventData {
    pub topic: Seq<char>,
    pub payload: Seq<u8>,
}

impl View for TransportEvent {
    type V = EventData;

    open spec fn view(&self) -> EventData {
        EventData { topic: self.topic@, payload: self.payload@ }
    }
}

impl Clone for TransportEvent {
    fn clone(&self) -> (event: Self)
        ensures
            event@ == self@,
    {
        Self { topic: self.topic.clone(), payload: self.payload.clone() }
    }
}

/// Errors of the event bus: a publisher's and a subscriber's.
#[derive(Debug)]
pub enum EventError {
    Publish(String),
    Receive(String),
}

impl EventError {
    /// The text that describes this error.
    pub open spec fn message_text(&self) -> Seq<char> {
        match self {
            EventError::Publish(msg) => msg@,
            EventError::Receive(msg) => msg@,
        }
    }

    /// Renders the error as text.
    pub fn message(&self) -> (text: String)
        ensures
            text@ == self.message_text(),
    {
        match self {
            EventError::Publish(msg) => msg.clone(),
            EventError::Receive(msg) => msg.clone(),
        }
    }
}

impl Clone for EventError {
    fn clone(&self) -> (err: Self)
        ensures
            err == *self,
    {
        match self {
            EventError::Publish(msg) => EventError::Publish(msg.clone()),
            EventError::Receive(msg) => EventError::Receive(msg.clone()),
        }
    }
}

/// The pending events of each live subscription, oldest first, by
/// subscription id.
pub type Mailboxes = Map<usize, Seq<EventData>>;

/// The mailboxes after `event` was published: it stands last in each of them.
pub open spec fn published(boxes: Mailboxes, event: EventData) -> Mailboxes {
    Map::new(|id: usize| boxes.contains_key(id), |id: usize| boxes[id].push(event))
}

/// The mailboxes after `events` were published one after the other.
pub open spec fn published_all(boxes: Mailboxes, events: Seq<EventData>) -> Mailboxes
    decreases events.len(),
{
    if events.len() == 0 {
        boxes
    } else {
        published(published_all(boxes, events.drop_last()), events.last())
    }
}

/// The mailboxes after a subscription was created under `id`: it starts with
/// nothing pending.
pub open spec fn subscribed(boxes: Mailboxes, id: usize) -> Mailboxes {
    boxes.insert(id, Seq::empty())
}

/// The mailboxes after the subscription `id` took its oldest pending event.
pub open spec fn taken(boxes: Mailboxes, id: usize) -> Mailboxes {
    if boxes.contains_key(id) && boxes[id].len() > 0 {
        boxes.insert(id, boxes[id].drop_first())
    } else {
        boxes
    }
}

/// What a closed bus answers to a publisher and to a subscription that has
/// nothing left to take.
pub const BUS_CLOSED: &'static str = "event bus is closed";

/// What an id without a live subscription gets when it asks for an event.
pub const NOT_SUBSCRIBED: &'static str = "subscription is not live";

/// Whether `result` is what publishing returns on a bus that is closed or not:
/// success on an open bus, and the `Publish` error on a closed one.
pub open spec fn publish_result(closed: bool, result: Result<(), EventError>) -> bool {
    if closed {
        result matches Err(EventError::Publish(msg)) && msg@ == BUS_CLOSED@
    } else {
        result is Ok
    }
}

/// Whether `result` is what the subscription `id` gets when it asks for its
/// next event: the oldest pending one; nothing yet, while the bus is open; the
/// `Receive` error once the bus was closed and nothing is pending, or where
/// `id` has no live subscription.
pub open spec fn take_result(
    boxes: Mailboxes,
    closed: bool,
    id: usize,
    result: Result<Option<TransportEvent>, EventError>,
) -> bool {
    if !boxes.contains_key(id) {
        result matches Err(EventError::Receive(msg)) && msg@ == NOT_SUBSCRIBED@
    } else if boxes[id].len() > 0 {
        result matches Ok(Some(event)) && event@ == boxes[id][0]
    } else if closed {
        result matches Err(EventError::Receive(msg)) && msg@ == BUS_CLOSED@
    } else {
        result matches Ok(None)
    }
}

/// The mailboxes after the subscription `id` took an event `n` times.
pub open spec fn taken_times(boxes: Mailboxes, id: usize, n: nat) -> Mailboxes
    decreases n,
{
    if n == 0 {
        boxes
    } else {
        taken(taken_times(boxes, id, (n - 1) as nat), id)
    }
}

/// Publishing a run of events appends the run, in its order, to the mailbox
/// of every live subscription, and neither adds nor drops a subscription.
pub proof fn lemma_published_all(boxes: Mailboxes, events: Seq<EventData>)
    ensures
        published_all(boxes, events).dom() == boxes.dom(),
        forall|id: usize| #[trigger]
            boxes.contains_key(id) ==> published_all(boxes, events)[id] == boxes[id] + events,
    decreases events.len(),
{
    if events.len() > 0 {
        lemma_published_all(boxes, events.drop_last());
        assert(events.drop_last().push(events.last()) =~= events);
    }
}

/// An event that was published before a subscription was created is not
/// pending for it: whatever was published `earlier`, the subscription holds
/// exactly what is published `later`, so nothing of `earlier` is ever
/// delivered to it.
pub proof fn lemma_earlier_events_not_delivered(
    boxes: Mailboxes,
    earlier: Seq<EventData>,
    id: usize,
    later: Seq<EventData>,
)
    ensures
        subscribed(published_all(boxes, earlier), id)[id] == Seq::<EventData>::empty(),
        published_all(subscribed(published_all(boxes, earlier), id), later)[id] == later,
{
    let fresh = subscribed(published_all(boxes, earlier), id);
    lemma_published_all(fresh, later);
    assert(fresh[id] + later =~= later);
}

/// What is published after a subscription was created is delivered to it in
/// publish order: after `n` events were taken, the next one to be handed out
/// is the event published at place `n`.
pub proof fn lemma_delivery_in_publish_order(
    boxes: Mailboxes,
    id: usize,
    later: Seq<EventData>,
    n: nat,
    closed: bool,
    result: Result<Option<TransportEvent>, EventError>,
)
    requires
        n < later.len(),
        take_result(taken_times(published_all(subscribed(boxes, id), later), id, n), closed, id, result),
    ensures
        result matches Ok(Some(event)) && event@ == later[n as int],
{
    let full = published_all(subscribed(boxes, id), later);
    lemma_published_all(subscribed(boxes, id), later);
    assert(subscribed(boxes, id).contains_key(id));
    lemma_taken_times(full, id, n);
}

/// Taking `n` events out of a mailbox that holds at least as many leaves what
/// follows them.
pub proof fn lemma_taken_times(boxes: Mailboxes, id: usize, n: nat)
    requires
        boxes.contains_key(id),
        n <= boxes[id].len(),
    ensures
        taken_times(boxes, id, n).contains_key(id),
        taken_times(boxes, id, n)[id] == boxes[id].skip(n as int),
    decreases n,
{
    if n > 0 {
        lemma_taken_times(boxes, id, (n - 1) as nat);
        assert(boxes[id].skip(n - 1).drop_first() =~= boxes[id].skip(n as int));
    }
}

/// One subscriber's place in the hub.
struct Mailbox {
    live: bool,
    pending: VecDeque<TransportEvent>,
}

impl Mailbox {
    spec fn content(&self) -> Seq<EventData> {
        Seq::new(self.pending@.len(), |i: int| self.pending@[i]@)
    }
}

/// The state of an event bus: the mailboxes of the live subscriptions, and
/// whether the bus was closed for good.
pub struct EventHub {
    slots: Vec<Mailbox>,
    closed: bool,
}

impl EventHub {
    /// The mailboxes of the live subscriptions.
    pub closed spec fn mailboxes(&self) -> Mailboxes {
        Map::new(
            |id: usize| id < self.slots@.len() && self.slots@[id as int].live,
            |id: usize| self.slots@[id as int].content(),
        )
    }

    /// Whether the bus was closed.
    pub closed spec fn is_closed(&self) -> bool {
        self.closed
    }

    /// An open bus without subscriptions.
    pub fn new() -> (hub: Self)
        ensures
            hub.mailboxes() == Mailboxes::empty(),
            !hub.is_closed(),
    {
        EventHub { slots: Vec::new(), closed: false }
    }

    /// Creates a subscription and returns its id. The subscription sees the
    /// events published from now on and none of the earlier ones.
    pub fn subscribe(&mut self) -> (id: usize)
        ensures
            !old(self).mailboxes().contains_key(id),
            final(self).mailboxes() == subscribed(old(self).mailboxes(), id),
            final(self).is_closed() == old(self).is_closed(),
    {
        let mut i: usize = 0;
        while i < self.slots.len()
            invariant
                *self == *old(self),
                i <= self.slots@.len(),
            decreases self.slots@.len() - i,
        {
            if !self.slots[i].live {
                self.slots[i].live = true;
                self.slots[i].pending = VecDeque::new();
                assert(self.slots@[i as int].content() =~= Seq::empty());
                return i;
            }
            i = i + 1;
        }
        let id = self.slots.len();
        self.slots.push(Mailbox { live: true, pending: VecDeque::new() });
        assert(self.slots@[id as int].content() =~= Seq::empty());
        id
    }

    /// Publishes `event` to every live subscription. A closed bus has no way
    /// to deliver: it refuses the event and changes nothing.
    pub fn publish(&mut self, event: &TransportEvent) -> (result: Result<(), EventError>)
        ensures
            publish_result(old(self).is_closed(), result),
            final(self).is_closed() == old(self).is_closed(),
            final(self).mailboxes() == if old(self).is_closed() {
                old(self).mailboxes()
            } else {
                published(old(self).mailboxes(), event@)
            },
    {
        if self.closed {
            return Err(EventError::Publish(BUS_CLOSED.to_owned()));
        }
        let mut i: usize = 0;
        while i < self.slots.len()
            invariant
                i <= self.slots@.len(),
                self.closed == old(self).closed,
                self.slots@.len() == old(self).slots@.len(),
                forall|j: int|
                    0 <= j < self.slots@.len() ==> (#[trigger] self.slots@[j]).live == old(
                        self,
                    ).slots@[j].live,
                forall|j: int|
                    0 <= j < i && old(self).slots@[j].live ==> (#[trigger] self.slots@[j]).content()
                        == old(self).slots@[j].content().push(event@),
                forall|j: int|
                    i <= j < self.slots@.len() ==> (#[trigger] self.slots@[j]).content() == old(
                        self,
                    ).slots@[j].content(),
            decreases self.slots@.len() - i,
        {
            if self.slots[i].live {
                self.slots[i].pending.push_back(event.clone());
            }
            i = i + 1;
        }
        Ok(())
    }

    /// Takes the oldest pending event of the subscription `id` out of its
    /// mailbox. With nothing pending the answer is `Ok(None)` while the bus is
    /// open, and an error once it was closed. An id without a live
    /// subscription has nothing to wait for either, and is told so.
    pub fn take(&mut self, id: usize) -> (result: Result<Option<TransportEvent>, EventError>)
        ensures
            take_result(old(self).mailboxes(), old(self).is_closed(), id, result),
            final(self).is_closed() == old(self).is_closed(),
            final(self).mailboxes() == taken(old(self).mailboxes(), id),
    {
        if id >= self.slots.len() || !self.slots[id].live {
            return Err(EventError::Receive(NOT_SUBSCRIBED.to_owned()));
        }
        let ghost before = *self;
        match self.slots[id].pending.pop_front() {
            Some(event) => {
                assert(self.slots@[id as int].content() =~= before.slots@[id as int].content().drop_first());
                Ok(Some(event))
            },
            None => {
                if self.closed {
                    Err(EventError::Receive(BUS_CLOSED.to_owned()))
                } else {
                    Ok(None)
                }
            },
        }
    }

    /// Ends the subscription `id`: its mailbox and what is pending in it are
    /// dropped, and later events no longer reach it.
    pub fn unsubscribe(&mut self, id: usize)
        ensures
            final(self).is_closed() == old(self).is_closed(),
            final(self).mailboxes() == old(self).mailboxes().remove(id),
    {
        if id < self.slots.len() {
            self.slots[id].live = false;
            self.slots[id].pending = VecDeque::new();
        }
    }

    /// Closes the bus for good. What is pending stays to be taken.
    pub fn close(&mut self)
        ensures
            final(self).is_closed(),
            final(self).mailboxes() == old(self).mailboxes(),
    {
        self.closed = true;
    }
}

/// What the lock of a shared hub admits: every state of the hub.
pub struct AnyHub;

impl RwLockPredicate<EventHub> for AnyHub {
    open spec fn inv(self, hub: EventHub) -> bool {
        true
    }
}

/// An event hub shared by its publishers and subscriptions. The lock is held
/// for one operation of the hub at a time.
pub type SharedHub = Arc<RwLock<EventHub, AnyHub>>;

/// An owned subscription to transport events. It ends when it is cancelled;
/// until then the bus keeps what is published for it.
pub struct EventSubscription {
    hub: SharedHub,
    id: usize,
}

impl EventSubscription {
    /// The hub that this subscription takes its events from.
    pub closed spec fn hub(&self) -> SharedHub {
        self.hub
    }

    /// The id under which the hub knows this subscription.
    pub closed spec fn id(&self) -> usize {
        self.id
    }

    /// The handle of the subscription that `hub` created under `id`.
    pub fn new(hub: SharedHub, id: usize) -> (subscription: Self)
        ensures
            subscription.hub() == hub,
            subscription.id() == id,
    {
        Self { hub, id }
    }

    /// Takes the next event, if one is pending: `Ok(None)` says that the
    /// caller has to wait. The bus is shared, so the answer is stated against
    /// the hub as it stood when the call took effect.
    pub fn try_recv(&self) -> (result: Result<Option<TransportEvent>, EventError>)
        ensures
            exists|boxes: Mailboxes, closed: bool| #[trigger]
                take_result(boxes, closed, self.id(), result),
    {
        let (mut hub, guard) = self.hub.acquire_write();
        let ghost boxes = hub.mailboxes();
        let ghost closed = hub.is_closed();
        let result = hub.take(self.id);
        guard.release_write(hub);
        assert(take_result(boxes, closed, self.id(), result));
        result
    }

    /// Ends the subscription: the bus drops it and delivers nothing more.
    pub fn cancel(self) {
        let (mut hub, guard) = self.hub.acquire_write();
        hub.unsubscribe(self.id);
        guard.release_write(hub);
    }
}

/// What a publisher needs of an event bus.
pub trait EventPublisher: Send + Sync {
    /// Whether `result` is what this bus may answer to the publishing of
    /// `event`. A bus that says nothing of itself may answer anything that the
    /// contract of `publish` admits.
    open spec fn publishes(&self, event: TransportEvent, result: Result<(), EventError>) -> bool {
        true
    }

    /// The hub that this bus publishes to, if it keeps its subscriptions in
    /// one.
    open spec fn shared_hub(&self) -> Option<SharedHub> {
        None
    }

    /// Delivers `event` to every live subscription. It fails only where the
    /// bus has no way to deliver.
    fn publish(&self, event: TransportEvent) -> (result: Result<(), EventError>)
        ensures
            self.publishes(event, result),
            result matches Err(err) ==> err is Publish,
    ;
}

/// What a listener needs of an event bus.
pub trait EventSubscriber: Send + Sync {
    /// Whether `subscription` is one that this bus may hand out. A bus that
    /// says nothing of itself may hand out any.
    open spec fn grants(&self, subscription: EventSubscription) -> bool {
        true
    }

    /// Creates a subscription to the events published from now on.
    fn subscribe(&self) -> (subscription: EventSubscription)
        ensures
            self.grants(subscription),
    ;
}

/// Convenience trait for objects that support both publishing and
/// subscribing: every such object is an event bus, and what it answers as a
/// bus is what it answers as a publisher and as a subscriber.
pub trait EventBus: Send + Sync {
    /// Whether `result` is what this bus may answer to the publishing of
    /// `event`.
    open spec fn publishes(&self, event: TransportEvent, result: Result<(), EventError>) -> bool {
        true
    }

    /// Whether `subscription` is one that this bus may hand out.
    open spec fn grants(&self, subscription: EventSubscription) -> bool {
        true
    }

    /// The hub that this bus publishes to, if it keeps its subscriptions in
    /// one.
    open spec fn shared_hub(&self) -> Option<SharedHub> {
        None
    }

    /// Delivers `event` to every live subscription. It fails only where the
    /// bus has no way to deliver.
    fn publish(&self, event: TransportEvent) -> (result: Result<(), EventError>)
        ensures
            self.publishes(event, result),
            result matches Err(err) ==> err is Publish,
    ;

    /// Creates a subscription to the events published from now on.
    fn subscribe(&self) -> (subscription: EventSubscription)
        ensures
            self.grants(subscription),
    ;
}

impl<T> EventBus for T where T: EventPublisher + EventSubscriber {
    open spec fn publishes(&self, event: TransportEvent, result: Result<(), EventError>) -> bool {
        EventPublisher::publishes(self, event, result)
    }

    open spec fn grants(&self, subscription: EventSubscription) -> bool {
        EventSubscriber::grants(self, subscription)
    }

    open spec fn shared_hub(&self) -> Option<SharedHub> {
        EventPublisher::shared_hub(self)
    }

    fn publish(&self, event: TransportEvent) -> (result: Result<(), EventError>) {
        EventPublisher::publish(self, event)
    }

    fn subscribe(&self) -> (subscription: EventSubscription) {
        EventSubscriber::subscribe(self)
    }
}

/// Shared handle to an event bus.
pub type DynEventBus = Arc<Box<dyn EventBus>>;

} // verus!
