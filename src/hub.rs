//! The fan-out hub: one broadcast point that hands every published event to
//! every live subscriber, through tokio's bounded broadcast channel.

use tokio::sync::broadcast::error::TryRecvError;
use tokio::sync::broadcast::{Receiver, Sender};
use vstd::prelude::*;

verus! {

/// Events the hub keeps for a subscriber that lags behind.
pub const HUB_CAPACITY: usize = 100;

/// A new measurement of a plant, as published to the live feeds.
#[derive(Clone, Debug, PartialEq, Eq)]
pub struct Event {
    /// Tenant that owns the plant.
    pub tenant: u128,
    pub plant: u128,
    pub plant_name: String,
    /// Power, in kilowatts.
    pub power: i64,
    /// Instant of the measurement, in seconds since the Unix epoch.
    pub at: i64,
}

#[verifier::external_type_specification]
#[verifier::external_body]
#[verifier::reject_recursive_types(T)]
pub struct ExSender<T>(Sender<T>);

#[verifier::external_type_specification]
#[verifier::external_body]
#[verifier::reject_recursive_types(T)]
pub struct ExReceiver<T>(Receiver<T>);

/// What one read of a subscription gives.
#[derive(Clone, Debug, PartialEq, Eq)]
pub enum HubRead {
    /// The next event.
    Event(Event),
    /// The subscriber fell behind and this many events were dropped for it;
    /// the next read gives the oldest event still kept.
    Lagged(u64),
    /// Nothing new for now.
    Empty,
    /// The hub is gone and nothing more will come.
    Closed,
}

/// Relies on tokio's `broadcast::Sender::new`, which panics on a zero capacity
/// and on one above `usize::MAX / 2`.
#[verifier::external_body]
fn new_sender(capacity: usize) -> (r: Sender<Event>)
    requires
        0 < capacity <= usize::MAX / 2,
{
    Sender::new(capacity)
}

/// Relies on tokio's `broadcast::Sender::send`: it fails only when no receiver
/// is subscribed, and otherwise returns the number of subscribed receivers.
#[verifier::external_body]
fn send_event(tx: &Sender<Event>, event: Event) -> (r: Option<usize>)
    ensures
        r matches Some(n) ==> n >= 1,
{
    tx.send(event).ok()
}

/// Relies on tokio's `broadcast::Sender::subscribe`: a receiver of the events
/// sent after the call.
#[verifier::external_body]
fn subscribe_receiver(tx: &Sender<Event>) -> (r: Receiver<Event>) {
    tx.subscribe()
}

/// Relies on tokio's `broadcast::Sender::receiver_count`.
#[verifier::external_body]
fn count_receivers(tx: &Sender<Event>) -> (r: usize) {
    tx.receiver_count()
}

/// Relies on tokio's `broadcast::Receiver::try_recv`, which never waits.
#[verifier::external_body]
fn try_receive(rx: &mut Receiver<Event>) -> (r: HubRead) {
    match rx.try_recv() {
        Ok(e) => HubRead::Event(e),
        Err(TryRecvError::Lagged(n)) => HubRead::Lagged(n),
        Err(TryRecvError::Empty) => HubRead::Empty,
        Err(TryRecvError::Closed) => HubRead::Closed,
    }
}

/// The shared broadcast point.
///
/// The channel's state is shared by the hub and every subscription, and other
/// handles change it through shared references and drops. No view of it can
/// be kept in step here, so the hub's methods promise only what holds of every
/// state of the channel; what a subscriber then reads is handled by the
/// session, which is verified for every read.
pub struct Hub {
    tx: Sender<Event>,
}

/// One subscriber's handle on the hub.
pub struct Subscription {
    rx: Receiver<Event>,
    log: Ghost<Seq<HubRead>>,
}

impl Hub {
    /// A hub that keeps up to `capacity` events for a lagging subscriber
    /// (the channel rounds the capacity up to a power of two).
    pub fn new(capacity: usize) -> (r: Hub)
        requires
            0 < capacity <= usize::MAX / 2,
    {
        Hub { tx: new_sender(capacity) }
    }

    /// A hub of `HUB_CAPACITY`.
    pub fn with_default_capacity() -> (r: Hub) {
        Hub::new(HUB_CAPACITY)
    }

    /// Publishes `event` to every current subscriber without waiting, and
    /// returns how many there were; with none the event is dropped and the
    /// result is 0.
    pub fn publish(&self, event: Event) -> (r: usize) {
        match send_event(&self.tx, event) {
            Some(n) => n,
            None => 0,
        }
    }

    /// A subscription to the events published from now on.
    pub fn subscribe(&self) -> (r: Subscription)
        ensures
            r.log() == Seq::<HubRead>::empty(),
    {
        Subscription { rx: subscribe_receiver(&self.tx), log: Ghost(Seq::empty()) }
    }

    /// Number of live subscriptions; dropping a subscription lowers it.
    pub fn subscriber_count(&self) -> (r: usize) {
        count_receivers(&self.tx)
    }
}

impl Subscription {
    /// Reads the next event without waiting: the next event published after
    /// the subscription, a lag report after events were overwritten (the next
    /// read then gives the oldest event kept), `Empty`, or `Closed` once the
    /// hub is gone.
    pub fn read(&mut self) -> (r: HubRead)
        ensures
            final(self).log() == old(self).log().push(r),
    {
        let r = try_receive(&mut self.rx);
        self.log = Ghost(self.log@.push(r));
        r
    }

    /// Every read taken from this subscription, in order.
    pub closed spec fn log(&self) -> Seq<HubRead> {
        self.log@
    }
}

} // verus!
