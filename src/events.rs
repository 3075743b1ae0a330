//! The presence bus: one process-wide broadcast channel of presence events,
//! constructed once and shared by reference.
use vstd::prelude::*;
use crate::model::{UserId, UserStatus};

verus! {

/// How many events a subscriber may fall behind before the oldest are
/// dropped for it.
pub const EVENT_CHANNEL_CAPACITY: usize = 100;

/// A presence change.
#[derive(Clone, Copy, Debug, PartialEq, Eq, Structural)]
pub enum Event {
    UserStatusUpdate { user_id: UserId, new_status: UserStatus },
}

#[verifier::external_type_specification]
#[verifier::external_body]
#[verifier::reject_recursive_types(T)]
pub struct ExSender<T>(tokio::sync::broadcast::Sender<T>);

#[verifier::external_type_specification]
#[verifier::external_body]
#[verifier::reject_recursive_types(T)]
pub struct ExReceiver<T>(tokio::sync::broadcast::Receiver<T>);

/// Relies on `Clone` for `tokio::sync::broadcast::Sender`: another handle on
/// the same channel.
pub assume_specification<T>[ <tokio::sync::broadcast::Sender<T> as Clone>::clone ](
    s: &tokio::sync::broadcast::Sender<T>,
) -> tokio::sync::broadcast::Sender<T>;

/// Relies on `tokio::sync::broadcast::Sender::new`: a sender with no
/// receiver yet; it panics on a capacity of zero or above `usize::MAX / 2`.
#[verifier::external_body]
fn new_sender(capacity: usize) -> (r: tokio::sync::broadcast::Sender<Event>)
    requires
        0 < capacity <= usize::MAX / 2,
{
    tokio::sync::broadcast::Sender::new(capacity)
}

/// Relies on `tokio::sync::broadcast::Sender::send`: hands `event` to every
/// current subscriber and returns how many there were; with none it does
/// nothing and returns 0.
#[verifier::external_body]
fn send_event(sender: &tokio::sync::broadcast::Sender<Event>, event: Event) -> (r: usize) {
    match sender.send(event) {
        Ok(n) => n,
        Err(_) => 0,
    }
}

/// The bus. Publishing never blocks; a subscriber that falls behind loses
/// its oldest events.
#[derive(Clone)]
pub struct EventChannel {
    sender: tokio::sync::broadcast::Sender<Event>,
    published: Ghost<Seq<Event>>,
}

impl EventChannel {
    /// The events handed to the bus through this handle, oldest first.
    pub closed spec fn published(&self) -> Seq<Event> {
        self.published@
    }

    /// A bus with room for `EVENT_CHANNEL_CAPACITY` pending events per
    /// subscriber.
    pub fn new() -> (r: EventChannel)
        ensures
            r.published() == Seq::<Event>::empty(),
    {
        EventChannel { sender: new_sender(EVENT_CHANNEL_CAPACITY), published: Ghost(Seq::empty()) }
    }

    /// Relies on `tokio::sync::broadcast::Sender::subscribe`: a new receive
    /// handle that sees the events published after this call.
    #[verifier::external_body]
    pub fn subscribe(&self) -> (r: tokio::sync::broadcast::Receiver<Event>) {
        self.sender.subscribe()
    }

    /// Hands `event` to every current subscriber; returns how many there
    /// were (0 when there are none, which is no failure).
    pub fn publish(&mut self, event: Event) -> (r: usize)
        ensures
            final(self).published() == old(self).published().push(event),
    {
        let n = send_event(&self.sender, event);
        self.published = Ghost(self.published@.push(event));
        n
    }
}

} // verus!
