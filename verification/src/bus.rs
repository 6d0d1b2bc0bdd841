//! A tiny in-process publish/subscribe message bus.
//!
//! Every service holds a clone of the same [`Bus`]. A service publishes
//! [`Event`]s and subscribes to receive every event published after it
//! subscribed. The bus is a thin wrapper over a `tokio::sync::broadcast`
//! channel: every live [`Subscription`] receives every event (fan-out), and
//! receiving maps the channel's failure modes onto [`CoreError`] — a closed
//! channel becomes [`CoreError::BusClosed`] and a lagging subscriber becomes
//! [`CoreError::Lagged`].
//!
//! Awaiting the next event is asynchronous and happens outside this library;
//! [`recv_result`] is what that await reports for each channel outcome.

use crate::common::{CoreError, Event, EventKind};
use tokio::sync::broadcast::{self, Receiver, Sender};
use vstd::prelude::*;

verus! {

#[verifier::external_type_specification]
#[verifier::external_body]
#[verifier::reject_recursive_types(T)]
pub struct ExSender<T>(Sender<T>);

#[verifier::external_type_specification]
#[verifier::external_body]
#[verifier::reject_recursive_types(T)]
pub struct ExReceiver<T>(Receiver<T>);

/// Default capacity of the broadcast ring buffer (a power of two, so the
/// channel keeps exactly this many slots).
///
/// If a subscriber does not receive often enough and more than this many
/// events pile up, its oldest unread events are dropped and its next receive
/// reports [`CoreError::Lagged`].
pub const DEFAULT_CAPACITY: usize = 256;

/// The number of slots in the ring buffer of the broadcast channel that
/// `sender` sends on (every handle of one channel shares that buffer).
pub uninterp spec fn channel_capacity(sender: Sender<Event>) -> nat;

/// The least power of two that is at least `n` (1 for 0): what
/// `usize::next_power_of_two` computes where it does not overflow.
pub open spec fn next_power_of_two(n: nat) -> nat
    decreases n,
{
    if n <= 1 {
        1
    } else {
        2 * next_power_of_two(((n + 1) / 2) as nat)
    }
}

/// A cloneable handle to the shared message bus. Every clone talks to the same
/// underlying channel.
#[derive(Debug)]
pub struct Bus {
    sender: Sender<Event>,
}

impl Clone for Bus {
    fn clone(&self) -> (r: Self)
        ensures
            r.capacity() == self.capacity(),
    {
        Bus { sender: sender_clone(&self.sender) }
    }
}

impl Bus {
    /// The number of events the bus buffers: the capacity it was made with,
    /// rounded up to a power of two.
    pub closed spec fn capacity(&self) -> nat {
        channel_capacity(self.sender)
    }

    /// Create a new bus with [`DEFAULT_CAPACITY`].
    pub fn new() -> (r: Self)
        ensures
            r.capacity() == DEFAULT_CAPACITY,
    {
        proof {
            reveal_with_fuel(next_power_of_two, 10);
            assert(next_power_of_two(256) == 256);
        }
        Self::with_capacity(DEFAULT_CAPACITY)
    }

    /// Create a new bus whose broadcast buffer holds `capacity` events,
    /// rounded up to the next power of two.
    pub fn with_capacity(capacity: usize) -> (r: Self)
        requires
            0 < capacity <= usize::MAX / 2,
        ensures
            r.capacity() == next_power_of_two(capacity as nat),
    {
        let (sender, _receiver) = channel(capacity);
        Bus { sender }
    }

    /// Publish `event` to all current subscribers.
    ///
    /// Returns the number of subscribers the event was delivered to.
    /// Publishing with no subscribers is not an error — it returns `0`.
    pub fn publish(&self, event: Event) -> (r: usize) {
        match send(&self.sender, event) {
            Some(delivered) => delivered,
            None => 0,
        }
    }

    /// Subscribe to the bus. The returned [`Subscription`] receives every
    /// event published after this call.
    pub fn subscribe(&self) -> (r: Subscription) {
        Subscription { receiver: subscribe(&self.sender) }
    }

    /// Number of live subscribers.
    pub fn subscriber_count(&self) -> (r: usize) {
        receiver_count(&self.sender)
    }
}

impl Default for Bus {
    fn default() -> (r: Self)
        ensures
            r.capacity() == DEFAULT_CAPACITY,
    {
        Bus::new()
    }
}

/// A subscription to the [`Bus`]. Dropping it unsubscribes it.
#[derive(Debug)]
pub struct Subscription {
    receiver: Receiver<Event>,
}

impl Subscription {
    /// The receiving half of the channel this subscription holds.
    pub closed spec fn handle(&self) -> Receiver<Event> {
        self.receiver
    }

    /// The receiving half of the channel, for the code that awaits events.
    pub fn receiver(&mut self) -> (r: &mut Receiver<Event>)
        ensures
            *r == old(self).handle(),
            final(self).handle() == *final(r),
    {
        &mut self.receiver
    }
}

/// Why a receive produced no event.
#[derive(Debug, Clone, Copy, PartialEq, Eq, Structural)]
pub enum RecvFailure {
    /// Every sender is gone; no more events can ever arrive.
    Closed,
    /// The subscriber fell behind; this many events were skipped.
    Lagged(u64),
}

/// What receiving reports for a channel outcome: the event, or
/// [`CoreError::BusClosed`] once the channel is closed, or
/// [`CoreError::Lagged`] with the number of skipped events. After a lag the
/// subscription is still usable.
pub fn recv_result(outcome: Result<Event, RecvFailure>) -> (r: Result<Event, CoreError>)
    ensures
        match outcome {
            Ok(event) => r == Ok::<Event, CoreError>(event),
            Err(RecvFailure::Closed) => r == Err::<Event, CoreError>(CoreError::BusClosed),
            Err(RecvFailure::Lagged(n)) => r == Err::<Event, CoreError>(CoreError::Lagged(n)),
        },
{
    match outcome {
        Ok(event) => Ok(event),
        Err(RecvFailure::Closed) => Err(CoreError::BusClosed),
        Err(RecvFailure::Lagged(n)) => Err(CoreError::Lagged(n)),
    }
}

/// What a service loop does after a failed receive: `Some(result)` to stop
/// with `result` — `Ok(())` once the bus is closed, the error itself for any
/// other failure — or `None` to go on receiving after a lag.
pub open spec fn loop_exit(err: CoreError) -> Option<Result<(), CoreError>> {
    match err {
        CoreError::BusClosed => Some(Ok(())),
        CoreError::Lagged(_) => None,
        _ => Some(Err(err)),
    }
}

/// The decision of [`loop_exit`] for a failed receive.
pub fn loop_exit_on(err: CoreError) -> (r: Option<Result<(), CoreError>>)
    ensures
        r == loop_exit(err),
{
    match err {
        CoreError::BusClosed => Some(Ok(())),
        CoreError::Lagged(_) => None,
        other => Some(Err(other)),
    }
}

/// What a service loop does over a run of receives, starting in state `s`:
/// the final state, what it published in order, and how it stopped (`None`
/// while the receives have not ended it). Each received event goes through
/// `step`, which gives the next state and what to publish, if anything; a
/// failed receive is decided by [`loop_exit`].
pub open spec fn bus_loop<S, P>(
    step: spec_fn(S, EventKind) -> (S, Option<P>),
    s: S,
    received: Seq<Result<Event, CoreError>>,
) -> (S, Seq<P>, Option<Result<(), CoreError>>)
    decreases received.len(),
{
    if received.len() == 0 {
        (s, Seq::empty(), None)
    } else {
        match received[0] {
            Err(e) => match loop_exit(e) {
                Some(done) => (s, Seq::empty(), Some(done)),
                None => bus_loop(step, s, received.drop_first()),
            },
            Ok(event) => {
                let next = step(s, event.kind);
                let rest = bus_loop(step, next.0, received.drop_first());
                match next.1 {
                    Some(p) => (rest.0, seq![p] + rest.1, rest.2),
                    None => rest,
                }
            },
        }
    }
}

/// Events and lags followed by the bus closing end a service loop with
/// `Ok(())`, whatever its steps do.
pub proof fn loop_ends_when_bus_closes<S, P>(
    step: spec_fn(S, EventKind) -> (S, Option<P>),
    s: S,
    received: Seq<Result<Event, CoreError>>,
)
    requires
        received.len() > 0,
        received.last() == Err::<Event, CoreError>(CoreError::BusClosed),
        forall|i: int|
            0 <= i < received.len() - 1 ==> (#[trigger] received[i]) is Ok || received[i] matches Err(
                CoreError::Lagged(_),
            ),
    ensures
        bus_loop(step, s, received).2 == Some(Ok::<(), CoreError>(())),
    decreases received.len(),
{
    if received.len() > 1 {
        let rest = received.drop_first();
        assert(rest.last() == received.last());
        assert forall|i: int| 0 <= i < rest.len() - 1 implies (#[trigger] rest[i]) is Ok
            || rest[i] matches Err(CoreError::Lagged(_)) by {
            assert(rest[i] == received[i + 1]);
        }
        assert(received[0] is Ok || received[0] matches Err(CoreError::Lagged(_)));
        match received[0] {
            Ok(event) => loop_ends_when_bus_closes(step, step(s, event.kind).0, rest),
            Err(_) => loop_ends_when_bus_closes(step, s, rest),
        }
    }
}

/// Any other failed receive ends a service loop with that error, before it
/// handles anything more.
pub proof fn loop_stops_on_failure<S, P>(
    step: spec_fn(S, EventKind) -> (S, Option<P>),
    s: S,
    err: CoreError,
    rest: Seq<Result<Event, CoreError>>,
)
    requires
        !(err is BusClosed),
        !(err is Lagged),
    ensures
        bus_loop(step, s, seq![Err(err)] + rest) == (s, Seq::<P>::empty(), Some(
            Err::<(), CoreError>(err),
        )),
{
    assert((seq![Err(err)] + rest)[0] == Err::<Event, CoreError>(err));
}

/// A lagging receive is skipped: the loop goes on as if it had not happened.
pub proof fn lags_are_skipped<S, P>(
    step: spec_fn(S, EventKind) -> (S, Option<P>),
    s: S,
    skipped: u64,
    rest: Seq<Result<Event, CoreError>>,
)
    ensures
        bus_loop(step, s, seq![Err(CoreError::Lagged(skipped))] + rest) == bus_loop(step, s, rest),
{
    let received = seq![Err(CoreError::Lagged(skipped))] + rest;
    assert(received[0] == Err::<Event, CoreError>(CoreError::Lagged(skipped)));
    assert(received.drop_first() =~= rest);
}

/// A loop publishes only what its steps publish: where every step's
/// publication has a property, so does everything the loop published.
pub proof fn loop_publishes_what_steps_publish<S, P>(
    step: spec_fn(S, EventKind) -> (S, Option<P>),
    good: spec_fn(P) -> bool,
    s: S,
    received: Seq<Result<Event, CoreError>>,
)
    requires
        forall|t: S, k: EventKind| (#[trigger] step(t, k)).1 matches Some(p) ==> good(p),
    ensures
        forall|i: int|
            0 <= i < bus_loop(step, s, received).1.len() ==> good(
                #[trigger] bus_loop(step, s, received).1[i],
            ),
    decreases received.len(),
{
    if received.len() > 0 {
        match received[0] {
            Ok(event) => {
                let next = step(s, event.kind);
                loop_publishes_what_steps_publish(step, good, next.0, received.drop_first());
                let rest = bus_loop(step, next.0, received.drop_first());
                if let Some(p) = next.1 {
                    assert(good(p));
                    let out = seq![p] + rest.1;
                    assert(bus_loop(step, s, received).1 == out);
                    assert forall|i: int|
                        0 <= i < bus_loop(step, s, received).1.len() implies good(
                        #[trigger] bus_loop(step, s, received).1[i],
                    ) by {
                        if i > 0 {
                            assert(out[i] == rest.1[i - 1]);
                        }
                    }
                } else {
                    assert(bus_loop(step, s, received) == rest);
                }
            },
            Err(e) => {
                loop_publishes_what_steps_publish(step, good, s, received.drop_first());
                if loop_exit(e) is None {
                    assert(bus_loop(step, s, received) == bus_loop(step, s, received.drop_first()));
                } else {
                    assert(bus_loop(step, s, received).1.len() == 0);
                }
            },
        }
    }
}

/// Calls `tokio::sync::broadcast::channel`, which panics when `capacity` is
/// 0 or exceeds `usize::MAX / 2`; the requirement leaves those out. The
/// source rounds `capacity` up with `usize::next_power_of_two` and allocates
/// a ring buffer of that many slots, which the sending half shares; nothing
/// else is stated of the halves, which are opaque here.
#[verifier::external_body]
fn channel(capacity: usize) -> (r: (Sender<Event>, Receiver<Event>))
    requires
        0 < capacity <= usize::MAX / 2,
    ensures
        channel_capacity(r.0) == next_power_of_two(capacity as nat),
{
    broadcast::channel(capacity)
}

/// Calls `Sender::send`, turning its error (no live receiver; the event is
/// handed back and dropped) into `None`. The source returns the number of
/// live receivers on success, so a delivered count is never 0. Which count it
/// is depends on the other handles of the channel, and is not stated.
#[verifier::external_body]
fn send(sender: &Sender<Event>, event: Event) -> (r: Option<usize>)
    ensures
        r matches Some(n) ==> n > 0,
{
    sender.send(event).ok()
}

/// Calls `Sender::subscribe`. Nothing is stated of the receiver, which is
/// opaque here. The source panics once `usize::MAX >> 2` receivers are alive,
/// a count that depends on the other handles and cannot be required here.
#[verifier::external_body]
fn subscribe(sender: &Sender<Event>) -> Receiver<Event> {
    sender.subscribe()
}

/// Calls `Sender::receiver_count`. Nothing is stated of the count: it depends
/// on the other handles of the channel.
#[verifier::external_body]
fn receiver_count(sender: &Sender<Event>) -> usize {
    sender.receiver_count()
}

/// Calls `Sender::clone`: another handle to the same channel (the source
/// clones the shared state), so it carries the same capacity. Nothing else is
/// stated of it, as the handle is opaque here.
#[verifier::external_body]
fn sender_clone(sender: &Sender<Event>) -> (r: Sender<Event>)
    ensures
        channel_capacity(r) == channel_capacity(*sender),
{
    sender.clone()
}

} // verus!
