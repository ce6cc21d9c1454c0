//! VM lifecycle events, broadcast to any number of subscribers through a
//! tokio broadcast channel; slow subscribers lag rather than block.

use std::time::Instant;

use tokio::sync::broadcast::{Receiver, Sender};
use vstd::prelude::*;

use crate::types::{MacAddress, VmId};
use crate::vm::VmState;

verus! {

#[verifier::external_type_specification]
#[verifier::external_body]
pub struct ExInstant(std::time::Instant);

/// `Instant` is `Copy`: its clone is the same instant.
pub assume_specification[ <std::time::Instant as Clone>::clone ](i: &std::time::Instant) -> (r:
    std::time::Instant)
    ensures
        r == *i,
;

#[verifier::external_type_specification]
#[verifier::external_body]
#[verifier::reject_recursive_types(T)]
pub struct ExSender<T>(tokio::sync::broadcast::Sender<T>);

#[verifier::external_type_specification]
#[verifier::external_body]
#[verifier::reject_recursive_types(T)]
pub struct ExReceiver<T>(tokio::sync::broadcast::Receiver<T>);

/// A VM lifecycle event.
#[derive(Clone, Debug)]
pub struct VmEvent {
    pub timestamp: Instant,
    pub vm_id: VmId,
    pub kind: VmEventKind,
}

impl VmEvent {
    /// The event recording that `vm_id` moved from state `from` to state
    /// `to` at `timestamp`.
    pub fn state_change(timestamp: Instant, vm_id: VmId, from: VmState, to: VmState) -> (r: VmEvent)
        ensures
            r.timestamp == timestamp,
            r.vm_id == vm_id,
            r.kind == (VmEventKind::StateChanged { from, to }),
    {
        VmEvent { timestamp, vm_id, kind: VmEventKind::StateChanged { from, to } }
    }
}

/// The kind of VM event that occurred.
#[derive(Clone, Debug)]
pub enum VmEventKind {
    /// VM state changed.
    StateChanged { from: VmState, to: VmState },
    /// VM finished booting (kernel + init reached).
    BootComplete { duration_ms: u64 },
    /// Graceful shutdown was requested (ACPI power button).
    ShutdownRequested,
    /// VM crashed with an error.
    Crashed { reason: String },
    /// Network interface came up with assigned MAC.
    NetworkUp { mac: MacAddress },
    /// Network interface went down.
    NetworkDown { reason: String },
    /// Snapshot was created.
    SnapshotCreated { path: String },
    /// Snapshot was restored.
    SnapshotRestored { path: String },
    /// VM was force-stopped (drop guard or hard stop).
    ForceStop,
}

/// `std::time::Instant::now`; the clock's reading is not stated.
#[verifier::external_body]
fn instant_now() -> Instant {
    Instant::now()
}

/// The capacity of the broadcast channel behind a sender: the length of
/// its ring buffer, which is how many values it retains.
pub uninterp spec fn sender_capacity(tx: Sender<VmEvent>) -> nat;

/// The capacity (ring buffer length) of the broadcast channel behind a
/// receiver.
pub uninterp spec fn receiver_capacity(rx: Receiver<VmEvent>) -> nat;

/// Whether `n` is a power of two.
pub open spec fn is_power_of_two(n: nat) -> bool
    decreases n,
{
    if n == 1 {
        true
    } else if n < 2 || n % 2 != 0 {
        false
    } else {
        is_power_of_two(n / 2)
    }
}

/// The least power of two that is at least `c`, for `c > 0`: the power of
/// two `n` with `c <= n < 2 * c`.
pub open spec fn is_rounded_capacity(n: nat, c: nat) -> bool {
    is_power_of_two(n) && c <= n && n < 2 * c
}

/// Only one power of two lies in `[k, 2k)` when `k` is itself one.
pub proof fn lemma_power_of_two_in_range(n: nat, k: nat)
    requires
        is_power_of_two(n),
        is_power_of_two(k),
        k <= n < 2 * k,
    ensures
        n == k,
    decreases k,
{
    if k != 1 {
        assert(n != 1);
        lemma_power_of_two_in_range(n / 2, k / 2);
    }
}

/// `tokio::sync::broadcast::channel(capacity)`, keeping the sending half
/// (the receiving half it also returns is dropped). tokio panics for a zero
/// capacity or one above `usize::MAX / 2`, which `requires` excludes. tokio
/// rounds the capacity up to the next power of two and allocates a ring
/// buffer of that length; the contract claims exactly that.
#[verifier::external_body]
fn broadcast_sender(capacity: usize) -> (r: Sender<VmEvent>)
    requires
        0 < capacity <= usize::MAX / 2,
    ensures
        is_rounded_capacity(sender_capacity(r), capacity as nat),
{
    let (tx, _) = tokio::sync::broadcast::channel(capacity);
    tx
}

/// `Sender::send`: hands `event` to every current receiver. With no
/// receiver tokio returns the event back as an error, which is dropped
/// here; the number of receivers reached is not stated.
#[verifier::external_body]
fn broadcast_send(tx: &Sender<VmEvent>, event: VmEvent) {
    let _ = tx.send(event);
}

/// `Sender::subscribe`: a receiver of the events sent from now on, on the
/// same channel as `tx` (the contract claims only that it shares the
/// channel's capacity). tokio panics when `usize::MAX / 4` receivers are
/// alive at once; that count is not tracked here, so `requires` does not
/// exclude it.
#[verifier::external_body]
fn broadcast_subscribe(tx: &Sender<VmEvent>) -> (r: Receiver<VmEvent>)
    ensures
        receiver_capacity(r) == sender_capacity(*tx),
{
    tx.subscribe()
}

/// Broadcast event bus for VM lifecycle events.
pub struct VmEventBus {
    tx: Sender<VmEvent>,
}

impl VmEventBus {
    /// The capacity of the bus's channel: how many events it keeps for a
    /// lagging subscriber.
    pub closed spec fn capacity(&self) -> nat {
        sender_capacity(self.tx)
    }

    /// A bus buffering events for lagging subscribers: `capacity` rounded
    /// up to the next power of two.
    pub fn new(capacity: usize) -> (r: Self)
        requires
            0 < capacity <= usize::MAX / 2,
        ensures
            is_rounded_capacity(r.capacity(), capacity as nat),
    {
        VmEventBus { tx: broadcast_sender(capacity) }
    }

    /// Emit an event to all subscribers; with none, it is dropped.
    pub fn emit(&self, event: VmEvent) {
        broadcast_send(&self.tx, event);
    }

    /// Emit a state change of `vm_id` from `from` to `to`, stamped now.
    pub fn state_changed(&self, vm_id: VmId, from: VmState, to: VmState) {
        let event = VmEvent::state_change(instant_now(), vm_id, from, to);
        self.emit(event);
    }

    /// Subscribe to events sent from now on: a receiver on the bus's own
    /// channel.
    pub fn subscribe(&self) -> (r: Receiver<VmEvent>)
        ensures
            receiver_capacity(r) == self.capacity(),
    {
        broadcast_subscribe(&self.tx)
    }
}

impl Default for VmEventBus {
    /// A bus with capacity 256.
    fn default() -> (r: Self)
        ensures
            r.capacity() == 256,
    {
        let r = Self::new(256);
        proof {
            reveal_with_fuel(is_power_of_two, 10);
            assert(is_power_of_two(256));
            lemma_power_of_two_in_range(r.capacity(), 256);
        }
        r
    }
}

} // verus!
