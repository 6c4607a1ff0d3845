//! Delegate registry: a single-slot, replace-on-register observer holder.
//!
//! The slot starts unregistered. `register` installs or replaces the current
//! delegate and hands the previous one back. `dispatch` delivers an event to
//! the current delegate, if any; before registration events are silently
//! dropped — no error, no queue, no buffering. This is the deliberate
//! at-most-one-observer, no-backpressure design of the bridge: the native
//! layer never waits for acknowledgment.

use vstd::prelude::*;
use crate::bridge::{BLEDelegate, BleEvent, BleEventView, Device};

verus! {

/// The one shared mutable resource of the bridge: the slot holding the
/// currently registered delegate, or nothing.
pub struct DelegateSlot<D> {
    delegate: Option<D>,
}

/// The state a slot is left in by `register`: exactly the new delegate,
/// whatever was there before.
pub closed spec fn register_spec<D: BLEDelegate>(s: DelegateSlot<D>, d: D) -> DelegateSlot<D> {
    DelegateSlot { delegate: Some(d) }
}

impl<D: BLEDelegate> DelegateSlot<D> {
    /// The current occupant of the slot.
    pub closed spec fn delegate_opt(&self) -> Option<D> {
        self.delegate
    }

    /// Whether a delegate is currently registered.
    pub open spec fn registered(&self) -> bool {
        self.delegate_opt() is Some
    }

    /// The delivery log of the current delegate; empty while unregistered.
    pub open spec fn log(&self) -> Seq<BleEventView> {
        match self.delegate_opt() {
            Some(d) => d.delivered(),
            None => Seq::<BleEventView>::empty(),
        }
    }

    /// A fresh slot: unregistered.
    pub fn new() -> (r: Self)
        ensures
            !r.registered(),
    {
        DelegateSlot { delegate: None }
    }

    /// Installs or replaces the current delegate and returns the previous
    /// one. The previous delegate receives nothing further: it leaves the
    /// slot with its delivery log as it stood.
    pub fn register(&mut self, delegate: D) -> (prev: Option<D>)
        ensures
            *final(self) == register_spec(*old(self), delegate),
            final(self).registered(),
            final(self).log() == delegate.delivered(),
            prev == old(self).delegate_opt(),
    {
        let prev = self.delegate.take();
        self.delegate = Some(delegate);
        prev
    }

    /// Whether a delegate is currently registered.
    pub fn is_registered(&self) -> (r: bool)
        ensures
            r == self.registered(),
    {
        self.delegate.is_some()
    }

    /// A view of the current delegate, if any, for observing its state.
    pub fn current(&self) -> (r: Option<&D>)
        ensures
            r is Some <==> self.registered(),
            r matches Some(d) ==> self.delegate_opt() == Some(*d),
    {
        self.delegate.as_ref()
    }

    /// Delivers one event to the current delegate. While no delegate is
    /// registered the event is dropped silently and the slot is unchanged;
    /// otherwise the current delegate receives exactly this event, appended
    /// to its delivery log.
    pub fn dispatch(&mut self, event: BleEvent) -> (delivered: bool)
        ensures
            delivered == old(self).registered(),
            !old(self).registered() ==> *final(self) == *old(self),
            old(self).registered() ==> final(self).registered() && final(self).log()
                == old(self).log().push(event@),
    {
        match &mut self.delegate {
            Some(d) => {
                match event {
                    BleEvent::NewDevice { device } => d.new_device(device),
                    BleEvent::UpdatedDevice { device } => d.update_device(device),
                    BleEvent::RemovedDevice { device } => d.remove_device(device),
                    BleEvent::RssiUpdated { rssi, estimated_rssi, active } => d.update_rssi(
                        rssi,
                        estimated_rssi,
                        active,
                    ),
                    BleEvent::PresenceUpdated { presence, reason } => d.update_presence(
                        presence,
                        reason,
                    ),
                    BleEvent::PowerWarning => d.bluetooth_power_warn(),
                }
                true
            },
            None => false,
        }
    }

    /// Delivers a batch of events in order. With a registered delegate every
    /// event is delivered, none dropped, none reordered: the delivery log
    /// grows by exactly the batch. Unregistered, the whole batch is dropped.
    pub fn dispatch_all(&mut self, events: Vec<BleEvent>) -> (n: usize)
        ensures
            n == (if old(self).registered() {
                events@.len()
            } else {
                0
            }),
            !old(self).registered() ==> *final(self) == *old(self),
            old(self).registered() ==> final(self).registered() && final(self).log()
                == old(self).log() + events@.map_values(|e: BleEvent| e@),
    {
        let ghost all = events@;
        let ghost base = self.log();
        if !self.is_registered() {
            return 0;
        }
        let mut remaining = events;
        let mut n: usize = 0;
        let total: usize = remaining.len();
        proof {
            assert(all.len() == total);
            assert(all.take(0) =~= Seq::<BleEvent>::empty());
            assert(all =~= all.take(0) + all);
            assert(all.take(0).map_values(|e: BleEvent| e@) =~= Seq::<BleEventView>::empty());
            assert(self.log() =~= base + all.take(0).map_values(|e: BleEvent| e@));
        }
        while remaining.len() > 0
            invariant
                self.registered(),
                all.len() <= usize::MAX,
                n + remaining@.len() == all.len(),
                all == all.take(n as int) + remaining@,
                self.log() == base + all.take(n as int).map_values(|e: BleEvent| e@),
            decreases remaining@.len(),
        {
            let event = remaining.remove(0);
            let ghost pre = self.log();
            self.dispatch(event);
            proof {
                assert(all.take(n as int + 1) =~= all.take(n as int).push(event));
                lemma_map_view_push(all.take(n as int), event);
                assert(self.log() =~= base + all.take(n as int + 1).map_values(
                    |e: BleEvent| e@,
                ));
                assert(all =~= all.take(n as int + 1) + remaining@);
            }
            n = n + 1;
        }
        proof {
            assert(all.take(n as int) =~= all);
        }
        n
    }
}

/// Law: registration replaces. Whatever the starting state, registering `d1`
/// and then `d2` leaves exactly the state that registering `d2` alone leaves:
/// the slot holds `d2`, later dispatch appends to `d2`'s delivery log, and
/// `d1` is out of the slot entirely — no later event can reach it.
pub proof fn lemma_register_replaces<D: BLEDelegate>(s: DelegateSlot<D>, d1: D, d2: D)
    ensures
        register_spec(register_spec(s, d1), d2) == register_spec(s, d2),
        register_spec(register_spec(s, d1), d2).log() == d2.delivered(),
        register_spec(register_spec(s, d1), d2).delegate_opt() == Some(d2),
{
}

/// Pushing an event and then taking views is the same as pushing the event's
/// view onto the views.
proof fn lemma_map_view_push(s: Seq<BleEvent>, e: BleEvent)
    ensures
        s.push(e).map_values(|x: BleEvent| x@) == s.map_values(|x: BleEvent| x@).push(e@),
{
    assert(s.push(e).map_values(|x: BleEvent| x@) =~= s.map_values(|x: BleEvent| x@).push(e@));
}

/// A delegate that records every event it is handed, in order. It is the
/// simplest honest observer: its delivery log is exactly its recorded
/// events.
pub struct RecordingDelegate {
    pub events: Vec<BleEvent>,
}

impl RecordingDelegate {
    /// A fresh recorder with an empty log.
    pub fn new() -> (r: Self)
        ensures
            r.delivered() == Seq::<BleEventView>::empty(),
            r.events@ == Seq::<BleEvent>::empty(),
    {
        let r = RecordingDelegate { events: Vec::new() };
        proof {
            assert(r.events@.map_values(|x: BleEvent| x@) =~= Seq::<BleEventView>::empty());
        }
        r
    }

    /// The recorded events, oldest first.
    pub fn events(&self) -> (r: &Vec<BleEvent>)
        ensures
            r@ == self.events@,
    {
        &self.events
    }
}

impl BLEDelegate for RecordingDelegate {
    open spec fn delivered(&self) -> Seq<BleEventView> {
        self.events@.map_values(|x: BleEvent| x@)
    }

    fn new_device(&mut self, device: Device) {
        let ghost pre = self.events@;
        let ghost ev = (BleEvent::NewDevice { device });
        self.events.push(BleEvent::NewDevice { device });
        proof {
            lemma_map_view_push(pre, ev);
        }
    }

    fn update_device(&mut self, device: Device) {
        let ghost pre = self.events@;
        let ghost ev = (BleEvent::UpdatedDevice { device });
        self.events.push(BleEvent::UpdatedDevice { device });
        proof {
            lemma_map_view_push(pre, ev);
        }
    }

    fn remove_device(&mut self, device: Device) {
        let ghost pre = self.events@;
        let ghost ev = (BleEvent::RemovedDevice { device });
        self.events.push(BleEvent::RemovedDevice { device });
        proof {
            lemma_map_view_push(pre, ev);
        }
    }

    fn update_rssi(&mut self, rssi: i32, estimated_rssi: i32, active: bool) {
        let ghost pre = self.events@;
        self.events.push(BleEvent::RssiUpdated { rssi, estimated_rssi, active });
        proof {
            lemma_map_view_push(pre, (BleEvent::RssiUpdated { rssi, estimated_rssi, active }));
        }
    }

    fn update_presence(&mut self, presence: bool, reason: String) {
        let ghost pre = self.events@;
        let ghost ev = (BleEvent::PresenceUpdated { presence, reason });
        self.events.push(BleEvent::PresenceUpdated { presence, reason });
        proof {
            lemma_map_view_push(pre, ev);
        }
    }

    fn bluetooth_power_warn(&mut self) {
        let ghost pre = self.events@;
        self.events.push(BleEvent::PowerWarning);
        proof {
            lemma_map_view_push(pre, BleEvent::PowerWarning);
        }
    }
}

} // verus!
