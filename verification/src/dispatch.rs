//! Event dispatcher: the fixed entry points the native layer invokes. Each
//! decodes its boundary arguments, builds a typed event, and forwards it to
//! the registered delegate through the slot; with no delegate registered the
//! event is dropped silently.

use vstd::prelude::*;
use crate::bridge::{BLEDelegate, BleEvent, BleEventView, Device, DeviceView, device_wf};
use crate::marshal::{InboundStr, inbound_chars, inbound_field, take_field, take_string};
use crate::registry::DelegateSlot;

verus! {

/// The device record that a tuple of boundary arguments decodes to: the uuid
/// as decoded (even when empty — this layer does not validate it), every
/// other string field normalized so that null or an empty decoding is absent.
pub open spec fn extract_device_view(
    uuid: InboundStr,
    manufacture: InboundStr,
    model: InboundStr,
    adv_data: i64,
    rssi: i32,
    mac_addr: InboundStr,
    bl_name: InboundStr,
    name: InboundStr,
    state: InboundStr,
) -> DeviceView {
    DeviceView {
        uuid: inbound_chars(uuid),
        manufacture: inbound_field(manufacture),
        model: inbound_field(model),
        adv_data: adv_data,
        rssi: rssi,
        mac_addr: inbound_field(mac_addr),
        bl_name: inbound_field(bl_name),
        name: inbound_field(name),
        state: inbound_field(state),
    }
}

/// Builds a device record from the positional boundary arguments of a device
/// callback. Every optional field of the result is either absent or a
/// non-empty string.
pub fn extract_device(
    uuid: InboundStr,
    manufacture: InboundStr,
    model: InboundStr,
    adv_data: i64,
    rssi: i32,
    mac_addr: InboundStr,
    bl_name: InboundStr,
    name: InboundStr,
    state: InboundStr,
) -> (d: Device)
    ensures
        d@ == extract_device_view(
            uuid,
            manufacture,
            model,
            adv_data,
            rssi,
            mac_addr,
            bl_name,
            name,
            state,
        ),
        device_wf(d@),
{
    let ghost args_view = extract_device_view(
        uuid,
        manufacture,
        model,
        adv_data,
        rssi,
        mac_addr,
        bl_name,
        name,
        state,
    );
    let d = Device {
        uuid: take_string(uuid),
        manufacture: take_field(manufacture),
        model: take_field(model),
        adv_data,
        rssi,
        mac_addr: take_field(mac_addr),
        bl_name: take_field(bl_name),
        name: take_field(name),
        state: take_field(state),
    };
    proof {
        assert(d@ =~= args_view);
    }
    d
}

/// Entry point for a newly discovered device: decodes the arguments, builds
/// the record, and delivers it to the registered delegate, if any. No
/// deduplication happens at this layer: every callback becomes one delivery.
pub fn on_device_new<D: BLEDelegate>(
    slot: &mut DelegateSlot<D>,
    uuid: InboundStr,
    manufacture: InboundStr,
    model: InboundStr,
    adv_data: i64,
    rssi: i32,
    mac_addr: InboundStr,
    bl_name: InboundStr,
    name: InboundStr,
    state: InboundStr,
) -> (delivered: bool)
    ensures
        delivered == old(slot).registered(),
        !old(slot).registered() ==> *final(slot) == *old(slot),
        old(slot).registered() ==> final(slot).registered() && final(slot).log() == old(
            slot,
        ).log().push(
            (BleEventView::NewDevice {
                device: extract_device_view(
                    uuid,
                    manufacture,
                    model,
                    adv_data,
                    rssi,
                    mac_addr,
                    bl_name,
                    name,
                    state,
                ),
            }),
        ),
{
    let device = extract_device(
        uuid,
        manufacture,
        model,
        adv_data,
        rssi,
        mac_addr,
        bl_name,
        name,
        state,
    );
    slot.dispatch(BleEvent::NewDevice { device })
}

/// Entry point for an updated device: same decoding as for a new device; the
/// state label, when present, carries the authoritative connection state.
pub fn on_device_update<D: BLEDelegate>(
    slot: &mut DelegateSlot<D>,
    uuid: InboundStr,
    manufacture: InboundStr,
    model: InboundStr,
    adv_data: i64,
    rssi: i32,
    mac_addr: InboundStr,
    bl_name: InboundStr,
    name: InboundStr,
    state: InboundStr,
) -> (delivered: bool)
    ensures
        delivered == old(slot).registered(),
        !old(slot).registered() ==> *final(slot) == *old(slot),
        old(slot).registered() ==> final(slot).registered() && final(slot).log() == old(
            slot,
        ).log().push(
            (BleEventView::UpdatedDevice {
                device: extract_device_view(
                    uuid,
                    manufacture,
                    model,
                    adv_data,
                    rssi,
                    mac_addr,
                    bl_name,
                    name,
                    state,
                ),
            }),
        ),
{
    let device = extract_device(
        uuid,
        manufacture,
        model,
        adv_data,
        rssi,
        mac_addr,
        bl_name,
        name,
        state,
    );
    slot.dispatch(BleEvent::UpdatedDevice { device })
}

/// Entry point for a removed device.
pub fn on_device_removed<D: BLEDelegate>(
    slot: &mut DelegateSlot<D>,
    uuid: InboundStr,
    manufacture: InboundStr,
    model: InboundStr,
    adv_data: i64,
    rssi: i32,
    mac_addr: InboundStr,
    bl_name: InboundStr,
    name: InboundStr,
    state: InboundStr,
) -> (delivered: bool)
    ensures
        delivered == old(slot).registered(),
        !old(slot).registered() ==> *final(slot) == *old(slot),
        old(slot).registered() ==> final(slot).registered() && final(slot).log() == old(
            slot,
        ).log().push(
            (BleEventView::RemovedDevice {
                device: extract_device_view(
                    uuid,
                    manufacture,
                    model,
                    adv_data,
                    rssi,
                    mac_addr,
                    bl_name,
                    name,
                    state,
                ),
            }),
        ),
{
    let device = extract_device(
        uuid,
        manufacture,
        model,
        adv_data,
        rssi,
        mac_addr,
        bl_name,
        name,
        state,
    );
    slot.dispatch(BleEvent::RemovedDevice { device })
}

/// Entry point for an out-of-band RSSI refresh result: no pointers to decode,
/// the primitive arguments are forwarded as one event.
pub fn on_rssi_updated<D: BLEDelegate>(
    slot: &mut DelegateSlot<D>,
    rssi: i32,
    estimated_rssi: i32,
    active: bool,
) -> (delivered: bool)
    ensures
        delivered == old(slot).registered(),
        !old(slot).registered() ==> *final(slot) == *old(slot),
        old(slot).registered() ==> final(slot).registered() && final(slot).log() == old(
            slot,
        ).log().push((BleEventView::RssiUpdated { rssi, estimated_rssi, active })),
{
    slot.dispatch(BleEvent::RssiUpdated { rssi, estimated_rssi, active })
}

/// Entry point for a presence update. Unlike every other nullable boundary
/// field, a null reason drops the whole event rather than dispatching it with
/// an absent field; this asymmetry is the native contract's observed
/// behavior, preserved deliberately rather than silently smoothed out.
/// When the reason is non-null it is delivered as decoded, empty or not,
/// without the absent-field normalization.
pub fn presence_update<D: BLEDelegate>(
    slot: &mut DelegateSlot<D>,
    presence: bool,
    reason: InboundStr,
) -> (delivered: bool)
    ensures
        delivered == (old(slot).registered() && reason is Bytes),
        !delivered ==> *final(slot) == *old(slot),
        delivered ==> final(slot).registered() && final(slot).log() == old(slot).log().push(
            (BleEventView::PresenceUpdated { presence, reason: inbound_chars(reason) }),
        ),
{
    if slot.is_registered() {
        match reason {
            InboundStr::Null => false,
            InboundStr::Bytes(bytes) => {
                let reason_val = take_string(InboundStr::Bytes(bytes));
                slot.dispatch(BleEvent::PresenceUpdated { presence, reason: reason_val })
            },
        }
    } else {
        false
    }
}

/// Entry point for the power warning: an event with no payload.
pub fn bluetooth_power_warn<D: BLEDelegate>(slot: &mut DelegateSlot<D>) -> (delivered: bool)
    ensures
        delivered == old(slot).registered(),
        !old(slot).registered() ==> *final(slot) == *old(slot),
        old(slot).registered() ==> final(slot).registered() && final(slot).log() == old(
            slot,
        ).log().push(BleEventView::PowerWarning),
{
    slot.dispatch(BleEvent::PowerWarning)
}

} // verus!
