//! The typed side of the native boundary: device records, the events the
//! native layer reports, and the delegate interface an observer implements.

use vstd::prelude::*;
use crate::marshal::opt_chars;

verus! {

/// Describes a bluetooth device, built fresh from boundary primitives on
/// every native callback and immutable once built. The uuid is carried
/// through as decoded, even when empty: this layer does not validate it.
/// Every optional field is either absent or a non-empty string; an empty
/// decoding from the boundary is normalized to absent.
#[derive(Debug, Clone, PartialEq, Eq)]
pub struct Device {
    pub uuid: String,
    pub manufacture: Option<String>,
    pub model: Option<String>,
    pub adv_data: i64,
    pub rssi: i32,
    pub mac_addr: Option<String>,
    pub bl_name: Option<String>,
    pub name: Option<String>,
    pub state: Option<String>,
}

/// The mathematical content of a device record.
#[verifier::ext_equal]
pub struct DeviceView {
    pub uuid: Seq<char>,
    pub manufacture: Option<Seq<char>>,
    pub model: Option<Seq<char>>,
    pub adv_data: i64,
    pub rssi: i32,
    pub mac_addr: Option<Seq<char>>,
    pub bl_name: Option<Seq<char>>,
    pub name: Option<Seq<char>>,
    pub state: Option<Seq<char>>,
}

impl View for Device {
    type V = DeviceView;

    open spec fn view(&self) -> DeviceView {
        DeviceView {
            uuid: self.uuid@,
            manufacture: opt_chars(self.manufacture),
            model: opt_chars(self.model),
            adv_data: self.adv_data,
            rssi: self.rssi,
            mac_addr: opt_chars(self.mac_addr),
            bl_name: opt_chars(self.bl_name),
            name: opt_chars(self.name),
            state: opt_chars(self.state),
        }
    }
}

/// Well-formedness of a device record: every optional field is either absent
/// or a non-empty string.
pub open spec fn device_wf(d: DeviceView) -> bool {
    &&& (d.manufacture matches Some(s) ==> s.len() > 0)
    &&& (d.model matches Some(s) ==> s.len() > 0)
    &&& (d.mac_addr matches Some(s) ==> s.len() > 0)
    &&& (d.bl_name matches Some(s) ==> s.len() > 0)
    &&& (d.name matches Some(s) ==> s.len() > 0)
    &&& (d.state matches Some(s) ==> s.len() > 0)
}

/// One event reported by the native layer, as handed to the registered
/// delegate.
#[derive(Debug, Clone, PartialEq, Eq)]
pub enum BleEvent {
    NewDevice { device: Device },
    UpdatedDevice { device: Device },
    RemovedDevice { device: Device },
    RssiUpdated { rssi: i32, estimated_rssi: i32, active: bool },
    PresenceUpdated { presence: bool, reason: String },
    PowerWarning,
}

/// The mathematical content of an event.
#[verifier::ext_equal]
pub enum BleEventView {
    NewDevice { device: DeviceView },
    UpdatedDevice { device: DeviceView },
    RemovedDevice { device: DeviceView },
    RssiUpdated { rssi: i32, estimated_rssi: i32, active: bool },
    PresenceUpdated { presence: bool, reason: Seq<char> },
    PowerWarning,
}

impl View for BleEvent {
    type V = BleEventView;

    open spec fn view(&self) -> BleEventView {
        match self {
            BleEvent::NewDevice { device } => (BleEventView::NewDevice { device: device@ }),
            BleEvent::UpdatedDevice { device } => (BleEventView::UpdatedDevice { device: device@ }),
            BleEvent::RemovedDevice { device } => (BleEventView::RemovedDevice { device: device@ }),
            BleEvent::RssiUpdated { rssi, estimated_rssi, active } => (BleEventView::RssiUpdated {
                rssi: *rssi,
                estimated_rssi: *estimated_rssi,
                active: *active,
            }),
            BleEvent::PresenceUpdated { presence, reason } => (BleEventView::PresenceUpdated {
                presence: *presence,
                reason: reason@,
            }),
            BleEvent::PowerWarning => BleEventView::PowerWarning,
        }
    }
}

/// The observer interface. Exactly one implementation is registered at a time;
/// each method must record the event it was handed, so that delivery is
/// observable in contracts: `delivered()` is the sequence of events this
/// delegate has received, in order.
pub trait BLEDelegate: Sized {
    /// The events this delegate has received so far, oldest first.
    spec fn delivered(&self) -> Seq<BleEventView>;

    fn new_device(&mut self, device: Device)
        ensures
            final(self).delivered() == old(self).delivered().push(
                (BleEventView::NewDevice { device: device@ }),
            ),
    ;

    fn update_device(&mut self, device: Device)
        ensures
            final(self).delivered() == old(self).delivered().push(
                (BleEventView::UpdatedDevice { device: device@ }),
            ),
    ;

    fn remove_device(&mut self, device: Device)
        ensures
            final(self).delivered() == old(self).delivered().push(
                (BleEventView::RemovedDevice { device: device@ }),
            ),
    ;

    fn update_rssi(&mut self, rssi: i32, estimated_rssi: i32, active: bool)
        ensures
            final(self).delivered() == old(self).delivered().push(
                (BleEventView::RssiUpdated { rssi, estimated_rssi, active }),
            ),
    ;

    fn update_presence(&mut self, presence: bool, reason: String)
        ensures
            final(self).delivered() == old(self).delivered().push(
                (BleEventView::PresenceUpdated { presence, reason: reason@ }),
            ),
    ;

    fn bluetooth_power_warn(&mut self)
        ensures
            final(self).delivered() == old(self).delivered().push(BleEventView::PowerWarning),
    ;
}

} // verus!
