//! The device of interest, the records that the kernel hands out about
//! devices, and the decision which of them become events.

use crate::event::{Event, EventView};
use vstd::prelude::*;
use vstd::string::StringExecFns;

verus! {

/// Which device is tracked: where to listen, and the two attribute values
/// that identify the device.
#[derive(Clone, Debug, PartialEq, Eq)]
pub struct DeviceFilter {
    /// The subsystem to scan and to subscribe to.
    pub subsystem: String,
    /// The device type to subscribe to.
    pub devtype: String,
    /// The vendor id that the device must report.
    pub vendor_id: String,
    /// The product id that the device must report.
    pub product_id: String,
}

/// What is known of a device when the kernel reports a change to it.
#[derive(Clone, Debug, PartialEq, Eq)]
pub struct DeviceRecord {
    /// The action that the kernel reports, if it names one.
    pub action: Option<String>,
    /// The identity of the device, taken from its stable path.
    pub identity: String,
    /// The device's vendor id, where it exposes one.
    pub vendor_id: Option<String>,
    /// The device's product id, where it exposes one.
    pub product_id: Option<String>,
}

/// Whether an attribute is there and has the wanted value.
pub open spec fn has_value(attribute: Option<String>, wanted: Seq<char>) -> bool {
    attribute is Some && attribute->0@ == wanted
}

/// The event that a record stands for. A device that leaves becomes a
/// `Remove` whatever its attributes say, since it may expose none any
/// more; a device that arrives becomes an `Add` only where the filter
/// accepts it; every other record stands for nothing.
pub open spec fn spec_classify(filter: DeviceFilter, record: DeviceRecord) -> Option<EventView> {
    if has_value(record.action, "unbind"@) {
        Some(EventView::Remove(record.identity@))
    } else if has_value(record.action, "bind"@) && filter.spec_matches(record) {
        Some(EventView::Add(record.identity@))
    } else {
        None
    }
}

/// Compares an attribute that may be absent with a wanted value.
fn attribute_is(attribute: &Option<String>, wanted: &String) -> (same: bool)
    ensures
        same == has_value(*attribute, wanted@),
{
    match attribute {
        Some(value) => *value == *wanted,
        None => false,
    }
}

/// The name of the attribute that holds a device's vendor id.
pub fn vendor_attribute() -> (name: &'static str)
    ensures
        name@ == "idVendor"@,
{
    "idVendor"
}

/// The name of the attribute that holds a device's product id.
pub fn product_attribute() -> (name: &'static str)
    ensures
        name@ == "idProduct"@,
{
    "idProduct"
}

impl DeviceFilter {
    /// The filter for the keyboard that this library was written for.
    pub fn ergodox() -> (filter: DeviceFilter)
        ensures
            filter.subsystem@ == "usb"@,
            filter.devtype@ == "usb_device"@,
            filter.vendor_id@ == "3297"@,
            filter.product_id@ == "4976"@,
    {
        DeviceFilter {
            subsystem: String::from_str("usb"),
            devtype: String::from_str("usb_device"),
            vendor_id: String::from_str("3297"),
            product_id: String::from_str("4976"),
        }
    }

    /// Whether a record's attributes are those of the tracked device. An
    /// absent attribute never matches.
    pub open spec fn spec_matches(self, record: DeviceRecord) -> bool {
        has_value(record.vendor_id, self.vendor_id@) && has_value(
            record.product_id,
            self.product_id@,
        )
    }

    /// Whether a record's attributes are those of the tracked device. An
    /// absent attribute never matches.
    pub fn matches(&self, record: &DeviceRecord) -> (accepted: bool)
        ensures
            accepted == self.spec_matches(*record),
    {
        attribute_is(&record.vendor_id, &self.vendor_id) && attribute_is(
            &record.product_id,
            &self.product_id,
        )
    }

    /// Turns a record into the event that it stands for, if any.
    pub fn classify(&self, record: DeviceRecord) -> (event: Option<Event>)
        ensures
            match spec_classify(*self, record) {
                Some(view) => event is Some && event->0@ == view,
                None => event is None,
            },
    {
        let unbind = String::from_str("unbind");
        let bind = String::from_str("bind");
        if attribute_is(&record.action, &unbind) {
            Some(Event::Remove(record.identity))
        } else if attribute_is(&record.action, &bind) && self.matches(&record) {
            Some(Event::Add(record.identity))
        } else {
            None
        }
    }
}

} // verus!
