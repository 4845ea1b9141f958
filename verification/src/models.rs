pub use crate::bluetooth::models::{
    BluetoothDataFilter, BluetoothLEScanFilter, BluetoothManufacturerDataFilter,
    BluetoothServiceDataFilter, BluetoothServiceUUID,
};
use vstd::prelude::*;

verus! {

/// The payload of a ping.
#[derive(Debug, Clone, PartialEq, Eq)]
pub struct PingRequest {
    pub value: Option<String>,
}

/// The answer to a ping.
#[derive(Debug, Clone, Default, PartialEq, Eq)]
pub struct PingResponse {
    pub value: Option<String>,
}

/// The options of a device request in their two shapes: a list of filters, or
/// the wish to accept every device.
#[derive(Debug, Clone, PartialEq, Eq)]
pub enum RequestDeviceOptions {
    Filters {
        filters: Vec<BluetoothLEScanFilter>,
        optional_services: Option<Vec<BluetoothServiceUUID>>,
        optional_manufacturer_data: Option<Vec<u8>>,
    },
    AcceptAllDevices {
        accept_all_devices: bool,
        optional_services: Option<Vec<BluetoothServiceUUID>>,
        optional_manufacturer_data: Option<Vec<u8>>,
    },
}

/// What a successful device request hands to the caller: the device's opaque
/// id and the service UUIDs it advertised, each in hyphenated form.
#[derive(Debug, Clone, PartialEq, Eq)]
pub struct DeviceInfo {
    pub id: String,
    pub services: Vec<String>,
}

/// A device info as plain text: the id and the services.
pub struct DeviceInfoView {
    pub id: Seq<char>,
    pub services: Seq<Seq<char>>,
}

impl View for DeviceInfo {
    type V = DeviceInfoView;

    open spec fn view(&self) -> DeviceInfoView {
        DeviceInfoView { id: self.id@, services: self.services@.map_values(|text: String| text@) }
    }
}

/// Answers a ping with the value it carried.
pub fn ping(payload: PingRequest) -> (response: PingResponse)
    ensures
        response.value == payload.value,
{
    PingResponse { value: payload.value }
}

} // verus!
