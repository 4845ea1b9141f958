use vstd::prelude::*;
use vstd::string::StringExecFns;

verus! {

/// Every failure that a caller of the plugin can observe.
///
/// The variants that stand for failures of the native stack carry the
/// message of the underlying error, so that the cause is kept.
#[derive(Debug, Clone, PartialEq, Eq)]
pub enum Error {
    /// A failure reported by the Bluetooth stack, passed through as it came.
    BluetoothLE(String),
    /// The scan ended without a matching device, a matching device could get
    /// no id, or a device id is unknown.
    DeviceNotFound,
    /// The stack could not connect to a known device.
    GattConnectFailure,
    /// The request names neither "accept all devices" nor a non-empty filter list.
    InvalidRequestDeviceOptions,
    /// An input/output failure, passed through as it came.
    Io(String),
    /// No adapter exists at the configured index.
    NoAdapter,
    /// The adapter refused to start scanning, or the manager is already scanning.
    ScanStartFailure,
    /// The adapter refused to stop scanning.
    ScanStopFailure,
    /// A deadline of the runtime elapsed, passed through as it came.
    TimeoutExpired(String),
}

impl Error {
    /// The text shown for this error.
    pub open spec fn message_text(self) -> Seq<char> {
        match self {
            Error::BluetoothLE(cause) => cause@,
            Error::DeviceNotFound => "Device not found"@,
            Error::GattConnectFailure => "Gatt connect failure"@,
            Error::InvalidRequestDeviceOptions => "Invalid request device options"@,
            Error::Io(cause) => cause@,
            Error::NoAdapter => "No available bluetooth adapter"@,
            Error::ScanStartFailure => "Scan start failure"@,
            Error::ScanStopFailure => "Scan stop failure"@,
            Error::TimeoutExpired(cause) => cause@,
        }
    }

    /// Renders the error as the stable message under which it is serialized.
    pub fn message(&self) -> (text: String)
        ensures
            text@ == self.message_text(),
    {
        match self {
            Error::BluetoothLE(cause) => cause.clone(),
            Error::DeviceNotFound => String::from_str("Device not found"),
            Error::GattConnectFailure => String::from_str("Gatt connect failure"),
            Error::InvalidRequestDeviceOptions => String::from_str(
                "Invalid request device options",
            ),
            Error::Io(cause) => cause.clone(),
            Error::NoAdapter => String::from_str("No available bluetooth adapter"),
            Error::ScanStartFailure => String::from_str("Scan start failure"),
            Error::ScanStopFailure => String::from_str("Scan stop failure"),
            Error::TimeoutExpired(cause) => cause.clone(),
        }
    }
}

} // verus!
