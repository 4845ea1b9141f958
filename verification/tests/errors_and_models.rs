use tauri_plugin_bluetooth::error::Error;
use tauri_plugin_bluetooth::models::{ping, PingRequest, PingResponse};

#[test]
fn every_error_has_its_message() {
    assert_eq!(Error::DeviceNotFound.message(), "Device not found");
    assert_eq!(Error::GattConnectFailure.message(), "Gatt connect failure");
    assert_eq!(Error::InvalidRequestDeviceOptions.message(), "Invalid request device options");
    assert_eq!(Error::NoAdapter.message(), "No available bluetooth adapter");
    assert_eq!(Error::ScanStartFailure.message(), "Scan start failure");
    assert_eq!(Error::ScanStopFailure.message(), "Scan stop failure");
}

#[test]
fn passed_through_errors_show_their_cause() {
    assert_eq!(Error::BluetoothLE("Permission denied".to_string()).message(), "Permission denied");
    assert_eq!(Error::Io("broken pipe".to_string()).message(), "broken pipe");
    assert_eq!(
        Error::TimeoutExpired("deadline has elapsed".to_string()).message(),
        "deadline has elapsed"
    );
    assert_eq!(Error::BluetoothLE(String::new()).message(), "");
}

#[test]
fn ping_echoes_its_value() {
    assert_eq!(
        ping(PingRequest { value: Some("hello".to_string()) }),
        PingResponse { value: Some("hello".to_string()) }
    );
    assert_eq!(ping(PingRequest { value: None }), PingResponse { value: None });
    assert_eq!(PingResponse::default(), PingResponse { value: None });
}
