use sovd_gateway::signal_backend::{map_signal_error, DataError, SignalBackendError};
use sovd_gateway::simulator_backend::{map_client_error, ClientFailure};

#[test]
fn not_found_signal_becomes_not_found_data() {
    let error = SignalBackendError::NotFound("vehicle.speed".to_string());
    assert_eq!(map_signal_error(error, "vehicle_speed"), DataError::NotFound("vehicle_speed".to_string()));
}

#[test]
fn backend_failure_becomes_internal_data_error() {
    let error = SignalBackendError::Backend("boom".to_string());
    assert_eq!(map_signal_error(error, "vehicle_speed"), DataError::Internal("boom".to_string()));
}

#[test]
fn simulator_404_answers_data_not_found() {
    let signal_error = map_client_error(
        ClientFailure { status: Some(404), message: "not here".to_string() },
        "bms.soc",
    );
    assert_eq!(
        map_signal_error(signal_error, "hv_battery_soc"),
        DataError::NotFound("hv_battery_soc".to_string())
    );
}

#[test]
fn simulator_error_answers_internal_with_signal() {
    let signal_error = map_client_error(
        ClientFailure { status: Some(503), message: "busy".to_string() },
        "bms.soc",
    );
    assert_eq!(
        map_signal_error(signal_error, "hv_battery_soc"),
        DataError::Internal("failed to read simulator signal bms.soc: busy".to_string())
    );
}

#[test]
fn error_messages() {
    assert_eq!(
        SignalBackendError::NotFound("vehicle.vin".to_string()).message(),
        "signal not found: vehicle.vin"
    );
    assert_eq!(
        SignalBackendError::Backend("timeout".to_string()).message(),
        "signal backend error: timeout"
    );
}
