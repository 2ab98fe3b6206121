use sovd_gateway::signal_backend::SignalBackendError;
use sovd_gateway::simulator_backend::{
    map_client_error, signal_value_path, simulator_v1_url, string_signal_path, ClientFailure,
};

#[test]
fn v1_url_appends_version_to_bare_base() {
    assert_eq!(simulator_v1_url("http://localhost:8080"), "http://localhost:8080/v1");
}

#[test]
fn v1_url_drops_trailing_slash_before_appending() {
    assert_eq!(simulator_v1_url("http://localhost:8080/"), "http://localhost:8080/v1");
    assert_eq!(simulator_v1_url("http://localhost:8080///"), "http://localhost:8080/v1");
}

#[test]
fn v1_url_keeps_existing_version() {
    assert_eq!(simulator_v1_url("http://sim:9000/v1"), "http://sim:9000/v1");
    assert_eq!(simulator_v1_url("http://sim:9000/v1/"), "http://sim:9000/v1");
    assert_eq!(simulator_v1_url("http://sim:9000/api/v1//"), "http://sim:9000/api/v1");
}

#[test]
fn v1_url_does_not_mistake_other_versions() {
    assert_eq!(simulator_v1_url("http://sim/v10"), "http://sim/v10/v1");
    assert_eq!(simulator_v1_url("http://sim/v2"), "http://sim/v2/v1");
    assert_eq!(simulator_v1_url("http://sim/xv1"), "http://sim/xv1/v1");
}

#[test]
fn v1_url_of_empty_and_slash_only_input() {
    assert_eq!(simulator_v1_url(""), "/v1");
    assert_eq!(simulator_v1_url("///"), "/v1");
    assert_eq!(simulator_v1_url("v1"), "v1/v1");
}

#[test]
fn v1_url_is_idempotent() {
    for base in ["http://a", "http://a/", "http://a/v1", "http://a/v1/", "", "/", "héllo/ü/"] {
        let once = simulator_v1_url(base);
        assert_eq!(simulator_v1_url(&once), once);
        assert!(once.ends_with("/v1"));
    }
}

#[test]
fn v1_url_handles_non_ascii_text() {
    assert_eq!(simulator_v1_url("http://fahrzeug-ü/"), "http://fahrzeug-ü/v1");
}

#[test]
fn client_not_found_becomes_signal_not_found() {
    let error = ClientFailure { status: Some(404), message: "API error 404".to_string() };
    assert_eq!(
        map_client_error(error, "vehicle.speed"),
        SignalBackendError::NotFound("vehicle.speed".to_string())
    );
}

#[test]
fn other_client_status_becomes_backend_error() {
    let error = ClientFailure { status: Some(500), message: "API error 500".to_string() };
    assert_eq!(
        map_client_error(error, "bms.soc"),
        SignalBackendError::Backend("failed to read simulator signal bms.soc: API error 500".to_string())
    );
}

#[test]
fn transport_failure_becomes_backend_error() {
    let error = ClientFailure { status: None, message: "connection refused".to_string() };
    assert_eq!(
        map_client_error(error, "vehicle.vin"),
        SignalBackendError::Backend(
            "failed to read simulator signal vehicle.vin: connection refused".to_string()
        )
    );
}

#[test]
fn value_path_names_the_signal() {
    assert_eq!(signal_value_path("vehicle.speed"), "/values/vehicle.speed");
    assert_eq!(signal_value_path(""), "/values/");
}

#[test]
fn vin_is_read_from_ident_endpoint() {
    assert_eq!(string_signal_path("vehicle.vin"), Ok("/ident/vin".to_string()));
}

#[test]
fn other_string_signals_have_no_endpoint() {
    assert_eq!(
        string_signal_path("vehicle.speed"),
        Err(SignalBackendError::Backend(
            "simulator has no string endpoint for signal vehicle.speed".to_string()
        ))
    );
    assert_eq!(
        string_signal_path("vehicle.vi"),
        Err(SignalBackendError::Backend(
            "simulator has no string endpoint for signal vehicle.vi".to_string()
        ))
    );
}
