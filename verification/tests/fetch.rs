use bevy_http::bad_status_error;
use bevy_http::body_error;
use bevy_http::classify_status;
use bevy_http::on_status;
use bevy_http::transport_error;
use bevy_http::u16_decimal;
use bevy_http::FetchError;
use bevy_http::StatusClass;
use bevy_http::StatusDecision;

#[test]
fn classify_success_codes() {
    assert_eq!(classify_status(200), StatusClass::Success);
    assert_eq!(classify_status(204), StatusClass::Success);
    assert_eq!(classify_status(299), StatusClass::Success);
}

#[test]
fn classify_not_found() {
    assert_eq!(classify_status(404), StatusClass::NotFound);
}

#[test]
fn classify_other_codes_as_failure() {
    assert_eq!(classify_status(100), StatusClass::Failure);
    assert_eq!(classify_status(199), StatusClass::Failure);
    assert_eq!(classify_status(300), StatusClass::Failure);
    assert_eq!(classify_status(301), StatusClass::Failure);
    assert_eq!(classify_status(400), StatusClass::Failure);
    assert_eq!(classify_status(403), StatusClass::Failure);
    assert_eq!(classify_status(405), StatusClass::Failure);
    assert_eq!(classify_status(500), StatusClass::Failure);
    assert_eq!(classify_status(503), StatusClass::Failure);
}

#[test]
fn success_status_reads_body() {
    assert!(matches!(on_status("icon.png", 200), StatusDecision::ReadBody));
    assert!(matches!(on_status("icon.png", 226), StatusDecision::ReadBody));
}

#[test]
fn not_found_status_carries_the_path() {
    match on_status("icon.png", 404) {
        StatusDecision::Fail(FetchError::NotFound(p)) => assert_eq!(p, "icon.png"),
        _ => panic!("a 404 must classify as NotFound with the requested path"),
    }
}

#[test]
fn other_status_carries_the_code() {
    match on_status("icon.png", 500) {
        StatusDecision::Fail(FetchError::Io(m)) => assert_eq!(m, "bad status code: 500"),
        _ => panic!("a 500 must classify as an Io failure"),
    }
    match on_status("icon.png", 301) {
        StatusDecision::Fail(FetchError::Io(m)) => assert_eq!(m, "bad status code: 301"),
        _ => panic!("a redirect must classify as an Io failure"),
    }
}

#[test]
fn transport_failure_message_names_path_and_cause() {
    match transport_error("icon.png", "connection refused") {
        FetchError::Io(m) => assert_eq!(m, "error fetching icon.png: connection refused"),
        _ => panic!("a transport failure must be an Io failure"),
    }
}

#[test]
fn body_failure_message_names_path_and_cause() {
    match body_error("icon.png", "unexpected end of stream") {
        FetchError::Io(m) => {
            assert_eq!(m, "error getting bytes for icon.png: unexpected end of stream")
        }
        _ => panic!("a body-read failure must be an Io failure"),
    }
}

#[test]
fn bad_status_error_renders_the_code() {
    match bad_status_error(418) {
        FetchError::Io(m) => assert_eq!(m, "bad status code: 418"),
        _ => panic!("a bad status must be an Io failure"),
    }
}

#[test]
fn decimal_rendering() {
    assert_eq!(u16_decimal(0), "0");
    assert_eq!(u16_decimal(7), "7");
    assert_eq!(u16_decimal(10), "10");
    assert_eq!(u16_decimal(404), "404");
    assert_eq!(u16_decimal(65535), "65535");
}
