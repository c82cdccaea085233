//! Tests of the error-code table.

use proxer_rs::error::{DecodeErrorCode, Error};

#[test]
fn decode_api_band() {
    assert_eq!(DecodeErrorCode::decode(1000), "API-Version existiert nicht.");
    assert_eq!(DecodeErrorCode::decode(1003), "API-Funktion existiert nicht.");
    assert_eq!(DecodeErrorCode::decode(1006), "Die aufgerufene Funktion wurde gesperrt.");
}

#[test]
fn decode_access_band() {
    assert_eq!(DecodeErrorCode::decode(2000), "IP von Firewall geblockt.");
    assert_eq!(DecodeErrorCode::decode(2001), "News: Fehler bei der Abfrage der News.");
}

#[test]
fn decode_validation_band() {
    assert_eq!(DecodeErrorCode::decode(3007), "Info: Ungültige ID.");
    assert_eq!(DecodeErrorCode::decode(3000), "Login: Fehlende Login-Daten.");
    assert_eq!(DecodeErrorCode::decode(3037), "List: Ungültige ID.");
}

#[test]
fn error_from_conversions() {
    assert_eq!(
        Error::from((3007u16, "Invalid ID".to_string())),
        Error::ProxerError(3007, "Invalid ID".to_string())
    );
    assert_eq!(Error::from("local".to_string()), Error::Other("local".to_string()));
}

#[test]
fn decode_unknown_code_falls_back() {
    assert_eq!(DecodeErrorCode::decode(9999), "Unknown Code");
    assert_eq!(DecodeErrorCode::decode(0), "Unknown Code");
    assert_eq!(DecodeErrorCode::decode(2999), "Unknown Code");
}
