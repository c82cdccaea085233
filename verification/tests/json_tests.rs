//! Tests of the raw-body pipeline: JSON decode plus classification.

use proxer_rs::error::Error;
use proxer_rs::json::{decode_envelope, process_response};

#[test]
fn pipeline_classifies_reported_failure() {
    let body = "{\"error\":1,\"message\":\"Invalid ID\",\"code\":3007,\"data\":null}";
    let outcome = process_response(body);
    assert_eq!(outcome, Err(Error::ProxerError(3007, "Invalid ID".to_string())));
}

#[test]
fn pipeline_yields_payload_fields_unchanged() {
    let body = "{\"error\":0,\"message\":\"\",\"code\":null,\"data\":{\"id\":1,\"name\":\"X\"}}";
    let value = process_response(body).unwrap();
    assert_eq!(value.get("id").unwrap().as_u64(), Some(1));
    assert_eq!(value.get("name").unwrap().as_str(), Some("X"));
}

#[test]
fn pipeline_reports_missing_payload() {
    let body = "{\"error\":0,\"message\":\"\",\"code\":null,\"data\":null}";
    assert_eq!(
        process_response(body),
        Err(Error::Other("Found Empty data after error check.".to_string()))
    );
    let without_field = "{\"error\":0,\"message\":\"\"}";
    assert_eq!(
        process_response(without_field),
        Err(Error::Other("Found Empty data after error check.".to_string()))
    );
}

#[test]
fn pipeline_rejects_malformed_json() {
    let outcome = process_response("{not json");
    assert!(matches!(outcome, Err(Error::SerdeError(_))));
}

#[test]
fn pipeline_rejects_wrong_envelope_shapes() {
    assert!(matches!(
        process_response("{\"message\":\"\",\"data\":null}"),
        Err(Error::SerdeError(_))
    ));
    assert!(matches!(
        process_response("{\"error\":\"nope\",\"message\":\"\"}"),
        Err(Error::SerdeError(_))
    ));
    assert!(matches!(
        process_response("{\"error\":2,\"message\":\"\"}"),
        Err(Error::SerdeError(_))
    ));
    assert!(matches!(
        process_response("{\"error\":0,\"message\":7}"),
        Err(Error::SerdeError(_))
    ));
    assert!(matches!(
        process_response("{\"error\":0,\"message\":\"\",\"code\":70000}"),
        Err(Error::SerdeError(_))
    ));
    assert!(matches!(process_response("{\"error\":0}"), Err(Error::SerdeError(_))));
    assert!(matches!(
        process_response("{\"error\":0,\"message\":\"\",\"code\":\"x\"}"),
        Err(Error::SerdeError(_))
    ));
    assert!(matches!(process_response("[1,2,3]"), Err(Error::SerdeError(_))));
}

#[test]
fn decode_envelope_keeps_every_field() {
    let body = "{\"error\":1,\"message\":\"m\",\"code\":2000,\"data\":null}";
    let envelope = decode_envelope(body).unwrap();
    assert_eq!(envelope.error, 1);
    assert_eq!(envelope.message, "m");
    assert_eq!(envelope.code, Some(2000));
    assert!(envelope.data.is_none());
}

#[test]
fn decode_envelope_round_trips_a_stream_fixture() {
    let fixture = "{\"error\":0,\"message\":\"\",\"code\":null,\"data\":[{\"id\":3,\
\"type\":\"mp4upload\",\"name\":\"Mp4Upload\",\"img\":\"mp4upload.png\",\"uploader\":101,\
\"username\":\"up\",\"timestamp\":1485000000,\"tid\":9,\"tname\":\"grp\",\"htype\":\"iframe\"}]}";
    let value = process_response(fixture).unwrap();
    let expected: serde_json::Value = serde_json::from_str(
        "[{\"id\":3,\"type\":\"mp4upload\",\"name\":\"Mp4Upload\",\"img\":\"mp4upload.png\",\
\"uploader\":101,\"username\":\"up\",\"timestamp\":1485000000,\"tid\":9,\"tname\":\"grp\",\
\"htype\":\"iframe\"}]",
    )
    .unwrap();
    assert_eq!(value, expected);
    let first = &value.as_array().unwrap()[0];
    assert_eq!(first.get("id").unwrap().as_u64(), Some(3));
    assert_eq!(first.get("type").unwrap().as_str(), Some("mp4upload"));
    assert_eq!(first.get("name").unwrap().as_str(), Some("Mp4Upload"));
    assert_eq!(first.get("img").unwrap().as_str(), Some("mp4upload.png"));
    assert_eq!(first.get("uploader").unwrap().as_u64(), Some(101));
    assert_eq!(first.get("username").unwrap().as_str(), Some("up"));
    assert_eq!(first.get("timestamp").unwrap().as_u64(), Some(1485000000));
    assert_eq!(first.get("tid").unwrap().as_u64(), Some(9));
    assert_eq!(first.get("tname").unwrap().as_str(), Some("grp"));
    assert_eq!(first.get("htype").unwrap().as_str(), Some("iframe"));
}
