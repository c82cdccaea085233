//! Tests of envelope classification.

use proxer_rs::envelope::{check_data, check_empty_response, check_error, check_response};
use proxer_rs::error::{DecodeErrorCode, Error};
use proxer_rs::models::{EmptyResponse, Response};
use proxer_rs::{check_old_news, OldNews, OldNotification};

#[test]
fn error_envelope_classifies_to_proxer_error() {
    let envelope: Response<u64> = Response {
        error: 1,
        message: "Invalid ID".to_string(),
        code: Some(3007),
        data: None,
    };
    let outcome = check_response(envelope);
    assert_eq!(outcome, Err(Error::ProxerError(3007, "Invalid ID".to_string())));
    assert_eq!(DecodeErrorCode::decode(3007), "Info: Ungültige ID.");
}

#[test]
fn error_envelope_without_code_reports_zero() {
    let envelope: Response<u64> = Response {
        error: 1,
        message: "boom".to_string(),
        code: None,
        data: None,
    };
    assert_eq!(check_response(envelope), Err(Error::ProxerError(0, "boom".to_string())));
}

#[test]
fn success_envelope_yields_payload_unchanged() {
    let envelope: Response<Vec<u64>> = Response {
        error: 0,
        message: String::new(),
        code: None,
        data: Some(vec![1, 2, 3]),
    };
    assert_eq!(check_response(envelope), Ok(vec![1, 2, 3]));
}

#[test]
fn success_envelope_without_data_is_an_error() {
    let envelope: Response<u64> = Response {
        error: 0,
        message: String::new(),
        code: None,
        data: None,
    };
    assert_eq!(
        check_response(envelope),
        Err(Error::Other("Found Empty data after error check.".to_string()))
    );
}

#[test]
fn check_error_passes_on_clear_flag() {
    assert_eq!(check_error(0, 3007, "ignored".to_string()), Ok(()));
    assert_eq!(
        check_error(1, 3007, "Invalid ID".to_string()),
        Err(Error::ProxerError(3007, "Invalid ID".to_string()))
    );
}

#[test]
fn check_data_never_defaults() {
    assert_eq!(check_data(Some(7u64)), Ok(7));
    assert_eq!(
        check_data::<u64>(None),
        Err(Error::Other("Found Empty data after error check.".to_string()))
    );
}

#[test]
fn empty_response_classification() {
    let ok = EmptyResponse { error: 0, message: String::new(), code: None };
    assert_eq!(check_empty_response(ok), Ok(()));
    let bad = EmptyResponse { error: 1, message: "no".to_string(), code: Some(3004) };
    assert_eq!(check_empty_response(bad), Err(Error::ProxerError(3004, "no".to_string())));
}

fn sample_notification() -> OldNotification {
    OldNotification {
        nid: 10,
        time: 1485000000,
        description: "d".to_string(),
        image_id: 77,
        image_style: String::new(),
        subject: "s".to_string(),
        hits: 3,
        thread: 4,
        uid: 5,
        uname: "u".to_string(),
        posts: 6,
        catid: 7,
        catname: "c".to_string(),
    }
}

#[test]
fn old_news_error_classifies_with_code_zero() {
    let news = OldNews { error: 1, message: Some("down".to_string()), notifications: None };
    assert_eq!(check_old_news(news), Err(Error::ProxerError(0, "down".to_string())));
}

#[test]
fn old_news_error_without_message_reports_empty_text() {
    let news = OldNews { error: 1, message: None, notifications: None };
    assert_eq!(check_old_news(news), Err(Error::ProxerError(0, String::new())));
}

#[test]
fn old_news_success_yields_items() {
    let item = sample_notification();
    let news = OldNews { error: 0, message: None, notifications: Some(vec![item.clone()]) };
    assert_eq!(check_old_news(news), Ok(vec![item]));
}

#[test]
fn old_news_success_without_items_is_an_error() {
    let news = OldNews { error: 0, message: None, notifications: None };
    assert_eq!(
        check_old_news(news),
        Err(Error::Other("Found Empty data after error check.".to_string()))
    );
}
