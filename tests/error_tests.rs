use podfetch::error::{ErrorEvent, ErrorKind, Error, MapResult, _has_source, _no_source, api_error, BAD_REQUEST};
use std::time::Duration;

struct FailingManager;

impl r2d2::ManageConnection for FailingManager {
    type Connection = ();
    type Error = std::io::Error;

    fn connect(&self) -> Result<(), std::io::Error> {
        Err(std::io::Error::new(std::io::ErrorKind::Other, "refused"))
    }

    fn is_valid(&self, _conn: &mut ()) -> Result<(), std::io::Error> {
        Ok(())
    }

    fn has_broken(&self, _conn: &mut ()) -> bool {
        false
    }
}

fn pool_error() -> r2d2::Error {
    let pool = r2d2::Pool::builder()
        .connection_timeout(Duration::from_millis(50))
        .build_unchecked(FailingManager);
    pool.get().err().expect("the pool cannot connect")
}

fn envelope(q: &str) -> String {
    format!(
        "{{\"ErrorModel\":{{\"Message\":{q},\"Object\":\"error\"}},\"ExceptionMessage\":null,\"ExceptionStackTrace\":null,\"InnerExceptionMessage\":null,\"Message\":{q},\"Object\":\"error\",\"ValidationErrors\":{{\"\":[{q}]}},\"error\":\"\",\"error_description\":\"\"}}"
    )
}

#[test]
fn new_error_is_simple_with_bad_request() {
    let e = Error::new("bad input".to_string(), "field x missing".to_string());
    assert_eq!(e.message, "bad input");
    assert!(matches!(&e.error, ErrorKind::Simple(s) if s == "field x missing"));
    assert_eq!(e.error_code, 400);
    assert_eq!(BAD_REQUEST, 400);
    assert!(e.get_event().is_none());
}

#[test]
fn empty_error_renders_empty_object() {
    let e = Error::empty();
    assert_eq!(e.message, "Empty");
    assert!(matches!(e.error, ErrorKind::Empty(_)));
    assert_eq!(e.response_body(), "{}");
    assert_eq!(e.log_text(), "");
}

#[test]
fn builders_replace_one_field_each() {
    let e = Error::new("a".to_string(), "b".to_string())
        .with_msg("c".to_string())
        .with_code(404)
        .with_event(ErrorEvent { event: "logout".to_string() });
    assert_eq!(e.message, "c");
    assert_eq!(e.error_code, 404);
    assert_eq!(e.get_event().as_ref().map(|v| v.event.clone()), Some("logout".to_string()));
    assert!(matches!(&e.error, ErrorKind::Simple(s) if s == "b"));
}

#[test]
fn simple_error_body_is_the_json_envelope() {
    let e = Error::new("bad".to_string(), "log".to_string());
    assert_eq!(e.response_body(), envelope("\"bad\""));
}

#[test]
fn api_error_escapes_the_message() {
    assert_eq!(api_error("say \"hi\""), envelope("\"say \\\"hi\\\"\""));
}

#[test]
fn api_error_escapes_control_characters() {
    assert_eq!(api_error("a\nb\t\u{1}\\/"), envelope("\"a\\nb\\t\\u0001\\\\/\""));
}

#[test]
fn log_text_deduplicates_equal_messages() {
    let same = Error::new("boom".to_string(), "boom".to_string());
    assert_eq!(same.log_text(), "boom");
    let different = Error::new("boom".to_string(), "disk full".to_string());
    assert_eq!(different.log_text(), "boom. disk full");
}

#[test]
fn pool_error_has_source_and_cause_in_log() {
    let e = Error::from_pool_error(pool_error());
    assert_eq!(e.message, "DieselCon");
    assert!(e.source().is_some());
    assert!(e.log_text().starts_with("DieselCon.\n[CAUSE] "));
    assert!(e.log_text().len() > "DieselCon.\n[CAUSE] ".len());
    assert_eq!(e.response_body(), envelope("\"DieselCon\""));
    assert_eq!(e.log_text_with_cause("X"), "DieselCon.\n[CAUSE] X");
}

#[test]
fn simple_and_empty_errors_have_no_source() {
    assert!(Error::empty().source().is_none());
    assert!(Error::new("a".to_string(), "b".to_string()).source().is_none());
}

#[test]
fn map_res_on_results_and_options() {
    let ok: Result<i32, Error> = Ok(3);
    assert_eq!(ok.map_res("ignored").ok(), Some(3));
    let err: Result<i32, Error> = Err(Error::new("a".to_string(), "b".to_string())
        .with_code(500)
        .with_event(ErrorEvent { event: "e".to_string() }));
    let mapped = err.map_res("nicer").err().unwrap();
    assert_eq!(mapped.message, "nicer");
    assert_eq!(mapped.error_code, 500);
    assert!(matches!(&mapped.error, ErrorKind::Simple(s) if s == "b"));
    assert!(mapped.get_event().is_some());
    assert_eq!(Some(7).map_res("missing").ok(), Some(7));
    let none: Option<i32> = None;
    let e = none.map_res("missing").err().unwrap();
    assert_eq!(e.message, "missing");
    assert_eq!(e.error_code, 400);
    assert!(e.get_event().is_none());
    assert!(matches!(&e.error, ErrorKind::Simple(s) if s.is_empty()));
}

#[test]
fn source_helpers() {
    assert_eq!(_has_source(5), Some(5));
    let none: Option<u8> = _no_source(5);
    assert_eq!(none, None);
}
