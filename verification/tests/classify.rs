use web_errors::errors::{bad_request_msg, err_msg, not_found_msg, ApiResultExt, WebError};
use web_errors::status::Status;
use web_errors::StrictApiResponse;

#[test]
fn it_works() {
    assert_eq!(2 + 2, 4);
}

#[test]
fn unannotated_failure_discloses_generic_reason() {
    let e = WebError::new("secret detail".to_string());
    assert_eq!(e.public_error(), "Internal Server Error");
}

#[test]
fn status_reason_is_disclosed_when_no_public_message() {
    let r: Result<i32, String> = Err("db connection refused".to_string());
    let e = r.not_found().unwrap_err();
    assert_eq!(e.public_error(), "Not Found");
}

#[test]
fn public_context_keeps_cause_private() {
    let r: Result<i32, String> = Err("disk full".to_string());
    let e = r.public_context("try again later".to_string()).unwrap_err();
    assert_eq!(e.public_error(), "try again later");
}

#[test]
fn publish_error_discloses_verbatim() {
    let r: Result<i32, String> = Err("secret-key mismatch".to_string());
    let e = r.publish_error().unwrap_err();
    assert_eq!(e.public_error(), "secret-key mismatch");
}

#[test]
fn publish_error_is_idempotent() {
    let once = WebError::new("boom".to_string()).publish_error();
    let twice = WebError::new("boom".to_string()).publish_error().publish_error();
    assert_eq!(once.public_error(), twice.public_error());
    assert_eq!(once.public_error(), "boom");
}

#[test]
fn public_message_last_write_wins() {
    let r: Result<i32, String> = Err("cause".to_string());
    let e = r.public_context("a".to_string()).public_context("b".to_string()).unwrap_err();
    assert_eq!(e.public_error(), "b");
}

#[test]
fn private_message_last_write_wins() {
    let e = WebError::new("raw".to_string())
        .with_private_error("a".to_string())
        .with_private_error("b".to_string())
        .publish_error();
    assert_eq!(e.public_error(), "b");
}

#[test]
fn private_context_does_not_disclose() {
    let r: Result<i32, String> = Err("raw".to_string());
    let e = r.private_context("more detail".to_string()).unwrap_err();
    assert_eq!(e.public_error(), "Internal Server Error");
}

#[test]
fn with_public_error_then_with_status_keeps_message() {
    let e = WebError::new("raw".to_string())
        .with_public_error("shown".to_string())
        .with_status(Status::forbidden());
    assert_eq!(e.public_error(), "shown");
}

#[test]
fn custom_status_reason_is_disclosed() {
    let e = WebError::new("raw".to_string())
        .with_status(Status::new(418, "I'm a teapot".to_string()));
    assert_eq!(e.public_error(), "I'm a teapot");
}

#[test]
fn success_passes_through_every_annotation() {
    let r: Result<i32, String> = Ok(7);
    assert_eq!(r.bad_request().unwrap(), 7);
    let r: Result<i32, String> = Ok(7);
    assert_eq!(r.forbidden().unwrap(), 7);
    let r: Result<i32, String> = Ok(7);
    assert_eq!(r.not_found().unwrap(), 7);
    let r: Result<i32, String> = Ok(7);
    assert_eq!(r.publish_error().unwrap(), 7);
    let r: Result<i32, String> = Ok(7);
    assert_eq!(r.public_context("x".to_string()).unwrap(), 7);
    let r: Result<i32, String> = Ok(7);
    assert_eq!(r.private_context("x".to_string()).unwrap(), 7);
}

#[test]
fn chain_continues_on_classified_errors() {
    let r: Result<i32, String> = Err("cause".to_string());
    let r = r.public_context("shown".to_string());
    let e = r.not_found().unwrap_err();
    assert_eq!(e.public_error(), "shown");
}

#[test]
fn disclosure_is_independent_of_raw_text() {
    let a: Result<i32, String> = Err("raw text one".to_string());
    let b: Result<i32, String> = Err("raw text two".to_string());
    let ea = a.private_context("noted".to_string()).bad_request().unwrap_err();
    let eb = b.private_context("noted".to_string()).bad_request().unwrap_err();
    assert_eq!(ea.public_error(), eb.public_error());
    assert_eq!(ea.public_error(), "Bad Request");
}

#[test]
fn err_msg_discloses_its_message() {
    let e = err_msg(Status::forbidden(), "no access".to_string());
    assert_eq!(e.public_error(), "no access");
}

#[test]
fn bad_request_msg_shortcut() {
    let e = bad_request_msg("missing field".to_string());
    assert_eq!(e.public_error(), "missing field");
}

#[test]
fn not_found_msg_shortcut() {
    let e = not_found_msg("no such user".to_string());
    assert_eq!(e.public_error(), "no such user");
}

#[test]
fn strict_success_unwraps() {
    let r: StrictApiResponse<i32> = StrictApiResponse::Success(5);
    assert_eq!(r.success().unwrap(), 5);
}

#[test]
fn strict_error_yields_api_error() {
    let r: StrictApiResponse<i32> = StrictApiResponse::Error("denied".to_string());
    let e = r.success().unwrap_err();
    assert_eq!(e.message(), "denied");
}
