use web_errors::envelope::{decode_body, encode_body, error_body, render, success_body};
use web_errors::errors::{ApiResponse, ApiResultExt, WebError};
use web_errors::StrictApiResponse;

#[test]
fn success_scenario_renders_ok() {
    // success value 42 -> status 200, body {"success":42}
    let payload = serde_json::to_string(&42).unwrap();
    let (hints, body) = render(ApiResponse::Success(payload));
    assert_eq!(hints.status().code, 200);
    assert_eq!(body, "{\"success\":42}");
}

#[test]
fn not_found_scenario_withholds_private_text() {
    // raw failure "db connection refused" -> .not_found() -> 404, reason phrase
    let r: Result<i32, String> = Err("db connection refused".to_string());
    let e = r.not_found().unwrap_err();
    let (hints, body) = render(ApiResponse::<String>::Error(e));
    assert_eq!(hints.status().code, 404);
    assert_eq!(body, "{\"error\":\"Not Found\"}");
}

#[test]
fn public_context_scenario_defaults_to_500() {
    // raw failure "disk full" -> .public_context("try again later") -> 500
    let r: Result<i32, String> = Err("disk full".to_string());
    let e = r.public_context("try again later".to_string()).unwrap_err();
    let (hints, body) = render(ApiResponse::<String>::Error(e));
    assert_eq!(hints.status().code, 500);
    assert_eq!(body, "{\"error\":\"try again later\"}");
}

#[test]
fn publish_scenario_discloses_verbatim() {
    // raw failure "secret-key mismatch" -> .publish_error() -> 500, verbatim
    let r: Result<i32, String> = Err("secret-key mismatch".to_string());
    let e = r.publish_error().unwrap_err();
    let (hints, body) = render(ApiResponse::<String>::Error(e));
    assert_eq!(hints.status().code, 500);
    assert_eq!(body, "{\"error\":\"secret-key mismatch\"}");
}

#[test]
fn shortcut_statuses_resolve_to_their_codes() {
    let codes = [(400, "Bad Request"), (403, "Forbidden"), (404, "Not Found")];
    for (code, reason) in codes {
        let r: Result<i32, String> = Err("cause".to_string());
        let r = match code {
            400 => r.bad_request(),
            403 => r.forbidden(),
            _ => r.not_found(),
        };
        let (hints, body) = render(ApiResponse::<String>::Error(r.unwrap_err()));
        assert_eq!(hints.status().code, code);
        assert_eq!(body, format!("{}\"error\":\"{}\"{}", '{', reason, '}'));
    }
}

#[test]
fn success_round_trip() {
    let payload = serde_json::to_string(&42).unwrap();
    let body = success_body(&payload);
    let decoded = decode_body(&body).unwrap();
    match decoded {
        StrictApiResponse::Success(p) => {
            assert_eq!(p, "42");
            let v: i32 = serde_json::from_str(&p).unwrap();
            assert_eq!(v, 42);
        },
        StrictApiResponse::Error(_) => panic!("decoded as error"),
    }
}

#[test]
fn error_round_trip_preserves_message() {
    let msg = "try again later";
    let body = error_body(msg);
    let decoded = decode_body(&body).unwrap();
    match decoded {
        StrictApiResponse::Error(m) => assert_eq!(m, msg),
        StrictApiResponse::Success(_) => panic!("decoded as success"),
    }
}

#[test]
fn error_round_trip_with_escapes() {
    let msg = "a \"quoted\" \\ backslash\nnewline\ttab";
    let body = error_body(msg);
    let decoded = decode_body(&body).unwrap();
    match decoded {
        StrictApiResponse::Error(m) => assert_eq!(m, msg),
        StrictApiResponse::Success(_) => panic!("decoded as success"),
    }
}

#[test]
fn error_body_is_valid_json() {
    let msg = "a \"quoted\" \\ backslash\nnewline and unicode: café";
    let body = error_body(msg);
    let v: serde_json::Value = serde_json::from_str(&body).unwrap();
    let seen = v.get("error").unwrap().as_str().unwrap();
    assert_eq!(seen, msg);
}

#[test]
fn encode_body_matches_variant() {
    let s = StrictApiResponse::Success("true".to_string());
    assert_eq!(encode_body(&s), "{\"success\":true}");
    let e: StrictApiResponse<String> = StrictApiResponse::Error("denied".to_string());
    assert_eq!(encode_body(&e), "{\"error\":\"denied\"}");
}

#[test]
fn empty_message_round_trips() {
    let body = error_body("");
    assert_eq!(body, "{\"error\":\"\"}");
    match decode_body(&body).unwrap() {
        StrictApiResponse::Error(m) => assert_eq!(m, ""),
        StrictApiResponse::Success(_) => panic!("decoded as success"),
    }
}

#[test]
fn control_characters_take_hex_escapes() {
    let body = error_body("\n");
    assert_eq!(body, "{\"error\":\"\\u000a\"}");
    let v: serde_json::Value = serde_json::from_str(&body).unwrap();
    assert_eq!(v.get("error").unwrap().as_str().unwrap(), "\n");
}

#[test]
fn decode_rejects_malformed_bodies() {
    assert!(decode_body("").is_none());
    assert!(decode_body("{}").is_none());
    assert!(decode_body("{\"error\":\"unterminated}").is_none());
    assert!(decode_body("{\"error\":\"bad \\x escape\"}").is_none());
    assert!(decode_body("{\"other\":1}").is_none());
}

#[test]
fn into_strict_separates_disclosure_from_status() {
    let e = WebError::new("private cause".to_string());
    let (strict, hints) = ApiResponse::<i32>::Error(e).into_strict();
    assert_eq!(hints.status().code, 500);
    match strict {
        StrictApiResponse::Error(m) => assert_eq!(m, "Internal Server Error"),
        StrictApiResponse::Success(_) => panic!("not an error"),
    }
    let (strict, hints) = ApiResponse::Success(9i32).into_strict();
    assert_eq!(hints.status().code, 200);
    match strict {
        StrictApiResponse::Success(v) => assert_eq!(v, 9),
        StrictApiResponse::Error(_) => panic!("not a success"),
    }
}
