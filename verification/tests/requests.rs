//! Spacing requests out, retrying rate-limited ones, and reading the token
//! reply.

use ratcrate::http::{
    bad_json, on_get_reply, parse_unsigned, request_line, status_error, throttle_wait, GetReply, GetStep,
    MIN_REQUEST_INTERVAL_NANOS, RATE_LIMIT_RETRIES,
};
use ratcrate::json::Json;
use ratcrate::tidal::{
    access_token_of, bad_token_response, download_via_tidal_dl_ng, on_token_reply, start_dl, token_request_line, RunEnd,
};

#[test]
fn requests_are_spaced_five_seconds_apart() {
    assert_eq!(throttle_wait(None), 0);
    assert_eq!(throttle_wait(Some(0)), MIN_REQUEST_INTERVAL_NANOS);
    assert_eq!(throttle_wait(Some(1_500_000_000)), 3_500_000_000);
    assert_eq!(throttle_wait(Some(5_000_000_000)), 0);
    assert_eq!(throttle_wait(Some(u64::MAX)), 0);
}

#[test]
fn unsigned_numbers_read_like_str_parse() {
    for text in ["0", "7", "+12", "0042", "18446744073709551615", "", "+", "-1", "1.5", " 3", "3 ", "18446744073709551616", "a1"] {
        assert_eq!(parse_unsigned(text), text.parse::<u64>().ok(), "{text:?}");
    }
}

#[test]
fn a_body_is_logged_and_handed_back() {
    let outcome = on_get_reply(0, GetReply::Body { status: 200, body: "{}".to_string() });
    assert_eq!(outcome.log, vec!["  <- 200", "     {}"]);
    assert!(matches!(outcome.step, GetStep::Done { status: 200, ref body } if body == "{}"));
    assert_eq!(request_line("https://x/y"), "GET https://x/y");
}

#[test]
fn rate_limited_requests_wait_as_asked_then_give_up() {
    let asked = on_get_reply(0, GetReply::Refused { code: 429, retry_after: Some("7".to_string()), body: "slow down".to_string() });
    assert_eq!(asked.log, vec!["  <- 429 slow down (rate limited, retrying in 7s)"]);
    assert!(matches!(asked.step, GetStep::Wait { secs: 7 }));

    let fallback = on_get_reply(2, GetReply::Refused { code: 429, retry_after: Some("soon".to_string()), body: String::new() });
    assert!(matches!(fallback.step, GetStep::Wait { secs: 3 }));
    let missing = on_get_reply(4, GetReply::Refused { code: 429, retry_after: None, body: String::new() });
    assert!(matches!(missing.step, GetStep::Wait { secs: 3 }));

    let last = on_get_reply(RATE_LIMIT_RETRIES, GetReply::Refused { code: 429, retry_after: Some("1".to_string()), body: "no".to_string() });
    assert_eq!(last.log, vec!["  <- 429 no (out of retries, giving up)"]);
    assert!(matches!(last.step, GetStep::Fail { ref error } if error == "HTTP 429: no"));
}

#[test]
fn other_failures_are_reported() {
    let refused = on_get_reply(0, GetReply::Refused { code: 404, retry_after: None, body: "missing".to_string() });
    assert_eq!(refused.log, vec!["  <- 404 missing"]);
    assert!(matches!(refused.step, GetStep::Fail { ref error } if error == "HTTP 404: missing"));

    let unreadable = on_get_reply(0, GetReply::Unreadable { status: 200, error: "cut".to_string() });
    assert!(matches!(unreadable.step, GetStep::Fail { ref error } if error == "HTTP 200: bad response body: cut"));

    let failed = on_get_reply(0, GetReply::Failed { error: "dns".to_string() });
    assert_eq!(failed.log, vec!["  <- error: dns"]);
    assert!(matches!(failed.step, GetStep::Fail { ref error } if error == "dns"));

    assert_eq!(status_error(500, "oops"), "HTTP 500: oops");
    assert_eq!(bad_json(200, "eof", "{"), "HTTP 200: bad json (eof): {");
}

#[test]
fn token_replies_never_log_the_token() {
    assert_eq!(token_request_line(), "POST https://auth.tidal.com/v1/oauth2/token (grant_type=client_credentials)");
    let granted = on_token_reply(GetReply::Body { status: 200, body: "{\"access_token\":\"secret\"}".to_string() });
    assert_eq!(granted.log, vec!["  <- 200", "     (token granted)"]);
    assert!(matches!(granted.step, GetStep::Done { status: 200, .. }));

    let refused = on_token_reply(GetReply::Refused { code: 401, retry_after: None, body: "bad client".to_string() });
    assert_eq!(refused.log, vec!["  <- 401 bad client"]);
    assert!(matches!(refused.step, GetStep::Fail { ref error } if error == "could not authenticate with Tidal: HTTP 401: bad client"));

    let failed = on_token_reply(GetReply::Failed { error: "offline".to_string() });
    assert!(matches!(failed.step, GetStep::Fail { ref error } if error == "could not authenticate with Tidal: offline"));

    assert_eq!(bad_token_response(200, "eof"), "HTTP 200: bad token response: eof");
    let doc = Json::Object(vec![("access_token".to_string(), Json::Str("abc".to_string()))]);
    assert_eq!(access_token_of(&doc), Ok("abc".to_string()));
    assert_eq!(access_token_of(&Json::Object(vec![])), Err("no access_token in Tidal's response".to_string()));
}

#[test]
fn a_download_run_shows_the_command_then_its_output() {
    let run = download_via_tidal_dl_ng("https://tidal.com/browse/track/7");
    let (mut session, echo) = start_dl(&run);
    assert_eq!(echo, "$ tidal-dl-ng dl https://tidal.com/browse/track/7");
    assert_eq!(session.on_output("Downloading..."), vec!["Downloading..."]);
    assert!(session.on_output("│ x = 1 │").is_empty());
    assert!(session.on_output("").is_empty());
    let (notes, result) = session.finish(&RunEnd::Stopped);
    assert_eq!(notes, vec!["  … (2 internal debug line(s) hidden)"]);
    assert_eq!(result, Err("tidal-dl-ng timed out after 3 minutes (likely stuck waiting on a prompt)".to_string()));

    let (mut ok, _) = start_dl(&run);
    assert_eq!(ok.on_output("done"), vec!["done"]);
    let (notes, result) = ok.finish(&RunEnd::Exited { success: true, status: "exit status: 0".to_string() });
    assert!(notes.is_empty());
    assert_eq!(result, Ok(()));
}
