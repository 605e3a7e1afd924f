use serde_json::Value;
use transcription_starter::json::Json;
use transcription_starter::reply::{Body, Reply};
use transcription_starter::session::{
    answer_session, check_token, handle_session, init_session_secret, issue_session, judge_token,
    require_session, secret_from_bytes, session_claims, Access, Claims, PendingSession,
    SessionCheck,
};

fn to_value(document: &Json) -> Value {
    match document {
        Json::Null => Value::Null,
        Json::Bool(value) => Value::Bool(*value),
        Json::Number(number) => Value::Number(number.clone()),
        Json::Text(text) => Value::String(text.clone()),
        Json::Array(items) => Value::Array(items.iter().map(to_value).collect()),
        Json::Object(map) => Value::Object(
            map.entries().iter().map(|(key, value)| (key.clone(), to_value(value))).collect(),
        ),
    }
}

fn body(reply: &Reply) -> Value {
    match &reply.body {
        Body::Document(document) => to_value(document),
        Body::Value(value) => value.clone(),
    }
}

fn parse(text: &str) -> Value {
    serde_json::from_str(text).unwrap()
}

fn refusal(access: Access) -> (u16, Value) {
    match access {
        Access::Refused(reply) => (reply.status, body(&reply)),
        Access::Granted => panic!("the request was let through"),
    }
}

fn decided(check: SessionCheck) -> Access {
    match check {
        SessionCheck::Decided(access) => access,
        SessionCheck::ReadClaims(_) => panic!("the claims are asked for"),
    }
}

fn pending(check: SessionCheck) -> PendingSession {
    match check {
        SessionCheck::ReadClaims(pending) => pending,
        SessionCheck::Decided(_) => panic!("the request is decided on"),
    }
}

const READ: Result<Claims, String> = Ok(Claims { iat: 1, exp: 2 });

fn unread(error: &str) -> Result<Claims, String> {
    Err(error.to_string())
}

fn invalid(message: &str) -> (u16, Value) {
    let text = format!(
        r#"{{"error":{{"type":"AuthenticationError","code":"INVALID_TOKEN","message":"{message}"}}}}"#
    );
    (401, parse(&text))
}

const HEADER: &str = "eyJ0eXAiOiJKV1QiLCJhbGciOiJIUzI1NiJ9";

fn present(payload_and_signature: &str) -> SessionCheck {
    let header = format!("Bearer {HEADER}.{payload_and_signature}");
    require_session(Some("secret"), Some(&header))
}

#[test]
fn configured_secret_is_used() {
    assert_eq!(init_session_secret(Some("topsecret".to_string())), "topsecret");
}

#[test]
fn missing_or_empty_secret_is_drawn_at_random() {
    let first = init_session_secret(None);
    let second = init_session_secret(Some(String::new()));
    for secret in [&first, &second] {
        assert_eq!(secret.len(), 64);
        assert!(secret.chars().all(|c| c.is_ascii_digit() || ('a'..='f').contains(&c)));
    }
    assert_ne!(first, second);
}

#[test]
fn secret_is_lower_case_hexadecimal() {
    assert_eq!(secret_from_bytes(&[1, 2, 3, 15, 16, 255]), "0102030f10ff");
    assert_eq!(secret_from_bytes(&[]), "");
}

#[test]
fn session_lasts_an_hour() {
    let claims = session_claims(1_700_000_000);
    assert_eq!(claims.iat, 1_700_000_000);
    assert_eq!(claims.exp, 1_700_003_600);
}

#[test]
fn token_is_signed_over_both_times() {
    let token = issue_session("secret", 1_700_000_000).unwrap();
    assert_eq!(
        token,
        format!(
            "{HEADER}.eyJpYXQiOjE3MDAwMDAwMDAsImV4cCI6MTcwMDAwMzYwMH0.{}",
            "s36e_KBcBq0mUQwEMafmZfYYduRzDYNOSwEDOvI8NmA"
        )
    );
}

#[test]
fn issued_session_is_let_through() {
    let reply = handle_session("a secret");
    assert_eq!(reply.status, 200);
    let token = body(&reply)["token"].as_str().unwrap().to_string();
    let header = format!("Bearer {token}");
    assert!(matches!(
        require_session(Some("a secret"), Some(&header)),
        SessionCheck::Decided(Access::Granted)
    ));
    let other = pending(require_session(Some("another secret"), Some(&header)));
    assert_eq!(other.token, token);
    assert_eq!(other.outcome, Err("InvalidSignature".to_string()));
    assert_eq!(refusal(other.claims_read(READ)), invalid("Invalid session token"));
}

#[test]
fn session_is_honoured_for_its_hour_and_a_minute() {
    let now = std::time::SystemTime::now()
        .duration_since(std::time::UNIX_EPOCH)
        .unwrap()
        .as_secs() as i64;
    for issued_at in [now, now - 1800, now - 3600, now - 3630] {
        let header = format!("Bearer {}", issue_session("secret", issued_at).unwrap());
        assert!(matches!(
            require_session(Some("secret"), Some(&header)),
            SessionCheck::Decided(Access::Granted)
        ));
    }
    let header = format!("Bearer {}", issue_session("secret", now - 3661).unwrap());
    let check = pending(require_session(Some("secret"), Some(&header)));
    assert_eq!(check.outcome, Err("ExpiredSignature".to_string()));
}

#[test]
fn expired_session_is_refused() {
    let token = issue_session("secret", 1_700_000_000).unwrap();
    let header = format!("Bearer {token}");
    let check = pending(require_session(Some("secret"), Some(&header)));
    assert_eq!(check.outcome, Err("ExpiredSignature".to_string()));
    assert_eq!(refusal(check.claims_read(READ)), invalid("Invalid session token"));
}

#[test]
fn session_that_could_not_be_signed_is_an_error() {
    let reply = answer_session(None);
    assert_eq!(reply.status, 500);
    assert_eq!(body(&reply), parse(r#"{"error":"Failed to generate session token"}"#));
    let reply = answer_session(Some("t.o.k".to_string()));
    assert_eq!(reply.status, 200);
    assert_eq!(body(&reply), parse(r#"{"token":"t.o.k"}"#));
}

#[test]
fn request_without_bearer_token_is_refused() {
    let expected = (
        401,
        parse(
            r#"{"error":{"type":"AuthenticationError","code":"MISSING_TOKEN",
                "message":"Authorization header with Bearer token is required"}}"#,
        ),
    );
    for header in [None, Some(""), Some("Bearer"), Some("bearer x"), Some("Basic x"), Some(" Bearer x")] {
        assert_eq!(refusal(decided(require_session(Some("secret"), header))), expected);
    }
}

#[test]
fn request_without_state_is_a_server_error() {
    assert_eq!(
        refusal(decided(require_session(None, Some("Bearer x")))),
        (500, parse(r#"{"error":"Internal server error"}"#))
    );
}

#[test]
fn text_that_is_no_token_is_refused() {
    for (header, token, error) in [
        ("Bearer ", "", "InvalidToken"),
        ("Bearer x", "x", "InvalidToken"),
        ("Bearer \u{e9}", "\u{e9}", "InvalidToken"),
    ] {
        let check = pending(require_session(Some("secret"), Some(header)));
        assert_eq!(check.token, token);
        assert_eq!(check.outcome, Err(error.to_string()));
        assert_eq!(refusal(check.claims_read(unread(error))), invalid("Invalid session token"));
    }
    assert!(pending(require_session(Some("secret"), Some("Bearer a.b.c"))).outcome.is_err());
}

#[test]
fn foreign_token_needs_its_claims_read() {
    let own = "eyJpYXQiOjEsImV4cCI6OTk5OTk5OTk5OTl9.nLL-3wkDMYTOJzFvSaMuTfqWqSFh4N9g9mquNuexoNE";
    assert!(matches!(present(own), SessionCheck::Decided(Access::Granted)));
    for (token, members) in [
        (
            "eyJleHAiOjk5OTk5OTk5OTk5fQ.1jatKNkZ5szDQQQo7fRNkJyG_t7xHn0fun9VaesEWCo",
            Some(vec![("exp".to_string(), 99999999999)]),
        ),
        (
            "eyJpYXQiOiJ4IiwiZXhwIjo5OTk5OTk5OTk5OX0.b0wc_trFBsWvGR2dpgL6J7qCTJwmf85MvhcfMx21Jwo",
            None,
        ),
        (
            "eyJpYXQiOjEuNSwiZXhwIjo5OTk5OTk5OTk5OX0.IyI1Hweyr0SlhMRRlTyebqvLO9-GS8cPkdirq1JgTKI",
            None,
        ),
        (
            "eyJpYXQiOjEsImlhdCI6MiwiZXhwIjo5OTk5OTk5OTk5OX0.0-guS6uopH8_vjyBUAORZU1EbDqH8WiI1FmMNgp6Z9o",
            Some(vec![("exp".to_string(), 99999999999), ("iat".to_string(), 2)]),
        ),
        ("eyJpYXQiOjEsImV4cCI6OTk5OTk5OTk5OTksIngiOjFlOTk5fQ.sLJZbSStWxWujssSgAmDgG3GEkR7qWnvjrkAeegLIh4", None),
    ] {
        let check = pending(present(token));
        assert_eq!(check.outcome, Ok(members));
        let error = "JSON error: duplicate field `iat` at line 1 column 17";
        assert_eq!(refusal(check.claims_read(unread(error))), invalid("Invalid session token"));
        assert!(matches!(pending(present(token)).claims_read(READ), Access::Granted));
    }
    let check = pending(present("WzEsMl0.lkqNJSh64qD5Zpr1779FZE3K3nRXLFNRr3HGVBw0_tg"));
    assert!(check.outcome.is_err());
    assert_eq!(refusal(check.claims_read(READ)), invalid("Invalid session token"));
}

#[test]
fn token_for_an_audience_is_refused() {
    let check = pending(present(
        "eyJpYXQiOjEsImV4cCI6OTk5OTk5OTk5OTksImF1ZCI6ImEifQ.YFqX8o1y93jBc7NYO6YoJ-uHQPJqOvJIphrZAt3mE1I",
    ));
    assert_eq!(check.outcome, Err("InvalidAudience".to_string()));
    assert_eq!(refusal(check.claims_read(READ)), invalid("Invalid session token"));
}

#[test]
fn error_text_decides_on_the_message() {
    let expired = invalid("Session expired, please refresh the page");
    let check = pending(present("ImV4cGlyZWQi.0dwHUsqarYCjoWQ0j0zcz0JqhgIfNg_lTdIu1Sl3QfE"));
    assert!(check.outcome.is_err());
    let error = "JSON error: invalid type: string \"expired\", expected i64";
    assert_eq!(refusal(check.claims_read(unread(error))), expired);
    assert_eq!(refusal(judge_token(unread(error), Ok(None))), expired);
    assert_eq!(refusal(judge_token(READ, Err("it has expired".to_string()))), expired);
    assert_eq!(
        refusal(judge_token(unread("no"), Err("it has expired".to_string()))),
        invalid("Invalid session token")
    );
    assert_eq!(
        refusal(judge_token(READ, Err("ExpiredSignature".to_string()))),
        invalid("Invalid session token")
    );
    assert!(matches!(judge_token(READ, Ok(None)), Access::Granted));
}

#[test]
fn own_token_is_known_by_signing_again() {
    let token = issue_session("secret", 5).unwrap();
    let members = |iat| Ok(Some(vec![("exp".to_string(), 3605), ("iat".to_string(), iat)]));
    assert!(matches!(
        check_token(&token, "secret", members(5)),
        SessionCheck::Decided(Access::Granted)
    ));
    assert!(matches!(check_token(&token, "secret", members(6)), SessionCheck::ReadClaims(_)));
    assert!(matches!(check_token(&token, "other", members(5)), SessionCheck::ReadClaims(_)));
    assert!(matches!(check_token(&token, "secret", Ok(None)), SessionCheck::ReadClaims(_)));
}
