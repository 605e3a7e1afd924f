//! Sessions: the secret, the tokens that are signed with it, and the check of a request's token.

use crate::json::{Json, JsonView};
use crate::reply::{document_reply, plain_error, plain_error_document, BodyView, Reply, ReplyView};
use crate::reply::{INTERNAL_SERVER_ERROR, OK, UNAUTHORIZED};
use crate::text::{
    contains, occurring_is_standing_between, occurs, optional_text, same_text, strip_prefix,
};
use vstd::prelude::*;

verus! {

/// How long a session lasts, in seconds.
pub const JWT_EXPIRY_SECS: i64 = 3600;

/// What a session token claims: when it was issued and when it expires, in seconds since 1970.
#[derive(Debug, Clone, Copy)]
pub struct Claims {
    pub iat: i64,
    pub exp: i64,
}

/// The lower-case hexadecimal digit of a number below sixteen.
pub open spec fn hex_digit(n: int) -> char {
    if n < 10 {
        ('0' as int + n) as char
    } else {
        ('a' as int + n - 10) as char
    }
}

/// Bytes in lower-case hexadecimal, two digits each, the high one first.
pub open spec fn hex_text(bytes: Seq<u8>) -> Seq<char>
    decreases bytes.len(),
{
    if bytes.len() == 0 {
        Seq::empty()
    } else {
        hex_text(bytes.drop_last()).push(hex_digit(bytes.last() as int / 16)).push(
            hex_digit(bytes.last() as int % 16),
        )
    }
}

/// Calls `hex::encode`, which writes bytes in lower-case hexadecimal.
#[verifier::external_body]
fn hex_encode(bytes: &[u8]) -> (text: String)
    ensures
        text@ == hex_text(bytes@),
{
    hex::encode(bytes)
}

/// Calls `rand::RngCore::fill_bytes` on `rand::thread_rng`. Which bytes come is left to chance, so
/// nothing is said of them beyond their number, which the type gives.
#[verifier::external_body]
fn random_bytes() -> [u8; 32] {
    let mut bytes = [0u8; 32];
    rand::RngCore::fill_bytes(&mut rand::thread_rng(), &mut bytes);
    bytes
}

/// Chance gave these bytes when it was asked.
pub closed spec fn is_random_draw(bytes: [u8; 32]) -> bool {
    call_ensures(random_bytes, (), bytes)
}

/// A random draw is what asking chance gave, and nothing chosen in its place.
proof fn random_draw_comes_from_chance(bytes: [u8; 32])
    ensures
        is_random_draw(bytes) <==> call_ensures(random_bytes, (), bytes),
{
}

/// The secret that given random bytes make.
pub fn secret_from_bytes(bytes: &[u8]) -> (secret: String)
    ensures
        secret@ == hex_text(bytes@),
{
    hex_encode(bytes)
}

/// The secret that sessions are signed with: the configured one, else a random one.
pub fn init_session_secret(configured: Option<String>) -> (secret: String)
    ensures
        match configured {
            Some(text) if text@.len() > 0 => secret@ == text@,
            _ => (exists|bytes: Seq<u8>|
                bytes.len() == 32 && secret@ == #[trigger] hex_text(bytes)) && (exists|
                bytes: [u8; 32],
            | #[trigger]
                is_random_draw(bytes) && secret@ == hex_text(bytes@)),
        },
        secret@.len() > 0,
{
    if let Some(secret) = configured {
        if !secret.as_str().is_empty() {
            return secret;
        }
    }
    let draw = random_bytes;
    let bytes: [u8; 32] = draw();
    let secret: String = secret_from_bytes(&bytes);
    proof {
        assert(bytes@.len() == 32 && secret@ == hex_text(bytes@));
        assert(is_random_draw(bytes));
        hex_text_has_two_digits_per_byte(bytes@);
    }
    secret
}

/// Declares `jsonwebtoken::errors::Error`, which says why a token could not be signed.
#[verifier::external_type_specification]
#[verifier::external_body]
pub struct ExTokenError(jsonwebtoken::errors::Error);

/// The token that `jsonwebtoken::encode` signs for given times with a given secret, under the
/// default header; `None` where it fails.
pub uninterp spec fn signed_token(iat: i64, exp: i64, secret: Seq<char>) -> Option<Seq<char>>;

/// What `jsonwebtoken::decode` gives for a token and a secret, with a claim that is required or
/// none and with the expiry checked or not, when its clock reads `now`, in seconds since 1970: the
/// members of the claims, sorted by name, where all of them are integers, `None` where the token
/// holds and its claims are anything else, or the text of the error.
pub uninterp spec fn checked_token(
    token: Seq<char>,
    secret: Seq<char>,
    required: Option<Seq<char>>,
    check_expiry: bool,
    now: u64,
) -> Result<Option<Seq<(Seq<char>, i64)>>, Seq<char>>;

/// How a token fares as a session when the clock reads `now`: no claim is required of it, and its
/// expiry counts.
pub open spec fn session_outcome(token: Seq<char>, secret: Seq<char>, now: u64) -> Result<
    Option<Seq<(Seq<char>, i64)>>,
    Seq<char>,
> {
    checked_token(token, secret, None, true, now)
}

/// The members of the claims of a session, sorted by name.
pub open spec fn session_members(iat: i64, exp: i64) -> Seq<(Seq<char>, i64)> {
    seq![("exp"@, exp), ("iat"@, iat)]
}

/// The text of the error that an expired token is refused with.
pub const EXPIRED_ERROR: &'static str = "ExpiredSignature";

/// The text of the error that a token for another audience is refused with.
pub const AUDIENCE_ERROR: &'static str = "InvalidAudience";

/// How long after its expiry a token is still taken, in seconds: clocks differ.
pub const LEEWAY_SECS: u64 = 60;

/// How a token fares that claims given times and nothing else: it is taken until the minute after
/// its expiry is over, and refused as expired from then on. Left aside is a clock that stands in
/// the first minute of 1970.
pub open spec fn lives_until_expiry(
    token: Seq<char>,
    secret: Seq<char>,
    iat: i64,
    exp: i64,
) -> bool {
    forall|now: u64|
        {
            &&& LEEWAY_SECS <= now <= exp + LEEWAY_SECS ==> #[trigger] session_outcome(
                token,
                secret,
                now,
            ) == Ok::<_, Seq<char>>(Some(session_members(iat, exp)))
            &&& exp >= 0 && now > exp + LEEWAY_SECS ==> session_outcome(token, secret, now)
                == Err::<Option<Seq<(Seq<char>, i64)>>, _>(EXPIRED_ERROR@)
        }
}

/// Calls `jsonwebtoken::encode` with the default header, which signs with HMAC and SHA-256. The
/// claims are written as a JSON object with the members `iat` and `exp`, in this order. The token
/// depends on the claims and the secret alone. Decoding it with the same secret gives the claims
/// again until it has expired, and the expiry error from then on.
#[verifier::external_body]
fn encode_claims(claims: &Claims, secret: &str) -> (token: Result<
    String,
    jsonwebtoken::errors::Error,
>)
    ensures
        match token {
            Ok(token) => signed_token(claims.iat, claims.exp, secret@) == Some(token@)
                && lives_until_expiry(token@, secret@, claims.iat, claims.exp),
            Err(_) => signed_token(claims.iat, claims.exp, secret@) is None,
        },
{
    let members = std::collections::BTreeMap::from([
        (std::cmp::Reverse("iat"), claims.iat),
        (std::cmp::Reverse("exp"), claims.exp),
    ]);
    let key = jsonwebtoken::EncodingKey::from_secret(secret.as_bytes());
    jsonwebtoken::encode(&jsonwebtoken::Header::default(), &members, &key)
}

/// The outcome is one that the clock has a part in: the token is well signed, and is taken, has
/// expired, or is for another audience.
pub open spec fn rests_on_clock(
    outcome: Result<Option<Seq<(Seq<char>, i64)>>, Seq<char>>,
) -> bool {
    match outcome {
        Ok(_) => true,
        Err(text) => text == EXPIRED_ERROR@ || text == AUDIENCE_ERROR@,
    }
}

/// What the outcome of decoding a token at one time says of every other time: an error of any other
/// kind comes whatever the clock reads, and otherwise all that the clock can change is whether the
/// token has expired.
pub open spec fn clock_changes_expiry_alone(
    token: Seq<char>,
    secret: Seq<char>,
    required: Option<Seq<char>>,
    check_expiry: bool,
    outcome: Result<Option<Seq<(Seq<char>, i64)>>, Seq<char>>,
) -> bool {
    let expired = Err::<Option<Seq<(Seq<char>, i64)>>, _>(EXPIRED_ERROR@);
    forall|now: u64|
        {
            let other = #[trigger] checked_token(token, secret, required, check_expiry, now);
            if outcome == expired {
                rests_on_clock(other)
            } else if rests_on_clock(outcome) {
                other == outcome || other == expired
            } else {
                other == outcome
            }
        }
}

/// Calls `jsonwebtoken::decode` with the default validation, but that the given claim, or none, is
/// required and the expiry is checked or not, and hands out the text of the error, or the claims
/// where they are integers throughout. To read the claims of a token that holds, it is decoded once
/// more, its expiry left aside. Whether the claims are integers has no part in whether the token
/// holds. The outcome is that of the arguments and some reading of the clock. Which reading it was
/// is not said: the call takes it itself.
#[verifier::external_body]
fn decode_token(
    token: &str,
    secret: &str,
    required: Option<&str>,
    check_expiry: bool,
) -> (outcome: Result<Option<Vec<(String, i64)>>, String>)
    ensures
        exists|now: u64|
            outcome_view(outcome) == #[trigger] checked_token(
                token@,
                secret@,
                optional_text(required),
                check_expiry,
                now,
            ),
        clock_changes_expiry_alone(
            token@,
            secret@,
            optional_text(required),
            check_expiry,
            outcome_view(outcome),
        ),
{
    let key = jsonwebtoken::DecodingKey::from_secret(secret.as_bytes());
    let mut validation = jsonwebtoken::Validation::default();
    validation.required_spec_claims = required.into_iter().map(String::from).collect();
    validation.validate_exp = check_expiry;
    jsonwebtoken::decode::<serde::de::IgnoredAny>(token, &key, &validation)
        .map_err(|error| error.to_string())?;
    validation.validate_exp = false;
    Ok(jsonwebtoken::decode::<std::collections::BTreeMap<String, i64>>(token, &key, &validation)
        .ok()
        .map(|data| data.claims.into_iter().collect()))
}

/// Calls `chrono::Utc::now` and gives the seconds since 1970. A time before 1970 or after the year
/// 262142 cannot come back.
#[verifier::external_body]
fn utc_timestamp() -> (now: i64)
    ensures
        0 <= now <= 8_210_266_876_799,
{
    chrono::Utc::now().timestamp()
}

/// The clock gave this reading, in seconds since 1970, when it was asked.
pub closed spec fn is_clock_reading(now: i64) -> bool {
    call_ensures(utc_timestamp, (), now)
}

/// A reading of the clock is what asking it gave, and nothing worked out from it.
proof fn clock_reading_comes_from_the_clock(now: i64)
    ensures
        is_clock_reading(now) <==> call_ensures(utc_timestamp, (), now),
{
}

/// Named integers, by their characters.
pub open spec fn members_view(members: Seq<(String, i64)>) -> Seq<(Seq<char>, i64)> {
    members.map_values(|member: (String, i64)| (member.0@, member.1))
}

/// What decoding a token gave, by its characters.
pub open spec fn outcome_view(
    outcome: Result<Option<Vec<(String, i64)>>, String>,
) -> Result<Option<Seq<(Seq<char>, i64)>>, Seq<char>> {
    match outcome {
        Ok(Some(members)) => Ok(Some(members_view(members@))),
        Ok(None) => Ok(None),
        Err(text) => Err(text@),
    }
}

/// The claims of a session that is issued now.
pub fn session_claims(now: i64) -> (claims: Claims)
    requires
        now <= i64::MAX - JWT_EXPIRY_SECS,
    ensures
        claims.iat == now,
        claims.exp == now + JWT_EXPIRY_SECS,
{
    Claims { iat: now, exp: now + JWT_EXPIRY_SECS }
}

/// The token is the one that a session issued at that time has, and it lives for the session's
/// time.
pub open spec fn issued(token: Seq<char>, secret: Seq<char>, now: i64) -> bool {
    let exp = (now + JWT_EXPIRY_SECS) as i64;
    &&& signed_token(now, exp, secret) == Some(token)
    &&& lives_until_expiry(token, secret, now, exp)
}

/// The answer to a request for a session.
pub open spec fn session_answer(token: Option<Seq<char>>) -> ReplyView {
    match token {
        Some(token) => document_reply(
            OK,
            JsonView::object().with("token"@, JsonView::Text(token)),
        ),
        None => document_reply(
            INTERNAL_SERVER_ERROR,
            plain_error("Failed to generate session token"@),
        ),
    }
}

/// Answers a request for a session with the token, where there is one.
pub fn answer_session(token: Option<String>) -> (reply: Reply)
    ensures
        match token {
            Some(token) => reply@ == session_answer(Some(token@)),
            None => reply@ == session_answer(None),
        },
{
    match token {
        Some(token) => Reply::document(
            OK,
            Json::object().with("token", Json::Text(token)),
        ),
        None => Reply::document(
            INTERNAL_SERVER_ERROR,
            plain_error_document("Failed to generate session token"),
        ),
    }
}

/// Issues a session at a given time.
pub fn issue_session(secret: &str, now: i64) -> (token: Option<String>)
    requires
        now <= i64::MAX - JWT_EXPIRY_SECS,
    ensures
        match token {
            Some(token) => issued(token@, secret@, now),
            None => signed_token(now, (now + JWT_EXPIRY_SECS) as i64, secret@) is None,
        },
{
    let claims: Claims = session_claims(now);
    match encode_claims(&claims, secret) {
        Ok(token) => Some(token),
        Err(_) => None,
    }
}

/// Issues a session now, and answers with its token.
pub fn handle_session(secret: &str) -> (reply: Reply)
    ensures
        exists|now: i64|
            0 <= now <= 8_210_266_876_799 && is_clock_reading(now) && reply@ == session_answer(
                #[trigger] signed_token(now, (now + JWT_EXPIRY_SECS) as i64, secret@),
            ) && (signed_token(now, (now + JWT_EXPIRY_SECS) as i64, secret@) matches Some(token)
                ==> issued(token, secret@, now)),
{
    let clock = utc_timestamp;
    let now: i64 = clock();
    let token: Option<String> = issue_session(secret, now);
    let ghost named = signed_token(now, (now + JWT_EXPIRY_SECS) as i64, secret@);
    let reply: Reply = answer_session(token);
    assert(reply@ == session_answer(named));
    reply
}

/// What becomes of a request to a protected route.
#[derive(Debug)]
pub enum Access {
    Granted,
    Refused(Reply),
}

/// What becomes of a request to a protected route.
pub enum AccessView {
    Granted,
    Refused(ReplyView),
}

impl View for Access {
    type V = AccessView;

    open spec fn view(&self) -> AccessView {
        match *self {
            Access::Granted => AccessView::Granted,
            Access::Refused(reply) => AccessView::Refused(reply@),
        }
    }
}

/// The answer to a request whose session is missing or invalid.
pub open spec fn authentication_error(code: Seq<char>, message: Seq<char>) -> ReplyView {
    document_reply(
        UNAUTHORIZED,
        JsonView::object().with(
            "error"@,
            JsonView::object().with("type"@, JsonView::Text("AuthenticationError"@)).with(
                "code"@,
                JsonView::Text(code),
            ).with("message"@, JsonView::Text(message)),
        ),
    )
}

/// Answers a request whose session is missing or invalid.
fn refuse(code: &str, message: &str) -> (access: Access)
    ensures
        access@ == AccessView::Refused(authentication_error(code@, message@)),
{
    let error: Json = Json::object().with("type", Json::text("AuthenticationError")).with(
        "code",
        Json::text(code),
    ).with("message", Json::text(message));
    Access::Refused(Reply::document(UNAUTHORIZED, Json::object().with("error", error)))
}

/// What a request is answered whose token is not accepted.
pub open spec fn invalid_token(message: Seq<char>) -> AccessView {
    AccessView::Refused(authentication_error("INVALID_TOKEN"@, message))
}

/// What a request is answered that carries no token.
pub open spec fn missing_token() -> AccessView {
    AccessView::Refused(
        authentication_error(
            "MISSING_TOKEN"@,
            "Authorization header with Bearer token is required"@,
        ),
    )
}

/// What a request is answered whose token is refused with a given error.
pub open spec fn refused_for(error: Seq<char>) -> AccessView {
    if occurs(error, "expired"@) {
        invalid_token("Session expired, please refresh the page"@)
    } else {
        invalid_token("Invalid session token"@)
    }
}

/// The claims of a token as they were read, or why they could not be.
pub open spec fn claims_view(claims: Result<Claims, String>) -> Result<Claims, Seq<char>> {
    match claims {
        Ok(claims) => Ok(claims),
        Err(error) => Err(error@),
    }
}

/// What becomes of a request, given the claims of its token and whether the token holds: it is let
/// through where the claims could be read and the token holds. An error in the claims is told
/// before one in the token's validity.
pub open spec fn judged(
    claims: Result<Claims, Seq<char>>,
    outcome: Result<Option<Seq<(Seq<char>, i64)>>, Seq<char>>,
) -> AccessView {
    match (claims, outcome) {
        (Err(error), _) => refused_for(error),
        (Ok(_), Err(error)) => refused_for(error),
        (Ok(_), Ok(_)) => AccessView::Granted,
    }
}

/// Decides on a request, given the claims of its token and whether the token holds.
pub fn judge_token(
    claims: Result<Claims, String>,
    outcome: Result<Option<Vec<(String, i64)>>, String>,
) -> (access: Access)
    ensures
        access@ == judged(claims_view(claims), outcome_view(outcome)),
{
    let error: String = match claims {
        Err(error) => error,
        Ok(_) => match outcome {
            Err(error) => error,
            Ok(_) => return Access::Granted,
        },
    };
    if contains(error.as_str(), "expired") {
        refuse("INVALID_TOKEN", "Session expired, please refresh the page")
    } else {
        refuse("INVALID_TOKEN", "Invalid session token")
    }
}

/// A request whose token is neither known as one of the server's own nor refused yet.
#[derive(Debug)]
pub struct PendingSession {
    pub token: String,
    /// Whether the token holds.
    pub outcome: Result<Option<Vec<(String, i64)>>, String>,
}

impl PendingSession {
    /// Decides on the request, once the claims of its token were read.
    pub fn claims_read(self, claims: Result<Claims, String>) -> (access: Access)
        ensures
            access@ == judged(claims_view(claims), outcome_view(self.outcome)),
    {
        judge_token(claims, self.outcome)
    }
}

/// How far a request to a protected route has come.
#[derive(Debug)]
pub enum SessionCheck {
    /// It is decided on.
    Decided(Access),
    /// The claims of its token have to be read, with the secret and whatever the clock says.
    ReadClaims(PendingSession),
}

/// How far a request to a protected route has come.
pub enum SessionCheckView {
    Decided(AccessView),
    ReadClaims { token: Seq<char>, outcome: Result<Option<Seq<(Seq<char>, i64)>>, Seq<char>> },
}

impl View for SessionCheck {
    type V = SessionCheckView;

    open spec fn view(&self) -> SessionCheckView {
        match *self {
            SessionCheck::Decided(access) => SessionCheckView::Decided(access@),
            SessionCheck::ReadClaims(pending) => SessionCheckView::ReadClaims {
                token: pending.token@,
                outcome: outcome_view(pending.outcome),
            },
        }
    }
}

/// The times of a session, where the claims of a token are those of one.
pub open spec fn session_times(
    outcome: Result<Option<Seq<(Seq<char>, i64)>>, Seq<char>>,
) -> Option<(i64, i64)> {
    match outcome {
        Ok(Some(members)) => if members.len() == 2 && members[0].0 == "exp"@ && members[1].0
            == "iat"@ {
            Some((members[1].1, members[0].1))
        } else {
            None
        },
        _ => None,
    }
}

/// The token holds and is one of the server's own: signing its times gives the token again.
pub open spec fn is_own_session(
    token: Seq<char>,
    secret: Seq<char>,
    outcome: Result<Option<Seq<(Seq<char>, i64)>>, Seq<char>>,
) -> bool {
    match session_times(outcome) {
        Some((iat, exp)) => signed_token(iat, exp, secret) == Some(token),
        None => false,
    }
}

/// How far a request comes by its token alone: one of the server's own that holds is let through,
/// and for any other the claims have to be read.
pub open spec fn session_check(
    token: Seq<char>,
    secret: Seq<char>,
    outcome: Result<Option<Seq<(Seq<char>, i64)>>, Seq<char>>,
) -> SessionCheckView {
    if is_own_session(token, secret, outcome) {
        SessionCheckView::Decided(AccessView::Granted)
    } else {
        SessionCheckView::ReadClaims { token, outcome }
    }
}

/// The times of a session, where these are the members of the claims of one.
fn times_of(members: &Vec<(String, i64)>) -> (times: Option<(i64, i64)>)
    ensures
        times == session_times(Ok(Some(members_view(members@)))),
{
    if members.len() == 2 && same_text(members[0].0.as_str(), "exp") && same_text(
        members[1].0.as_str(),
        "iat",
    ) {
        Some((members[1].1, members[0].1))
    } else {
        None
    }
}

/// Goes as far with a request as its token alone allows, given whether the token holds.
pub fn check_token(
    token: &str,
    secret: &str,
    outcome: Result<Option<Vec<(String, i64)>>, String>,
) -> (check: SessionCheck)
    ensures
        check@ == session_check(token@, secret@, outcome_view(outcome)),
{
    if let Ok(Some(members)) = &outcome {
        if let Some((iat, exp)) = times_of(members) {
            if let Ok(signed) = encode_claims(&Claims { iat, exp }, secret) {
                if same_text(signed.as_str(), token) {
                    return SessionCheck::Decided(Access::Granted);
                }
            }
        }
    }
    SessionCheck::ReadClaims(PendingSession { token: token.to_string(), outcome })
}

/// The token of an `Authorization` header: what follows `Bearer `.
pub open spec fn bearer_token(header: Option<Seq<char>>) -> Option<Seq<char>> {
    match header {
        Some(header) => if "Bearer "@.is_prefix_of(header) {
            Some(header.skip("Bearer "@.len() as int))
        } else {
            None
        },
        None => None,
    }
}

/// The request has come as far as its token takes it at some reading of the clock, and what that
/// reading can change is known.
pub open spec fn checked_at_some_time(
    check: SessionCheckView,
    token: Seq<char>,
    secret: Seq<char>,
) -> bool {
    exists|now: u64|
        {
            let outcome = #[trigger] session_outcome(token, secret, now);
            check == session_check(token, secret, outcome) && clock_changes_expiry_alone(
                token,
                secret,
                None,
                true,
                outcome,
            )
        }
}

/// Decoding the token with the secret gave this outcome, no claim being required and the expiry being
/// checked.
pub closed spec fn came_of_decoding(
    token: Seq<char>,
    secret: Seq<char>,
    outcome: Result<Option<Vec<(String, i64)>>, String>,
) -> bool {
    exists|text: &str, key: &str|
        text@ == token && key@ == secret && #[trigger] call_ensures(
            decode_token,
            (text, key, None::<&str>, true),
            outcome,
        )
}

/// What came of decoding is what that very call gave.
proof fn outcome_comes_from_decoding(
    token: Seq<char>,
    secret: Seq<char>,
    outcome: Result<Option<Vec<(String, i64)>>, String>,
)
    ensures
        came_of_decoding(token, secret, outcome) <==> exists|text: &str, key: &str|
            text@ == token && key@ == secret && #[trigger] call_ensures(
                decode_token,
                (text, key, None::<&str>, true),
                outcome,
            ),
{
}

/// The request has come as far as the outcome of decoding its token takes it.
pub open spec fn follows_decoding(
    check: SessionCheckView,
    token: Seq<char>,
    secret: Seq<char>,
) -> bool {
    exists|outcome: Result<Option<Vec<(String, i64)>>, String>| #[trigger]
        came_of_decoding(token, secret, outcome) && check == session_check(
            token,
            secret,
            outcome_view(outcome),
        )
}

/// Checks the session of a request to a protected route. `secret` is absent when the server's
/// state is; `auth_header` is absent when there is no `Authorization` header, or no readable one.
pub fn require_session(secret: Option<&str>, auth_header: Option<&str>) -> (check: SessionCheck)
    ensures
        match secret {
            None => check@ == SessionCheckView::Decided(
                AccessView::Refused(
                    document_reply(INTERNAL_SERVER_ERROR, plain_error("Internal server error"@)),
                ),
            ),
            Some(secret) => match bearer_token(optional_text(auth_header)) {
                None => check@ == SessionCheckView::Decided(missing_token()),
                Some(token) => checked_at_some_time(check@, token, secret@) && follows_decoding(
                    check@,
                    token,
                    secret@,
                ),
            },
        },
{
    let secret: &str = match secret {
        Some(secret) => secret,
        None => return SessionCheck::Decided(
            Access::Refused(
                Reply::document(
                    INTERNAL_SERVER_ERROR,
                    plain_error_document("Internal server error"),
                ),
            ),
        ),
    };
    let header: &str = match auth_header {
        Some(header) => header,
        None => return SessionCheck::Decided(
            refuse("MISSING_TOKEN", "Authorization header with Bearer token is required"),
        ),
    };
    match strip_prefix(header, "Bearer ") {
        Some(token) => {
            assert(header@.skip("Bearer "@.len() as int) =~= token@);
            assert(header@.subrange(0, "Bearer "@.len() as int) =~= "Bearer "@);
            let decode = decode_token;
            let outcome: Result<Option<Vec<(String, i64)>>, String> = decode(
                token,
                secret,
                None,
                true,
            );
            let ghost now: u64 = choose|now: u64|
                outcome_view(outcome) == #[trigger] checked_token(
                    token@,
                    secret@,
                    None,
                    true,
                    now,
                );
            assert(came_of_decoding(token@, secret@, outcome));
            let check: SessionCheck = check_token(token, secret, outcome);
            assert(check@ == session_check(
                token@,
                secret@,
                session_outcome(token@, secret@, now),
            ));
            assert(checked_at_some_time(check@, token@, secret@));
            check
        },
        None => SessionCheck::Decided(
            refuse("MISSING_TOKEN", "Authorization header with Bearer token is required"),
        ),
    }
}

/// Hexadecimal writing has two digits for each byte.
pub proof fn hex_text_has_two_digits_per_byte(bytes: Seq<u8>)
    ensures
        hex_text(bytes).len() == 2 * bytes.len(),
    decreases bytes.len(),
{
    if bytes.len() > 0 {
        hex_text_has_two_digits_per_byte(bytes.drop_last());
    }
}

/// Hexadecimal writing holds nothing but the digits `0` to `9` and `a` to `f`.
pub proof fn hex_text_is_hexadecimal(bytes: Seq<u8>, i: int)
    requires
        0 <= i < hex_text(bytes).len(),
    ensures
        '0' as int <= hex_text(bytes)[i] as int <= '9' as int || 'a' as int <= hex_text(
            bytes,
        )[i] as int <= 'f' as int,
    decreases bytes.len(),
{
    if bytes.len() > 0 {
        let front = hex_text(bytes.drop_last());
        if i < front.len() {
            assert(hex_text(bytes)[i] == front[i]);
            hex_text_is_hexadecimal(bytes.drop_last(), i);
        }
    }
}

/// Different digits stand for different numbers.
proof fn lemma_hex_digit(a: int, b: int)
    requires
        0 <= a < 16,
        0 <= b < 16,
        hex_digit(a) == hex_digit(b),
    ensures
        a == b,
{
    assert(hex_digit(a) as int == if a < 10 { 48 + a } else { 87 + a });
    assert(hex_digit(b) as int == if b < 10 { 48 + b } else { 87 + b });
}

/// Different bytes make different secrets.
pub proof fn hex_text_is_injective(a: Seq<u8>, b: Seq<u8>)
    requires
        hex_text(a) == hex_text(b),
    ensures
        a == b,
    decreases a.len(),
{
    hex_text_has_two_digits_per_byte(a);
    hex_text_has_two_digits_per_byte(b);
    if a.len() > 0 {
        let text = hex_text(a);
        let n = text.len() as int;
        let front_a = hex_text(a.drop_last());
        let front_b = hex_text(b.drop_last());
        assert(text[n - 1] == hex_digit(a.last() as int % 16));
        assert(hex_text(b)[n - 1] == hex_digit(b.last() as int % 16));
        assert(text[n - 2] == hex_digit(a.last() as int / 16));
        assert(hex_text(b)[n - 2] == hex_digit(b.last() as int / 16));
        lemma_hex_digit(a.last() as int % 16, b.last() as int % 16);
        lemma_hex_digit(a.last() as int / 16, b.last() as int / 16);
        assert(front_a =~= text.drop_last().drop_last());
        assert(front_b =~= hex_text(b).drop_last().drop_last());
        hex_text_is_injective(a.drop_last(), b.drop_last());
        assert(a =~= a.drop_last().push(a.last()));
        assert(b =~= b.drop_last().push(b.last()));
    } else {
        assert(a =~= b);
    }
}

/// Every session is let through for its whole hour, and for the minute after it: a request that
/// carries the token that was issued at `issued_at` is let through at any time `now` up to then.
pub proof fn issued_session_is_honoured(
    token: Seq<char>,
    secret: Seq<char>,
    issued_at: i64,
    now: u64,
)
    requires
        issued(token, secret, issued_at),
        issued_at <= i64::MAX - JWT_EXPIRY_SECS,
        issued_at <= now <= issued_at + JWT_EXPIRY_SECS + LEEWAY_SECS,
        LEEWAY_SECS <= now,
    ensures
        session_check(token, secret, session_outcome(token, secret, now))
            == SessionCheckView::Decided(AccessView::Granted),
{
}

/// Once the hour of a session and the minute after it are over, a request that carries its token is
/// refused, whatever is read in its claims.
pub proof fn expired_session_is_refused(
    token: Seq<char>,
    secret: Seq<char>,
    issued_at: i64,
    now: u64,
    claims: Result<Claims, Seq<char>>,
)
    requires
        issued(token, secret, issued_at),
        0 <= issued_at <= i64::MAX - JWT_EXPIRY_SECS,
        now > issued_at + JWT_EXPIRY_SECS + LEEWAY_SECS,
    ensures
        ({
            let outcome = session_outcome(token, secret, now);
            &&& session_check(token, secret, outcome) == SessionCheckView::ReadClaims {
                token,
                outcome,
            }
            &&& judged(claims, outcome) is Refused
        }),
{
}

/// A request with a token is let through only where the token holds: it is well signed, has not
/// expired, and is for no other audience. Where it is not one of the server's own, its claims must
/// also have been read.
pub proof fn access_needs_a_valid_token(
    token: Seq<char>,
    secret: Seq<char>,
    outcome: Result<Option<Seq<(Seq<char>, i64)>>, Seq<char>>,
    claims: Result<Claims, Seq<char>>,
)
    ensures
        session_check(token, secret, outcome) is Decided ==> outcome is Ok,
        judged(claims, outcome) == AccessView::Granted <==> outcome is Ok && claims is Ok,
{
}

/// The token of a header that is `Bearer ` and a token is that token.
pub proof fn bearer_header_gives_its_token(token: Seq<char>)
    ensures
        bearer_token(Some("Bearer "@ + token)) == Some(token),
{
    let header = "Bearer "@ + token;
    assert(header.subrange(0, "Bearer "@.len() as int) =~= "Bearer "@);
    assert(header.skip("Bearer "@.len() as int) =~= token);
}

/// A token that fails for any reason but expiry and audience fails at every time, and for that
/// reason: no reading of the clock lets the request through.
pub proof fn broken_token_is_never_accepted(
    check: SessionCheckView,
    token: Seq<char>,
    secret: Seq<char>,
    now: u64,
    claims: Result<Claims, Seq<char>>,
)
    requires
        checked_at_some_time(check, token, secret),
        !rests_on_clock(session_outcome(token, secret, now)),
    ensures
        check == (SessionCheckView::ReadClaims {
            token,
            outcome: session_outcome(token, secret, now),
        }),
        judged(claims, session_outcome(token, secret, now)) is Refused,
{
    let then = choose|then: u64|
        {
            let outcome = #[trigger] session_outcome(token, secret, then);
            check == session_check(token, secret, outcome) && clock_changes_expiry_alone(
                token,
                secret,
                None,
                true,
                outcome,
            )
        };
    assert(session_outcome(token, secret, then) == session_outcome(token, secret, now));
}

/// A session is signed for an hour from the time it is issued at: it claims that time and the one
/// 3600 seconds later. It is taken with these claims until a minute after that, and refused as
/// expired from then on.
pub proof fn session_lasts_an_hour(token: Seq<char>, secret: Seq<char>, issued_at: i64, now: u64)
    requires
        issued(token, secret, issued_at),
        0 <= issued_at <= i64::MAX - 3600,
    ensures
        signed_token(issued_at, (issued_at + 3600) as i64, secret) == Some(token),
        60 <= now <= issued_at + 3600 + 60 ==> session_outcome(token, secret, now) == Ok::<
            _,
            Seq<char>,
        >(Some(seq![("exp"@, (issued_at + 3600) as i64), ("iat"@, issued_at)])),
        now > issued_at + 3600 + 60 ==> session_outcome(token, secret, now) == Err::<
            Option<Seq<(Seq<char>, i64)>>,
            _,
        >("ExpiredSignature"@),
{
}

/// A request for a session is answered with the token as it was signed, and nothing else; without
/// one, the server has failed.
pub proof fn session_answer_carries_the_token(token: Seq<char>)
    ensures
        session_answer(Some(token)).status == 200,
        session_answer(Some(token)).body matches BodyView::Document(document) && {
            &&& document is Object
            &&& document.member("token"@) == Some(JsonView::Text(token))
            &&& forall|key: Seq<char>| (#[trigger] document.member(key)) is Some ==> key
                == "token"@
        },
        session_answer(None).status == 500,
        session_answer(None).body matches BodyView::Document(document) && {
            &&& document is Object
            &&& document.member("error"@) == Some(
                JsonView::Text("Failed to generate session token"@),
            )
            &&& forall|key: Seq<char>| (#[trigger] document.member(key)) is Some ==> key
                == "error"@
        },
{
}

/// A header gives a token exactly where it is `Bearer ` and that token, whatever the token is.
pub proof fn token_is_what_follows_bearer(header: Seq<char>, token: Seq<char>)
    ensures
        bearer_token(Some(header)) == Some(token) <==> header == "Bearer "@ + token,
        bearer_token(None) is None,
        (forall|rest: Seq<char>| header != #[trigger] ("Bearer "@ + rest)) ==> bearer_token(
            Some(header),
        ) is None,
{
    bearer_header_gives_its_token(token);
    if "Bearer "@.is_prefix_of(header) {
        let rest = header.skip("Bearer "@.len() as int);
        assert(header.subrange(0, "Bearer "@.len() as int) =~= "Bearer "@);
        assert(header =~= "Bearer "@ + rest);
        bearer_header_gives_its_token(rest);
    }
}

/// A request is let through by its token alone exactly where the token holds, claims the two times of
/// a session and nothing else, and is the very token that is signed for them. For any other token
/// the claims have to be read, and the token and its outcome go on as they are.
pub proof fn own_sessions_alone_are_let_through(
    token: Seq<char>,
    secret: Seq<char>,
    outcome: Result<Option<Seq<(Seq<char>, i64)>>, Seq<char>>,
)
    ensures
        ({
            let own = exists|iat: i64, exp: i64|
                outcome == Ok::<_, Seq<char>>(Some(seq![("exp"@, exp), ("iat"@, iat)]))
                    && #[trigger] signed_token(iat, exp, secret) == Some(token);
            &&& own ==> session_check(token, secret, outcome) == SessionCheckView::Decided(
                AccessView::Granted,
            )
            &&& !own ==> session_check(token, secret, outcome) == (SessionCheckView::ReadClaims {
                token,
                outcome,
            })
        }),
{
    if let Ok(Some(members)) = outcome {
        if members.len() == 2 && members[0].0 == "exp"@ && members[1].0 == "iat"@ {
            let exp = members[0].1;
            let iat = members[1].1;
            assert(members =~= seq![("exp"@, exp), ("iat"@, iat)]);
            assert(session_times(outcome) == Some((iat, exp)));
            if signed_token(iat, exp, secret) == Some(token) {
                assert(is_own_session(token, secret, outcome));
            }
        }
    }
}

/// An answer to a request without a valid session has the status 401 and tells its code and its
/// message as they were given, the type `AuthenticationError`, and nothing else.
pub proof fn authentication_error_tells_code_and_message(code: Seq<char>, message: Seq<char>)
    ensures
        ({
            let reply = authentication_error(code, message);
            &&& reply.status == 401
            &&& reply.body matches BodyView::Document(document) && {
                &&& document is Object
                &&& forall|key: Seq<char>| (#[trigger] document.member(key)) is Some <==> key
                    == "error"@
                &&& document.member("error"@) matches Some(error) && {
                    &&& error is Object
                    &&& error.member("type"@) == Some(JsonView::Text("AuthenticationError"@))
                    &&& error.member("code"@) == Some(JsonView::Text(code))
                    &&& error.member("message"@) == Some(JsonView::Text(message))
                    &&& forall|key: Seq<char>| (#[trigger] error.member(key)) is Some ==> key
                        == "type"@ || key == "code"@ || key == "message"@
                }
            }
        }),
        missing_token() == AccessView::Refused(
            authentication_error(
                "MISSING_TOKEN"@,
                "Authorization header with Bearer token is required"@,
            ),
        ),
{
    reveal_strlit("type");
    reveal_strlit("code");
    reveal_strlit("message");
    assert("type"@.len() == 4 && "code"@.len() == 4 && "message"@.len() == 7);
    assert("type"@[0] != "code"@[0]);
}

/// A request is refused for the error in its claims, and where there is none for the error in its
/// token. The answer says that the session expired exactly where the text of the error holds the
/// word `expired`.
pub proof fn refusal_follows_the_error(
    claims: Result<Claims, Seq<char>>,
    outcome: Result<Option<Seq<(Seq<char>, i64)>>, Seq<char>>,
    error: Seq<char>,
)
    requires
        claims == Err::<Claims, _>(error) || claims is Ok && outcome == Err::<
            Option<Seq<(Seq<char>, i64)>>,
            _,
        >(error),
    ensures
        ({
            let expired = exists|before: Seq<char>, after: Seq<char>|
                error == #[trigger] (before + "expired"@ + after);
            &&& expired ==> judged(claims, outcome) == AccessView::Refused(
                authentication_error(
                    "INVALID_TOKEN"@,
                    "Session expired, please refresh the page"@,
                ),
            )
            &&& !expired ==> judged(claims, outcome) == AccessView::Refused(
                authentication_error("INVALID_TOKEN"@, "Invalid session token"@),
            )
        }),
{
    occurring_is_standing_between(error, "expired"@);
}

/// Every claim that was read, and every token that holds, is let through together.
pub proof fn claims_and_token_that_hold_are_let_through(
    claims: Claims,
    members: Option<Seq<(Seq<char>, i64)>>,
)
    ensures
        judged(Ok(claims), Ok(members)) == AccessView::Granted,
{
}

/// What decoding gave, and what was read in the claims, is shown as it is.
pub proof fn outcome_is_shown_as_it_is(
    members: Vec<(String, i64)>,
    error: String,
    claims: Claims,
)
    ensures
        outcome_view(Ok(None)) == Ok::<Option<Seq<(Seq<char>, i64)>>, Seq<char>>(None),
        outcome_view(Err(error)) == Err::<Option<Seq<(Seq<char>, i64)>>, _>(error@),
        outcome_view(Ok(Some(members))) matches Ok(Some(shown)) && shown.len() == members@.len()
            && forall|i: int|
            0 <= i < members@.len() ==> #[trigger] shown[i] == (members@[i].0@, members@[i].1),
        claims_view(Ok(claims)) == Ok::<_, Seq<char>>(claims),
        claims_view(Err(error)) == Err::<Claims, _>(error@),
{
}

/// What becomes of a request is shown as it is.
pub proof fn check_is_shown_as_it_is(check: SessionCheck, access: Access)
    ensures
        check matches SessionCheck::Decided(decided) ==> check@ == SessionCheckView::Decided(
            decided@,
        ),
        check matches SessionCheck::ReadClaims(pending) ==> check@
            == (SessionCheckView::ReadClaims {
            token: pending.token@,
            outcome: outcome_view(pending.outcome),
        }),
        access is Granted <==> access@ is Granted,
        access matches Access::Refused(reply) ==> access@ == AccessView::Refused(reply@),
{
}

/// In hexadecimal, a byte is written as the digit of its high half and the digit of its low half, at
/// twice its place.
pub proof fn hex_text_writes_each_byte(bytes: Seq<u8>, i: int)
    requires
        0 <= i < bytes.len(),
    ensures
        hex_text(bytes).len() == 2 * bytes.len(),
        hex_text(bytes)[2 * i] == "0123456789abcdef"@[bytes[i] as int / 16],
        hex_text(bytes)[2 * i + 1] == "0123456789abcdef"@[bytes[i] as int % 16],
    decreases bytes.len(),
{
    reveal_strlit("0123456789abcdef");
    hex_text_has_two_digits_per_byte(bytes);
    let front = bytes.drop_last();
    hex_text_has_two_digits_per_byte(front);
    lemma_digit_table(bytes[i] as int / 16);
    lemma_digit_table(bytes[i] as int % 16);
    if i < bytes.len() - 1 {
        hex_text_writes_each_byte(front, i);
        assert(hex_text(bytes)[2 * i] == hex_text(front)[2 * i]);
        assert(hex_text(bytes)[2 * i + 1] == hex_text(front)[2 * i + 1]);
    }
}

/// The digit of a number stands at the number's place in the row of all digits.
proof fn lemma_digit_table(n: int)
    requires
        0 <= n < 16,
    ensures
        hex_digit(n) == "0123456789abcdef"@[n],
{
    reveal_strlit("0123456789abcdef");
    let row = "0123456789abcdef"@;
    assert(row[0] == '0' && row[1] == '1' && row[2] == '2' && row[3] == '3' && row[4] == '4');
    assert(row[5] == '5' && row[6] == '6' && row[7] == '7' && row[8] == '8' && row[9] == '9');
    assert(row[10] == 'a' && row[11] == 'b' && row[12] == 'c' && row[13] == 'd');
    assert(row[14] == 'e' && row[15] == 'f');
    assert(n == 0 || n == 1 || n == 2 || n == 3 || n == 4 || n == 5 || n == 6 || n == 7 || n == 8
        || n == 9 || n == 10 || n == 11 || n == 12 || n == 13 || n == 14 || n == 15);
}

} // verus!
