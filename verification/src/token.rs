//! The token codec: signed, expiring claims to and from their compact text.

use crate::error::{AppError, ErrorView};
use serde_json::Value;
use crate::text::{has_prefix, strip_prefix};
use vstd::prelude::*;

verus! {

/// The key that signs and checks the tokens of this service.
pub const SECRET_KEY: &'static str = "secret_key";

/// What a token states of its bearer.
#[derive(Debug)]
pub struct TokenClaims {
    /// The stable identifier of the subject.
    pub user_uuid: String,
    /// The name to display.
    pub user_name: String,
    /// The permission mask at the time of issue, as decimal text.
    pub permissions: Option<String>,
    /// The second since the Unix epoch after which the token is refused.
    pub exp: u64,
}

/// Claims with their texts as characters.
pub struct ClaimsView {
    pub user_uuid: Seq<char>,
    pub user_name: Seq<char>,
    pub permissions: Option<Seq<char>>,
    pub exp: u64,
}

impl View for TokenClaims {
    type V = ClaimsView;

    open spec fn view(&self) -> ClaimsView {
        ClaimsView {
            user_uuid: self.user_uuid@,
            user_name: self.user_name@,
            permissions: match self.permissions {
                Some(p) => Some(p@),
                None => None,
            },
            exp: self.exp,
        }
    }
}

/// Why a token is refused.
#[derive(Debug)]
pub enum TokenError {
    /// The signature, the framing or the payload's encoding is wrong; the
    /// text says which.
    Rejected(String),
    /// The payload is signed and is not a set of claims.
    MalformedClaims,
    /// The expiry lies in the past.
    Expired,
}

/// A refusal with its text as characters.
pub enum TokenErrorView {
    Rejected(Seq<char>),
    MalformedClaims,
    Expired,
}

impl View for TokenError {
    type V = TokenErrorView;

    open spec fn view(&self) -> TokenErrorView {
        match self {
            TokenError::Rejected(m) => TokenErrorView::Rejected(m@),
            TokenError::MalformedClaims => TokenErrorView::MalformedClaims,
            TokenError::Expired => TokenErrorView::Expired,
        }
    }
}

/// The text that names `error`.
pub open spec fn error_text(error: TokenErrorView) -> Seq<char> {
    match error {
        TokenErrorView::Rejected(m) => m,
        TokenErrorView::MalformedClaims => "InvalidToken"@,
        TokenErrorView::Expired => "ExpiredSignature"@,
    }
}

impl TokenError {
    /// The text that names this refusal.
    pub fn to_text(&self) -> (text: String)
        ensures
            text@ == error_text(self@),
    {
        match self {
            TokenError::Rejected(m) => m.clone(),
            TokenError::MalformedClaims => "InvalidToken".to_owned(),
            TokenError::Expired => "ExpiredSignature".to_owned(),
        }
    }
}

/// The token that an `Authorization` header of the form `Bearer <token>`
/// carries.
pub open spec fn bearer_token(authorization: Option<Seq<char>>) -> Option<Seq<char>> {
    match authorization {
        Some(value) => if has_prefix(value, "Bearer "@) {
            Some(value.subrange("Bearer "@.len() as int, value.len() as int))
        } else {
            None
        },
        None => None,
    }
}

/// An optional text as characters.
pub open spec fn text_view(text: Option<String>) -> Option<Seq<char>> {
    match text {
        Some(t) => Some(t@),
        None => None,
    }
}

/// An optional string slice as characters.
pub open spec fn str_view(text: Option<&str>) -> Option<Seq<char>> {
    match text {
        Some(t) => Some(t@),
        None => None,
    }
}

/// The bearer token of a request, given the value of its `Authorization`
/// header where it has one that is text.
pub fn extract_token(authorization: Option<&str>) -> (token: Option<String>)
    ensures
        text_view(token) == bearer_token(str_view(authorization)),
{
    match authorization {
        Some(value) => strip_prefix(value, "Bearer "),
        None => None,
    }
}

/// One member of a payload, as far as the claims are read from it: null,
/// a truth value, a non-negative integer or a text as it stands; any other
/// number, an array and an object without what they hold.
#[derive(Debug)]
pub enum Field {
    Null,
    Bool(bool),
    Unsigned(u64),
    Text(String),
    Other,
}

/// A member with its text as characters.
pub enum FieldView {
    Null,
    Bool(bool),
    Unsigned(u64),
    Text(Seq<char>),
    Other,
}

impl View for Field {
    type V = FieldView;

    open spec fn view(&self) -> FieldView {
        match self {
            Field::Null => FieldView::Null,
            Field::Bool(b) => FieldView::Bool(*b),
            Field::Unsigned(n) => FieldView::Unsigned(*n),
            Field::Text(t) => FieldView::Text(t@),
            Field::Other => FieldView::Other,
        }
    }
}

/// The members of a payload by their views: each name with its value.
pub open spec fn payload_view(fields: Seq<(String, Field)>) -> Seq<(Seq<char>, FieldView)> {
    fields.map_values(|f: (String, Field)| (f.0@, f.1@))
}

/// The value of the first member of `fields` whose name is `key`.
pub open spec fn member_of(fields: Seq<(Seq<char>, FieldView)>, key: Seq<char>) -> Option<
    FieldView,
>
    decreases fields.len(),
{
    if fields.len() == 0 {
        None
    } else if fields[0].0 == key {
        Some(fields[0].1)
    } else {
        member_of(fields.drop_first(), key)
    }
}

/// The value of the first member of `fields` whose name is `key`.
pub fn find_member<'a>(fields: &'a Vec<(String, Field)>, key: &str) -> (found: Option<&'a Field>)
    ensures
        match found {
            Some(value) => member_of(payload_view(fields@), key@) == Some(value@),
            None => member_of(payload_view(fields@), key@) is None,
        },
{
    let ghost all = payload_view(fields@);
    let mut i: usize = 0;
    assert(all.skip(0) =~= all);
    while i < fields.len()
        invariant
            i <= fields.len(),
            all == payload_view(fields@),
            member_of(all, key@) == member_of(all.skip(i as int), key@),
        decreases fields.len() - i,
    {
        let entry = &fields[i];
        proof {
            let rest = all.skip(i as int);
            assert(rest[0] == (entry.0@, entry.1@));
            assert(rest.drop_first() =~= all.skip(i + 1));
        }
        if crate::text::str_eq(entry.0.as_str(), key) {
            return Some(&entry.1);
        }
        i += 1;
    }
    None
}

/// The claims that a payload states: its `user_uuid` and `user_name` are
/// texts, its `exp` is a non-negative integer, and its `permissions` is a
/// text, or is null or absent. Other members are passed over.
pub open spec fn claims_of(fields: Seq<(Seq<char>, FieldView)>) -> Option<ClaimsView> {
    let uuid = member_of(fields, "user_uuid"@);
    let name = member_of(fields, "user_name"@);
    let exp = member_of(fields, "exp"@);
    let permissions = member_of(fields, "permissions"@);
    match (uuid, name, exp) {
        (
            Some(FieldView::Text(user_uuid)),
            Some(FieldView::Text(user_name)),
            Some(FieldView::Unsigned(exp)),
        ) => match permissions {
            None | Some(FieldView::Null) => Some(
                ClaimsView { user_uuid, user_name, permissions: None, exp },
            ),
            Some(FieldView::Text(p)) => Some(
                ClaimsView { user_uuid, user_name, permissions: Some(p), exp },
            ),
            _ => None,
        },
        _ => None,
    }
}

/// The payload that states `claims`: its four members in the order
/// `user_uuid`, `user_name`, `exp`, `permissions`, the last one null where
/// there are no permissions.
pub open spec fn payload_of(claims: ClaimsView) -> Seq<(Seq<char>, FieldView)> {
    seq![
        ("user_uuid"@, FieldView::Text(claims.user_uuid)),
        ("user_name"@, FieldView::Text(claims.user_name)),
        ("exp"@, FieldView::Unsigned(claims.exp)),
        (
            "permissions"@,
            match claims.permissions {
                Some(p) => FieldView::Text(p),
                None => FieldView::Null,
            },
        ),
    ]
}

/// What is made of a decoded token at the second `now`: the decoder's
/// refusal stands; a payload that states no claims is malformed; claims
/// whose expiry lies before `now` have expired; all others are accepted.
pub open spec fn checked_at(decoded: Result<Seq<(Seq<char>, FieldView)>, Seq<char>>, now: u64)
    -> Result<ClaimsView, TokenErrorView> {
    match decoded {
        Err(reason) => Err(TokenErrorView::Rejected(reason)),
        Ok(fields) => match claims_of(fields) {
            None => Err(TokenErrorView::MalformedClaims),
            Some(claims) => if claims.exp < now {
                Err(TokenErrorView::Expired)
            } else {
                Ok(claims)
            },
        },
    }
}

/// A decoder's result, its payload and its refusal by their views.
pub open spec fn decoded_view(decoded: Result<Vec<(String, Field)>, String>) -> Result<
    Seq<(Seq<char>, FieldView)>,
    Seq<char>,
> {
    match decoded {
        Ok(fields) => Ok(payload_view(fields@)),
        Err(reason) => Err(reason@),
    }
}

/// A verdict on a token, its claims and its refusal by their views.
pub open spec fn verdict_view(verdict: Result<TokenClaims, TokenError>) -> Result<
    ClaimsView,
    TokenErrorView,
> {
    match verdict {
        Ok(claims) => Ok(claims@),
        Err(error) => Err(error@),
    }
}

/// Reads the claims out of a payload.
pub fn claims_from_payload(fields: &Vec<(String, Field)>) -> (claims: Option<TokenClaims>)
    ensures
        match claims {
            Some(c) => claims_of(payload_view(fields@)) == Some(c@),
            None => claims_of(payload_view(fields@)) is None,
        },
{
    let user_uuid = match find_member(fields, "user_uuid") {
        Some(Field::Text(t)) => t.clone(),
        _ => { return None; },
    };
    let user_name = match find_member(fields, "user_name") {
        Some(Field::Text(t)) => t.clone(),
        _ => { return None; },
    };
    let exp = match find_member(fields, "exp") {
        Some(Field::Unsigned(n)) => *n,
        _ => { return None; },
    };
    let permissions = match find_member(fields, "permissions") {
        None | Some(Field::Null) => None,
        Some(Field::Text(p)) => Some(p.clone()),
        _ => { return None; },
    };
    Some(TokenClaims { user_uuid, user_name, permissions, exp })
}

/// Whether every member of a payload is held as it stands.
pub open spec fn holds_all(fields: Seq<(Seq<char>, FieldView)>) -> bool {
    forall|i: int| 0 <= i < fields.len() ==> !((#[trigger] fields[i]).1 is Other)
}

/// Writes claims as a payload.
pub fn claims_to_payload(claims: &TokenClaims) -> (fields: Vec<(String, Field)>)
    ensures
        payload_view(fields@) == payload_of(claims@),
        holds_all(payload_view(fields@)),
{
    let mut fields: Vec<(String, Field)> = Vec::new();
    fields.push(("user_uuid".to_owned(), Field::Text(claims.user_uuid.clone())));
    fields.push(("user_name".to_owned(), Field::Text(claims.user_name.clone())));
    fields.push(("exp".to_owned(), Field::Unsigned(claims.exp)));
    let permissions = match &claims.permissions {
        Some(p) => Field::Text(p.clone()),
        None => Field::Null,
    };
    fields.push(("permissions".to_owned(), permissions));
    assert(payload_view(fields@) =~= payload_of(claims@));
    fields
}

/// Judges a decoded token at the second `now`.
pub fn check_claims(decoded: Result<Vec<(String, Field)>, String>, now: u64) -> (verdict: Result<
    TokenClaims,
    TokenError,
>)
    ensures
        verdict_view(verdict) == checked_at(decoded_view(decoded), now),
{
    match decoded {
        Err(reason) => Err(TokenError::Rejected(reason)),
        Ok(fields) => match claims_from_payload(&fields) {
            None => Err(TokenError::MalformedClaims),
            Some(claims) => if claims.exp < now {
                Err(TokenError::Expired)
            } else {
                Ok(claims)
            },
        },
    }
}

/// What `jsonwebtoken::decode` makes of `token` under the key `secret`,
/// with HS256 as the one algorithm, the check of the expiry switched off
/// and no claim required: the members of the payload, or the text of the
/// refusal.
pub uninterp spec fn decoded_payload(token: Seq<char>, secret: Seq<char>) -> Result<
    Seq<(Seq<char>, FieldView)>,
    Seq<char>,
>;

/// What `jsonwebtoken::encode` makes of a payload of these members under
/// the key `secret` and the default header: the token, or the text of the
/// failure.
pub uninterp spec fn encoded_token(fields: Seq<(Seq<char>, FieldView)>, secret: Seq<char>)
    -> Result<Seq<char>, Seq<char>>;

/// Calls `jsonwebtoken::decode` with the payload read as a
/// `serde_json::Map` and hands out its members in the order of the map,
/// each value as a `Field`. The validation is that of `Validation::new` for
/// HS256 but for the expiry, which is left to the caller: `validate_exp` is
/// off and no claim is required, so that the clock is never read and the
/// result depends on the two arguments alone. The contract gives that result
/// a name and claims nothing else of it.
#[verifier::external_body]
fn decode_payload(token: &str, secret: &str) -> (decoded: Result<Vec<(String, Field)>, String>)
    ensures
        decoded_view(decoded) == decoded_payload(token@, secret@),
{
    let mut rules = jsonwebtoken::Validation::new(jsonwebtoken::Algorithm::HS256);
    rules.validate_exp = false;
    rules.required_spec_claims.clear();
    let key = jsonwebtoken::DecodingKey::from_secret(secret.as_bytes());
    let data = jsonwebtoken::decode::<serde_json::Map<String, Value>>(token, &key, &rules);
    let members = data.map_err(|e| e.to_string())?.claims.into_iter();
    Ok(members.map(|(k, v)| (k, match v {
        Value::Null => Field::Null,
        Value::Bool(b) => Field::Bool(b),
        Value::String(s) => Field::Text(s),
        Value::Number(n) => n.as_u64().map_or(Field::Other, Field::Unsigned),
        _ => Field::Other,
    })).collect())
}

/// Calls `jsonwebtoken::encode` with `Header::default()`, which signs with
/// HS256, and the members as a `serde_json::Map`, each value as the
/// `serde_json::Value` it stands for. Every member is held as it stands. The
/// contract gives the result a name and claims nothing else of it.
#[verifier::external_body]
fn encode_payload(fields: &Vec<(String, Field)>, secret: &str) -> (encoded: Result<
    String,
    String,
>)
    requires
        holds_all(payload_view(fields@)),
    ensures
        match encoded {
            Ok(token) => encoded_token(payload_view(fields@), secret@) == Ok::<
                Seq<char>,
                Seq<char>,
            >(token@),
            Err(reason) => encoded_token(payload_view(fields@), secret@) == Err::<
                Seq<char>,
                Seq<char>,
            >(reason@),
        },
{
    let map: serde_json::Map<String, Value> = fields.iter().map(|(k, f)| (k.clone(), match f {
        Field::Bool(b) => Value::Bool(*b),
        Field::Unsigned(n) => Value::from(*n),
        Field::Text(t) => Value::String(t.clone()),
        Field::Null | Field::Other => Value::Null,
    })).collect();
    let key = jsonwebtoken::EncodingKey::from_secret(secret.as_bytes());
    jsonwebtoken::encode(&jsonwebtoken::Header::default(), &map, &key).map_err(|e| e.to_string())
}

/// Calls `jsonwebtoken::get_current_timestamp`: the seconds since the Unix
/// epoch by the system clock, which the function expects not to stand
/// before the epoch. Nothing is claimed of the result.
#[verifier::external_body]
fn unix_now() -> u64 {
    jsonwebtoken::get_current_timestamp()
}

/// Decodes `token` under `secret` and judges it at the second `now`: a
/// token that the decoder refuses, whose payload states no claims, or whose
/// expiry lies before `now`, be it by one second, is refused; whatever is
/// accepted expires no earlier than `now`.
pub fn verify_at(token: &str, secret: &str, now: u64) -> (verdict: Result<TokenClaims, TokenError>)
    ensures
        verdict_view(verdict) == checked_at(decoded_payload(token@, secret@), now),
        verdict matches Ok(claims) ==> now <= claims.exp,
{
    let decoded = decode_payload(token, secret);
    check_claims(decoded, now)
}

/// Decodes `token` under `secret` and judges it at the present second: the
/// verdict is that of `verify_at` at some second.
pub fn verify(token: &str, secret: &str) -> (verdict: Result<TokenClaims, TokenError>)
    ensures
        exists|now: u64|
            verdict_view(verdict) == checked_at(decoded_payload(token@, secret@), now),
{
    let now = unix_now();
    let verdict = verify_at(token, secret, now);
    assert(verdict_view(verdict) == checked_at(decoded_payload(token@, secret@), now));
    verdict
}

/// Decodes `token` under the key of this service and judges it at the
/// present second.
pub fn has_permission(token: &str) -> (verdict: Result<TokenClaims, TokenError>)
    ensures
        exists|now: u64|
            verdict_view(verdict) == checked_at(decoded_payload(token@, SECRET_KEY@), now),
{
    verify(token, SECRET_KEY)
}

/// What a client is told when no token can be made.
pub open spec fn issue_failure() -> ErrorView {
    ErrorView::InternalServerError("登录服务暂时不可用"@)
}

/// The second at which a token issued at `now` for `ttl` seconds expires:
/// `now + ttl`, and the last second that 64 bits can count where the sum
/// lies beyond it.
pub open spec fn expiry_of(now: u64, ttl: u64) -> u64 {
    if now + ttl > u64::MAX {
        u64::MAX
    } else {
        (now + ttl) as u64
    }
}

/// The token issued at the second `now` for `ttl` seconds: the claims with
/// the expiry `expiry_of(now, ttl)`, encoded under `secret`. Only where the
/// encoder fails is the result the internal error.
pub open spec fn issued_at(
    user_uuid: Seq<char>,
    user_name: Seq<char>,
    permissions: Option<Seq<char>>,
    ttl: u64,
    secret: Seq<char>,
    now: u64,
) -> Result<Seq<char>, ErrorView> {
    let claims = ClaimsView { user_uuid, user_name, permissions, exp: expiry_of(now, ttl) };
    match encoded_token(payload_of(claims), secret) {
        Ok(token) => Ok(token),
        Err(_) => Err(issue_failure()),
    }
}

/// An issued token or the error, by their views.
pub open spec fn issue_view(issued: Result<String, AppError>) -> Result<Seq<char>, ErrorView> {
    match issued {
        Ok(token) => Ok(token@),
        Err(error) => Err(error@),
    }
}

/// Signs `claims` under `secret`.
pub fn sign_claims(claims: &TokenClaims, secret: &str) -> (issued: Result<String, AppError>)
    ensures
        issue_view(issued) == match encoded_token(payload_of(claims@), secret@) {
            Ok(token) => Ok::<Seq<char>, ErrorView>(token),
            Err(_) => Err(issue_failure()),
        },
{
    let payload = claims_to_payload(claims);
    match encode_payload(&payload, secret) {
        Ok(token) => Ok(token),
        Err(_) => Err(AppError::InternalServerError("登录服务暂时不可用".to_owned())),
    }
}

/// Issues a token for the subject that expires `ttl_seconds` after `now`.
pub fn issue_at(
    user_uuid: &str,
    user_name: &str,
    permissions: Option<&str>,
    ttl_seconds: u64,
    secret: &str,
    now: u64,
) -> (issued: Result<String, AppError>)
    ensures
        issue_view(issued) == issued_at(
            user_uuid@,
            user_name@,
            str_view(permissions),
            ttl_seconds,
            secret@,
            now,
        ),
{
    let exp = match now.checked_add(ttl_seconds) {
        Some(exp) => exp,
        None => u64::MAX,
    };
    let claims = TokenClaims {
        user_uuid: user_uuid.to_owned(),
        user_name: user_name.to_owned(),
        permissions: match permissions {
            Some(p) => Some(p.to_owned()),
            None => None,
        },
        exp,
    };
    sign_claims(&claims, secret)
}

/// Issues a token for the subject that expires `ttl_seconds` from the
/// present second: the result is that of `issued_at` at some second.
pub fn issue(
    user_uuid: &str,
    user_name: &str,
    permissions: Option<&str>,
    ttl_seconds: u64,
    secret: &str,
) -> (issued: Result<String, AppError>)
    ensures
        exists|now: u64|
            issue_view(issued) == issued_at(
                user_uuid@,
                user_name@,
                str_view(permissions),
                ttl_seconds,
                secret@,
                now,
            ),
{
    let now = unix_now();
    let issued = issue_at(user_uuid, user_name, permissions, ttl_seconds, secret, now);
    assert(issue_view(issued) == issued_at(
        user_uuid@,
        user_name@,
        str_view(permissions),
        ttl_seconds,
        secret@,
        now,
    ));
    issued
}

/// The four member names of a payload differ from one another.
proof fn lemma_member_names_differ()
    ensures
        "user_uuid"@ != "user_name"@,
        "user_uuid"@ != "exp"@,
        "user_uuid"@ != "permissions"@,
        "user_name"@ != "exp"@,
        "user_name"@ != "permissions"@,
        "exp"@ != "permissions"@,
{
    reveal_strlit("user_uuid");
    reveal_strlit("user_name");
    reveal_strlit("exp");
    reveal_strlit("permissions");
    assert("user_uuid"@.len() == 9 && "user_uuid"@[6] == 'u');
    assert("user_name"@.len() == 9 && "user_name"@[6] == 'a');
    assert("exp"@.len() == 3);
    assert("permissions"@.len() == 11);
}

/// The payload written for some claims states those claims.
pub proof fn lemma_payload_states_claims(claims: ClaimsView)
    ensures
        claims_of(payload_of(claims)) == Some(claims),
{
    lemma_member_names_differ();
    let fields = payload_of(claims);
    reveal_with_fuel(member_of, 5);
    assert(fields.drop_first()[0] == fields[1]);
    assert(fields.drop_first().drop_first()[0] == fields[2]);
    assert(fields.drop_first().drop_first().drop_first()[0] == fields[3]);
}

/// Claims written as a payload and judged at a second that is not past their
/// expiry are accepted as they were written.
pub proof fn lemma_claims_round_trip(claims: ClaimsView, now: u64)
    requires
        now <= claims.exp,
    ensures
        checked_at(Ok(payload_of(claims)), now) == Ok::<ClaimsView, TokenErrorView>(claims),
{
    lemma_payload_states_claims(claims);
}

/// A token whose expiry lies before `now`, be it by one second, is refused
/// as expired; and whatever is accepted at `now` expires no earlier.
pub proof fn lemma_expired_is_refused(
    decoded: Result<Seq<(Seq<char>, FieldView)>, Seq<char>>,
    now: u64,
)
    ensures
        decoded matches Ok(fields) && claims_of(fields) matches Some(claims) && claims.exp < now
            ==> checked_at(decoded, now) == Err::<ClaimsView, TokenErrorView>(
            TokenErrorView::Expired,
        ),
        checked_at(decoded, now) matches Ok(claims) ==> now <= claims.exp,
{
}

/// What the decoder refuses is refused at every second, with the decoder's
/// reason: a token that fails the decoder's check of the signature is never
/// accepted.
pub proof fn lemma_refusal_stands(reason: Seq<char>, now: u64)
    ensures
        checked_at(Err(reason), now) == Err::<ClaimsView, TokenErrorView>(
            TokenErrorView::Rejected(reason),
        ),
{
}

} // verus!
