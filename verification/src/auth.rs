//! The authentication stage: every request is let through or turned away
//! before any handler sees it.

use crate::error::{AppError, ErrorView};
use crate::text::str_eq;
use crate::token::{
    bearer_token, checked_at, decoded_payload, extract_token, has_permission, str_view,
    verdict_view, TokenClaims, TokenError, SECRET_KEY,
};
use vstd::prelude::*;

verus! {

/// The paths that are served without a token.
pub open spec fn public_paths() -> Seq<Seq<char>> {
    seq![
        "/api/auth/login"@,
        "/api/auth/register"@,
        "/api/posts"@,
        "/api/comments"@,
        "/api/auth/permissions"@,
        "/sse/stream"@,
        "/api/sse/stream"@,
    ]
}

/// Whether `path` is served without a token: it is one of the public paths,
/// character for character.
pub open spec fn is_public(path: Seq<char>) -> bool {
    public_paths().contains(path)
}

/// Whether `path` is served without a token.
pub fn is_public_path(path: &str) -> (open: bool)
    ensures
        open == is_public(path@),
{
    let mut paths: Vec<&'static str> = Vec::new();
    paths.push("/api/auth/login");
    paths.push("/api/auth/register");
    paths.push("/api/posts");
    paths.push("/api/comments");
    paths.push("/api/auth/permissions");
    paths.push("/sse/stream");
    paths.push("/api/sse/stream");
    assert(paths@.map_values(|p: &str| p@) =~= public_paths());
    let mut i: usize = 0;
    while i < paths.len()
        invariant
            i <= paths.len(),
            paths@.map_values(|p: &str| p@) == public_paths(),
            forall|k: int| 0 <= k < i ==> public_paths()[k] != path@,
        decreases paths.len() - i,
    {
        assert(paths@.map_values(|p: &str| p@)[i as int] == paths@[i as int]@);
        if str_eq(paths[i], path) {
            return true;
        }
        i += 1;
    }
    false
}

/// What the first look at a request finds.
#[derive(Debug)]
pub enum Admission {
    /// The path is public: nothing else is looked at.
    Public,
    /// The path is protected and the request carries no bearer token.
    Missing,
    /// The path is protected and the request carries this token.
    Bearer(String),
}

/// An admission with its token as characters.
pub enum AdmissionView {
    Public,
    Missing,
    Bearer(Seq<char>),
}

impl View for Admission {
    type V = AdmissionView;

    open spec fn view(&self) -> AdmissionView {
        match self {
            Admission::Public => AdmissionView::Public,
            Admission::Missing => AdmissionView::Missing,
            Admission::Bearer(token) => AdmissionView::Bearer(token@),
        }
    }
}

/// What the first look at a request to `path` finds, given the value of its
/// `Authorization` header.
pub open spec fn admission_of(path: Seq<char>, authorization: Option<Seq<char>>) -> AdmissionView {
    if is_public(path) {
        AdmissionView::Public
    } else {
        match bearer_token(authorization) {
            Some(token) => AdmissionView::Bearer(token),
            None => AdmissionView::Missing,
        }
    }
}

/// How the stage ends, given the first look and, for a bearer token, the
/// verdict on it: a public path is let through; a missing token is turned
/// away as not found; a token is let through where it was accepted and
/// turned away as invalid where it was refused, whatever the reason.
pub open spec fn outcome_of(
    admission: AdmissionView,
    verdict: Result<crate::token::ClaimsView, crate::token::TokenErrorView>,
) -> Result<(), ErrorView> {
    match admission {
        AdmissionView::Public => Ok(()),
        AdmissionView::Missing => Err(ErrorView::TokenNotFound),
        AdmissionView::Bearer(_) => match verdict {
            Ok(_) => Ok(()),
            Err(_) => Err(ErrorView::InvalidTokenFormat),
        },
    }
}

/// How the stage ends for a request at the second `now`.
pub open spec fn authorized_at(path: Seq<char>, authorization: Option<Seq<char>>, now: u64)
    -> Result<(), ErrorView> {
    let admission = admission_of(path, authorization);
    match admission {
        AdmissionView::Bearer(token) => outcome_of(
            admission,
            checked_at(decoded_payload(token, SECRET_KEY@), now),
        ),
        _ => outcome_of(admission, Err(crate::token::TokenErrorView::MalformedClaims)),
    }
}

/// The end of the stage, the error by its view.
pub open spec fn outcome_view(outcome: Result<(), AppError>) -> Result<(), ErrorView> {
    match outcome {
        Ok(()) => Ok(()),
        Err(error) => Err(error@),
    }
}

/// The factory of the authentication stage.
#[derive(Debug, Clone, Copy)]
pub struct Auth;

/// The authentication stage in front of the service `S`.
#[derive(Debug)]
pub struct AuthMiddleware<S> {
    pub service: S,
}

impl Auth {
    /// Puts the stage in front of `service`.
    pub fn new_transform<S>(&self, service: S) -> (stage: AuthMiddleware<S>)
        ensures
            stage.service == service,
    {
        AuthMiddleware { service }
    }
}

impl<S> AuthMiddleware<S> {
    /// The first look at a request: is its path public, and if not, does it
    /// carry a bearer token.
    pub fn inspect(path: &str, authorization: Option<&str>) -> (admission: Admission)
        ensures
            admission@ == admission_of(path@, str_view(authorization)),
    {
        if is_public_path(path) {
            Admission::Public
        } else {
            match extract_token(authorization) {
                Some(token) => Admission::Bearer(token),
                None => Admission::Missing,
            }
        }
    }

    /// The end of the stage, given the first look and the verdict on the
    /// token.
    pub fn settle(admission: &Admission, verdict: Result<TokenClaims, TokenError>) -> (outcome:
        Result<(), AppError>)
        ensures
            outcome_view(outcome) == outcome_of(admission@, verdict_view(verdict)),
    {
        match admission {
            Admission::Public => Ok(()),
            Admission::Missing => Err(AppError::TokenNotFound),
            Admission::Bearer(_) => match verdict {
                Ok(_) => Ok(()),
                Err(_) => Err(AppError::InvalidTokenFormat),
            },
        }
    }

    /// Decides on a request: `Ok` lets it through to the service, an error
    /// turns it away and the service is not called. The decision is that of
    /// `authorized_at` at some second.
    pub fn authorize(&self, path: &str, authorization: Option<&str>) -> (outcome: Result<
        (),
        AppError,
    >)
        ensures
            exists|now: u64|
                outcome_view(outcome) == authorized_at(path@, str_view(authorization), now),
            is_public(path@) ==> outcome is Ok,
            !is_public(path@) && bearer_token(str_view(authorization)) is None ==> outcome_view(
                outcome,
            ) == Err::<(), ErrorView>(ErrorView::TokenNotFound),
    {
        let admission = Self::inspect(path, authorization);
        match &admission {
            Admission::Bearer(token) => {
                let verdict = has_permission(token.as_str());
                let ghost now = choose|now: u64|
                    verdict_view(verdict) == checked_at(
                        decoded_payload(token@, SECRET_KEY@),
                        now,
                    );
                let outcome = Self::settle(&admission, verdict);
                assert(outcome_view(outcome) == authorized_at(
                    path@,
                    str_view(authorization),
                    now,
                ));
                outcome
            },
            _ => {
                let outcome = Self::settle(&admission, Err(TokenError::MalformedClaims));
                assert(outcome_view(outcome) == authorized_at(
                    path@,
                    str_view(authorization),
                    0,
                ));
                outcome
            },
        }
    }
}

/// A request to a public path is let through whatever it carries, a missing
/// header included; the same request to any other path, carrying no bearer
/// token, is turned away as without token.
pub proof fn lemma_public_paths_need_no_token(
    path: Seq<char>,
    authorization: Option<Seq<char>>,
    now: u64,
)
    ensures
        is_public(path) ==> authorized_at(path, authorization, now) == Ok::<(), ErrorView>(()),
        !is_public(path) && bearer_token(authorization) is None ==> authorized_at(
            path,
            authorization,
            now,
        ) == Err::<(), ErrorView>(ErrorView::TokenNotFound),
        !is_public(path) ==> authorized_at(path, None, now) == Err::<(), ErrorView>(
            ErrorView::TokenNotFound,
        ),
{
}

} // verus!
