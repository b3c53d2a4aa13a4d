//! The permission guard of a route: the caller's stored mask against the
//! mask that the route requires.

use crate::error::{AppError, ErrorView};
use crate::permission::{shares_bit, Permission};
use crate::text::{parse_u64, parse_u64_spec};
use crate::token::{
    bearer_token, checked_at, decoded_payload, error_text, extract_token, has_permission,
    text_view, verdict_view, ClaimsView, TokenClaims, TokenError, TokenErrorView, SECRET_KEY,
};
use vstd::prelude::*;

verus! {

/// What a request carries through the guards: the value of its
/// `Authorization` header, and the error that a failed guard left for the
/// stage that renders it.
#[derive(Debug)]
pub struct RequestContext {
    pub authorization: Option<String>,
    pub error: Option<AppError>,
}

/// A guard that lets a request pass where the caller holds at least one bit
/// of the required mask.
#[derive(Debug, Clone, Copy)]
pub struct PermissionGuard {
    pub required_permission: Permission,
}

/// What the guard finds, given the verdict on the token. A refused token is forbidden with the
/// text of the refusal; claims without permissions, with permissions that
/// are no unsigned 64-bit numeral, or with a mask that shares no bit with
/// `required` are forbidden, each with its own text; all others pass.
pub open spec fn finding_of(required: u64, verdict: Result<ClaimsView, TokenErrorView>) -> Result<
    bool,
    ErrorView,
> {
    match verdict {
        Err(error) => Err(ErrorView::Forbidden(error_text(error))),
        Ok(claims) => match claims.permissions {
            None => Err(ErrorView::Forbidden("permissions empty"@)),
            Some(text) => match parse_u64_spec(text) {
                None => Err(ErrorView::Forbidden("malformed permission string"@)),
                Some(stored) => if shares_bit(stored, required) {
                    Ok(true)
                } else {
                    Err(ErrorView::Forbidden("insufficient permission"@))
                },
            },
        },
    }
}

/// The guard's finding on a request at the second `now`: without a bearer
/// token it is forbidden as without token; with one, the finding is that on
/// the verdict on the token.
pub open spec fn permitted_at(required: u64, authorization: Option<Seq<char>>, now: u64) -> Result<
    bool,
    ErrorView,
> {
    match bearer_token(authorization) {
        None => Err(ErrorView::Forbidden("token not found"@)),
        Some(token) => finding_of(required, checked_at(decoded_payload(token, SECRET_KEY@), now)),
    }
}

/// A finding, its error by its view.
pub open spec fn finding_view(finding: Result<bool, AppError>) -> Result<bool, ErrorView> {
    match finding {
        Ok(pass) => Ok(pass),
        Err(error) => Err(error@),
    }
}

/// An optional error by its view.
pub open spec fn error_view(error: Option<AppError>) -> Option<ErrorView> {
    match error {
        Some(e) => Some(e@),
        None => None,
    }
}

/// How a finding shows: one that passes leaves the error of the context as
/// it was; one that fails puts its error there.
pub open spec fn recorded(
    finding: Result<bool, ErrorView>,
    pass: bool,
    before: Option<AppError>,
    after: Option<AppError>,
) -> bool {
    match finding {
        Ok(_) => pass && after == before,
        Err(error) => !pass && error_view(after) == Some(error),
    }
}

impl PermissionGuard {
    /// The guard of a route that requires `required_permission`.
    pub fn new(required_permission: Permission) -> (guard: PermissionGuard)
        ensures
            guard.required_permission == required_permission,
    {
        PermissionGuard { required_permission }
    }

    /// The finding on a verdict on the caller's token.
    pub fn judge(&self, verdict: Result<TokenClaims, TokenError>) -> (finding: Result<
        bool,
        AppError,
    >)
        ensures
            finding_view(finding) == finding_of(
                self.required_permission.bits,
                verdict_view(verdict),
            ),
    {
        let claims = match verdict {
            Ok(claims) => claims,
            Err(error) => {
                return Err(AppError::Forbidden(error.to_text()));
            },
        };
        let text = match claims.permissions {
            Some(text) => text,
            None => {
                return Err(AppError::Forbidden("permissions empty".to_owned()));
            },
        };
        let stored = match parse_u64(text.as_str()) {
            Some(bits) => Permission::from_bits(bits),
            None => {
                return Err(AppError::Forbidden("malformed permission string".to_owned()));
            },
        };
        if stored.intersects(self.required_permission) {
            Ok(true)
        } else {
            Err(AppError::Forbidden("insufficient permission".to_owned()))
        }
    }

    /// The finding on a request, given the value of its `Authorization`
    /// header: that of `permitted_at` at some second.
    pub fn check_permission(&self, authorization: Option<&str>) -> (finding: Result<
        bool,
        AppError,
    >)
        ensures
            exists|now: u64|
                finding_view(finding) == permitted_at(
                    self.required_permission.bits,
                    crate::token::str_view(authorization),
                    now,
                ),
            finding matches Ok(pass) ==> pass,
    {
        match extract_token(authorization) {
            None => {
                let finding = Err(AppError::Forbidden("token not found".to_owned()));
                assert(finding_view(finding) == permitted_at(
                    self.required_permission.bits,
                    crate::token::str_view(authorization),
                    0,
                ));
                finding
            },
            Some(token) => {
                let verdict = has_permission(token.as_str());
                let ghost now = choose|now: u64|
                    verdict_view(verdict) == checked_at(
                        decoded_payload(token@, SECRET_KEY@),
                        now,
                    );
                let finding = self.judge(verdict);
                assert(finding_view(finding) == permitted_at(
                    self.required_permission.bits,
                    crate::token::str_view(authorization),
                    now,
                ));
                finding
            },
        }
    }

    /// Whether the request passes. A request that does not pass is not
    /// answered here: the error is left in the context, in place of any
    /// that was there, for the stage that renders it. A request that passes
    /// leaves the context as it was.
    pub fn check(&self, ctx: &mut RequestContext) -> (pass: bool)
        ensures
            final(ctx).authorization == old(ctx).authorization,
            exists|now: u64|
                recorded(
                    #[trigger] permitted_at(
                        self.required_permission.bits,
                        text_view(old(ctx).authorization),
                        now,
                    ),
                    pass,
                    old(ctx).error,
                    final(ctx).error,
                ),
    {
        let finding = match &ctx.authorization {
            Some(value) => self.check_permission(Some(value.as_str())),
            None => self.check_permission(None),
        };
        let ghost now = choose|now: u64|
            finding_view(finding) == permitted_at(
                self.required_permission.bits,
                text_view(old(ctx).authorization),
                now,
            );
        match finding {
            Ok(pass) => pass,
            Err(error) => {
                ctx.error = Some(error);
                false
            },
        }
    }
}

} // verus!
