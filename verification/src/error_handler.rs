//! The last stage: an error that a guard left in the context becomes the
//! answer.

use crate::error::{line_of, status_of};
use crate::permission_guard::RequestContext;
use vstd::prelude::*;

verus! {

/// The answer that replaces the response of a request whose guard failed.
#[derive(Debug)]
pub struct ErrorReply {
    /// The HTTP status, which the body repeats as its code.
    pub status: u16,
    /// The line that describes the error.
    pub message: String,
}

/// The answer for a request: where a guard left an error, the status of
/// its kind and its line; where none did, nothing, and the response stands
/// as it is.
pub fn add_error_header(ctx: &RequestContext) -> (reply: Option<ErrorReply>)
    ensures
        match ctx.error {
            Some(error) => reply matches Some(r) && r.status == status_of(error@) && r.message@
                == line_of(error@),
            None => reply is None,
        },
{
    match &ctx.error {
        Some(error) => Some(ErrorReply { status: error.status_code(), message: error.to_text() }),
        None => None,
    }
}

} // verus!
