//! The envelope that every answer of the service is wrapped in.

use crate::error::{detail_of, AppError, ErrorView};
use vstd::prelude::*;

verus! {

/// An answer: a code, a message and, where it succeeded, the data.
#[derive(Debug)]
pub struct Resp<T> {
    pub code: i32,
    pub message: String,
    pub data: Option<T>,
}

/// The code under which an envelope reports `error`.
pub open spec fn code_of(error: ErrorView) -> i32 {
    match error {
        ErrorView::BadRequest(_) => 400,
        ErrorView::NotFound(_) => 404,
        ErrorView::Unauthorized(_) => 401,
        ErrorView::DeserializeError(_) => 400,
        ErrorView::Conflict(_) => 409,
        ErrorView::Forbidden(_) => 403,
        ErrorView::InternalServerError(_) => 500,
        ErrorView::InvalidTokenFormat => 401,
        ErrorView::TokenNotFound => 401,
        ErrorView::PermissionsEmpty => 403,
        ErrorView::DatabaseError(_) => 500,
    }
}

impl<T> Resp<T> {
    /// The envelope of a success: code 200, the message and the data.
    pub fn ok(data: T, message: &str) -> (resp: Resp<T>)
        ensures
            resp.code == 200,
            resp.message@ == message@,
            resp.data == Some(data),
    {
        Resp { code: 200, message: message.to_owned(), data: Some(data) }
    }
}

impl Resp<()> {
    /// The envelope of a failure: the code of the error's kind, the error's
    /// detail as the message, and no data.
    pub fn err(error: AppError) -> (resp: Resp<()>)
        ensures
            resp.code == code_of(error@),
            resp.message@ == detail_of(error@),
            resp.data is None,
    {
        match error {
            AppError::BadRequest(msg) => Resp { code: 400, message: msg, data: None },
            AppError::NotFound(msg) => Resp { code: 404, message: msg, data: None },
            AppError::Unauthorized(msg) => Resp { code: 401, message: msg, data: None },
            AppError::DeserializeError(msg) => Resp { code: 400, message: msg, data: None },
            AppError::Conflict(msg) => Resp { code: 409, message: msg, data: None },
            AppError::Forbidden(msg) => Resp { code: 403, message: msg, data: None },
            AppError::InternalServerError(msg) => Resp { code: 500, message: msg, data: None },
            AppError::InvalidTokenFormat => Resp {
                code: 401,
                message: "令牌格式不正确".to_owned(),
                data: None,
            },
            AppError::TokenNotFound => Resp {
                code: 401,
                message: "令牌未找到".to_owned(),
                data: None,
            },
            AppError::PermissionsEmpty => Resp {
                code: 403,
                message: "权限字符串为空".to_owned(),
                data: None,
            },
            AppError::DatabaseError(msg) => Resp { code: 500, message: msg, data: None },
        }
    }
}

/// What a handler returns: the envelope to send, or the error to render.
pub type SimpleResp<T> = Result<Resp<T>, AppError>;

} // verus!
