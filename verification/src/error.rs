//! The error kinds of the application and what each one shows to a client.

use vstd::prelude::*;
use vstd::string::StringExecFns;

verus! {

/// What went wrong with a request.
#[derive(Debug)]
pub enum AppError {
    /// A parameter is missing (400).
    BadRequest(String),
    /// The resource does not exist (404).
    NotFound(String),
    /// The caller is not authenticated (401).
    Unauthorized(String),
    /// The request body could not be read (400).
    DeserializeError(String),
    /// The data exists already (409).
    Conflict(String),
    /// The caller is authenticated and may not do this (403).
    Forbidden(String),
    /// The server failed (500).
    InternalServerError(String),
    /// The token is malformed, unsigned or expired (401).
    InvalidTokenFormat,
    /// The request carries no token (401).
    TokenNotFound,
    /// The token is valid and carries no permissions (403).
    PermissionsEmpty,
    /// The database failed (500).
    DatabaseError(String),
}

/// An error with its texts as character sequences.
pub enum ErrorView {
    BadRequest(Seq<char>),
    NotFound(Seq<char>),
    Unauthorized(Seq<char>),
    DeserializeError(Seq<char>),
    Conflict(Seq<char>),
    Forbidden(Seq<char>),
    InternalServerError(Seq<char>),
    InvalidTokenFormat,
    TokenNotFound,
    PermissionsEmpty,
    DatabaseError(Seq<char>),
}

impl View for AppError {
    type V = ErrorView;

    open spec fn view(&self) -> ErrorView {
        match self {
            AppError::BadRequest(m) => ErrorView::BadRequest(m@),
            AppError::NotFound(m) => ErrorView::NotFound(m@),
            AppError::Unauthorized(m) => ErrorView::Unauthorized(m@),
            AppError::DeserializeError(m) => ErrorView::DeserializeError(m@),
            AppError::Conflict(m) => ErrorView::Conflict(m@),
            AppError::Forbidden(m) => ErrorView::Forbidden(m@),
            AppError::InternalServerError(m) => ErrorView::InternalServerError(m@),
            AppError::InvalidTokenFormat => ErrorView::InvalidTokenFormat,
            AppError::TokenNotFound => ErrorView::TokenNotFound,
            AppError::PermissionsEmpty => ErrorView::PermissionsEmpty,
            AppError::DatabaseError(m) => ErrorView::DatabaseError(m@),
        }
    }
}

/// The HTTP status that answers `error`.
pub open spec fn status_of(error: ErrorView) -> u16 {
    match error {
        ErrorView::BadRequest(_) => 400,
        ErrorView::NotFound(_) => 404,
        ErrorView::Unauthorized(_) => 401,
        ErrorView::DeserializeError(_) => 400,
        ErrorView::Conflict(_) => 409,
        ErrorView::Forbidden(_) => 403,
        ErrorView::InternalServerError(_) => 500,
        ErrorView::InvalidTokenFormat => 401,
        ErrorView::TokenNotFound => 401,
        ErrorView::PermissionsEmpty => 403,
        ErrorView::DatabaseError(_) => 500,
    }
}

/// The short name of the kind of `error`.
pub open spec fn title_of(error: ErrorView) -> Seq<char> {
    match error {
        ErrorView::BadRequest(_) => "缺少参数"@,
        ErrorView::NotFound(_) => "资源未找到"@,
        ErrorView::Unauthorized(_) => "权限不足"@,
        ErrorView::DeserializeError(_) => "参数类型错误"@,
        ErrorView::Conflict(m) => m,
        ErrorView::Forbidden(_) => "禁止访问"@,
        ErrorView::InternalServerError(_) => "服务器错误"@,
        ErrorView::InvalidTokenFormat => "令牌格式不正确"@,
        ErrorView::TokenNotFound => "令牌未找到"@,
        ErrorView::PermissionsEmpty => "权限字符串为空"@,
        ErrorView::DatabaseError(_) => "数据库错误"@,
    }
}

/// The detail that `error` carries; for a kind without one, its name.
pub open spec fn detail_of(error: ErrorView) -> Seq<char> {
    match error {
        ErrorView::BadRequest(m) => m,
        ErrorView::NotFound(m) => m,
        ErrorView::Unauthorized(m) => m,
        ErrorView::DeserializeError(m) => m,
        ErrorView::Conflict(m) => m,
        ErrorView::Forbidden(m) => m,
        ErrorView::InternalServerError(m) => m,
        ErrorView::InvalidTokenFormat => "令牌格式不正确"@,
        ErrorView::TokenNotFound => "令牌未找到"@,
        ErrorView::PermissionsEmpty => "权限字符串为空"@,
        ErrorView::DatabaseError(m) => m,
    }
}

impl AppError {
    /// The HTTP status that answers this error.
    pub fn status_code(&self) -> (code: u16)
        ensures
            code == status_of(self@),
    {
        match self {
            AppError::BadRequest(_) => 400,
            AppError::NotFound(_) => 404,
            AppError::Unauthorized(_) => 401,
            AppError::DeserializeError(_) => 400,
            AppError::Conflict(_) => 409,
            AppError::Forbidden(_) => 403,
            AppError::InternalServerError(_) => 500,
            AppError::InvalidTokenFormat => 401,
            AppError::TokenNotFound => 401,
            AppError::PermissionsEmpty => 403,
            AppError::DatabaseError(_) => 500,
        }
    }
}

/// The line that describes `error`: the description of its kind and, where
/// it carries a detail, a colon, a blank and the detail.
pub open spec fn line_of(error: ErrorView) -> Seq<char> {
    match error {
        ErrorView::BadRequest(m) => "缺少参数: "@ + m,
        ErrorView::NotFound(m) => "资源未找到: "@ + m,
        ErrorView::Unauthorized(m) => "权限不足: "@ + m,
        ErrorView::DeserializeError(m) => "请求体解析错误: "@ + m,
        ErrorView::Conflict(m) => "数据存在: "@ + m,
        ErrorView::Forbidden(m) => "禁止访问: "@ + m,
        ErrorView::InternalServerError(m) => "服务器错误: "@ + m,
        ErrorView::InvalidTokenFormat => "令牌格式不正确"@,
        ErrorView::TokenNotFound => "令牌未找到"@,
        ErrorView::PermissionsEmpty => "权限字符串为空"@,
        ErrorView::DatabaseError(m) => "数据库错误: "@ + m,
    }
}

/// The body that answers an error.
#[derive(Debug)]
pub struct ErrorResponse {
    /// The HTTP status, repeated in the body.
    pub code: u16,
    /// The short name of the kind of error.
    pub error: String,
    /// The detail; a conflict is answered with its name alone and has none.
    pub message: Option<String>,
}

/// An answer with its texts as characters.
pub struct ErrorResponseView {
    pub code: u16,
    pub error: Seq<char>,
    pub message: Option<Seq<char>>,
}

impl View for ErrorResponse {
    type V = ErrorResponseView;

    open spec fn view(&self) -> ErrorResponseView {
        ErrorResponseView {
            code: self.code,
            error: self.error@,
            message: match self.message {
                Some(m) => Some(m@),
                None => None,
            },
        }
    }
}

/// The body that answers `error`.
pub open spec fn response_of(error: ErrorView) -> ErrorResponseView {
    ErrorResponseView {
        code: status_of(error),
        error: title_of(error),
        message: match error {
            ErrorView::Conflict(_) => None,
            _ => Some(detail_of(error)),
        },
    }
}

impl AppError {
    /// The line that describes this error.
    pub fn to_text(&self) -> (line: String)
        ensures
            line@ == line_of(self@),
    {
        match self {
            AppError::BadRequest(m) => "缺少参数: ".to_owned().concat(m.as_str()),
            AppError::NotFound(m) => "资源未找到: ".to_owned().concat(m.as_str()),
            AppError::Unauthorized(m) => "权限不足: ".to_owned().concat(m.as_str()),
            AppError::DeserializeError(m) => "请求体解析错误: ".to_owned().concat(m.as_str()),
            AppError::Conflict(m) => "数据存在: ".to_owned().concat(m.as_str()),
            AppError::Forbidden(m) => "禁止访问: ".to_owned().concat(m.as_str()),
            AppError::InternalServerError(m) => "服务器错误: ".to_owned().concat(m.as_str()),
            AppError::InvalidTokenFormat => "令牌格式不正确".to_owned(),
            AppError::TokenNotFound => "令牌未找到".to_owned(),
            AppError::PermissionsEmpty => "权限字符串为空".to_owned(),
            AppError::DatabaseError(m) => "数据库错误: ".to_owned().concat(m.as_str()),
        }
    }

    /// The body that answers this error.
    pub fn error_response(&self) -> (response: ErrorResponse)
        ensures
            response@ == response_of(self@),
    {
        let code = self.status_code();
        match self {
            AppError::BadRequest(m) => ErrorResponse {
                code,
                error: "缺少参数".to_owned(),
                message: Some(m.clone()),
            },
            AppError::NotFound(m) => ErrorResponse {
                code,
                error: "资源未找到".to_owned(),
                message: Some(m.clone()),
            },
            AppError::Unauthorized(m) => ErrorResponse {
                code,
                error: "权限不足".to_owned(),
                message: Some(m.clone()),
            },
            AppError::DeserializeError(m) => ErrorResponse {
                code,
                error: "参数类型错误".to_owned(),
                message: Some(m.clone()),
            },
            AppError::Conflict(m) => ErrorResponse { code, error: m.clone(), message: None },
            AppError::Forbidden(m) => ErrorResponse {
                code,
                error: "禁止访问".to_owned(),
                message: Some(m.clone()),
            },
            AppError::InternalServerError(m) => ErrorResponse {
                code,
                error: "服务器错误".to_owned(),
                message: Some(m.clone()),
            },
            AppError::InvalidTokenFormat => ErrorResponse {
                code,
                error: "令牌格式不正确".to_owned(),
                message: Some("令牌格式不正确".to_owned()),
            },
            AppError::TokenNotFound => ErrorResponse {
                code,
                error: "令牌未找到".to_owned(),
                message: Some("令牌未找到".to_owned()),
            },
            AppError::PermissionsEmpty => ErrorResponse {
                code,
                error: "权限字符串为空".to_owned(),
                message: Some("权限字符串为空".to_owned()),
            },
            AppError::DatabaseError(m) => ErrorResponse {
                code,
                error: "数据库错误".to_owned(),
                message: Some(m.clone()),
            },
        }
    }
}

} // verus!
