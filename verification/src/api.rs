//! The checks that the first handlers make on what a request names.

use crate::error::{AppError, ErrorView};
use crate::json_error::trimmed;
use vstd::prelude::*;
use vstd::string::StringExecFns;
use vstd::string::StringSliceAdditionalSpecFns;

verus! {

/// What is wrong with what a request names.
#[derive(Debug, Clone, Copy, PartialEq, Eq, Structural)]
pub enum RequestFault {
    /// The page is zero.
    PageIsZero,
    /// The identifier of the user is not positive.
    IdNotPositive,
    /// The identifier is not written as a UUID is.
    BadUuid,
    /// The name of the user is blank.
    BlankUserName,
    /// The e-mail address is blank.
    BlankEmail,
}

/// What a client is told of `fault`.
pub open spec fn fault_text(fault: RequestFault) -> Seq<char> {
    match fault {
        RequestFault::PageIsZero => "页码必须大于0"@,
        RequestFault::IdNotPositive => "用户ID必须大于0"@,
        RequestFault::BadUuid => "无效的UUID格式"@,
        RequestFault::BlankUserName => "用户名不能为空"@,
        RequestFault::BlankEmail => "邮箱不能为空"@,
    }
}

impl RequestFault {
    /// What a client is told of this fault.
    pub fn message(&self) -> (text: String)
        ensures
            text@ == fault_text(*self),
    {
        match self {
            RequestFault::PageIsZero => "页码必须大于0".to_owned(),
            RequestFault::IdNotPositive => "用户ID必须大于0".to_owned(),
            RequestFault::BadUuid => "无效的UUID格式".to_owned(),
            RequestFault::BlankUserName => "用户名不能为空".to_owned(),
            RequestFault::BlankEmail => "邮箱不能为空".to_owned(),
        }
    }
}

/// Checks the identifier of a user: it is positive.
pub fn check_id(id: i32) -> (outcome: Result<(), RequestFault>)
    ensures
        outcome == if id <= 0 {
            Err::<(), RequestFault>(RequestFault::IdNotPositive)
        } else {
            Ok(())
        },
{
    if id <= 0 {
        Err(RequestFault::IdNotPositive)
    } else {
        Ok(())
    }
}

/// Checks the page of a query: it is not zero.
pub fn check_page(page: u64) -> (outcome: Result<(), RequestFault>)
    ensures
        outcome == if page == 0 {
            Err::<(), RequestFault>(RequestFault::PageIsZero)
        } else {
            Ok(())
        },
{
    if page == 0 {
        Err(RequestFault::PageIsZero)
    } else {
        Ok(())
    }
}

/// Checks the identifier of a user that is written as a UUID: its text has
/// 36 bytes.
pub fn check_uuid(uuid: &str) -> (outcome: Result<(), RequestFault>)
    ensures
        outcome == if uuid.spec_bytes().len() != 36 {
            Err::<(), RequestFault>(RequestFault::BadUuid)
        } else {
            Ok(())
        },
{
    if uuid.as_bytes().len() != 36 {
        Err(RequestFault::BadUuid)
    } else {
        Ok(())
    }
}

/// Checks the name and the e-mail address of a request to update a user:
/// neither is blank, that is empty once the white space at its ends is
/// taken off; the name is looked at first.
pub fn check_update(user_name: &str, email: &str) -> (outcome: Result<(), RequestFault>)
    ensures
        outcome == if trimmed(user_name@).len() == 0 {
            Err::<(), RequestFault>(RequestFault::BlankUserName)
        } else if trimmed(email@).len() == 0 {
            Err(RequestFault::BlankEmail)
        } else {
            Ok(())
        },
{
    if crate::json_error::is_blank(user_name) {
        Err(RequestFault::BlankUserName)
    } else if crate::json_error::is_blank(email) {
        Err(RequestFault::BlankEmail)
    } else {
        Ok(())
    }
}

/// Whether a user may be created under `user_name`, given how many users
/// bear it: a name that is taken is a conflict.
pub fn name_is_new(user_name: &str, count: u64) -> (outcome: Result<(), AppError>)
    ensures
        count == 0 ==> outcome is Ok,
        count > 0 ==> (outcome matches Err(e) && e@ == ErrorView::Conflict(
            "用户名 '"@ + user_name@ + "' 已存在"@,
        )),
{
    if count > 0 {
        let mut message = "用户名 '".to_owned();
        message.append(user_name);
        message.append("' 已存在");
        Err(AppError::Conflict(message))
    } else {
        Ok(())
    }
}

/// Whether a user may be created under the address `email`, given how many
/// users are registered under it: an address that is taken is a conflict.
pub fn email_is_new(email: &str, count: u64) -> (outcome: Result<(), AppError>)
    ensures
        count == 0 ==> outcome is Ok,
        count > 0 ==> (outcome matches Err(e) && e@ == ErrorView::Conflict(
            "邮箱 '"@ + email@ + "' 已被注册"@,
        )),
{
    if count > 0 {
        let mut message = "邮箱 '".to_owned();
        message.append(email);
        message.append("' 已被注册");
        Err(AppError::Conflict(message))
    } else {
        Ok(())
    }
}

} // verus!
