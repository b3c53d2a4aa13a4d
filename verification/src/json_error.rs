//! What a client is told when the body of a request cannot be read.

use crate::text::{contains_text, is_infix};
use crate::token::text_view;
use vstd::prelude::*;
use vstd::string::StrSliceExecFns;
use vstd::string::StringExecFns;

verus! {

/// The pattern that finds the name of a missing field.
pub const MISSING_FIELD: &'static str = "missing field `([^`]+)`";

/// The pattern that finds what the reader of JSON complained of.
pub const DESERIALIZE_DETAIL: &'static str = "Json deserialize error: (.+?) at line";

/// What the first group of the regular expression `pattern` holds at its
/// leftmost match in `text`, as `regex::Regex::captures` finds it; nothing
/// where `pattern` is no regular expression, where it does not match, or
/// where the group took no part in the match.
pub uninterp spec fn first_group_of(pattern: Seq<char>, text: Seq<char>) -> Option<Seq<char>>;

/// `text` without the white space at its two ends, as `str::trim` leaves
/// it.
pub uninterp spec fn trimmed(text: Seq<char>) -> Seq<char>;

/// Compiles `pattern` with `regex::Regex::new`, matches it on `text` with
/// `Regex::captures` and hands out the text of group 1. The contract gives
/// the result a name and claims nothing else of it.
#[verifier::external_body]
fn first_group(pattern: &str, text: &str) -> (group: Option<String>)
    ensures
        text_view(group) == first_group_of(pattern@, text@),
{
    let re = regex::Regex::new(pattern).ok()?;
    Some(re.captures(text)?.get(1)?.as_str().to_owned())
}

/// Calls `str::trim`. The contract gives the result a name and claims
/// nothing else of it.
#[verifier::external_body]
pub(crate) fn trim(text: &str) -> (short: String)
    ensures
        short@ == trimmed(text@),
{
    text.trim().to_owned()
}

/// Whether `text` is empty once the white space at its ends is taken off.
pub fn is_blank(text: &str) -> (blank: bool)
    ensures
        blank == (trimmed(text@).len() == 0),
{
    trim(text).as_str().unicode_len() == 0
}

/// The message for an error of the reader, given what the two patterns
/// found in its text: a missing field is named; else a mismatch of types,
/// then a body that ends too early, are told by their marks in the text;
/// else the complaint of the reader is handed on, where the text is marked
/// as such and the complaint was found; else the message is a general one.
pub open spec fn message_for(
    error: Seq<char>,
    missing: Option<Seq<char>>,
    detail: Option<Seq<char>>,
) -> Seq<char> {
    if missing is Some {
        "缺少必填字段: "@ + missing->0
    } else if is_infix("expected"@, error) && is_infix("found"@, error) {
        "字段类型不匹配"@
    } else if is_infix("unexpected end of input"@, error) {
        "请求体不完整"@
    } else if is_infix("Json deserialize error"@, error) && detail is Some {
        trimmed(detail->0)
    } else {
        "请求数据格式错误"@
    }
}

/// The message for an error of the reader with the text `error`, given
/// what the two patterns found in it.
pub fn explain(error: &str, missing: Option<String>, detail: Option<String>) -> (message: String)
    ensures
        message@ == message_for(error@, text_view(missing), text_view(detail)),
{
    if let Some(field) = missing {
        return "缺少必填字段: ".to_owned().concat(field.as_str());
    }
    if contains_text(error, "expected") && contains_text(error, "found") {
        return "字段类型不匹配".to_owned();
    }
    if contains_text(error, "unexpected end of input") {
        return "请求体不完整".to_owned();
    }
    if contains_text(error, "Json deserialize error") {
        if let Some(complaint) = detail {
            return trim(complaint.as_str());
        }
    }
    "请求数据格式错误".to_owned()
}

/// The message for an error of the reader with the text `error`.
pub fn parse_json_error(error: &str) -> (message: String)
    ensures
        message@ == message_for(
            error@,
            first_group_of(MISSING_FIELD@, error@),
            first_group_of(DESERIALIZE_DETAIL@, error@),
        ),
{
    let missing = first_group(MISSING_FIELD, error);
    let detail = first_group(DESERIALIZE_DETAIL, error);
    explain(error, missing, detail)
}

} // verus!
