//! Listing, updating and deleting users: what is decided around the
//! directory.

use crate::common::{pages_for, PageWindow, PaginatedResponse, PaginationInfo, MAX_PAGE_SIZE};
use crate::data_processing::{deep_filter_data, excluded, filtered};
use crate::error::{AppError, ErrorView};
use crate::json::{
    fields_view, items_view, lemma_array_view, lemma_object_view, Json, JsonNumber, JsonView,
    NumberView,
};
use crate::text::{i64_to_text, signed_decimal, str_eq};
use crate::user::Model;
use vstd::prelude::*;
use vstd::string::StringExecFns;

verus! {

/// One page of rows, each without the members named in `exclude`, with the
/// figures of the page. The window is that of a served page, and the rows
/// in all can be counted in 64 bits together with one page more.
pub fn paginate(rows: &Vec<Json>, exclude: &Vec<String>, total: u64, window: PageWindow) -> (page:
    PaginatedResponse<Json>)
    requires
        1 <= window.limit <= MAX_PAGE_SIZE,
        total + window.limit <= u64::MAX,
    ensures
        page.data@.len() == rows@.len(),
        forall|i: int|
            0 <= i < rows@.len() ==> (#[trigger] page.data@[i])@ == filtered(
                rows@[i]@,
                excluded(exclude@),
            ),
        page.pagination == (PaginationInfo {
            total,
            total_pages: pages_for(total, window.limit) as u64,
            current_page: window.page,
            limit: window.limit,
            has_next: window.page < pages_for(total, window.limit),
            has_previous: window.page > 1,
        }),
{
    let data = deep_filter_data(rows, exclude);
    let pagination = crate::common::page_info(total, window.page, window.limit);
    PaginatedResponse { data, pagination }
}

/// The user to work on, given what the directory said when it was asked for
/// the user `id`: a directory that failed is a server error, a user that is
/// not there is not found.
pub fn existing_user(found: Result<Option<Model>, String>, id: i64) -> (outcome: Result<
    Model,
    AppError,
>)
    ensures
        match found {
            Err(_) => outcome matches Err(error) && error@ == ErrorView::InternalServerError(
                "获取用户信息失败"@,
            ),
            Ok(None) => outcome matches Err(error) && error@ == ErrorView::NotFound(
                "ID为"@ + signed_decimal(id as int) + "的用户不存在"@,
            ),
            Ok(Some(user)) => outcome == Ok::<Model, AppError>(user),
        },
{
    match found {
        Err(_) => Err(AppError::InternalServerError("获取用户信息失败".to_owned())),
        Ok(None) => {
            let mut message = "ID为".to_owned();
            message.append(i64_to_text(id).as_str());
            message.append("的用户不存在");
            Err(AppError::NotFound(message))
        },
        Ok(Some(user)) => Ok(user),
    }
}

/// Whether the directory has to be asked if the wanted name is taken: only
/// where it differs from the present one.
pub fn name_changes(user: &Model, wanted: &str) -> (changes: bool)
    ensures
        changes == (user.user_name@ != wanted@),
{
    !str_eq(user.user_name.as_str(), wanted)
}

/// Whether the wanted name may be given, given how many other users bear
/// it: a directory that failed is a server error with its text, a name
/// that is taken is a conflict.
pub fn name_is_free(wanted: &str, others: Result<u64, String>) -> (outcome: Result<(), AppError>)
    ensures
        match others {
            Err(failure) => outcome matches Err(error) && error@
                == ErrorView::InternalServerError("用户名检查失败: "@ + failure@),
            Ok(count) => if count > 0 {
                outcome matches Err(error) && error@ == ErrorView::Conflict(
                    "用户名'"@ + wanted@ + "'已存在"@,
                )
            } else {
                outcome is Ok
            },
        },
{
    match others {
        Err(failure) => Err(
            AppError::InternalServerError("用户名检查失败: ".to_owned().concat(failure.as_str())),
        ),
        Ok(count) => if count > 0 {
            let mut message = "用户名'".to_owned();
            message.append(wanted);
            message.append("'已存在");
            Err(AppError::Conflict(message))
        } else {
            Ok(())
        },
    }
}

/// The texts of a list as JSON texts.
pub open spec fn texts_json(texts: Seq<String>) -> Seq<JsonView> {
    Seq::new(texts.len(), |i: int| JsonView::Text(texts[i]@))
}

/// An optional list of texts as JSON: an array of texts, or null.
pub open spec fn optional_texts_json(texts: Option<Vec<String>>) -> JsonView {
    match texts {
        Some(list) => JsonView::Array(texts_json(list@)),
        None => JsonView::Null,
    }
}

/// The event that tells the subscribers of a user that the user was
/// updated: the identifier, the new name and the new permissions.
pub open spec fn user_updated(id: i64, user_name: Seq<char>, permissions: JsonView) -> JsonView {
    JsonView::Object(
        seq![
            ("event"@, JsonView::Text("user_updated"@)),
            (
                "data"@,
                JsonView::Object(
                    seq![
                        ("user_id"@, JsonView::Number(number_of(id))),
                        (
                            "updated_fields"@,
                            JsonView::Object(
                                seq![
                                    ("username"@, JsonView::Text(user_name)),
                                    ("permissions"@, permissions),
                                ],
                            ),
                        ),
                    ],
                ),
            ),
        ],
    )
}

/// A signed number as a JSON number: unsigned where it is not negative.
pub open spec fn number_of(n: i64) -> NumberView {
    if n >= 0 {
        NumberView::Unsigned(n as u64)
    } else {
        NumberView::Signed(n)
    }
}

fn object_of(fields: Vec<(String, Json)>) -> (json: Json)
    ensures
        json@ == JsonView::Object(fields_view(fields@)),
{
    proof {
        lemma_object_view(fields);
    }
    Json::Object(fields)
}

/// Builds the event that tells of an updated user.
pub fn user_updated_event(id: i64, user_name: &str, permissions: &Option<Vec<String>>) -> (event:
    Json)
    ensures
        event@ == user_updated(id, user_name@, optional_texts_json(*permissions)),
{
    let listed = match permissions {
        None => Json::Null,
        Some(list) => {
            let mut items: Vec<Json> = Vec::new();
            let mut i: usize = 0;
            while i < list.len()
                invariant
                    i <= list.len(),
                    items@.len() == i,
                    forall|k: int| 0 <= k < i ==> items@[k]@ == JsonView::Text(list@[k]@),
                decreases list.len() - i,
            {
                items.push(Json::Text(list[i].clone()));
                i += 1;
            }
            proof {
                lemma_array_view(items);
                assert(items_view(items@) =~= texts_json(list@));
            }
            Json::Array(items)
        },
    };
    let number = if id >= 0 {
        JsonNumber::Unsigned(id as u64)
    } else {
        JsonNumber::Signed(id)
    };
    let mut updated: Vec<(String, Json)> = Vec::new();
    updated.push(("username".to_owned(), Json::Text(user_name.to_owned())));
    updated.push(("permissions".to_owned(), listed));
    let updated = object_of(updated);
    let mut data: Vec<(String, Json)> = Vec::new();
    data.push(("user_id".to_owned(), Json::Number(number)));
    data.push(("updated_fields".to_owned(), updated));
    let data = object_of(data);
    let mut event: Vec<(String, Json)> = Vec::new();
    event.push(("event".to_owned(), Json::Text("user_updated".to_owned())));
    event.push(("data".to_owned(), data));
    let event = object_of(event);
    proof {
        let want = user_updated(id, user_name@, optional_texts_json(*permissions));
        let inner = want->Object_0[1].1;
        assert(updated@->Object_0 =~= inner->Object_0[1].1->Object_0);
        assert(data@->Object_0 =~= inner->Object_0);
        assert(event@->Object_0 =~= want->Object_0);
    }
    event
}

/// The answer to a request to delete the user `id`, given how many rows the
/// directory deleted: a directory that failed is a server error, no row is
/// a user that is not found, else the deletion is confirmed.
pub fn deleted(rows_affected: Result<u64, String>, id: i64) -> (outcome: Result<String, AppError>)
    ensures
        match rows_affected {
            Err(_) => outcome matches Err(error) && error@ == ErrorView::InternalServerError(
                "删除用户失败"@,
            ),
            Ok(count) => if count == 0 {
                outcome matches Err(error) && error@ == ErrorView::NotFound(
                    "ID为"@ + signed_decimal(id as int) + "的用户不存在"@,
                )
            } else {
                outcome matches Ok(message) && message@ == "用户 "@ + signed_decimal(id as int)
                    + " 已删除"@
            },
        },
{
    match rows_affected {
        Err(_) => Err(AppError::InternalServerError("删除用户失败".to_owned())),
        Ok(count) => if count == 0 {
            let mut message = "ID为".to_owned();
            message.append(i64_to_text(id).as_str());
            message.append("的用户不存在");
            Err(AppError::NotFound(message))
        } else {
            let mut message = "用户 ".to_owned();
            message.append(i64_to_text(id).as_str());
            message.append(" 已删除");
            Ok(message)
        },
    }
}

} // verus!
