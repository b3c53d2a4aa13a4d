//! Logging in, registering, and telling a client which permissions there
//! are.

use crate::dto::{
    credential_faults, faults_view, FaultView, FieldFault, LoginRequest, RegisterResponse,
};
use crate::error::{AppError, ErrorView};
use crate::permission::{
    atomic_flags, atomic_names_of, atomic_permission_list, Permission, PermissionEntry, ALL,
};
use crate::text::{decimal, parse_u64, parse_u64_spec, u64_to_text};
use crate::token::{issue, issue_view, issued_at, text_view, SECRET_KEY};
use crate::user::Model;
use vstd::prelude::*;
use vstd::string::StringExecFns;

verus! {

/// How long a token of this service is good for, in seconds.
pub const TOKEN_TTL: u64 = 3600;

/// What a client is shown of a user.
#[derive(Debug)]
pub struct UserInfo {
    pub id: i64,
    pub uuid: String,
    pub user_name: String,
    pub created_at: String,
    pub updated_at: String,
    pub email: Option<String>,
    pub phone: Option<String>,
    pub role: Option<String>,
    pub permissions: Option<String>,
    pub image: Option<String>,
    pub binding: Option<String>,
}

/// The answer to a login: the user, the token and its life in seconds.
#[derive(Debug)]
pub struct LoginData {
    pub user: UserInfo,
    pub access_token: String,
    pub expires_in: u64,
}

/// What a client is shown of `credentials`: every column but the hash of
/// the password.
pub open spec fn user_info_of(credentials: Model) -> UserInfo {
    UserInfo {
        id: credentials.id,
        uuid: credentials.uuid,
        user_name: credentials.user_name,
        created_at: credentials.created_at,
        updated_at: credentials.updated_at,
        email: credentials.email,
        phone: credentials.phone,
        role: credentials.role,
        permissions: credentials.permissions,
        image: credentials.image,
        binding: credentials.binding,
    }
}

/// The answer to a login of `credentials` with the token `token`.
pub fn build_login_response(credentials: Model, token: String) -> (data: LoginData)
    ensures
        data.user == user_info_of(credentials),
        data.access_token == token,
        data.expires_in == TOKEN_TTL,
{
    let user = UserInfo {
        id: credentials.id,
        uuid: credentials.uuid,
        user_name: credentials.user_name,
        created_at: credentials.created_at,
        updated_at: credentials.updated_at,
        email: credentials.email,
        phone: credentials.phone,
        role: credentials.role,
        permissions: credentials.permissions,
        image: credentials.image,
        binding: credentials.binding,
    };
    LoginData { user, access_token: token, expires_in: 3600 }
}

/// The text that lists broken rules: per rule a line of the field, a colon,
/// a blank and the message; a further rule of the same field follows on the
/// same line after a comma and a blank.
pub open spec fn faults_text(faults: Seq<FaultView>) -> Seq<char>
    decreases faults.len(),
{
    if faults.len() == 0 {
        Seq::empty()
    } else if faults.len() == 1 {
        faults[0].field + ": "@ + faults[0].message
    } else {
        let head = faults.drop_last();
        if head.last().field == faults.last().field {
            faults_text(head) + ", "@ + faults.last().message
        } else {
            faults_text(head) + "\n"@ + faults.last().field + ": "@ + faults.last().message
        }
    }
}

/// Writes the list of broken rules as text.
pub fn describe_faults(faults: &Vec<FieldFault>) -> (text: String)
    ensures
        text@ == faults_text(faults_view(faults@)),
{
    let ghost all = faults_view(faults@);
    let mut text = String::new();
    let mut i: usize = 0;
    assert(all.take(0) =~= Seq::empty());
    while i < faults.len()
        invariant
            i <= faults.len(),
            all == faults_view(faults@),
            text@ == faults_text(all.take(i as int)),
        decreases faults.len() - i,
    {
        let fault = &faults[i];
        proof {
            let next = all.take(i + 1);
            assert(next.drop_last() =~= all.take(i as int));
            assert(next.last() == fault@);
            if i > 0 {
                assert(all.take(i as int).last() == faults@[i - 1]@);
            }
        }
        let ghost before = text@;
        if i > 0 && crate::text::str_eq(faults[i - 1].field, fault.field) {
            text.append(", ");
            text.append(fault.message);
        } else {
            if i > 0 {
                text.append("\n");
            }
            text.append(fault.field);
            text.append(": ");
            text.append(fault.message);
            proof {
                if i == 0 {
                    assert(text@ =~= fault@.field + ": "@ + fault@.message);
                }
            }
        }
        i += 1;
    }
    assert(all.take(i as int) =~= all);
    text
}

/// What the directory said when it was asked for a user by name: the user,
/// that there is none, or the text of its failure.
pub open spec fn found_user(
    request: LoginRequest,
    found: Result<Option<Model>, String>,
) -> Result<Model, ErrorView> {
    let faults = credential_faults(request.user_name@, request.pass_word@, 5);
    if faults.len() > 0 {
        Err(ErrorView::DeserializeError(faults_text(faults)))
    } else {
        match found {
            Err(failure) => Err(
                ErrorView::InternalServerError("检查用户名时发生错误: "@ + failure@),
            ),
            Ok(None) => Err(
                ErrorView::NotFound("用户名 '"@ + request.user_name@ + "' 不存在"@),
            ),
            Ok(Some(credentials)) => Ok(credentials),
        }
    }
}

/// A user or an error, the error by its view.
pub open spec fn user_view(outcome: Result<Model, AppError>) -> Result<Model, ErrorView> {
    match outcome {
        Ok(credentials) => Ok(credentials),
        Err(error) => Err(error@),
    }
}

/// The first steps of a login: the request is checked, then the answer of
/// the directory is read.
pub fn find_user(request: &LoginRequest, found: Result<Option<Model>, String>) -> (outcome: Result<
    Model,
    AppError,
>)
    ensures
        user_view(outcome) == found_user(*request, found),
{
    if let Err(faults) = request.validate() {
        return Err(AppError::DeserializeError(describe_faults(&faults)));
    }
    match found {
        Err(failure) => Err(
            AppError::InternalServerError(
                "检查用户名时发生错误: ".to_owned().concat(failure.as_str()),
            ),
        ),
        Ok(None) => {
            let mut message = "用户名 '".to_owned();
            message.append(request.user_name.as_str());
            message.append("' 不存在");
            Err(AppError::NotFound(message))
        },
        Ok(Some(credentials)) => Ok(credentials),
    }
}

/// What `bcrypt::verify` makes of a password and a hash: whether they
/// match, or nothing where the hash cannot be read.
pub uninterp spec fn password_match(pass_word: Seq<char>, hash: Seq<char>) -> Option<bool>;

/// Calls `bcrypt::verify`. The answer depends on the two texts alone; the
/// contract gives it a name and claims nothing else of it.
#[verifier::external_body]
fn verify_password(pass_word: &str, hash: &str) -> (matched: Option<bool>)
    ensures
        matched == password_match(pass_word@, hash@),
{
    bcrypt::verify(pass_word, hash).ok()
}

/// Calls `bcrypt::hash` with `bcrypt::DEFAULT_COST`. The salt is drawn at
/// random, so nothing is claimed of the result.
#[verifier::external_body]
fn hash_password(pass_word: &str) -> Option<String> {
    bcrypt::hash(pass_word, bcrypt::DEFAULT_COST).ok()
}

/// Whether a password is accepted, given what the check of it against the
/// stored hash gave: only a match is.
pub fn accept_password(matched: Option<bool>) -> (outcome: Result<(), AppError>)
    ensures
        match outcome {
            Ok(()) => matched == Some(true),
            Err(error) => matched != Some(true) && error@ == ErrorView::Unauthorized(
                "用户名或密码错误"@,
            ),
        },
{
    match matched {
        Some(true) => Ok(()),
        _ => Err(AppError::Unauthorized("用户名或密码错误".to_owned())),
    }
}

/// Issues the token of `credentials`: their identifier, name and
/// permissions, good for `expires_in` seconds from the present second.
pub fn generate_jwt(credentials: &Model, secret: &str, expires_in: u64) -> (issued: Result<
    String,
    AppError,
>)
    ensures
        exists|now: u64|
            issue_view(issued) == issued_at(
                credentials.uuid@,
                credentials.user_name@,
                text_view(credentials.permissions),
                expires_in,
                secret@,
                now,
            ),
{
    let permissions = match &credentials.permissions {
        Some(p) => Some(p.as_str()),
        None => None,
    };
    issue(
        credentials.uuid.as_str(),
        credentials.user_name.as_str(),
        permissions,
        expires_in,
        secret,
    )
}

/// How a login ends once the user is known, given what the check of the
/// password gave and the second of issue: a password that does not match is
/// turned away; else the token is issued and handed out with the user.
pub open spec fn login_ends(
    credentials: Model,
    matched: Option<bool>,
    now: u64,
    outcome: Result<LoginData, AppError>,
) -> bool {
    if matched != Some(true) {
        outcome matches Err(error) && error@ == ErrorView::Unauthorized("用户名或密码错误"@)
    } else {
        match issued_at(
            credentials.uuid@,
            credentials.user_name@,
            text_view(credentials.permissions),
            TOKEN_TTL,
            SECRET_KEY@,
            now,
        ) {
            Err(failure) => outcome matches Err(error) && error@ == failure,
            Ok(token) => outcome matches Ok(data) && data.access_token@ == token && data.user
                == user_info_of(credentials) && data.expires_in == TOKEN_TTL,
        }
    }
}

/// Logs a user in, given the request and what the directory said when it
/// was asked for the user of that name. A request that breaks a rule, a
/// directory that failed and a name that is not known end the login as
/// `found_user` says; else it ends as `login_ends` says, at some second.
pub fn login(request: &LoginRequest, found: Result<Option<Model>, String>) -> (outcome: Result<
    LoginData,
    AppError,
>)
    ensures
        match found_user(*request, found) {
            Err(error) => outcome matches Err(e) && e@ == error,
            Ok(credentials) => exists|now: u64|
                login_ends(
                    credentials,
                    password_match(request.pass_word@, credentials.pass_word@),
                    now,
                    outcome,
                ),
        },
{
    let credentials = match find_user(request, found) {
        Ok(credentials) => credentials,
        Err(error) => {
            return Err(error);
        },
    };
    let matched = verify_password(request.pass_word.as_str(), credentials.pass_word.as_str());
    if let Err(error) = accept_password(matched) {
        let outcome = Err(error);
        assert(login_ends(credentials, matched, 0, outcome));
        return outcome;
    }
    match generate_jwt(&credentials, SECRET_KEY, TOKEN_TTL) {
        Err(error) => {
            let ghost now = choose|now: u64|
                Err::<Seq<char>, ErrorView>(error@) == issued_at(
                    credentials.uuid@,
                    credentials.user_name@,
                    text_view(credentials.permissions),
                    TOKEN_TTL,
                    SECRET_KEY@,
                    now,
                );
            let outcome = Err(error);
            assert(login_ends(credentials, matched, now, outcome));
            outcome
        },
        Ok(token) => {
            let ghost now = choose|now: u64|
                Ok::<Seq<char>, ErrorView>(token@) == issued_at(
                    credentials.uuid@,
                    credentials.user_name@,
                    text_view(credentials.permissions),
                    TOKEN_TTL,
                    SECRET_KEY@,
                    now,
                );
            let ghost before = credentials;
            let outcome = Ok(build_login_response(credentials, token));
            assert(login_ends(before, matched, now, outcome));
            outcome
        },
    }
}

/// A user that is to be stored.
#[derive(Debug)]
pub struct NewUser {
    pub uuid: String,
    pub user_name: String,
    /// The hash of the password.
    pub pass_word: String,
    /// The permission mask as decimal text.
    pub permissions: Option<String>,
    pub created_at: String,
    pub updated_at: String,
}

/// Whether a registration may go on, given the request and how many users
/// of that name the directory counted: a request that breaks a rule, a
/// directory that failed and a name that is taken end it.
pub open spec fn registration_fault(request: RegisterResponse, existing: Result<u64, String>)
    -> Option<ErrorView> {
    let faults = credential_faults(request.user_name@, request.pass_word@, 5);
    if faults.len() > 0 {
        Some(ErrorView::DeserializeError(faults_text(faults)))
    } else {
        match existing {
            Err(_) => Some(ErrorView::InternalServerError("服务器内部错误"@)),
            Ok(count) => if count > 0 {
                Some(ErrorView::Conflict("用户名已存在"@))
            } else {
                None
            },
        }
    }
}

/// Checks a request to register against what the directory counted.
pub fn check_registration(request: &RegisterResponse, existing: Result<u64, String>) -> (outcome:
    Result<(), AppError>)
    ensures
        match outcome {
            Ok(()) => registration_fault(*request, existing) is None,
            Err(error) => registration_fault(*request, existing) == Some(error@),
        },
{
    if let Err(faults) = request.validate() {
        return Err(AppError::DeserializeError(describe_faults(&faults)));
    }
    match existing {
        Err(_) => Err(AppError::InternalServerError("服务器内部错误".to_owned())),
        Ok(count) => if count > 0 {
            Err(AppError::Conflict("用户名已存在".to_owned()))
        } else {
            Ok(())
        },
    }
}

/// The user to store for a request, given a new identifier, the hash of the
/// password where hashing succeeded, and the present time: the user holds
/// every permission. Without a hash there is no user.
pub fn new_user(request: &RegisterResponse, uuid: String, hashed: Option<String>, now: String)
    -> (outcome: Result<NewUser, AppError>)
    ensures
        match outcome {
            Ok(user) => hashed == Some(user.pass_word) && user.uuid == uuid && user.user_name@
                == request.user_name@ && text_view(user.permissions) == Some(decimal(ALL as nat))
                && user.created_at@ == now@ && user.updated_at == now,
            Err(error) => hashed is None && error@ == ErrorView::InternalServerError(
                "密码加密失败"@,
            ),
        },
{
    match hashed {
        None => Err(AppError::InternalServerError("密码加密失败".to_owned())),
        Some(pass_word) => Ok(
            NewUser {
                uuid,
                user_name: request.user_name.clone(),
                pass_word,
                permissions: Some(u64_to_text(Permission::from_bits(ALL).bits())),
                created_at: now.clone(),
                updated_at: now,
            },
        ),
    }
}

/// Calls `uuid::Uuid::new_v4` and writes the result with its `Display`.
/// The identifier is drawn at random, so nothing is claimed of it.
#[verifier::external_body]
fn fresh_uuid() -> String {
    uuid::Uuid::new_v4().to_string()
}

/// Calls `chrono::Utc::now` and writes the result with its `Display`.
/// Nothing is claimed of it.
#[verifier::external_body]
fn now_text() -> String {
    chrono::Utc::now().to_string()
}

/// Registers a user, given the request and how many users of that name the
/// directory counted. Where the registration may go on, the password is
/// hashed, and the user to store is handed out under a new identifier with
/// every permission; where hashing fails, the result is that error.
pub fn register(request: &RegisterResponse, existing: Result<u64, String>) -> (outcome: Result<
    NewUser,
    AppError,
>)
    ensures
        match registration_fault(*request, existing) {
            Some(fault) => outcome matches Err(error) && error@ == fault,
            None => match outcome {
                Ok(user) => user.user_name@ == request.user_name@ && text_view(user.permissions)
                    == Some(decimal(ALL as nat)) && user.created_at@ == user.updated_at@,
                Err(error) => error@ == ErrorView::InternalServerError("密码加密失败"@),
            },
        },
{
    if let Err(error) = check_registration(request, existing) {
        return Err(error);
    }
    let hashed = hash_password(request.pass_word.as_str());
    new_user(request, fresh_uuid(), hashed, now_text())
}

/// The permissions of a request that names none.
pub fn default_permissions() -> (text: String)
    ensures
        text@ == "0"@,
{
    "0".to_owned()
}

/// The names of the single capabilities in the mask that `permissions`
/// writes; a text that is no unsigned 64-bit numeral is a bad request.
pub fn get_permissions_by_id(permissions: &str) -> (outcome: Result<Vec<String>, AppError>)
    ensures
        match outcome {
            Ok(names) => parse_u64_spec(permissions@) matches Some(bits) && names@.map_values(
                |n: String| n@,
            ) == atomic_names_of(bits),
            Err(error) => parse_u64_spec(permissions@) is None && error@ == ErrorView::BadRequest(
                "权限ID格式错误"@,
            ),
        },
{
    match parse_u64(permissions) {
        Some(bits) => Ok(Permission::from_bits(bits).atomic_names()),
        None => Err(AppError::BadRequest("权限ID格式错误".to_owned())),
    }
}

/// One permission as a client is told of it.
#[derive(Debug)]
pub struct PermissionResponse {
    pub name: String,
    pub description: String,
}

/// The permissions that a client may choose from: the single capabilities,
/// each with its name and its description, and none of the unions.
pub fn get_permissions() -> (list: Vec<PermissionResponse>)
    ensures
        list@.len() == atomic_flags().len(),
        forall|i: int|
            0 <= i < list@.len() ==> (#[trigger] list@[i]).name@ == atomic_flags()[i].name
                && list@[i].description@ == atomic_flags()[i].description,
{
    let rows = atomic_permission_list();
    let mut list: Vec<PermissionResponse> = Vec::new();
    let mut i: usize = 0;
    while i < rows.len()
        invariant
            i <= rows.len(),
            rows@.map_values(|e: PermissionEntry| e@) == atomic_flags(),
            list@.len() == i,
            forall|k: int|
                0 <= k < i ==> (#[trigger] list@[k]).name@ == atomic_flags()[k].name
                    && list@[k].description@ == atomic_flags()[k].description,
        decreases rows.len() - i,
    {
        assert(rows@.map_values(|e: PermissionEntry| e@)[i as int] == rows@[i as int]@);
        list.push(
            PermissionResponse {
                name: rows[i].name.to_owned(),
                description: rows[i].description.to_owned(),
            },
        );
        i += 1;
    }
    assert(rows@.map_values(|e: PermissionEntry| e@).len() == rows@.len());
    list
}

} // verus!
