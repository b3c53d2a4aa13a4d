//! The bodies of the requests that create, register, log in and update a
//! user, and the rules that each must meet.

use vstd::prelude::*;
use vstd::string::StrSliceExecFns;

verus! {

/// A rule that a field of a request breaks.
#[derive(Debug, Clone, Copy)]
pub struct FieldFault {
    /// The name of the field.
    pub field: &'static str,
    /// What a client is told.
    pub message: &'static str,
}

/// A broken rule with its texts as characters.
pub struct FaultView {
    pub field: Seq<char>,
    pub message: Seq<char>,
}

impl View for FieldFault {
    type V = FaultView;

    open spec fn view(&self) -> FaultView {
        FaultView { field: self.field@, message: self.message@ }
    }
}

/// The broken rules of a list by their views.
pub open spec fn faults_view(faults: Seq<FieldFault>) -> Seq<FaultView> {
    faults.map_values(|f: FieldFault| f@)
}

/// Whether `text` has at least `min` and at most `max` characters.
pub open spec fn length_within(text: Seq<char>, min: int, max: int) -> bool {
    min <= text.len() <= max
}

/// Whether `text` has at least `min` and at most `max` characters.
pub fn has_length_within(text: &str, min: usize, max: usize) -> (within: bool)
    ensures
        within == length_within(text@, min as int, max as int),
{
    let n = text.unicode_len();
    min <= n && n <= max
}

/// Whether `validator::ValidateEmail::validate_email` takes `text` for an
/// e-mail address.
pub uninterp spec fn is_email(text: Seq<char>) -> bool;

/// Calls `validate_email` of `validator::ValidateEmail` on a string slice.
/// The answer depends on the text alone; the contract gives it a name and
/// claims nothing else of it.
#[verifier::external_body]
fn looks_like_email(text: &str) -> (valid: bool)
    ensures
        valid == is_email(text@),
{
    validator::ValidateEmail::validate_email(&text)
}

/// The fault of a user name outside five to a hundred characters.
pub open spec fn user_name_fault() -> FaultView {
    FaultView { field: "user_name"@, message: "用户名长度必须在5到100之间"@ }
}

/// The fault of a password outside six to a hundred characters.
pub open spec fn pass_word_fault() -> FaultView {
    FaultView { field: "pass_word"@, message: "密码长度必须在6到100之间"@ }
}

/// The fault of an empty e-mail address.
pub open spec fn email_missing_fault() -> FaultView {
    FaultView { field: "email"@, message: "电子邮件是必需的"@ }
}

/// The fault of a text that is no e-mail address.
pub open spec fn email_invalid_fault() -> FaultView {
    FaultView { field: "email"@, message: "电子邮件无效"@ }
}

/// `fault` where `broken` holds, and nothing where it does not.
pub open spec fn fault_if(broken: bool, fault: FaultView) -> Seq<FaultView> {
    if broken {
        seq![fault]
    } else {
        Seq::empty()
    }
}

/// The rules that a name and a password break, the name first: the name has
/// `name_min` to a hundred characters, the password six to a hundred.
pub open spec fn credential_faults(user_name: Seq<char>, pass_word: Seq<char>, name_min: int)
    -> Seq<FaultView> {
    fault_if(!length_within(user_name, name_min, 100), user_name_fault()) + fault_if(
        !length_within(pass_word, 6, 100),
        pass_word_fault(),
    )
}

/// The rules that an e-mail address breaks: it is not empty, and it is an
/// e-mail address.
pub open spec fn email_faults(email: Seq<char>) -> Seq<FaultView> {
    fault_if(!length_within(email, 1, usize::MAX as int), email_missing_fault()) + fault_if(
        !is_email(email),
        email_invalid_fault(),
    )
}

/// The outcome of a check, given the broken rules it found: `Ok` where
/// there is none.
pub open spec fn checked(outcome: Result<(), Vec<FieldFault>>, faults: Seq<FaultView>) -> bool {
    match outcome {
        Ok(()) => faults.len() == 0,
        Err(found) => faults.len() > 0 && faults_view(found@) == faults,
    }
}

fn finish(found: Vec<FieldFault>) -> (outcome: Result<(), Vec<FieldFault>>)
    ensures
        checked(outcome, faults_view(found@)),
{
    if found.len() == 0 {
        Ok(())
    } else {
        Err(found)
    }
}

fn check_credentials(user_name: &str, pass_word: &str, name_min: usize) -> (found: Vec<
    FieldFault,
>)
    ensures
        faults_view(found@) == credential_faults(user_name@, pass_word@, name_min as int),
{
    let mut found: Vec<FieldFault> = Vec::new();
    if !has_length_within(user_name, name_min, 100) {
        found.push(FieldFault { field: "user_name", message: "用户名长度必须在5到100之间" });
    }
    if !has_length_within(pass_word, 6, 100) {
        found.push(FieldFault { field: "pass_word", message: "密码长度必须在6到100之间" });
    }
    assert(faults_view(found@) =~= credential_faults(user_name@, pass_word@, name_min as int));
    found
}

/// The body of a request to log in.
#[derive(Debug, Default, Clone)]
pub struct LoginRequest {
    pub user_name: String,
    pub pass_word: String,
}

/// The body of a request to register.
#[derive(Debug, Default, Clone)]
pub struct RegisterResponse {
    pub user_name: String,
    pub pass_word: String,
}

/// The body of a request to create a user.
#[derive(Debug, Default, Clone)]
pub struct CreateUserRequest {
    pub user_name: String,
    pub email: String,
    pub pass_word: String,
    pub image: Option<String>,
    pub phone: Option<String>,
    pub role: Option<String>,
    pub permissions: Option<String>,
    pub binding: Option<String>,
}

/// The body of a request to update a user.
#[derive(Debug, Default, Clone)]
pub struct UpdateUserRequest {
    pub user_name: String,
    pub image: Option<String>,
    pub permissions: Option<Vec<String>>,
}

impl LoginRequest {
    /// Checks the name and the password.
    pub fn validate(&self) -> (outcome: Result<(), Vec<FieldFault>>)
        ensures
            checked(outcome, credential_faults(self.user_name@, self.pass_word@, 5)),
    {
        finish(check_credentials(self.user_name.as_str(), self.pass_word.as_str(), 5))
    }
}

impl RegisterResponse {
    /// Checks the name and the password.
    pub fn validate(&self) -> (outcome: Result<(), Vec<FieldFault>>)
        ensures
            checked(outcome, credential_faults(self.user_name@, self.pass_word@, 5)),
    {
        finish(check_credentials(self.user_name.as_str(), self.pass_word.as_str(), 5))
    }
}

impl UpdateUserRequest {
    /// Checks the name.
    pub fn validate(&self) -> (outcome: Result<(), Vec<FieldFault>>)
        ensures
            checked(
                outcome,
                fault_if(!length_within(self.user_name@, 5, 100), user_name_fault()),
            ),
    {
        let mut found: Vec<FieldFault> = Vec::new();
        if !has_length_within(self.user_name.as_str(), 5, 100) {
            found.push(FieldFault { field: "user_name", message: "用户名长度必须在5到100之间" });
        }
        assert(faults_view(found@) =~= fault_if(
            !length_within(self.user_name@, 5, 100),
            user_name_fault(),
        ));
        finish(found)
    }
}

/// The rules that a request to create a user breaks: those of its name,
/// which here has at least ten characters, then those of its e-mail
/// address, then that of its password.
pub open spec fn create_user_faults(user_name: Seq<char>, email: Seq<char>, pass_word: Seq<char>)
    -> Seq<FaultView> {
    fault_if(!length_within(user_name, 10, 100), user_name_fault()) + email_faults(email)
        + fault_if(!length_within(pass_word, 6, 100), pass_word_fault())
}

impl CreateUserRequest {
    /// Checks the name, the e-mail address and the password.
    pub fn validate(&self) -> (outcome: Result<(), Vec<FieldFault>>)
        ensures
            checked(outcome, create_user_faults(self.user_name@, self.email@, self.pass_word@)),
    {
        let mut found: Vec<FieldFault> = Vec::new();
        if !has_length_within(self.user_name.as_str(), 10, 100) {
            found.push(FieldFault { field: "user_name", message: "用户名长度必须在5到100之间" });
        }
        if !has_length_within(self.email.as_str(), 1, usize::MAX) {
            found.push(FieldFault { field: "email", message: "电子邮件是必需的" });
        }
        if !looks_like_email(self.email.as_str()) {
            found.push(FieldFault { field: "email", message: "电子邮件无效" });
        }
        if !has_length_within(self.pass_word.as_str(), 6, 100) {
            found.push(FieldFault { field: "pass_word", message: "密码长度必须在6到100之间" });
        }
        assert(faults_view(found@) =~= create_user_faults(
            self.user_name@,
            self.email@,
            self.pass_word@,
        ));
        finish(found)
    }
}

} // verus!
