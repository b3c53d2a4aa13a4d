//! A user as the directory stores it.

use vstd::prelude::*;

verus! {

/// One row of the user table. The two times are texts as the directory
/// writes them.
#[derive(Debug)]
pub struct Model {
    pub id: i64,
    pub uuid: String,
    pub user_name: String,
    /// The hash of the password, never the password.
    pub pass_word: String,
    pub email: Option<String>,
    pub phone: Option<String>,
    pub role: Option<String>,
    /// The permission mask as decimal text.
    pub permissions: Option<String>,
    pub image: Option<String>,
    /// The secret of the second factor, once it is bound.
    pub binding: Option<String>,
    pub created_at: String,
    pub updated_at: String,
}

} // verus!
