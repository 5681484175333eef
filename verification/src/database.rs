//! The records of the local database. The database itself is not there yet:
//! nothing is kept, and nothing is found.

use vstd::prelude::*;

verus! {

/// How the local database is set up.
#[derive(Debug)]
pub struct DatabaseConfig {
    pub path: String,
    pub auto_backup: bool,
    pub backup_interval_hours: u32,
}

/// A user of the application, as the database keeps them.
#[derive(Debug)]
pub struct UserData {
    pub id: String,
    pub email: String,
    pub name: Option<String>,
    pub google_tokens: Option<String>,
    pub created_at: String,
    pub updated_at: String,
}

/// Looks a user up. As long as nothing is kept, no user is found.
pub fn get_user_data(_user_id: String) -> (found: Option<UserData>)
    ensures
        found is None,
{
    None
}

/// Keeps a user, and says so to the frontend.
pub fn save_user_data(_user_data: UserData) -> (message: &'static str)
    ensures
        message@ == "User data saved successfully"@,
{
    "User data saved successfully"
}

} // verus!
