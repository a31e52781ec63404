//! Conversion of stored user rows, the JSON text under which a recipe's
//! steps are stored, and the checks that follow an update.
use vstd::prelude::*;
use crate::model::{User, UserInfo};
use crate::text::{decimal_i64, spec_decimal};

verus! {

/// Why a stored record could not be changed.
#[derive(Clone, Copy, Debug, PartialEq, Eq, Structural)]
pub enum StorageError {
    /// No user has this id.
    UserNotFound { user_id: i64 },
    /// No recipe of the user has this id.
    RecipeNotFound { id: i64 },
    /// No planned meal of the user has this id.
    MealEntryNotFound { id: i64 },
}

impl StorageError {
    /// The text the error is reported with.
    pub open spec fn spec_message(self) -> Seq<char> {
        match self {
            StorageError::UserNotFound { user_id } => "User with ID "@ + spec_decimal(user_id as int)
                + " not found"@,
            StorageError::RecipeNotFound { id } => "Recipe with ID "@ + spec_decimal(id as int) + " not found"@,
            StorageError::MealEntryNotFound { id } => "Meal entry with ID "@ + spec_decimal(id as int)
                + " not found"@,
        }
    }

    /// Returns the text the error is reported with, such as
    /// `"Recipe with ID 7 not found"`.
    pub fn message(&self) -> (r: String)
        ensures
            r@ == self.spec_message(),
    {
        let (mut s, id) = match self {
            StorageError::UserNotFound { user_id } => (String::from_str("User with ID "), *user_id),
            StorageError::RecipeNotFound { id } => (String::from_str("Recipe with ID "), *id),
            StorageError::MealEntryNotFound { id } => (String::from_str("Meal entry with ID "), *id),
        };
        s.append(decimal_i64(id).as_str());
        s.append(" not found");
        s
    }
}

/// A stored user row as the database returns it; the admin flag is stored
/// as an integer.
#[derive(Clone, Debug)]
pub struct UserRow {
    pub id: Option<i64>,
    pub username: String,
    pub password_hash: String,
    pub is_admin: i64,
}

/// Reads a stored user: a missing id reads as 0, and any non-zero flag as
/// "administrator".
pub fn user_from_row(row: UserRow) -> (r: User)
    ensures
        r.id == match row.id {
            Some(id) => id,
            None => 0,
        },
        r.username == row.username,
        r.password_hash == row.password_hash,
        r.is_admin == (row.is_admin != 0),
{
    let id = match row.id {
        Some(id) => id,
        None => 0,
    };
    User { id, username: row.username, password_hash: row.password_hash, is_admin: row.is_admin != 0 }
}

/// A stored user row without the password hash.
#[derive(Clone, Debug)]
pub struct UserInfoRow {
    pub id: i64,
    pub username: String,
    pub is_admin: i64,
    pub created_at: String,
}

/// Reads a stored user as a public record.
pub fn user_info_from_row(row: UserInfoRow) -> (r: UserInfo)
    ensures
        r.id == row.id,
        r.username == row.username,
        r.is_admin == (row.is_admin != 0),
        r.created_at == row.created_at,
{
    UserInfo { id: row.id, username: row.username, is_admin: row.is_admin != 0, created_at: row.created_at }
}

/// Reads the number of stored users as "are there any".
pub fn users_exist(count: i64) -> (r: bool)
    ensures
        r == (count > 0),
{
    count > 0
}

/// Checks a password update: it must have changed a row.
pub fn check_password_updated(rows_affected: u64, user_id: i64) -> (r: Result<(), StorageError>)
    ensures
        r is Ok <==> rows_affected != 0,
        r is Err ==> r == Err::<(), StorageError>(StorageError::UserNotFound { user_id }),
{
    if rows_affected == 0 {
        Err(StorageError::UserNotFound { user_id })
    } else {
        Ok(())
    }
}

/// Checks a recipe update: it must have changed a row.
pub fn check_recipe_saved(rows_affected: u64, id: i64) -> (r: Result<(), StorageError>)
    ensures
        r is Ok <==> rows_affected != 0,
        r is Err ==> r == Err::<(), StorageError>(StorageError::RecipeNotFound { id }),
{
    if rows_affected == 0 {
        Err(StorageError::RecipeNotFound { id })
    } else {
        Ok(())
    }
}

/// Checks the deletion of a planned meal, for an answer that reports an
/// entry that did not exist: it must have removed a row. (Deleting is
/// idempotent in storage; only the answer differs.)
pub fn check_meal_entry_deleted(rows_affected: u64, id: i64) -> (r: Result<(), StorageError>)
    ensures
        r is Ok <==> rows_affected != 0,
        r is Err ==> r == Err::<(), StorageError>(StorageError::MealEntryNotFound { id }),
{
    if rows_affected == 0 {
        Err(StorageError::MealEntryNotFound { id })
    } else {
        Ok(())
    }
}

/// The four lower-case hexadecimal digits of a code point below 0x20, as
/// serde_json writes them after `\u`.
pub open spec fn spec_hex4(c: char) -> Seq<char> {
    let n = c as int;
    seq!['0', '0', if n < 16 { '0' } else { '1' }, "0123456789abcdef"@[n % 16]]
}

/// How serde_json writes one character inside a JSON string: `"` and `\`
/// and the control characters below 0x20 are escaped (with the short forms
/// `\b`, `\t`, `\n`, `\f`, `\r` where JSON has one), everything else is
/// written as it is.
pub open spec fn spec_json_escape(c: char) -> Seq<char> {
    if c == '"' {
        seq!['\\', '"']
    } else if c == '\\' {
        seq!['\\', '\\']
    } else if c == '\u{8}' {
        seq!['\\', 'b']
    } else if c == '\t' {
        seq!['\\', 't']
    } else if c == '\n' {
        seq!['\\', 'n']
    } else if c == '\u{c}' {
        seq!['\\', 'f']
    } else if c == '\r' {
        seq!['\\', 'r']
    } else if (c as int) < 0x20 {
        seq!['\\', 'u'] + spec_hex4(c)
    } else {
        seq![c]
    }
}

/// The escaped characters of a text, in order.
pub open spec fn spec_json_escaped(s: Seq<char>) -> Seq<char>
    decreases s.len(),
{
    if s.len() == 0 {
        Seq::empty()
    } else {
        spec_json_escape(s[0]) + spec_json_escaped(s.drop_first())
    }
}

/// A text as a JSON string: escaped and in double quotes.
pub open spec fn spec_json_string(s: Seq<char>) -> Seq<char> {
    seq!['"'] + spec_json_escaped(s) + seq!['"']
}

/// The JSON strings of a list of texts, separated by commas.
pub open spec fn spec_json_items(l: Seq<Seq<char>>) -> Seq<char>
    decreases l.len(),
{
    if l.len() == 0 {
        Seq::empty()
    } else if l.len() == 1 {
        spec_json_string(l[0])
    } else {
        spec_json_string(l[0]) + seq![','] + spec_json_items(l.drop_first())
    }
}

/// A list of texts as compact JSON, as `serde_json::to_string` writes a
/// `Vec<String>`: `[`, the strings separated by commas, `]`.
pub open spec fn spec_json_string_list(l: Seq<Seq<char>>) -> Seq<char> {
    seq!['['] + spec_json_items(l) + seq![']']
}

/// What serde_json's parser (`serde_json::from_str::<Vec<String>>`) yields
/// for a text: the list of texts, or `None` where the text is not a JSON
/// array of strings.
pub uninterp spec fn spec_parse_string_list(json: Seq<char>) -> Option<Seq<Seq<char>>>;

/// The texts of a list of strings.
pub open spec fn spec_texts(l: Seq<String>) -> Seq<Seq<char>> {
    l.map_values(|s: String| s@)
}

/// Writes a list of texts as JSON with serde_json.
///
/// Trusted: calls `serde_json::to_string`. Its source writes a `Vec<String>`
/// as `[`, the strings separated by `,`, `]`, each string in quotes with the
/// escapes of `spec_json_escape`; writing strings into memory cannot fail.
/// The contract also states that serde_json's parser reads the text back as
/// the same list, as every JSON string decodes to the text it escapes.
#[verifier::external_body]
fn json_write_string_list(list: &Vec<String>) -> (r: Result<String, String>)
    ensures
        r is Ok,
        r matches Ok(s) ==> s@ == spec_json_string_list(spec_texts(list@)),
        r matches Ok(s) ==> spec_parse_string_list(s@) == Some(spec_texts(list@)),
{
    serde_json::to_string(list).map_err(|e| format!("Failed to serialize instructions: {e}"))
}

/// Reads a JSON list of texts with serde_json.
///
/// Trusted: calls `serde_json::from_str::<Vec<String>>`; the result is named
/// by `spec_parse_string_list`. The error text is not stated.
#[verifier::external_body]
fn json_read_string_list(json: &str) -> (r: Result<Vec<String>, String>)
    ensures
        r is Ok <==> spec_parse_string_list(json@) is Some,
        r matches Ok(v) ==> spec_parse_string_list(json@) == Some(spec_texts(v@)),
{
    serde_json::from_str::<Vec<String>>(json).map_err(|e| format!("Failed to parse instructions: {e}"))
}

/// The JSON text under which a recipe's steps are stored. Reading it back
/// with `decode_instructions` gives the same steps.
pub fn encode_instructions(steps: &Vec<String>) -> (r: String)
    ensures
        r@ == spec_json_string_list(spec_texts(steps@)),
        spec_parse_string_list(r@) == Some(spec_texts(steps@)),
{
    match json_write_string_list(steps) {
        Ok(s) => s,
        Err(_) => String::new(),
    }
}

/// Reads a recipe's stored steps: the list that the JSON text holds, or an
/// error where it holds no list of texts.
pub fn decode_instructions(json: &str) -> (r: Result<Vec<String>, String>)
    ensures
        r is Ok <==> spec_parse_string_list(json@) is Some,
        r matches Ok(v) ==> spec_parse_string_list(json@) == Some(spec_texts(v@)),
{
    json_read_string_list(json)
}

} // verus!
