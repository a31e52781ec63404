//! Request parameters and the decisions of the login flow.
//!
//! Logging in alternates between lookups (the user record, the password
//! check, the session write) and decisions; `login_next` makes the decisions.
//! Every refusal leads to the same place, so a client cannot tell an unknown
//! user name from a wrong password.
use vstd::prelude::*;
use crate::model::{CalendarDate, User};

verus! {

/// Query parameters of the endpoints that take a date range.
#[derive(Clone, Copy, Debug)]
pub struct DateRangeParams {
    /// The first day of the range (inclusive).
    pub start: CalendarDate,
    /// The last day of the range (inclusive).
    pub end: CalendarDate,
}

/// Query parameters for deleting a planned meal.
#[derive(Clone, Copy, Debug)]
pub struct DeleteMealParams {
    /// The key of the planned meal to delete.
    pub id: i64,
}

/// Why a login was refused.
#[derive(Clone, Debug)]
pub enum LoginFailure {
    /// No user has the submitted name.
    UnknownUser,
    /// The user lookup failed; the text says why.
    LookupFailed(String),
    /// The password does not match.
    WrongPassword,
    /// The stored hash could not be read; the text says why.
    VerificationFailed(String),
}

/// What the login flow has learned.
#[derive(Debug)]
pub enum LoginEvent {
    /// The user record for the submitted name was looked up.
    UserLookedUp(Result<Option<User>, String>),
    /// The submitted password was checked against `user`'s hash.
    PasswordChecked { user: User, outcome: Result<bool, String> },
    /// The user id and admin flag were written to the session, or not.
    SessionStored { stored: bool },
}

/// What the login flow does next.
#[derive(Clone, Debug)]
pub enum LoginAction {
    /// Check the submitted password against this user's hash.
    CheckPassword(User),
    /// Write the user id and admin flag to the session.
    StoreSession { user_id: i64, is_admin: bool },
    /// Logged in: redirect to the home page.
    RedirectHome,
    /// Refused: redirect back to the login page with the error flag.
    Refuse(LoginFailure),
    /// The session could not be written: answer `500`.
    SessionError,
}

/// The next action of the login flow after `event`.
pub open spec fn spec_login_next(event: LoginEvent) -> LoginAction {
    match event {
        LoginEvent::UserLookedUp(Ok(Some(user))) => LoginAction::CheckPassword(user),
        LoginEvent::UserLookedUp(Ok(None)) => LoginAction::Refuse(LoginFailure::UnknownUser),
        LoginEvent::UserLookedUp(Err(e)) => LoginAction::Refuse(LoginFailure::LookupFailed(e)),
        LoginEvent::PasswordChecked { user, outcome: Ok(true) } => LoginAction::StoreSession {
            user_id: user.id,
            is_admin: user.is_admin,
        },
        LoginEvent::PasswordChecked { outcome: Ok(false), .. } => LoginAction::Refuse(
            LoginFailure::WrongPassword,
        ),
        LoginEvent::PasswordChecked { outcome: Err(e), .. } => LoginAction::Refuse(
            LoginFailure::VerificationFailed(e),
        ),
        LoginEvent::SessionStored { stored } => if stored {
            LoginAction::RedirectHome
        } else {
            LoginAction::SessionError
        },
    }
}

/// Decides the next step of the login flow.
pub fn login_next(event: LoginEvent) -> (r: LoginAction)
    ensures
        r == spec_login_next(event),
{
    match event {
        LoginEvent::UserLookedUp(Ok(Some(user))) => LoginAction::CheckPassword(user),
        LoginEvent::UserLookedUp(Ok(None)) => LoginAction::Refuse(LoginFailure::UnknownUser),
        LoginEvent::UserLookedUp(Err(e)) => LoginAction::Refuse(LoginFailure::LookupFailed(e)),
        LoginEvent::PasswordChecked { user, outcome } => match outcome {
            Ok(true) => LoginAction::StoreSession { user_id: user.id, is_admin: user.is_admin },
            Ok(false) => LoginAction::Refuse(LoginFailure::WrongPassword),
            Err(e) => LoginAction::Refuse(LoginFailure::VerificationFailed(e)),
        },
        LoginEvent::SessionStored { stored } => if stored {
            LoginAction::RedirectHome
        } else {
            LoginAction::SessionError
        },
    }
}

/// Where a finished login sends the client: home after success, back to the
/// login page with the error flag after any refusal.
pub open spec fn spec_login_location(action: LoginAction) -> Option<Seq<char>> {
    match action {
        LoginAction::RedirectHome => Some("/"@),
        LoginAction::Refuse(_) => Some("/login?error=1"@),
        _ => None,
    }
}

impl LoginAction {
    /// Returns the redirect target of a finished login, `None` for actions
    /// that do not redirect.
    pub fn location(&self) -> (r: Option<&'static str>)
        ensures
            match (r, spec_login_location(*self)) {
                (Some(l), Some(s)) => l@ == s,
                (None, None) => true,
                _ => false,
            },
    {
        match self {
            LoginAction::RedirectHome => Some("/"),
            LoginAction::Refuse(_) => Some("/login?error=1"),
            _ => None,
        }
    }
}

/// An unknown user name and a wrong password are answered alike, so the
/// answer does not reveal which user names exist.
pub proof fn lemma_refusals_look_alike(user: User, wrong: Result<bool, String>)
    requires
        wrong == Ok::<bool, String>(false),
    ensures
        spec_login_location(spec_login_next(LoginEvent::UserLookedUp(Ok(None)))) == spec_login_location(
            spec_login_next(LoginEvent::PasswordChecked { user, outcome: wrong }),
        ),
{
}

/// What the login page does for a visitor.
#[derive(Clone, Copy, Debug, PartialEq, Eq, Structural)]
pub enum LoginPageAction {
    /// Already logged in: redirect to the home page.
    RedirectHome,
    /// Show the login form.
    ShowLoginPage,
}

/// Decides the login page from the user id read from the session (`None`
/// also when the read fails).
pub fn login_page_action(session_user_id: Option<i64>) -> (r: LoginPageAction)
    ensures
        r == LoginPageAction::RedirectHome <==> session_user_id is Some,
{
    match session_user_id {
        Some(_) => LoginPageAction::RedirectHome,
        None => LoginPageAction::ShowLoginPage,
    }
}

} // verus!
