//! The application's data model: meal slots, calendar dates, planned and
//! cooked meals, users and the forms that carry user input.
use vstd::prelude::*;

verus! {

/// One of the three meals of a day.
#[derive(Clone, Copy, Debug, PartialEq, Eq, Structural)]
pub enum MealSlot {
    Breakfast,
    Lunch,
    Dinner,
}

impl MealSlot {
    /// The lower-case name under which a slot is stored and serialized.
    pub open spec fn spec_name(self) -> Seq<char> {
        match self {
            MealSlot::Breakfast => "breakfast"@,
            MealSlot::Lunch => "lunch"@,
            MealSlot::Dinner => "dinner"@,
        }
    }

    /// Returns the slot's lower-case name (`"breakfast"`, `"lunch"` or `"dinner"`).
    pub fn as_str(&self) -> (r: &'static str)
        ensures
            r@ == self.spec_name(),
    {
        match self {
            MealSlot::Breakfast => "breakfast",
            MealSlot::Lunch => "lunch",
            MealSlot::Dinner => "dinner",
        }
    }

    /// Returns the slot's lower-case name as an owned string, as its
    /// `Display` rendering does.
    pub fn name(&self) -> (r: String)
        ensures
            r@ == self.spec_name(),
    {
        String::from_str(self.as_str())
    }
}

/// The first year that a calendar date may carry.
pub const MIN_YEAR: i32 = -262143;

/// The last year that a calendar date may carry.
pub const MAX_YEAR: i32 = 262142;

/// Whether `year` is a leap year of the proleptic Gregorian calendar.
pub open spec fn spec_is_leap_year(year: int) -> bool {
    year % 4 == 0 && (year % 100 != 0 || year % 400 == 0)
}

/// The number of days of `month` (1 to 12) in `year`.
pub open spec fn spec_days_in_month(year: int, month: int) -> int {
    if month == 2 {
        if spec_is_leap_year(year) {
            29
        } else {
            28
        }
    } else if month == 4 || month == 6 || month == 9 || month == 11 {
        30
    } else {
        31
    }
}

/// Whether `(year, month, day)` names a day of the proleptic Gregorian
/// calendar within the supported range of years.
pub open spec fn spec_valid_ymd(year: int, month: int, day: int) -> bool {
    &&& MIN_YEAR <= year <= MAX_YEAR
    &&& 1 <= month <= 12
    &&& 1 <= day <= spec_days_in_month(year, month)
}

/// Asks chrono whether a calendar date exists.
///
/// Trusted: `chrono::NaiveDate::from_ymd_opt` returns `Some` exactly for the
/// days of the proleptic Gregorian calendar whose year lies in
/// `MIN_YEAR..=MAX_YEAR` (its source checks the year range, the month and the
/// day of month with the leap-year rule).
#[verifier::external_body]
fn chrono_date_exists(year: i32, month: u32, day: u32) -> (r: bool)
    ensures
        r == spec_valid_ymd(year as int, month as int, day as int),
{
    chrono::NaiveDate::from_ymd_opt(year, month, day).is_some()
}

/// A calendar day, held as year, month (1 to 12) and day of month.
#[derive(Clone, Copy, Debug, PartialEq, Eq, Structural)]
pub struct CalendarDate {
    pub year: i32,
    pub month: u32,
    pub day: u32,
}

impl CalendarDate {
    /// Whether the date names a real day within the supported years.
    pub open spec fn is_valid(self) -> bool {
        spec_valid_ymd(self.year as int, self.month as int, self.day as int)
    }

    /// Chronological order: by year, then month, then day.
    pub open spec fn spec_le(self, other: CalendarDate) -> bool {
        ||| self.year < other.year
        ||| self.year == other.year && self.month < other.month
        ||| self.year == other.year && self.month == other.month && self.day <= other.day
    }

    /// Makes the date `year-month-day`, or `None` where no such day exists.
    pub fn from_ymd(year: i32, month: u32, day: u32) -> (r: Option<CalendarDate>)
        ensures
            r is Some <==> spec_valid_ymd(year as int, month as int, day as int),
            r matches Some(d) ==> d.year == year && d.month == month && d.day == day,
    {
        if chrono_date_exists(year, month, day) {
            Some(CalendarDate { year, month, day })
        } else {
            None
        }
    }

    /// Returns whether `self` falls on or before `other`.
    pub fn le(&self, other: &CalendarDate) -> (r: bool)
        ensures
            r == self.spec_le(*other),
    {
        if self.year != other.year {
            self.year < other.year
        } else if self.month != other.month {
            self.month < other.month
        } else {
            self.day <= other.day
        }
    }
}

/// A planned meal: a recipe assigned to a date and slot, with a portion
/// multiplier for the shopping list.
#[derive(Clone, Copy, Debug, PartialEq, Eq, Structural)]
pub struct MealEntry {
    /// The stored entry's key; `None` for an entry not yet stored.
    pub id: Option<i64>,
    pub date: CalendarDate,
    pub slot: MealSlot,
    pub recipe_id: i64,
    /// How many times the recipe's ingredient quantities are counted.
    pub portions: i64,
}

/// The portion count of a planned meal whose request names none.
pub fn default_one() -> (r: i64)
    ensures
        r == 1,
{
    1
}

/// A record that a recipe was cooked on a given date.
#[derive(Clone, Copy, Debug, PartialEq, Eq, Structural)]
pub struct CookedEntry {
    pub date: CalendarDate,
    pub recipe_id: i64,
}

/// A registered user, with the stored password hash.
#[derive(Clone, Debug)]
pub struct User {
    pub id: i64,
    pub username: String,
    pub password_hash: String,
    pub is_admin: bool,
}

/// A user record that is safe to send to a client: it has no password hash.
#[derive(Clone, Debug)]
pub struct UserInfo {
    pub id: i64,
    pub username: String,
    pub is_admin: bool,
    pub created_at: String,
}

/// The credentials submitted on the login page.
#[derive(Debug)]
pub struct LoginForm {
    pub username: String,
    pub password: String,
}

/// An administrator's request to create a user account.
#[derive(Debug)]
pub struct CreateUserForm {
    pub username: String,
    pub password: String,
}

/// An administrator's request to set another user's password.
#[derive(Debug)]
pub struct ChangePasswordForm {
    pub target_user_id: i64,
    pub new_password: String,
}

/// A user's request to change their own password.
#[derive(Debug)]
pub struct SelfChangePasswordForm {
    pub current_password: String,
    pub new_password: String,
}

} // verus!
