//! Conversion of stored meal-plan and cooked-log rows into model values.
//!
//! Rows store dates as `YYYY-MM-DD` text and slots by name; this module turns
//! them back into `MealEntry` and `CookedEntry` values, failing on the first
//! row that holds an unreadable date or an unknown slot.
use vstd::prelude::*;
use chrono::Datelike;
use crate::model::{CalendarDate, CookedEntry, MealEntry, MealSlot};
use crate::text::{spec_digit, spec_nat_digits, spec_zero_padded};

verus! {

#[verifier::external_type_specification]
#[verifier::external_body]
pub struct ExParseError(chrono::ParseError);

/// Why a stored row could not be read back.
#[derive(Debug)]
pub enum CalendarStorageError {
    /// The stored date text is not a date; `cause` is chrono's parse error.
    InvalidDate { text: String, cause: chrono::ParseError },
    /// The stored slot name is none of the three slots.
    UnknownSlot { text: String },
}

/// Renders chrono's parse error.
///
/// Trusted: calls its `Display` (`to_string`); nothing is stated of the text.
#[verifier::external_body]
fn parse_error_text(e: &chrono::ParseError) -> (r: String) {
    e.to_string()
}

/// The text an unreadable date is reported with, before chrono's own
/// description of the fault.
pub open spec fn spec_invalid_date_prefix(text: Seq<char>) -> Seq<char> {
    "Failed to parse date '"@ + text + "': "@
}

impl CalendarStorageError {
    /// Returns the text the error is reported with: `Unknown meal slot: '...'`
    /// with the stored slot text, or `Failed to parse date '...': ` with the
    /// stored date text followed by chrono's description of the fault.
    pub fn message(&self) -> (r: String)
        ensures
            self matches CalendarStorageError::UnknownSlot { text } ==> r@ == "Unknown meal slot: '"@ + text@
                + "'"@,
            self matches CalendarStorageError::InvalidDate { text, .. } ==> r@.len() >= spec_invalid_date_prefix(
                text@,
            ).len() && r@.take(spec_invalid_date_prefix(text@).len() as int) == spec_invalid_date_prefix(
                text@,
            ),
    {
        match self {
            CalendarStorageError::InvalidDate { text, cause } => {
                let mut s = String::from_str("Failed to parse date '");
                s.append(text.as_str());
                s.append("': ");
                let ghost prefix = s@;
                s.append(parse_error_text(cause).as_str());
                assert(s@.take(prefix.len() as int) =~= prefix);
                s
            },
            CalendarStorageError::UnknownSlot { text } => {
                let mut s = String::from_str("Unknown meal slot: '");
                s.append(text.as_str());
                s.append("'");
                s
            },
        }
    }
}

/// A stored meal-plan row as the database returns it.
#[derive(Clone, Debug)]
pub struct MealRow {
    pub id: i64,
    pub date: String,
    pub slot: String,
    pub recipe_id: i64,
    pub portions: i64,
}

/// A stored cooked-log row as the database returns it.
#[derive(Clone, Debug)]
pub struct CookedRow {
    pub date: String,
    pub recipe_id: i64,
}

/// What chrono's `NaiveDate` parser (`str::parse::<NaiveDate>`, format
/// `%Y-%m-%d` with optional spaces) yields for a text: the year, month and
/// day of the date, or `None` where the text is not a date.
pub uninterp spec fn spec_parse_date(s: Seq<char>) -> Option<(int, int, int)>;

/// Parses a `YYYY-MM-DD` date with chrono.
///
/// Trusted: the result is named by `spec_parse_date`; chrono's parser is not
/// restated. The contract adds only that a parsed date is a real day, which
/// every `NaiveDate` value is.
#[verifier::external_body]
fn parse_date_text(s: &str) -> (r: Result<CalendarDate, chrono::ParseError>)
    ensures
        r is Ok <==> spec_parse_date(s@) is Some,
        r matches Ok(d) ==> spec_parse_date(s@) == Some(
            (d.year as int, d.month as int, d.day as int),
        ) && d.is_valid(),
{
    match s.parse::<chrono::NaiveDate>() {
        Ok(d) => Ok(CalendarDate { year: d.year(), month: d.month(), day: d.day() }),
        Err(e) => Err(e),
    }
}

/// How chrono renders a year in a date: four digits with leading zeros for
/// years 0 to 9999, otherwise an explicit sign (`+` or `-`) before at least
/// four digits.
pub open spec fn spec_year_text(y: int) -> Seq<char> {
    if 0 <= y <= 9999 {
        spec_zero_padded(y as nat, 4)
    } else if y > 9999 {
        seq!['+'] + spec_zero_padded(y as nat, 4)
    } else {
        seq!['-'] + spec_zero_padded((-y) as nat, 4)
    }
}

/// The text under which a date is stored, as chrono's `NaiveDate` displays
/// it (`%Y-%m-%d`): the year, then month and day as two digits each.
pub open spec fn spec_date_text(d: CalendarDate) -> Seq<char> {
    spec_year_text(d.year as int) + seq!['-'] + spec_zero_padded(d.month as nat, 2) + seq!['-']
        + spec_zero_padded(d.day as nat, 2)
}

/// Renders a date with chrono.
///
/// Trusted: makes the date with `NaiveDate::from_ymd_opt` (which succeeds on
/// a valid date) and renders it with `to_string`. chrono documents its
/// `Display` as `%Y-%m-%d`, with an explicit sign for years outside 0 to
/// 9999, and states that the text "can be readily parsed" by its `FromStr`,
/// which gives back the same date.
#[verifier::external_body]
fn chrono_date_text(d: CalendarDate) -> (r: String)
    requires
        d.is_valid(),
    ensures
        r@ == spec_date_text(d),
        spec_parse_date(r@) == Some((d.year as int, d.month as int, d.day as int)),
{
    match chrono::NaiveDate::from_ymd_opt(d.year, d.month, d.day) {
        Some(n) => n.to_string(),
        None => String::new(),
    }
}

/// Renders a date as the text it is stored under, `YYYY-MM-DD`; reading that
/// text back gives the same date.
pub fn date_text(d: CalendarDate) -> (r: String)
    requires
        d.is_valid(),
    ensures
        r@ == spec_date_text(d),
        spec_date_of(r@) == Some(d),
{
    chrono_date_text(d)
}

/// The slot whose stored name is `s`, if any.
pub open spec fn spec_parse_slot(s: Seq<char>) -> Option<MealSlot> {
    if s == "breakfast"@ {
        Some(MealSlot::Breakfast)
    } else if s == "lunch"@ {
        Some(MealSlot::Lunch)
    } else if s == "dinner"@ {
        Some(MealSlot::Dinner)
    } else {
        None
    }
}

/// Reads a stored slot name.
pub fn parse_slot(s: &str) -> (r: Result<MealSlot, CalendarStorageError>)
    ensures
        r matches Ok(slot) ==> spec_parse_slot(s@) == Some(slot),
        r is Err ==> spec_parse_slot(s@) is None,
        r matches Err(CalendarStorageError::UnknownSlot { text }) ==> text@ == s@,
        !(r matches Err(CalendarStorageError::InvalidDate { .. })),
{
    if crate::text::str_eq(s, "breakfast") {
        Ok(MealSlot::Breakfast)
    } else if crate::text::str_eq(s, "lunch") {
        Ok(MealSlot::Lunch)
    } else if crate::text::str_eq(s, "dinner") {
        Ok(MealSlot::Dinner)
    } else {
        Err(CalendarStorageError::UnknownSlot { text: String::from_str(s) })
    }
}

/// Reading a slot back from its stored name gives the slot itself.
pub proof fn lemma_parse_slot_name(slot: MealSlot)
    ensures
        spec_parse_slot(slot.spec_name()) == Some(slot),
{
    reveal_strlit("breakfast");
    reveal_strlit("lunch");
    reveal_strlit("dinner");
    match slot {
        MealSlot::Breakfast => {},
        MealSlot::Lunch => {
            assert("lunch"@[0] != "breakfast"@[0]);
        },
        MealSlot::Dinner => {
            assert("dinner"@[0] != "breakfast"@[0]);
            assert("dinner"@[0] != "lunch"@[0]);
        },
    }
}

/// The date a stored date text denotes, if it is one.
pub open spec fn spec_date_of(s: Seq<char>) -> Option<CalendarDate> {
    match spec_parse_date(s) {
        Some((y, m, d)) => Some(CalendarDate { year: y as i32, month: m as u32, day: d as u32 }),
        None => None,
    }
}

/// The entry a stored meal-plan row denotes, if its date and slot are readable.
pub open spec fn spec_meal_entry_of(row: MealRow) -> Option<MealEntry> {
    match (spec_date_of(row.date@), spec_parse_slot(row.slot@)) {
        (Some(date), Some(slot)) => Some(
            MealEntry { id: Some(row.id), date, slot, recipe_id: row.recipe_id, portions: row.portions },
        ),
        _ => None,
    }
}

/// `e` is the error that reading `row` reports: an unreadable date is
/// reported before an unknown slot, each with the stored text.
pub open spec fn spec_meal_row_error(row: MealRow, e: CalendarStorageError) -> bool {
    match e {
        CalendarStorageError::InvalidDate { text, .. } => spec_parse_date(row.date@) is None
            && text@ == row.date@,
        CalendarStorageError::UnknownSlot { text } => spec_parse_date(row.date@) is Some
            && spec_parse_slot(row.slot@) is None && text@ == row.slot@,
    }
}

/// Reads one stored meal-plan row.
pub fn meal_entry_from_row(row: &MealRow) -> (r: Result<MealEntry, CalendarStorageError>)
    ensures
        r is Ok <==> spec_meal_entry_of(*row) is Some,
        r matches Ok(e) ==> spec_meal_entry_of(*row) == Some(e),
        r matches Err(e) ==> spec_meal_row_error(*row, e),
{
    let date = match parse_date_text(row.date.as_str()) {
        Ok(d) => d,
        Err(cause) => {
            return Err(
                CalendarStorageError::InvalidDate { text: row.date.clone(), cause },
            );
        },
    };
    let slot = parse_slot(row.slot.as_str())?;
    Ok(MealEntry { id: Some(row.id), date, slot, recipe_id: row.recipe_id, portions: row.portions })
}

/// Reads stored meal-plan rows in order, stopping at the first unreadable row.
pub fn meal_entries_from_rows(rows: &Vec<MealRow>) -> (r: Result<Vec<MealEntry>, CalendarStorageError>)
    ensures
        r is Ok <==> forall|i: int| 0 <= i < rows@.len() ==> (#[trigger] spec_meal_entry_of(rows@[i])) is Some,
        r matches Ok(entries) ==> entries@.len() == rows@.len() && forall|i: int|
            0 <= i < rows@.len() ==> Some(#[trigger] entries@[i]) == spec_meal_entry_of(rows@[i]),
        r matches Err(e) ==> exists|k: int|
            0 <= k < rows@.len() && (forall|j: int| 0 <= j < k ==> (#[trigger] spec_meal_entry_of(rows@[j])) is Some)
                && spec_meal_entry_of(#[trigger] rows@[k]) is None && spec_meal_row_error(rows@[k], e),
{
    let mut entries: Vec<MealEntry> = Vec::new();
    let mut i: usize = 0;
    while i < rows.len()
        invariant
            i <= rows@.len(),
            entries@.len() == i,
            forall|j: int| 0 <= j < i ==> (#[trigger] spec_meal_entry_of(rows@[j])) is Some,
            forall|j: int| 0 <= j < i ==> Some(#[trigger] entries@[j]) == spec_meal_entry_of(rows@[j]),
        decreases rows@.len() - i,
    {
        match meal_entry_from_row(&rows[i]) {
            Ok(e) => {
                entries.push(e);
            },
            Err(e) => {
                assert(spec_meal_entry_of(rows@[i as int]) is None);
                return Err(e);
            },
        }
        i = i + 1;
    }
    Ok(entries)
}

/// The entry a stored cooked-log row denotes, if its date is readable.
pub open spec fn spec_cooked_entry_of(row: CookedRow) -> Option<CookedEntry> {
    match spec_date_of(row.date@) {
        Some(date) => Some(CookedEntry { date, recipe_id: row.recipe_id }),
        None => None,
    }
}

/// Reads one stored cooked-log row.
pub fn cooked_entry_from_row(row: &CookedRow) -> (r: Result<CookedEntry, CalendarStorageError>)
    ensures
        r is Ok <==> spec_cooked_entry_of(*row) is Some,
        r matches Ok(e) ==> spec_cooked_entry_of(*row) == Some(e),
        r matches Err(e) ==> (e matches CalendarStorageError::InvalidDate { text, .. } && text@ == row.date@),
{
    match parse_date_text(row.date.as_str()) {
        Ok(date) => Ok(CookedEntry { date, recipe_id: row.recipe_id }),
        Err(cause) => Err(CalendarStorageError::InvalidDate { text: row.date.clone(), cause }),
    }
}

/// Reads stored cooked-log rows in order, stopping at the first unreadable row.
pub fn cooked_entries_from_rows(rows: &Vec<CookedRow>) -> (r: Result<Vec<CookedEntry>, CalendarStorageError>)
    ensures
        r is Ok <==> forall|i: int| 0 <= i < rows@.len() ==> (#[trigger] spec_cooked_entry_of(rows@[i])) is Some,
        r matches Ok(entries) ==> entries@.len() == rows@.len() && forall|i: int|
            0 <= i < rows@.len() ==> Some(#[trigger] entries@[i]) == spec_cooked_entry_of(rows@[i]),
        r matches Err(e) ==> exists|k: int|
            0 <= k < rows@.len() && (forall|j: int| 0 <= j < k ==> (#[trigger] spec_cooked_entry_of(rows@[j])) is Some)
                && spec_cooked_entry_of(#[trigger] rows@[k]) is None
                && (e matches CalendarStorageError::InvalidDate { text, .. } && text@ == rows@[k].date@),
{
    let mut entries: Vec<CookedEntry> = Vec::new();
    let mut i: usize = 0;
    while i < rows.len()
        invariant
            i <= rows@.len(),
            entries@.len() == i,
            forall|j: int| 0 <= j < i ==> (#[trigger] spec_cooked_entry_of(rows@[j])) is Some,
            forall|j: int| 0 <= j < i ==> Some(#[trigger] entries@[j]) == spec_cooked_entry_of(rows@[j]),
        decreases rows@.len() - i,
    {
        match cooked_entry_from_row(&rows[i]) {
            Ok(e) => {
                entries.push(e);
            },
            Err(e) => {
                return Err(e);
            },
        }
        i = i + 1;
    }
    Ok(entries)
}

/// A stored row reads back as the entry that was written: when its date text
/// denotes the entry's date (as the text from `date_text` does) and its slot
/// text is the slot's name, the row gives the entry with the row's id; a
/// cooked-log row with such a date gives its cooked entry.
pub proof fn lemma_stored_rows_read_back(meal: MealRow, entry: MealEntry, cooked: CookedRow)
    requires
        spec_date_of(meal.date@) == Some(entry.date),
        meal.slot@ == entry.slot.spec_name(),
    ensures
        spec_meal_entry_of(meal) == Some(
            MealEntry {
                id: Some(meal.id),
                date: entry.date,
                slot: entry.slot,
                recipe_id: meal.recipe_id,
                portions: meal.portions,
            },
        ),
        spec_date_of(cooked.date@) == Some(entry.date) ==> spec_cooked_entry_of(cooked) == Some(
            CookedEntry { date: entry.date, recipe_id: cooked.recipe_id },
        ),
{
    lemma_parse_slot_name(entry.slot);
}

/// Whether `s` comes on or before `t` in the order in which the database's
/// default collation compares stored texts: character by character, a
/// prefix before any longer text.
pub open spec fn spec_text_le(s: Seq<char>, t: Seq<char>) -> bool
    decreases s.len(),
{
    if s.len() == 0 {
        true
    } else if t.len() == 0 {
        false
    } else if s[0] != t[0] {
        (s[0] as int) < (t[0] as int)
    } else {
        spec_text_le(s.drop_first(), t.drop_first())
    }
}

proof fn lemma_text_le_concat(x: Seq<char>, y: Seq<char>, x2: Seq<char>, y2: Seq<char>)
    requires
        x.len() == x2.len(),
    ensures
        spec_text_le(x + y, x2 + y2) == if x == x2 {
            spec_text_le(y, y2)
        } else {
            spec_text_le(x, x2)
        },
    decreases x.len(),
{
    if x.len() == 0 {
        assert(x + y =~= y);
        assert(x2 + y2 =~= y2);
        assert(x =~= x2);
    } else {
        assert((x + y)[0] == x[0]);
        assert((x2 + y2)[0] == x2[0]);
        assert((x + y).drop_first() =~= x.drop_first() + y);
        assert((x2 + y2).drop_first() =~= x2.drop_first() + y2);
        lemma_text_le_concat(x.drop_first(), y, x2.drop_first(), y2);
        if x[0] == x2[0] {
            if x.drop_first() == x2.drop_first() {
                assert forall|i: int| 0 <= i < x.len() implies x[i] == x2[i] by {
                    if i > 0 {
                        assert(x[i] == x.drop_first()[i - 1]);
                        assert(x2[i] == x2.drop_first()[i - 1]);
                    }
                }
                assert(x =~= x2);
            } else {
                assert(x != x2);
            }
        }
    }
}

proof fn lemma_digit_code(d: int)
    requires
        0 <= d < 10,
    ensures
        spec_digit(d) as int == 48 + d,
{
}

proof fn lemma_pad2(n: nat)
    requires
        n < 100,
    ensures
        spec_zero_padded(n, 2) == seq![spec_digit((n / 10) as int), spec_digit((n % 10) as int)],
{
    reveal_with_fuel(spec_nat_digits, 3);
    if n < 10 {
        assert(spec_zero_padded(n, 2) =~= seq![spec_digit(0), spec_digit(n as int)]);
    } else {
        assert(spec_nat_digits(n) =~= seq![spec_digit((n / 10) as int), spec_digit((n % 10) as int)]);
    }
}

proof fn lemma_pad4(n: nat)
    requires
        n < 10000,
    ensures
        spec_zero_padded(n, 4) == seq![
            spec_digit((n / 1000) as int),
            spec_digit(((n / 100) % 10) as int),
            spec_digit(((n / 10) % 10) as int),
            spec_digit((n % 10) as int),
        ],
{
    reveal_with_fuel(spec_nat_digits, 5);
    let z = spec_digit(0);
    if n < 10 {
        assert(spec_zero_padded(n, 4) =~= seq![z, z, z, spec_digit(n as int)]);
    } else if n < 100 {
        assert(spec_nat_digits(n / 10) =~= seq![spec_digit((n / 10) as int)]);
        assert(spec_zero_padded(n, 4) =~= seq![z, z, spec_digit((n / 10) as int), spec_digit((n % 10) as int)]);
    } else if n < 1000 {
        assert(spec_nat_digits(n / 100) =~= seq![spec_digit((n / 100) as int)]);
        assert(spec_nat_digits(n / 10) =~= seq![spec_digit((n / 100) as int), spec_digit(((n / 10) % 10) as int)]);
        assert((n / 10) / 10 == n / 100);
        assert(spec_zero_padded(n, 4) =~= seq![
            z,
            spec_digit((n / 100) as int),
            spec_digit(((n / 10) % 10) as int),
            spec_digit((n % 10) as int),
        ]);
    } else {
        assert((n / 10) / 10 == n / 100);
        assert((n / 100) / 10 == n / 1000);
        assert(spec_nat_digits(n / 1000) =~= seq![spec_digit((n / 1000) as int)]);
        assert(spec_nat_digits(n / 100) =~= seq![spec_digit((n / 1000) as int), spec_digit(((n / 100) % 10) as int)]);
        assert(spec_nat_digits(n / 10) =~= seq![
            spec_digit((n / 1000) as int),
            spec_digit(((n / 100) % 10) as int),
            spec_digit(((n / 10) % 10) as int),
        ]);
    }
}

proof fn lemma_pad_order(n: nat, m: nat, w: nat)
    requires
        w == 2 || w == 4,
        w == 2 ==> n < 100 && m < 100,
        w == 4 ==> n < 10000 && m < 10000,
    ensures
        spec_zero_padded(n, w).len() == w,
        spec_zero_padded(m, w).len() == w,
        spec_zero_padded(n, w) == spec_zero_padded(m, w) <==> n == m,
        spec_text_le(spec_zero_padded(n, w), spec_zero_padded(m, w)) <==> n <= m,
{
    reveal_with_fuel(spec_text_le, 5);
    if w == 2 {
        lemma_pad2(n);
        lemma_pad2(m);
        lemma_digit_code((n / 10) as int);
        lemma_digit_code((n % 10) as int);
        lemma_digit_code((m / 10) as int);
        lemma_digit_code((m % 10) as int);
        let a = spec_zero_padded(n, w);
        let b = spec_zero_padded(m, w);
        assert(a.drop_first() =~= seq![spec_digit((n % 10) as int)]);
        assert(b.drop_first() =~= seq![spec_digit((m % 10) as int)]);
        if a == b {
            assert(a[0] == b[0] && a[1] == b[1]);
        }
    } else {
        lemma_pad4(n);
        lemma_pad4(m);
        lemma_digit_code((n / 1000) as int);
        lemma_digit_code(((n / 100) % 10) as int);
        lemma_digit_code(((n / 10) % 10) as int);
        lemma_digit_code((n % 10) as int);
        lemma_digit_code((m / 1000) as int);
        lemma_digit_code(((m / 100) % 10) as int);
        lemma_digit_code(((m / 10) % 10) as int);
        lemma_digit_code((m % 10) as int);
        let a = spec_zero_padded(n, w);
        let b = spec_zero_padded(m, w);
        assert(a.drop_first().drop_first().drop_first() =~= seq![spec_digit((n % 10) as int)]);
        assert(b.drop_first().drop_first().drop_first() =~= seq![spec_digit((m % 10) as int)]);
        assert(a.drop_first().drop_first() =~= seq![spec_digit(((n / 10) % 10) as int), spec_digit((n % 10) as int)]);
        assert(b.drop_first().drop_first() =~= seq![spec_digit(((m / 10) % 10) as int), spec_digit((m % 10) as int)]);
        assert(a.drop_first() =~= seq![
            spec_digit(((n / 100) % 10) as int),
            spec_digit(((n / 10) % 10) as int),
            spec_digit((n % 10) as int),
        ]);
        assert(b.drop_first() =~= seq![
            spec_digit(((m / 100) % 10) as int),
            spec_digit(((m / 10) % 10) as int),
            spec_digit((m % 10) as int),
        ]);
        assert(n == 1000 * (n / 1000) + 100 * ((n / 100) % 10) + 10 * ((n / 10) % 10) + n % 10) by (nonlinear_arith)
            requires n < 10000;
        assert(m == 1000 * (m / 1000) + 100 * ((m / 100) % 10) + 10 * ((m / 10) % 10) + m % 10) by (nonlinear_arith)
            requires m < 10000;
        if a == b {
            assert(a[0] == b[0] && a[1] == b[1] && a[2] == b[2] && a[3] == b[3]);
        }
    }
}

/// For years 0 to 9999, the stored texts of two dates compare as the dates
/// do, so a range of stored texts from the text of `start` to the text of
/// `end` holds exactly the dates from `start` to `end`. (Outside those years
/// the sign and the wider year break this order.)
pub proof fn lemma_date_text_order(a: CalendarDate, b: CalendarDate)
    requires
        a.is_valid(),
        b.is_valid(),
        0 <= a.year <= 9999,
        0 <= b.year <= 9999,
    ensures
        a.spec_le(b) <==> spec_text_le(spec_date_text(a), spec_date_text(b)),
{
    let ya = spec_zero_padded(a.year as nat, 4);
    let yb = spec_zero_padded(b.year as nat, 4);
    let ma = spec_zero_padded(a.month as nat, 2);
    let mb = spec_zero_padded(b.month as nat, 2);
    let da = spec_zero_padded(a.day as nat, 2);
    let db = spec_zero_padded(b.day as nat, 2);
    let dash = seq!['-'];
    lemma_pad_order(a.year as nat, b.year as nat, 4);
    lemma_pad_order(a.month as nat, b.month as nat, 2);
    lemma_pad_order(a.day as nat, b.day as nat, 2);
    assert(spec_date_text(a) =~= ya + (dash + (ma + (dash + da))));
    assert(spec_date_text(b) =~= yb + (dash + (mb + (dash + db))));
    lemma_text_le_concat(ya, dash + (ma + (dash + da)), yb, dash + (mb + (dash + db)));
    lemma_text_le_concat(dash, ma + (dash + da), dash, mb + (dash + db));
    lemma_text_le_concat(ma, dash + da, mb, dash + db);
    lemma_text_le_concat(dash, da, dash, db);
}

} // verus!
