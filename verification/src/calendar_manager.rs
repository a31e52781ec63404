//! Meal-planning rules: date ranges, portion and quota limits, the steps of
//! planning a meal, and the unit rules behind the shopping list.
//!
//! The shopping list sums ingredient quantities, which are floating-point
//! numbers; the sums and roundings are computed outside this crate. What is
//! decided here is everything they rest on: which unit each ingredient
//! normalises to and by which exact factor, which ingredients merge into one
//! line, and which units, steps and conversion factors a line is shown with.
use vstd::prelude::*;
use crate::model::{CalendarDate, MealEntry, MealSlot};
use crate::calendar_storage::{date_text, spec_date_text};
use crate::text::{decimal_i64, decimal_u64, spec_decimal, spec_nat_digits, spec_to_lowercase, str_eq, to_lowercase};

verus! {

/// Maximum number of planned meals one user may hold at once.
pub const MAX_MEAL_PLAN_ENTRIES: usize = 1000;

/// Maximum number of planned meals for one user, date and slot.
pub const MAX_ENTRIES_PER_SLOT: usize = 3;

/// Maximum portion multiplier of a planned meal.
pub const MAX_PORTIONS: i64 = 10;

/// Why a calendar request was refused.
#[derive(Clone, Copy, Debug, PartialEq, Eq, Structural)]
pub enum CalendarError {
    /// The range's start falls after its end.
    InvalidRange { start: CalendarDate, end: CalendarDate },
    /// The portion multiplier lies outside `1..=MAX_PORTIONS`.
    PortionsOutOfRange { portions: i64 },
    /// No recipe with this id belongs to the user.
    RecipeNotFound { recipe_id: i64 },
    /// The user already holds `MAX_MEAL_PLAN_ENTRIES` planned meals.
    MealPlanLimitReached,
    /// The date and slot already hold `MAX_ENTRIES_PER_SLOT` planned meals.
    SlotLimitReached,
}

impl CalendarError {
    /// The text the error is reported with.
    pub open spec fn spec_message(self) -> Seq<char> {
        match self {
            CalendarError::InvalidRange { start, end } => "Invalid date range: start ("@ + spec_date_text(start)
                + ") is after end ("@ + spec_date_text(end) + ")"@,
            CalendarError::PortionsOutOfRange { .. } => "portions must be between 1 and "@ + spec_decimal(
                MAX_PORTIONS as int,
            ),
            CalendarError::RecipeNotFound { recipe_id } => "Recipe with ID "@ + spec_decimal(recipe_id as int)
                + " not found"@,
            CalendarError::MealPlanLimitReached => "Meal plan limit of "@ + spec_nat_digits(
                MAX_MEAL_PLAN_ENTRIES as nat,
            ) + " entries reached"@,
            CalendarError::SlotLimitReached => "Slot limit of "@ + spec_nat_digits(MAX_ENTRIES_PER_SLOT as nat)
                + " entries reached"@,
        }
    }

    /// Returns the text the error is reported with, such as
    /// `"Invalid date range: start (2024-01-05) is after end (2024-01-01)"`.
    pub fn message(&self) -> (r: String)
        requires
            self matches CalendarError::InvalidRange { start, end } ==> start.is_valid() && end.is_valid(),
        ensures
            r@ == self.spec_message(),
    {
        match self {
            CalendarError::InvalidRange { start, end } => {
                let mut s = String::from_str("Invalid date range: start (");
                s.append(date_text(*start).as_str());
                s.append(") is after end (");
                s.append(date_text(*end).as_str());
                s.append(")");
                s
            },
            CalendarError::PortionsOutOfRange { .. } => {
                let mut s = String::from_str("portions must be between 1 and ");
                s.append(decimal_i64(MAX_PORTIONS).as_str());
                s
            },
            CalendarError::RecipeNotFound { recipe_id } => {
                let mut s = String::from_str("Recipe with ID ");
                s.append(decimal_i64(*recipe_id).as_str());
                s.append(" not found");
                s
            },
            CalendarError::MealPlanLimitReached => {
                let mut s = String::from_str("Meal plan limit of ");
                s.append(decimal_u64(MAX_MEAL_PLAN_ENTRIES as u64).as_str());
                s.append(" entries reached");
                s
            },
            CalendarError::SlotLimitReached => {
                let mut s = String::from_str("Slot limit of ");
                s.append(decimal_u64(MAX_ENTRIES_PER_SLOT as u64).as_str());
                s.append(" entries reached");
                s
            },
        }
    }
}

/// Checks that a date range runs forward: `start` on or before `end`.
pub fn validate_range(start: CalendarDate, end: CalendarDate) -> (r: Result<(), CalendarError>)
    ensures
        r is Ok <==> start.spec_le(end),
        r matches Err(e) ==> e == (CalendarError::InvalidRange { start, end }),
{
    if start.le(&end) {
        Ok(())
    } else {
        Err(CalendarError::InvalidRange { start, end })
    }
}

/// A range of a single day is always valid, and a valid range whose end also
/// lies on or before its start covers a single day.
pub proof fn lemma_single_day_range(start: CalendarDate, end: CalendarDate)
    ensures
        start.spec_le(start),
        start.spec_le(end) && end.spec_le(start) ==> start == end,
{
}

/// Whether a portion multiplier is allowed.
pub open spec fn spec_portions_ok(portions: int) -> bool {
    1 <= portions <= MAX_PORTIONS
}

/// Checks that a portion multiplier lies in `1..=MAX_PORTIONS`.
pub fn check_portions(portions: i64) -> (r: Result<(), CalendarError>)
    ensures
        r is Ok <==> spec_portions_ok(portions as int),
        r matches Err(e) ==> e == (CalendarError::PortionsOutOfRange { portions }),
{
    if 1 <= portions && portions <= MAX_PORTIONS {
        Ok(())
    } else {
        Err(CalendarError::PortionsOutOfRange { portions })
    }
}

/// Turns the outcome of a recipe lookup into the calendar's answer: a recipe
/// that the user does not own is reported by its id.
pub fn check_recipe_found(found: bool, recipe_id: i64) -> (r: Result<(), CalendarError>)
    ensures
        r is Ok <==> found,
        r matches Err(e) ==> e == (CalendarError::RecipeNotFound { recipe_id }),
{
    if found {
        Ok(())
    } else {
        Err(CalendarError::RecipeNotFound { recipe_id })
    }
}

/// A request to plan a recipe for a date and slot.
#[derive(Clone, Copy, Debug, PartialEq, Eq, Structural)]
pub struct PlanMealRequest {
    pub date: CalendarDate,
    pub slot: MealSlot,
    pub recipe_id: i64,
    pub portions: i64,
}

/// What has happened so far while planning a meal; each step carries the
/// answer of the lookup that the previous action asked for.
#[derive(Clone, Copy, Debug, PartialEq, Eq, Structural)]
pub enum PlanMealStep {
    /// The request has just arrived.
    Requested,
    /// The recipe lookup answered whether the user owns the recipe.
    RecipeChecked { found: bool },
    /// The user's planned meals were counted.
    EntriesCounted { total: usize },
    /// The planned meals of the request's date and slot were counted.
    SlotEntriesCounted { count: usize },
}

/// What the caller must do next to plan a meal.
#[derive(Clone, Copy, Debug, PartialEq, Eq, Structural)]
pub enum PlanMealAction {
    /// Look up whether the user owns the recipe.
    LoadRecipe,
    /// Count all of the user's planned meals.
    CountAllEntries,
    /// Count the user's planned meals on the request's date and slot.
    CountSlotEntries,
    /// Store this entry; planning is done.
    Insert(MealEntry),
    /// Refuse the request with this error; planning is done.
    Reject(CalendarError),
}

/// The next action of meal planning after `step`. Checks run in a fixed
/// order: portions, ownership of the recipe, the user's quota, the slot's
/// limit; the first that fails decides the error.
pub open spec fn spec_plan_meal_next(req: PlanMealRequest, step: PlanMealStep) -> PlanMealAction {
    match step {
        PlanMealStep::Requested => if spec_portions_ok(req.portions as int) {
            PlanMealAction::LoadRecipe
        } else {
            PlanMealAction::Reject(CalendarError::PortionsOutOfRange { portions: req.portions })
        },
        PlanMealStep::RecipeChecked { found } => if found {
            PlanMealAction::CountAllEntries
        } else {
            PlanMealAction::Reject(CalendarError::RecipeNotFound { recipe_id: req.recipe_id })
        },
        PlanMealStep::EntriesCounted { total } => if total < MAX_MEAL_PLAN_ENTRIES {
            PlanMealAction::CountSlotEntries
        } else {
            PlanMealAction::Reject(CalendarError::MealPlanLimitReached)
        },
        PlanMealStep::SlotEntriesCounted { count } => if count < MAX_ENTRIES_PER_SLOT {
            PlanMealAction::Insert(
                MealEntry {
                    id: None,
                    date: req.date,
                    slot: req.slot,
                    recipe_id: req.recipe_id,
                    portions: req.portions,
                },
            )
        } else {
            PlanMealAction::Reject(CalendarError::SlotLimitReached)
        },
    }
}

/// Decides the next action of meal planning.
pub fn plan_meal_next(req: &PlanMealRequest, step: PlanMealStep) -> (r: PlanMealAction)
    ensures
        r == spec_plan_meal_next(*req, step),
{
    match step {
        PlanMealStep::Requested => match check_portions(req.portions) {
            Ok(()) => PlanMealAction::LoadRecipe,
            Err(e) => PlanMealAction::Reject(e),
        },
        PlanMealStep::RecipeChecked { found } => match check_recipe_found(found, req.recipe_id) {
            Ok(()) => PlanMealAction::CountAllEntries,
            Err(e) => PlanMealAction::Reject(e),
        },
        PlanMealStep::EntriesCounted { total } => if total < MAX_MEAL_PLAN_ENTRIES {
            PlanMealAction::CountSlotEntries
        } else {
            PlanMealAction::Reject(CalendarError::MealPlanLimitReached)
        },
        PlanMealStep::SlotEntriesCounted { count } => if count < MAX_ENTRIES_PER_SLOT {
            PlanMealAction::Insert(
                MealEntry {
                    id: None,
                    date: req.date,
                    slot: req.slot,
                    recipe_id: req.recipe_id,
                    portions: req.portions,
                },
            )
        } else {
            PlanMealAction::Reject(CalendarError::SlotLimitReached)
        },
    }
}

/// The outcome of planning a meal when the recipe lookup answers `found` and
/// the two counts answer `total` and `slot_count`.
pub open spec fn spec_plan_meal_outcome(
    req: PlanMealRequest,
    found: bool,
    total: usize,
    slot_count: usize,
) -> PlanMealAction {
    let a1 = spec_plan_meal_next(req, PlanMealStep::Requested);
    if a1 != PlanMealAction::LoadRecipe {
        a1
    } else {
        let a2 = spec_plan_meal_next(req, PlanMealStep::RecipeChecked { found });
        if a2 != PlanMealAction::CountAllEntries {
            a2
        } else {
            let a3 = spec_plan_meal_next(req, PlanMealStep::EntriesCounted { total });
            if a3 != PlanMealAction::CountSlotEntries {
                a3
            } else {
                spec_plan_meal_next(req, PlanMealStep::SlotEntriesCounted { count: slot_count })
            }
        }
    }
}

/// A meal is stored exactly when the portions are allowed, the user owns the
/// recipe, the user holds fewer than `MAX_MEAL_PLAN_ENTRIES` planned meals and
/// the slot holds fewer than `MAX_ENTRIES_PER_SLOT`; the stored entry is the
/// request itself, without an id.
pub proof fn lemma_plan_meal_inserts_within_limits(
    req: PlanMealRequest,
    found: bool,
    total: usize,
    slot_count: usize,
)
    ensures
        spec_plan_meal_outcome(req, found, total, slot_count) is Insert <==> (spec_portions_ok(
            req.portions as int,
        ) && found && total < MAX_MEAL_PLAN_ENTRIES && slot_count < MAX_ENTRIES_PER_SLOT),
        spec_plan_meal_outcome(req, found, total, slot_count) matches PlanMealAction::Insert(e)
            ==> e == (MealEntry {
            id: None,
            date: req.date,
            slot: req.slot,
            recipe_id: req.recipe_id,
            portions: req.portions,
        }),
        total >= MAX_MEAL_PLAN_ENTRIES && spec_portions_ok(req.portions as int) && found
            ==> spec_plan_meal_outcome(req, found, total, slot_count) == PlanMealAction::Reject(
            CalendarError::MealPlanLimitReached,
        ),
{
}

/// A unit of measure that ingredient quantities are written in.
#[derive(Clone, Copy, Debug, PartialEq, Eq, Structural)]
pub enum UnitKind {
    Gram,
    Kilogram,
    Ounce,
    Pound,
    Millilitre,
    Litre,
    Teaspoon,
    Tablespoon,
    Cup,
    /// A count or an unrecognised unit (`"clove"`, `"piece"`, `""`, ...).
    Other,
}

/// The unit that an already lower-cased unit name denotes.
pub open spec fn spec_unit_kind(lower: Seq<char>) -> UnitKind {
    if lower == "g"@ {
        UnitKind::Gram
    } else if lower == "kg"@ {
        UnitKind::Kilogram
    } else if lower == "oz"@ || lower == "ounce"@ || lower == "ounces"@ {
        UnitKind::Ounce
    } else if lower == "lb"@ || lower == "lbs"@ || lower == "pound"@ || lower == "pounds"@ {
        UnitKind::Pound
    } else if lower == "ml"@ {
        UnitKind::Millilitre
    } else if lower == "l"@ || lower == "liter"@ || lower == "litre"@ {
        UnitKind::Litre
    } else if lower == "tsp"@ || lower == "teaspoon"@ || lower == "teaspoons"@ {
        UnitKind::Teaspoon
    } else if lower == "tbsp"@ || lower == "tablespoon"@ || lower == "tablespoons"@ {
        UnitKind::Tablespoon
    } else if lower == "cup"@ || lower == "cups"@ {
        UnitKind::Cup
    } else {
        UnitKind::Other
    }
}

/// Names the unit that an already lower-cased unit name denotes.
pub fn unit_kind_of_lowercase(lower: &str) -> (r: UnitKind)
    ensures
        r == spec_unit_kind(lower@),
{
    if str_eq(lower, "g") {
        UnitKind::Gram
    } else if str_eq(lower, "kg") {
        UnitKind::Kilogram
    } else if str_eq(lower, "oz") || str_eq(lower, "ounce") || str_eq(lower, "ounces") {
        UnitKind::Ounce
    } else if str_eq(lower, "lb") || str_eq(lower, "lbs") || str_eq(lower, "pound") || str_eq(
        lower,
        "pounds",
    ) {
        UnitKind::Pound
    } else if str_eq(lower, "ml") {
        UnitKind::Millilitre
    } else if str_eq(lower, "l") || str_eq(lower, "liter") || str_eq(lower, "litre") {
        UnitKind::Litre
    } else if str_eq(lower, "tsp") || str_eq(lower, "teaspoon") || str_eq(lower, "teaspoons") {
        UnitKind::Teaspoon
    } else if str_eq(lower, "tbsp") || str_eq(lower, "tablespoon") || str_eq(
        lower,
        "tablespoons",
    ) {
        UnitKind::Tablespoon
    } else if str_eq(lower, "cup") || str_eq(lower, "cups") {
        UnitKind::Cup
    } else {
        UnitKind::Other
    }
}

impl UnitKind {
    /// Whether the unit measures weight (and so normalises to grams).
    pub open spec fn spec_is_weight(self) -> bool {
        self is Gram || self is Kilogram || self is Ounce || self is Pound
    }

    /// Whether the unit measures volume (and so normalises to millilitres).
    pub open spec fn spec_is_volume(self) -> bool {
        self is Millilitre || self is Litre || self is Teaspoon || self is Tablespoon || self is Cup
    }

    /// The exact factor, as numerator and denominator, that turns a quantity
    /// in this unit into grams (weight) or millilitres (volume); 1 for other
    /// units, which are not converted.
    pub open spec fn spec_factor(self) -> (u32, u32) {
        match self {
            UnitKind::Gram => (1, 1),
            UnitKind::Kilogram => (1000, 1),
            UnitKind::Ounce => (283495, 10000),
            UnitKind::Pound => (453592, 1000),
            UnitKind::Millilitre => (1, 1),
            UnitKind::Litre => (1000, 1),
            UnitKind::Teaspoon => (492892, 100000),
            UnitKind::Tablespoon => (147868, 10000),
            UnitKind::Cup => (236588, 1000),
            UnitKind::Other => (1, 1),
        }
    }

    /// Returns the conversion factor into grams or millilitres as an exact
    /// fraction `(numerator, denominator)`: 1 kg = 1000 g, 1 oz = 28.3495 g,
    /// 1 lb = 453.592 g, 1 l = 1000 ml, 1 tsp = 4.92892 ml,
    /// 1 tbsp = 14.7868 ml, 1 cup = 236.588 ml.
    pub fn factor(&self) -> (r: (u32, u32))
        ensures
            r == self.spec_factor(),
    {
        match self {
            UnitKind::Gram => (1, 1),
            UnitKind::Kilogram => (1000, 1),
            UnitKind::Ounce => (283495, 10000),
            UnitKind::Pound => (453592, 1000),
            UnitKind::Millilitre => (1, 1),
            UnitKind::Litre => (1000, 1),
            UnitKind::Teaspoon => (492892, 100000),
            UnitKind::Tablespoon => (147868, 10000),
            UnitKind::Cup => (236588, 1000),
            UnitKind::Other => (1, 1),
        }
    }
}

/// The unit a quantity is accumulated in: `"g"` for weights, `"ml"` for
/// volumes, the unit as written (case kept) for anything else.
pub open spec fn spec_canonical_unit(unit: Seq<char>) -> Seq<char> {
    let kind = spec_unit_kind(spec_to_lowercase(unit));
    if kind.spec_is_weight() {
        "g"@
    } else if kind.spec_is_volume() {
        "ml"@
    } else {
        unit
    }
}

/// Normalises a unit, matched case-insensitively: returns the unit that
/// quantities in it accumulate in, and the unit itself, whose `factor`
/// converts them.
pub fn normalise_unit(unit: &str) -> (r: (String, UnitKind))
    ensures
        r.1 == spec_unit_kind(spec_to_lowercase(unit@)),
        r.0@ == spec_canonical_unit(unit@),
{
    let lower = to_lowercase(unit);
    let kind = unit_kind_of_lowercase(lower.as_str());
    let canonical = match kind {
        UnitKind::Gram | UnitKind::Kilogram | UnitKind::Ounce | UnitKind::Pound => String::from_str(
            "g",
        ),
        UnitKind::Millilitre | UnitKind::Litre | UnitKind::Teaspoon | UnitKind::Tablespoon
        | UnitKind::Cup => String::from_str("ml"),
        UnitKind::Other => String::from_str(unit),
    };
    (canonical, kind)
}

/// Every documented unit name denotes its own unit, with its documented
/// factor into grams or millilitres: g (1), kg (1000), oz/ounce/ounces
/// (28.3495), lb/lbs/pound/pounds (453.592) measure weight; ml (1),
/// l/liter/litre (1000), tsp/teaspoon/teaspoons (4.92892),
/// tbsp/tablespoon/tablespoons (14.7868), cup/cups (236.588) measure volume.
/// Any other name is no unit, with factor 1.
pub proof fn lemma_unit_names(lower: Seq<char>)
    ensures
        lower == "g"@ ==> spec_unit_kind(lower) == UnitKind::Gram,
        lower == "g"@ ==> spec_unit_kind(lower).spec_factor() == (1u32, 1u32),
        lower == "g"@ ==> spec_unit_kind(lower).spec_is_weight(),
        lower == "kg"@ ==> spec_unit_kind(lower) == UnitKind::Kilogram,
        lower == "kg"@ ==> spec_unit_kind(lower).spec_factor() == (1000u32, 1u32),
        lower == "kg"@ ==> spec_unit_kind(lower).spec_is_weight(),
        lower == "oz"@ || lower == "ounce"@ || lower == "ounces"@ ==> spec_unit_kind(lower) == UnitKind::Ounce,
        lower == "oz"@ || lower == "ounce"@ || lower == "ounces"@ ==> spec_unit_kind(lower).spec_factor() == (283495u32, 10000u32),
        lower == "oz"@ || lower == "ounce"@ || lower == "ounces"@ ==> spec_unit_kind(lower).spec_is_weight(),
        lower == "lb"@ || lower == "lbs"@ || lower == "pound"@ || lower == "pounds"@ ==> spec_unit_kind(lower) == UnitKind::Pound,
        lower == "lb"@ || lower == "lbs"@ || lower == "pound"@ || lower == "pounds"@ ==> spec_unit_kind(lower).spec_factor() == (453592u32, 1000u32),
        lower == "lb"@ || lower == "lbs"@ || lower == "pound"@ || lower == "pounds"@ ==> spec_unit_kind(lower).spec_is_weight(),
        lower == "ml"@ ==> spec_unit_kind(lower) == UnitKind::Millilitre,
        lower == "ml"@ ==> spec_unit_kind(lower).spec_factor() == (1u32, 1u32),
        lower == "ml"@ ==> spec_unit_kind(lower).spec_is_volume(),
        lower == "l"@ || lower == "liter"@ || lower == "litre"@ ==> spec_unit_kind(lower) == UnitKind::Litre,
        lower == "l"@ || lower == "liter"@ || lower == "litre"@ ==> spec_unit_kind(lower).spec_factor() == (1000u32, 1u32),
        lower == "l"@ || lower == "liter"@ || lower == "litre"@ ==> spec_unit_kind(lower).spec_is_volume(),
        lower == "tsp"@ || lower == "teaspoon"@ || lower == "teaspoons"@ ==> spec_unit_kind(lower) == UnitKind::Teaspoon,
        lower == "tsp"@ || lower == "teaspoon"@ || lower == "teaspoons"@ ==> spec_unit_kind(lower).spec_factor() == (492892u32, 100000u32),
        lower == "tsp"@ || lower == "teaspoon"@ || lower == "teaspoons"@ ==> spec_unit_kind(lower).spec_is_volume(),
        lower == "tbsp"@ || lower == "tablespoon"@ || lower == "tablespoons"@ ==> spec_unit_kind(lower) == UnitKind::Tablespoon,
        lower == "tbsp"@ || lower == "tablespoon"@ || lower == "tablespoons"@ ==> spec_unit_kind(lower).spec_factor() == (147868u32, 10000u32),
        lower == "tbsp"@ || lower == "tablespoon"@ || lower == "tablespoons"@ ==> spec_unit_kind(lower).spec_is_volume(),
        lower == "cup"@ || lower == "cups"@ ==> spec_unit_kind(lower) == UnitKind::Cup,
        lower == "cup"@ || lower == "cups"@ ==> spec_unit_kind(lower).spec_factor() == (236588u32, 1000u32),
        lower == "cup"@ || lower == "cups"@ ==> spec_unit_kind(lower).spec_is_volume(),
        !(lower == "g"@ || lower == "kg"@ || lower == "oz"@ || lower == "ounce"@ || lower == "ounces"@ || lower == "lb"@ || lower == "lbs"@ || lower == "pound"@ || lower == "pounds"@ || lower == "ml"@ || lower == "l"@ || lower == "liter"@ || lower == "litre"@ || lower == "tsp"@ || lower == "teaspoon"@ || lower == "teaspoons"@ || lower == "tbsp"@ || lower == "tablespoon"@ || lower == "tablespoons"@ || lower == "cup"@ || lower == "cups"@) ==> spec_unit_kind(lower) == UnitKind::Other,
        UnitKind::Other.spec_factor() == (1u32, 1u32),
{
    reveal_strlit("g");
    reveal_strlit("kg");
    reveal_strlit("oz");
    reveal_strlit("ounce");
    reveal_strlit("ounces");
    reveal_strlit("lb");
    reveal_strlit("lbs");
    reveal_strlit("pound");
    reveal_strlit("pounds");
    reveal_strlit("ml");
    reveal_strlit("l");
    reveal_strlit("liter");
    reveal_strlit("litre");
    reveal_strlit("tsp");
    reveal_strlit("teaspoon");
    reveal_strlit("teaspoons");
    reveal_strlit("tbsp");
    reveal_strlit("tablespoon");
    reveal_strlit("tablespoons");
    reveal_strlit("cup");
    reveal_strlit("cups");
    assert("kg"@ != "g"@) by {
        assert("kg"@.len() != "g"@.len());
    }
    assert("oz"@ != "g"@) by {
        assert("oz"@.len() != "g"@.len());
    }
    assert("oz"@ != "kg"@) by {
        assert("oz"@[0] != "kg"@[0]);
    }
    assert("ounce"@ != "g"@) by {
        assert("ounce"@.len() != "g"@.len());
    }
    assert("ounce"@ != "kg"@) by {
        assert("ounce"@.len() != "kg"@.len());
    }
    assert("ounce"@ != "oz"@) by {
        assert("ounce"@.len() != "oz"@.len());
    }
    assert("ounces"@ != "g"@) by {
        assert("ounces"@.len() != "g"@.len());
    }
    assert("ounces"@ != "kg"@) by {
        assert("ounces"@.len() != "kg"@.len());
    }
    assert("ounces"@ != "oz"@) by {
        assert("ounces"@.len() != "oz"@.len());
    }
    assert("ounces"@ != "ounce"@) by {
        assert("ounces"@.len() != "ounce"@.len());
    }
    assert("lb"@ != "g"@) by {
        assert("lb"@.len() != "g"@.len());
    }
    assert("lb"@ != "kg"@) by {
        assert("lb"@[0] != "kg"@[0]);
    }
    assert("lb"@ != "oz"@) by {
        assert("lb"@[0] != "oz"@[0]);
    }
    assert("lb"@ != "ounce"@) by {
        assert("lb"@.len() != "ounce"@.len());
    }
    assert("lb"@ != "ounces"@) by {
        assert("lb"@.len() != "ounces"@.len());
    }
    assert("lbs"@ != "g"@) by {
        assert("lbs"@.len() != "g"@.len());
    }
    assert("lbs"@ != "kg"@) by {
        assert("lbs"@.len() != "kg"@.len());
    }
    assert("lbs"@ != "oz"@) by {
        assert("lbs"@.len() != "oz"@.len());
    }
    assert("lbs"@ != "ounce"@) by {
        assert("lbs"@.len() != "ounce"@.len());
    }
    assert("lbs"@ != "ounces"@) by {
        assert("lbs"@.len() != "ounces"@.len());
    }
    assert("lbs"@ != "lb"@) by {
        assert("lbs"@.len() != "lb"@.len());
    }
    assert("pound"@ != "g"@) by {
        assert("pound"@.len() != "g"@.len());
    }
    assert("pound"@ != "kg"@) by {
        assert("pound"@.len() != "kg"@.len());
    }
    assert("pound"@ != "oz"@) by {
        assert("pound"@.len() != "oz"@.len());
    }
    assert("pound"@ != "ounce"@) by {
        assert("pound"@[0] != "ounce"@[0]);
    }
    assert("pound"@ != "ounces"@) by {
        assert("pound"@.len() != "ounces"@.len());
    }
    assert("pound"@ != "lb"@) by {
        assert("pound"@.len() != "lb"@.len());
    }
    assert("pound"@ != "lbs"@) by {
        assert("pound"@.len() != "lbs"@.len());
    }
    assert("pounds"@ != "g"@) by {
        assert("pounds"@.len() != "g"@.len());
    }
    assert("pounds"@ != "kg"@) by {
        assert("pounds"@.len() != "kg"@.len());
    }
    assert("pounds"@ != "oz"@) by {
        assert("pounds"@.len() != "oz"@.len());
    }
    assert("pounds"@ != "ounce"@) by {
        assert("pounds"@.len() != "ounce"@.len());
    }
    assert("pounds"@ != "ounces"@) by {
        assert("pounds"@[0] != "ounces"@[0]);
    }
    assert("pounds"@ != "lb"@) by {
        assert("pounds"@.len() != "lb"@.len());
    }
    assert("pounds"@ != "lbs"@) by {
        assert("pounds"@.len() != "lbs"@.len());
    }
    assert("pounds"@ != "pound"@) by {
        assert("pounds"@.len() != "pound"@.len());
    }
    assert("ml"@ != "g"@) by {
        assert("ml"@.len() != "g"@.len());
    }
    assert("ml"@ != "kg"@) by {
        assert("ml"@[0] != "kg"@[0]);
    }
    assert("ml"@ != "oz"@) by {
        assert("ml"@[0] != "oz"@[0]);
    }
    assert("ml"@ != "ounce"@) by {
        assert("ml"@.len() != "ounce"@.len());
    }
    assert("ml"@ != "ounces"@) by {
        assert("ml"@.len() != "ounces"@.len());
    }
    assert("ml"@ != "lb"@) by {
        assert("ml"@[0] != "lb"@[0]);
    }
    assert("ml"@ != "lbs"@) by {
        assert("ml"@.len() != "lbs"@.len());
    }
    assert("ml"@ != "pound"@) by {
        assert("ml"@.len() != "pound"@.len());
    }
    assert("ml"@ != "pounds"@) by {
        assert("ml"@.len() != "pounds"@.len());
    }
    assert("l"@ != "g"@) by {
        assert("l"@[0] != "g"@[0]);
    }
    assert("l"@ != "kg"@) by {
        assert("l"@.len() != "kg"@.len());
    }
    assert("l"@ != "oz"@) by {
        assert("l"@.len() != "oz"@.len());
    }
    assert("l"@ != "ounce"@) by {
        assert("l"@.len() != "ounce"@.len());
    }
    assert("l"@ != "ounces"@) by {
        assert("l"@.len() != "ounces"@.len());
    }
    assert("l"@ != "lb"@) by {
        assert("l"@.len() != "lb"@.len());
    }
    assert("l"@ != "lbs"@) by {
        assert("l"@.len() != "lbs"@.len());
    }
    assert("l"@ != "pound"@) by {
        assert("l"@.len() != "pound"@.len());
    }
    assert("l"@ != "pounds"@) by {
        assert("l"@.len() != "pounds"@.len());
    }
    assert("l"@ != "ml"@) by {
        assert("l"@.len() != "ml"@.len());
    }
    assert("liter"@ != "g"@) by {
        assert("liter"@.len() != "g"@.len());
    }
    assert("liter"@ != "kg"@) by {
        assert("liter"@.len() != "kg"@.len());
    }
    assert("liter"@ != "oz"@) by {
        assert("liter"@.len() != "oz"@.len());
    }
    assert("liter"@ != "ounce"@) by {
        assert("liter"@[0] != "ounce"@[0]);
    }
    assert("liter"@ != "ounces"@) by {
        assert("liter"@.len() != "ounces"@.len());
    }
    assert("liter"@ != "lb"@) by {
        assert("liter"@.len() != "lb"@.len());
    }
    assert("liter"@ != "lbs"@) by {
        assert("liter"@.len() != "lbs"@.len());
    }
    assert("liter"@ != "pound"@) by {
        assert("liter"@[0] != "pound"@[0]);
    }
    assert("liter"@ != "pounds"@) by {
        assert("liter"@.len() != "pounds"@.len());
    }
    assert("liter"@ != "ml"@) by {
        assert("liter"@.len() != "ml"@.len());
    }
    assert("liter"@ != "l"@) by {
        assert("liter"@.len() != "l"@.len());
    }
    assert("litre"@ != "g"@) by {
        assert("litre"@.len() != "g"@.len());
    }
    assert("litre"@ != "kg"@) by {
        assert("litre"@.len() != "kg"@.len());
    }
    assert("litre"@ != "oz"@) by {
        assert("litre"@.len() != "oz"@.len());
    }
    assert("litre"@ != "ounce"@) by {
        assert("litre"@[0] != "ounce"@[0]);
    }
    assert("litre"@ != "ounces"@) by {
        assert("litre"@.len() != "ounces"@.len());
    }
    assert("litre"@ != "lb"@) by {
        assert("litre"@.len() != "lb"@.len());
    }
    assert("litre"@ != "lbs"@) by {
        assert("litre"@.len() != "lbs"@.len());
    }
    assert("litre"@ != "pound"@) by {
        assert("litre"@[0] != "pound"@[0]);
    }
    assert("litre"@ != "pounds"@) by {
        assert("litre"@.len() != "pounds"@.len());
    }
    assert("litre"@ != "ml"@) by {
        assert("litre"@.len() != "ml"@.len());
    }
    assert("litre"@ != "l"@) by {
        assert("litre"@.len() != "l"@.len());
    }
    assert("litre"@ != "liter"@) by {
        assert("litre"@[3] != "liter"@[3]);
    }
    assert("tsp"@ != "g"@) by {
        assert("tsp"@.len() != "g"@.len());
    }
    assert("tsp"@ != "kg"@) by {
        assert("tsp"@.len() != "kg"@.len());
    }
    assert("tsp"@ != "oz"@) by {
        assert("tsp"@.len() != "oz"@.len());
    }
    assert("tsp"@ != "ounce"@) by {
        assert("tsp"@.len() != "ounce"@.len());
    }
    assert("tsp"@ != "ounces"@) by {
        assert("tsp"@.len() != "ounces"@.len());
    }
    assert("tsp"@ != "lb"@) by {
        assert("tsp"@.len() != "lb"@.len());
    }
    assert("tsp"@ != "lbs"@) by {
        assert("tsp"@[0] != "lbs"@[0]);
    }
    assert("tsp"@ != "pound"@) by {
        assert("tsp"@.len() != "pound"@.len());
    }
    assert("tsp"@ != "pounds"@) by {
        assert("tsp"@.len() != "pounds"@.len());
    }
    assert("tsp"@ != "ml"@) by {
        assert("tsp"@.len() != "ml"@.len());
    }
    assert("tsp"@ != "l"@) by {
        assert("tsp"@.len() != "l"@.len());
    }
    assert("tsp"@ != "liter"@) by {
        assert("tsp"@.len() != "liter"@.len());
    }
    assert("tsp"@ != "litre"@) by {
        assert("tsp"@.len() != "litre"@.len());
    }
    assert("teaspoon"@ != "g"@) by {
        assert("teaspoon"@.len() != "g"@.len());
    }
    assert("teaspoon"@ != "kg"@) by {
        assert("teaspoon"@.len() != "kg"@.len());
    }
    assert("teaspoon"@ != "oz"@) by {
        assert("teaspoon"@.len() != "oz"@.len());
    }
    assert("teaspoon"@ != "ounce"@) by {
        assert("teaspoon"@.len() != "ounce"@.len());
    }
    assert("teaspoon"@ != "ounces"@) by {
        assert("teaspoon"@.len() != "ounces"@.len());
    }
    assert("teaspoon"@ != "lb"@) by {
        assert("teaspoon"@.len() != "lb"@.len());
    }
    assert("teaspoon"@ != "lbs"@) by {
        assert("teaspoon"@.len() != "lbs"@.len());
    }
    assert("teaspoon"@ != "pound"@) by {
        assert("teaspoon"@.len() != "pound"@.len());
    }
    assert("teaspoon"@ != "pounds"@) by {
        assert("teaspoon"@.len() != "pounds"@.len());
    }
    assert("teaspoon"@ != "ml"@) by {
        assert("teaspoon"@.len() != "ml"@.len());
    }
    assert("teaspoon"@ != "l"@) by {
        assert("teaspoon"@.len() != "l"@.len());
    }
    assert("teaspoon"@ != "liter"@) by {
        assert("teaspoon"@.len() != "liter"@.len());
    }
    assert("teaspoon"@ != "litre"@) by {
        assert("teaspoon"@.len() != "litre"@.len());
    }
    assert("teaspoon"@ != "tsp"@) by {
        assert("teaspoon"@.len() != "tsp"@.len());
    }
    assert("teaspoons"@ != "g"@) by {
        assert("teaspoons"@.len() != "g"@.len());
    }
    assert("teaspoons"@ != "kg"@) by {
        assert("teaspoons"@.len() != "kg"@.len());
    }
    assert("teaspoons"@ != "oz"@) by {
        assert("teaspoons"@.len() != "oz"@.len());
    }
    assert("teaspoons"@ != "ounce"@) by {
        assert("teaspoons"@.len() != "ounce"@.len());
    }
    assert("teaspoons"@ != "ounces"@) by {
        assert("teaspoons"@.len() != "ounces"@.len());
    }
    assert("teaspoons"@ != "lb"@) by {
        assert("teaspoons"@.len() != "lb"@.len());
    }
    assert("teaspoons"@ != "lbs"@) by {
        assert("teaspoons"@.len() != "lbs"@.len());
    }
    assert("teaspoons"@ != "pound"@) by {
        assert("teaspoons"@.len() != "pound"@.len());
    }
    assert("teaspoons"@ != "pounds"@) by {
        assert("teaspoons"@.len() != "pounds"@.len());
    }
    assert("teaspoons"@ != "ml"@) by {
        assert("teaspoons"@.len() != "ml"@.len());
    }
    assert("teaspoons"@ != "l"@) by {
        assert("teaspoons"@.len() != "l"@.len());
    }
    assert("teaspoons"@ != "liter"@) by {
        assert("teaspoons"@.len() != "liter"@.len());
    }
    assert("teaspoons"@ != "litre"@) by {
        assert("teaspoons"@.len() != "litre"@.len());
    }
    assert("teaspoons"@ != "tsp"@) by {
        assert("teaspoons"@.len() != "tsp"@.len());
    }
    assert("teaspoons"@ != "teaspoon"@) by {
        assert("teaspoons"@.len() != "teaspoon"@.len());
    }
    assert("tbsp"@ != "g"@) by {
        assert("tbsp"@.len() != "g"@.len());
    }
    assert("tbsp"@ != "kg"@) by {
        assert("tbsp"@.len() != "kg"@.len());
    }
    assert("tbsp"@ != "oz"@) by {
        assert("tbsp"@.len() != "oz"@.len());
    }
    assert("tbsp"@ != "ounce"@) by {
        assert("tbsp"@.len() != "ounce"@.len());
    }
    assert("tbsp"@ != "ounces"@) by {
        assert("tbsp"@.len() != "ounces"@.len());
    }
    assert("tbsp"@ != "lb"@) by {
        assert("tbsp"@.len() != "lb"@.len());
    }
    assert("tbsp"@ != "lbs"@) by {
        assert("tbsp"@.len() != "lbs"@.len());
    }
    assert("tbsp"@ != "pound"@) by {
        assert("tbsp"@.len() != "pound"@.len());
    }
    assert("tbsp"@ != "pounds"@) by {
        assert("tbsp"@.len() != "pounds"@.len());
    }
    assert("tbsp"@ != "ml"@) by {
        assert("tbsp"@.len() != "ml"@.len());
    }
    assert("tbsp"@ != "l"@) by {
        assert("tbsp"@.len() != "l"@.len());
    }
    assert("tbsp"@ != "liter"@) by {
        assert("tbsp"@.len() != "liter"@.len());
    }
    assert("tbsp"@ != "litre"@) by {
        assert("tbsp"@.len() != "litre"@.len());
    }
    assert("tbsp"@ != "tsp"@) by {
        assert("tbsp"@.len() != "tsp"@.len());
    }
    assert("tbsp"@ != "teaspoon"@) by {
        assert("tbsp"@.len() != "teaspoon"@.len());
    }
    assert("tbsp"@ != "teaspoons"@) by {
        assert("tbsp"@.len() != "teaspoons"@.len());
    }
    assert("tablespoon"@ != "g"@) by {
        assert("tablespoon"@.len() != "g"@.len());
    }
    assert("tablespoon"@ != "kg"@) by {
        assert("tablespoon"@.len() != "kg"@.len());
    }
    assert("tablespoon"@ != "oz"@) by {
        assert("tablespoon"@.len() != "oz"@.len());
    }
    assert("tablespoon"@ != "ounce"@) by {
        assert("tablespoon"@.len() != "ounce"@.len());
    }
    assert("tablespoon"@ != "ounces"@) by {
        assert("tablespoon"@.len() != "ounces"@.len());
    }
    assert("tablespoon"@ != "lb"@) by {
        assert("tablespoon"@.len() != "lb"@.len());
    }
    assert("tablespoon"@ != "lbs"@) by {
        assert("tablespoon"@.len() != "lbs"@.len());
    }
    assert("tablespoon"@ != "pound"@) by {
        assert("tablespoon"@.len() != "pound"@.len());
    }
    assert("tablespoon"@ != "pounds"@) by {
        assert("tablespoon"@.len() != "pounds"@.len());
    }
    assert("tablespoon"@ != "ml"@) by {
        assert("tablespoon"@.len() != "ml"@.len());
    }
    assert("tablespoon"@ != "l"@) by {
        assert("tablespoon"@.len() != "l"@.len());
    }
    assert("tablespoon"@ != "liter"@) by {
        assert("tablespoon"@.len() != "liter"@.len());
    }
    assert("tablespoon"@ != "litre"@) by {
        assert("tablespoon"@.len() != "litre"@.len());
    }
    assert("tablespoon"@ != "tsp"@) by {
        assert("tablespoon"@.len() != "tsp"@.len());
    }
    assert("tablespoon"@ != "teaspoon"@) by {
        assert("tablespoon"@.len() != "teaspoon"@.len());
    }
    assert("tablespoon"@ != "teaspoons"@) by {
        assert("tablespoon"@.len() != "teaspoons"@.len());
    }
    assert("tablespoon"@ != "tbsp"@) by {
        assert("tablespoon"@.len() != "tbsp"@.len());
    }
    assert("tablespoons"@ != "g"@) by {
        assert("tablespoons"@.len() != "g"@.len());
    }
    assert("tablespoons"@ != "kg"@) by {
        assert("tablespoons"@.len() != "kg"@.len());
    }
    assert("tablespoons"@ != "oz"@) by {
        assert("tablespoons"@.len() != "oz"@.len());
    }
    assert("tablespoons"@ != "ounce"@) by {
        assert("tablespoons"@.len() != "ounce"@.len());
    }
    assert("tablespoons"@ != "ounces"@) by {
        assert("tablespoons"@.len() != "ounces"@.len());
    }
    assert("tablespoons"@ != "lb"@) by {
        assert("tablespoons"@.len() != "lb"@.len());
    }
    assert("tablespoons"@ != "lbs"@) by {
        assert("tablespoons"@.len() != "lbs"@.len());
    }
    assert("tablespoons"@ != "pound"@) by {
        assert("tablespoons"@.len() != "pound"@.len());
    }
    assert("tablespoons"@ != "pounds"@) by {
        assert("tablespoons"@.len() != "pounds"@.len());
    }
    assert("tablespoons"@ != "ml"@) by {
        assert("tablespoons"@.len() != "ml"@.len());
    }
    assert("tablespoons"@ != "l"@) by {
        assert("tablespoons"@.len() != "l"@.len());
    }
    assert("tablespoons"@ != "liter"@) by {
        assert("tablespoons"@.len() != "liter"@.len());
    }
    assert("tablespoons"@ != "litre"@) by {
        assert("tablespoons"@.len() != "litre"@.len());
    }
    assert("tablespoons"@ != "tsp"@) by {
        assert("tablespoons"@.len() != "tsp"@.len());
    }
    assert("tablespoons"@ != "teaspoon"@) by {
        assert("tablespoons"@.len() != "teaspoon"@.len());
    }
    assert("tablespoons"@ != "teaspoons"@) by {
        assert("tablespoons"@.len() != "teaspoons"@.len());
    }
    assert("tablespoons"@ != "tbsp"@) by {
        assert("tablespoons"@.len() != "tbsp"@.len());
    }
    assert("tablespoons"@ != "tablespoon"@) by {
        assert("tablespoons"@.len() != "tablespoon"@.len());
    }
    assert("cup"@ != "g"@) by {
        assert("cup"@.len() != "g"@.len());
    }
    assert("cup"@ != "kg"@) by {
        assert("cup"@.len() != "kg"@.len());
    }
    assert("cup"@ != "oz"@) by {
        assert("cup"@.len() != "oz"@.len());
    }
    assert("cup"@ != "ounce"@) by {
        assert("cup"@.len() != "ounce"@.len());
    }
    assert("cup"@ != "ounces"@) by {
        assert("cup"@.len() != "ounces"@.len());
    }
    assert("cup"@ != "lb"@) by {
        assert("cup"@.len() != "lb"@.len());
    }
    assert("cup"@ != "lbs"@) by {
        assert("cup"@[0] != "lbs"@[0]);
    }
    assert("cup"@ != "pound"@) by {
        assert("cup"@.len() != "pound"@.len());
    }
    assert("cup"@ != "pounds"@) by {
        assert("cup"@.len() != "pounds"@.len());
    }
    assert("cup"@ != "ml"@) by {
        assert("cup"@.len() != "ml"@.len());
    }
    assert("cup"@ != "l"@) by {
        assert("cup"@.len() != "l"@.len());
    }
    assert("cup"@ != "liter"@) by {
        assert("cup"@.len() != "liter"@.len());
    }
    assert("cup"@ != "litre"@) by {
        assert("cup"@.len() != "litre"@.len());
    }
    assert("cup"@ != "tsp"@) by {
        assert("cup"@[0] != "tsp"@[0]);
    }
    assert("cup"@ != "teaspoon"@) by {
        assert("cup"@.len() != "teaspoon"@.len());
    }
    assert("cup"@ != "teaspoons"@) by {
        assert("cup"@.len() != "teaspoons"@.len());
    }
    assert("cup"@ != "tbsp"@) by {
        assert("cup"@.len() != "tbsp"@.len());
    }
    assert("cup"@ != "tablespoon"@) by {
        assert("cup"@.len() != "tablespoon"@.len());
    }
    assert("cup"@ != "tablespoons"@) by {
        assert("cup"@.len() != "tablespoons"@.len());
    }
    assert("cups"@ != "g"@) by {
        assert("cups"@.len() != "g"@.len());
    }
    assert("cups"@ != "kg"@) by {
        assert("cups"@.len() != "kg"@.len());
    }
    assert("cups"@ != "oz"@) by {
        assert("cups"@.len() != "oz"@.len());
    }
    assert("cups"@ != "ounce"@) by {
        assert("cups"@.len() != "ounce"@.len());
    }
    assert("cups"@ != "ounces"@) by {
        assert("cups"@.len() != "ounces"@.len());
    }
    assert("cups"@ != "lb"@) by {
        assert("cups"@.len() != "lb"@.len());
    }
    assert("cups"@ != "lbs"@) by {
        assert("cups"@.len() != "lbs"@.len());
    }
    assert("cups"@ != "pound"@) by {
        assert("cups"@.len() != "pound"@.len());
    }
    assert("cups"@ != "pounds"@) by {
        assert("cups"@.len() != "pounds"@.len());
    }
    assert("cups"@ != "ml"@) by {
        assert("cups"@.len() != "ml"@.len());
    }
    assert("cups"@ != "l"@) by {
        assert("cups"@.len() != "l"@.len());
    }
    assert("cups"@ != "liter"@) by {
        assert("cups"@.len() != "liter"@.len());
    }
    assert("cups"@ != "litre"@) by {
        assert("cups"@.len() != "litre"@.len());
    }
    assert("cups"@ != "tsp"@) by {
        assert("cups"@.len() != "tsp"@.len());
    }
    assert("cups"@ != "teaspoon"@) by {
        assert("cups"@.len() != "teaspoon"@.len());
    }
    assert("cups"@ != "teaspoons"@) by {
        assert("cups"@.len() != "teaspoons"@.len());
    }
    assert("cups"@ != "tbsp"@) by {
        assert("cups"@[0] != "tbsp"@[0]);
    }
    assert("cups"@ != "tablespoon"@) by {
        assert("cups"@.len() != "tablespoon"@.len());
    }
    assert("cups"@ != "tablespoons"@) by {
        assert("cups"@.len() != "tablespoons"@.len());
    }
    assert("cups"@ != "cup"@) by {
        assert("cups"@.len() != "cup"@.len());
    }
}

/// A unit written in any case normalises by its lower-case name: the
/// documented weights accumulate in `"g"`, the documented volumes in
/// `"ml"`, and any other unit stays as written.
pub proof fn lemma_canonical_unit(unit: Seq<char>)
    ensures
        ({ let lower = spec_to_lowercase(unit); lower == "g"@ || lower == "kg"@ || lower == "oz"@ || lower == "ounce"@ || lower == "ounces"@ || lower == "lb"@ || lower == "lbs"@ || lower == "pound"@ || lower == "pounds"@ }) ==> spec_canonical_unit(unit) == "g"@,
        ({ let lower = spec_to_lowercase(unit); lower == "ml"@ || lower == "l"@ || lower == "liter"@ || lower == "litre"@ || lower == "tsp"@ || lower == "teaspoon"@ || lower == "teaspoons"@ || lower == "tbsp"@ || lower == "tablespoon"@ || lower == "tablespoons"@ || lower == "cup"@ || lower == "cups"@ }) ==> spec_canonical_unit(unit) == "ml"@,
        spec_unit_kind(spec_to_lowercase(unit)) == UnitKind::Other ==> spec_canonical_unit(unit) == unit,
{
    lemma_unit_names(spec_to_lowercase(unit));
}

/// What a shopping-list line is keyed by: the lower-cased ingredient name and
/// the unit its quantity accumulates in.
#[derive(Clone, Debug)]
pub struct IngredientKey {
    pub name: String,
    pub unit: String,
}

impl View for IngredientKey {
    type V = (Seq<char>, Seq<char>);

    open spec fn view(&self) -> (Seq<char>, Seq<char>) {
        (self.name@, self.unit@)
    }
}

/// The key of an ingredient written with `name` and `unit`.
pub open spec fn spec_ingredient_key(name: Seq<char>, unit: Seq<char>) -> (Seq<char>, Seq<char>) {
    (spec_to_lowercase(name), spec_canonical_unit(unit))
}

/// Ingredients whose names lower-case alike and whose units both measure
/// weight, or both volume, share a key and so merge into one line (`"Flour"`
/// in kg and `"flour"` in oz); a weight and a volume never share a key, so
/// they stay on separate lines.
pub proof fn lemma_keys_merge_by_family(n1: Seq<char>, u1: Seq<char>, n2: Seq<char>, u2: Seq<char>)
    requires
        spec_to_lowercase(n1) == spec_to_lowercase(n2),
    ensures
        spec_unit_kind(spec_to_lowercase(u1)).spec_is_weight() && spec_unit_kind(
            spec_to_lowercase(u2),
        ).spec_is_weight() ==> spec_ingredient_key(n1, u1) == spec_ingredient_key(n2, u2),
        spec_unit_kind(spec_to_lowercase(u1)).spec_is_volume() && spec_unit_kind(
            spec_to_lowercase(u2),
        ).spec_is_volume() ==> spec_ingredient_key(n1, u1) == spec_ingredient_key(n2, u2),
        spec_unit_kind(spec_to_lowercase(u1)).spec_is_weight() && spec_unit_kind(
            spec_to_lowercase(u2),
        ).spec_is_volume() ==> spec_ingredient_key(n1, u1) != spec_ingredient_key(n2, u2),
{
    reveal_strlit("g");
    reveal_strlit("ml");
    assert("g"@ != "ml"@) by {
        assert("g"@.len() != "ml"@.len());
    }
}

/// Returns the shopping-list key of an ingredient, and the unit its quantity
/// is written in.
pub fn ingredient_key(name: &str, unit: &str) -> (r: (IngredientKey, UnitKind))
    ensures
        r.0@ == spec_ingredient_key(name@, unit@),
        r.1 == spec_unit_kind(spec_to_lowercase(unit@)),
{
    let (canonical, kind) = normalise_unit(unit);
    (IngredientKey { name: to_lowercase(name), unit: canonical }, kind)
}

/// Returns whether two keys are equal.
pub fn key_eq(a: &IngredientKey, b: &IngredientKey) -> (r: bool)
    ensures
        r == (a@ == b@),
{
    str_eq(a.name.as_str(), b.name.as_str()) && str_eq(a.unit.as_str(), b.unit.as_str())
}

fn clone_key(k: &IngredientKey) -> (r: IngredientKey)
    ensures
        r@ == k@,
{
    IngredientKey { name: k.name.clone(), unit: k.unit.clone() }
}

/// One shopping-list line before quantities are summed: the key shared by
/// its ingredients and their positions in the input, in increasing order.
#[derive(Clone, Debug)]
pub struct IngredientGroup {
    pub key: IngredientKey,
    pub members: Vec<usize>,
}

/// Position `p` is a member of one of `groups`.
pub open spec fn spec_in_some_group(groups: Seq<IngredientGroup>, p: int) -> bool {
    exists|g: int, m: int|
        0 <= g < groups.len() && 0 <= m < groups[g].members@.len() && #[trigger] groups[g].members@[m]
            == p
}

/// `groups` partitions the positions `0..keys.len()` by key: group keys are
/// distinct; every group is non-empty and lists, in increasing order, only
/// positions holding its key; every position belongs to a group; and groups
/// come in the order in which their keys first occur.
pub open spec fn spec_is_grouping(keys: Seq<(Seq<char>, Seq<char>)>, groups: Seq<IngredientGroup>) -> bool {
    &&& forall|g1: int, g2: int|
        0 <= g1 < g2 < groups.len() ==> #[trigger] groups[g1].key@ != #[trigger] groups[g2].key@
    &&& forall|g: int, m: int|
        0 <= g < groups.len() && 0 <= m < groups[g].members@.len() ==> {
            let p = #[trigger] groups[g].members@[m];
            &&& p < keys.len()
            &&& keys[p as int] == groups[g].key@
        }
    &&& forall|g: int, m1: int, m2: int|
        0 <= g < groups.len() && 0 <= m1 < m2 < groups[g].members@.len()
            ==> #[trigger] groups[g].members@[m1] < #[trigger] groups[g].members@[m2]
    &&& forall|p: int| 0 <= p < keys.len() ==> #[trigger] spec_in_some_group(groups, p)
    &&& forall|g: int| 0 <= g < groups.len() ==> (#[trigger] groups[g]).members@.len() > 0
    &&& forall|g1: int, g2: int|
        0 <= g1 < g2 < groups.len() ==> (#[trigger] groups[g1]).members@[0] < (
        #[trigger] groups[g2]).members@[0]
}

/// Groups ingredient keys into shopping-list lines: equal keys merge into one
/// line, and lines keep the order in which their keys first appear.
pub fn group_ingredients(keys: &Vec<IngredientKey>) -> (groups: Vec<IngredientGroup>)
    ensures
        spec_is_grouping(keys@.map_values(|k: IngredientKey| k@), groups@),
{
    let ghost kv = keys@.map_values(|k: IngredientKey| k@);
    let mut groups: Vec<IngredientGroup> = Vec::new();
    let mut i: usize = 0;
    while i < keys.len()
        invariant
            i <= keys@.len(),
            kv == keys@.map_values(|k: IngredientKey| k@),
            spec_is_grouping(kv.take(i as int), groups@),
        decreases keys@.len() - i,
    {
        let ghost old_groups = groups@;
        let ghost prefix = kv.take(i as int);
        let ghost next = kv.take(i + 1);
        assert(next =~= prefix.push(kv[i as int]));
        let mut j: usize = 0;
        let mut found = false;
        while j < groups.len()
            invariant_except_break
                !found,
            invariant
                j <= groups@.len(),
                groups@ == old_groups,
                forall|g: int| 0 <= g < j ==> (#[trigger] groups@[g]).key@ != kv[i as int],
                i < keys@.len(),
                kv == keys@.map_values(|k: IngredientKey| k@),
            ensures
                found ==> j < groups@.len() && groups@[j as int].key@ == kv[i as int],
                !found ==> forall|g: int| 0 <= g < groups@.len() ==> (#[trigger] groups@[g]).key@ != kv[i as int],
                groups@ == old_groups,
            decreases groups@.len() - j,
        {
            assert(kv[i as int] == keys@[i as int]@);
            if key_eq(&groups[j].key, &keys[i]) {
                found = true;
                break;
            }
            j = j + 1;
        }
        if found {
            groups[j].members.push(i);
            proof {
                assert forall|g: int, m: int|
                    0 <= g < groups@.len() && 0 <= m < groups@[g].members@.len() implies {
                        let p = #[trigger] groups@[g].members@[m];
                        &&& p < next.len()
                        &&& next[p as int] == groups@[g].key@
                    } by {
                    if g != j || m < old_groups[g].members@.len() {
                        assert(groups@[g].members@[m] == old_groups[g].members@[m]);
                    }
                }
                assert forall|g: int, m1: int, m2: int|
                    0 <= g < groups@.len() && 0 <= m1 < m2 < groups@[g].members@.len() implies
                        #[trigger] groups@[g].members@[m1] < #[trigger] groups@[g].members@[m2] by {
                    if g == j && m2 == old_groups[g].members@.len() {
                        let p = old_groups[g].members@[m1];
                        assert(p < prefix.len());
                    }
                }
                assert forall|p: int| 0 <= p < next.len() implies #[trigger] spec_in_some_group(
                    groups@,
                    p,
                ) by {
                    if p < i {
                        assert(spec_in_some_group(old_groups, p));
                        let (g, m) = choose|g: int, m: int|
                            0 <= g < old_groups.len() && 0 <= m < old_groups[g].members@.len()
                                && #[trigger] old_groups[g].members@[m] == p;
                        assert(groups@[g].members@[m] == p);
                    } else {
                        let m = old_groups[j as int].members@.len() as int;
                        assert(groups@[j as int].members@[m] == p);
                    }
                }
                assert forall|g: int| 0 <= g < groups@.len() implies (
                #[trigger] groups@[g]).members@.len() > 0 by {
                    assert(old_groups[g].members@.len() > 0);
                }
                assert forall|g1: int, g2: int|
                    0 <= g1 < g2 < groups@.len() implies (#[trigger] groups@[g1]).members@[0] < (
                    #[trigger] groups@[g2]).members@[0] by {
                    assert(old_groups[g1].members@[0] < old_groups[g2].members@[0]);
                    assert(old_groups[g1].members@.len() > 0);
                    assert(old_groups[g2].members@.len() > 0);
                }
            }
        } else {
            let mut members: Vec<usize> = Vec::new();
            members.push(i);
            groups.push(IngredientGroup { key: clone_key(&keys[i]), members });
            proof {
                let n = old_groups.len() as int;
                assert(groups@[n].key@ == kv[i as int]);
                assert forall|g: int, m: int|
                    0 <= g < groups@.len() && 0 <= m < groups@[g].members@.len() implies {
                        let p = #[trigger] groups@[g].members@[m];
                        &&& p < next.len()
                        &&& next[p as int] == groups@[g].key@
                    } by {
                    if g < n {
                        assert(groups@[g] == old_groups[g]);
                    }
                }
                assert forall|p: int| 0 <= p < next.len() implies #[trigger] spec_in_some_group(
                    groups@,
                    p,
                ) by {
                    if p < i {
                        assert(spec_in_some_group(old_groups, p));
                        let (g, m) = choose|g: int, m: int|
                            0 <= g < old_groups.len() && 0 <= m < old_groups[g].members@.len()
                                && #[trigger] old_groups[g].members@[m] == p;
                        assert(groups@[g].members@[m] == p);
                    } else {
                        assert(groups@[n].members@[0] == p);
                    }
                }
                assert forall|g1: int, g2: int|
                    0 <= g1 < g2 < groups@.len() implies (#[trigger] groups@[g1]).members@[0] < (
                    #[trigger] groups@[g2]).members@[0] by {
                    if g2 == n {
                        assert(old_groups[g1].members@.len() > 0);
                        let p = old_groups[g1].members@[0];
                        assert(p < prefix.len());
                    }
                }
            }
        }
        i = i + 1;
    }
    assert(kv.take(keys@.len() as int) =~= kv);
    groups
}

/// Ingredients at equal positions of the key list end up in the same group.
pub proof fn lemma_equal_keys_share_group(
    keys: Seq<(Seq<char>, Seq<char>)>,
    groups: Seq<IngredientGroup>,
    g1: int,
    m1: int,
    g2: int,
    m2: int,
)
    requires
        spec_is_grouping(keys, groups),
        0 <= g1 < groups.len(),
        0 <= g2 < groups.len(),
        0 <= m1 < groups[g1].members@.len(),
        0 <= m2 < groups[g2].members@.len(),
        keys[groups[g1].members@[m1] as int] == keys[groups[g2].members@[m2] as int],
    ensures
        g1 == g2,
{
    let p1 = groups[g1].members@[m1];
    let p2 = groups[g2].members@[m2];
    assert(keys[p1 as int] == groups[g1].key@);
    assert(keys[p2 as int] == groups[g2].key@);
    if g1 < g2 {
        assert(groups[g1].key@ != groups[g2].key@);
    } else if g2 < g1 {
        assert(groups[g2].key@ != groups[g1].key@);
    }
}

/// The first member of a group is the first position holding its key.
pub proof fn lemma_group_starts_at_first_occurrence(
    keys: Seq<(Seq<char>, Seq<char>)>,
    groups: Seq<IngredientGroup>,
    g: int,
    p: int,
)
    requires
        spec_is_grouping(keys, groups),
        0 <= g < groups.len(),
        0 <= p < keys.len(),
        keys[p] == groups[g].key@,
    ensures
        groups[g].members@[0] <= p,
{
    assert(spec_in_some_group(groups, p));
    let (g2, m2) = choose|g2: int, m2: int|
        0 <= g2 < groups.len() && 0 <= m2 < groups[g2].members@.len() && #[trigger] groups[g2].members@[m2]
            == p;
    assert(groups[g].members@.len() > 0);
    assert(keys[groups[g].members@[0] as int] == groups[g].key@);
    lemma_equal_keys_share_group(keys, groups, g, 0, g2, m2);
    if m2 > 0 {
        assert(groups[g].members@[0] < groups[g].members@[m2]);
    }
}

/// The kind of quantity a shopping-list line holds.
#[derive(Clone, Copy, Debug, PartialEq, Eq, Structural)]
pub enum UnitFamily {
    /// Accumulated in grams.
    Weight,
    /// Accumulated in millilitres.
    Volume,
    /// A count or an unrecognised unit, shown as written.
    Count,
}

/// The family of an accumulation unit.
pub open spec fn spec_unit_family(canonical_unit: Seq<char>) -> UnitFamily {
    if canonical_unit == "g"@ {
        UnitFamily::Weight
    } else if canonical_unit == "ml"@ {
        UnitFamily::Volume
    } else {
        UnitFamily::Count
    }
}

/// Returns the family of an accumulation unit: `"g"` is a weight, `"ml"` a
/// volume, anything else a count.
pub fn unit_family(canonical_unit: &str) -> (r: UnitFamily)
    ensures
        r == spec_unit_family(canonical_unit@),
{
    if str_eq(canonical_unit, "g") {
        UnitFamily::Weight
    } else if str_eq(canonical_unit, "ml") {
        UnitFamily::Volume
    } else {
        UnitFamily::Count
    }
}

/// Quantities below this many grams or millilitres are shown in g or ml;
/// from it on, in kg or l.
pub const DISPLAY_THRESHOLD: u32 = 100;

/// Below the threshold, quantities are rounded up to a multiple of this step.
pub const FINE_STEP: u32 = 10;

/// From the threshold on, quantities are rounded up to a multiple of this
/// step and then divided by `LARGE_UNIT_DIVISOR`.
pub const COARSE_STEP: u32 = 100;

/// Grams per kilogram, and millilitres per litre.
pub const LARGE_UNIT_DIVISOR: u32 = 1000;

/// How a line's metric quantity is derived from its accumulated quantity.
#[derive(Clone, Copy, Debug, PartialEq, Eq, Structural)]
pub enum MetricRounding {
    /// Shown as accumulated.
    Exact,
    /// Rounded up to a multiple of `step`, then divided by `divisor`.
    CeilTo { step: u32, divisor: u32 },
}

/// How one shopping-list line is shown.
#[derive(Clone, Debug)]
pub struct DisplayRule {
    /// The unit of the metric quantity.
    pub metric_unit: String,
    /// How the metric quantity is rounded.
    pub rounding: MetricRounding,
    /// The imperial unit, with the exact factor (numerator, denominator) from
    /// the accumulated quantity to it; the imperial quantity is rounded up to
    /// a whole unit. `None` for counts.
    pub imperial: Option<(String, (u32, u32))>,
}

/// The metric unit and rounding of a line of the given family.
pub open spec fn spec_metric_display(
    family: UnitFamily,
    canonical_unit: Seq<char>,
    below_threshold: bool,
) -> (Seq<char>, MetricRounding) {
    match family {
        UnitFamily::Weight => if below_threshold {
            ("g"@, MetricRounding::CeilTo { step: FINE_STEP, divisor: 1 })
        } else {
            ("kg"@, MetricRounding::CeilTo { step: COARSE_STEP, divisor: LARGE_UNIT_DIVISOR })
        },
        UnitFamily::Volume => if below_threshold {
            ("ml"@, MetricRounding::CeilTo { step: FINE_STEP, divisor: 1 })
        } else {
            ("l"@, MetricRounding::CeilTo { step: COARSE_STEP, divisor: LARGE_UNIT_DIVISOR })
        },
        UnitFamily::Count => (canonical_unit, MetricRounding::Exact),
    }
}

/// The imperial unit and factor of a line of the given family:
/// 1 g = 0.035274 oz, 1 ml = 0.033814 fl oz.
pub open spec fn spec_imperial_display(family: UnitFamily) -> Option<(Seq<char>, (u32, u32))> {
    match family {
        UnitFamily::Weight => Some(("oz"@, (35274u32, 1000000u32))),
        UnitFamily::Volume => Some(("fl oz"@, (33814u32, 1000000u32))),
        UnitFamily::Count => None,
    }
}

/// How a line is shown, by what it holds: grams below 100 are shown in g,
/// rounded up to 10; from 100 on in kg, rounded up to 100 g and divided by
/// 1000; millilitres likewise in ml or l; and weights also in oz (factor
/// 0.035274), volumes in fl oz (factor 0.033814). A count is shown as
/// accumulated, in its own unit, without an imperial quantity. The metric
/// unit is the accumulation unit exactly when nothing is divided.
pub proof fn lemma_display_units(unit: Seq<char>, below: bool)
    ensures
        unit == "g"@ && below ==> spec_metric_display(spec_unit_family(unit), unit, below) == (
            "g"@,
            MetricRounding::CeilTo { step: 10, divisor: 1 },
        ),
        unit == "g"@ && !below ==> spec_metric_display(spec_unit_family(unit), unit, below) == (
            "kg"@,
            MetricRounding::CeilTo { step: 100, divisor: 1000 },
        ),
        unit == "g"@ ==> spec_imperial_display(spec_unit_family(unit)) == Some(
            ("oz"@, (35274u32, 1000000u32)),
        ),
        unit == "ml"@ && below ==> spec_metric_display(spec_unit_family(unit), unit, below) == (
            "ml"@,
            MetricRounding::CeilTo { step: 10, divisor: 1 },
        ),
        unit == "ml"@ && !below ==> spec_metric_display(spec_unit_family(unit), unit, below) == (
            "l"@,
            MetricRounding::CeilTo { step: 100, divisor: 1000 },
        ),
        unit == "ml"@ ==> spec_imperial_display(spec_unit_family(unit)) == Some(
            ("fl oz"@, (33814u32, 1000000u32)),
        ),
        unit != "g"@ && unit != "ml"@ ==> spec_metric_display(spec_unit_family(unit), unit, below) == (
            unit,
            MetricRounding::Exact,
        ) && spec_imperial_display(spec_unit_family(unit)) is None,
        spec_metric_display(spec_unit_family(unit), unit, below).1 matches MetricRounding::CeilTo {
            divisor,
            ..
        } ==> (spec_metric_display(spec_unit_family(unit), unit, below).0 == unit <==> divisor == 1),
{
    reveal_strlit("g");
    reveal_strlit("kg");
    reveal_strlit("ml");
    reveal_strlit("l");
    assert("g"@ != "ml"@) by {
        assert("g"@.len() != "ml"@.len());
    }
    assert("kg"@ != "g"@) by {
        assert("kg"@.len() != "g"@.len());
    }
    assert("l"@ != "ml"@) by {
        assert("l"@.len() != "ml"@.len());
    }
}

/// Returns how a line accumulated in `canonical_unit` is shown, given whether
/// its accumulated quantity lies below `DISPLAY_THRESHOLD`.
pub fn display_rule(canonical_unit: &str, below_threshold: bool) -> (r: DisplayRule)
    ensures
        ({
            let family = spec_unit_family(canonical_unit@);
            let (unit, rounding) = spec_metric_display(family, canonical_unit@, below_threshold);
            &&& r.metric_unit@ == unit
            &&& r.rounding == rounding
            &&& match (r.imperial, spec_imperial_display(family)) {
                (Some((u, f)), Some((su, sf))) => u@ == su && f == sf,
                (None, None) => true,
                _ => false,
            }
        }),
{
    match unit_family(canonical_unit) {
        UnitFamily::Weight => {
            let (metric_unit, rounding) = if below_threshold {
                (String::from_str("g"), MetricRounding::CeilTo { step: FINE_STEP, divisor: 1 })
            } else {
                (
                    String::from_str("kg"),
                    MetricRounding::CeilTo { step: COARSE_STEP, divisor: LARGE_UNIT_DIVISOR },
                )
            };
            DisplayRule {
                metric_unit,
                rounding,
                imperial: Some((String::from_str("oz"), (35274, 1000000))),
            }
        },
        UnitFamily::Volume => {
            let (metric_unit, rounding) = if below_threshold {
                (String::from_str("ml"), MetricRounding::CeilTo { step: FINE_STEP, divisor: 1 })
            } else {
                (
                    String::from_str("l"),
                    MetricRounding::CeilTo { step: COARSE_STEP, divisor: LARGE_UNIT_DIVISOR },
                )
            };
            DisplayRule {
                metric_unit,
                rounding,
                imperial: Some((String::from_str("fl oz"), (33814, 1000000))),
            }
        },
        UnitFamily::Count => DisplayRule {
            metric_unit: String::from_str(canonical_unit),
            rounding: MetricRounding::Exact,
            imperial: None,
        },
    }
}

} // verus!
