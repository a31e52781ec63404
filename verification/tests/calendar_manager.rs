use recipe_app::calendar_manager::{
    check_portions, display_rule, group_ingredients, ingredient_key, normalise_unit,
    plan_meal_next, unit_family, validate_range, CalendarError, IngredientKey, MetricRounding,
    PlanMealAction, PlanMealRequest, PlanMealStep, UnitFamily, UnitKind, MAX_ENTRIES_PER_SLOT,
    MAX_MEAL_PLAN_ENTRIES,
};
use recipe_app::model::{CalendarDate, MealEntry, MealSlot};

fn date(y: i32, m: u32, d: u32) -> CalendarDate {
    CalendarDate::from_ymd(y, m, d).unwrap()
}

#[test]
fn test_validate_range_valid() {
    let start = date(2026, 1, 1);
    let end = date(2026, 1, 7);
    assert!(validate_range(start, end).is_ok());
}

#[test]
fn test_validate_range_same_day() {
    let d = date(2026, 1, 1);
    assert!(validate_range(d, d).is_ok());
}

#[test]
fn test_validate_range_invalid() {
    let start = date(2026, 1, 7);
    let end = date(2026, 1, 1);
    assert!(validate_range(start, end).is_err());
}

#[test]
fn validate_range_reports_both_dates() {
    let start = date(2026, 4, 7);
    let end = date(2026, 4, 1);
    assert_eq!(validate_range(start, end), Err(CalendarError::InvalidRange { start, end }));
}

#[test]
fn validate_range_orders_by_year_then_month_then_day() {
    assert!(validate_range(date(2025, 12, 31), date(2026, 1, 1)).is_ok());
    assert!(validate_range(date(2026, 2, 1), date(2026, 1, 31)).is_err());
    assert!(validate_range(date(1970, 1, 1), date(9999, 12, 31)).is_ok());
}

#[test]
fn calendar_date_rejects_days_that_do_not_exist() {
    assert!(CalendarDate::from_ymd(2026, 2, 29).is_none());
    assert!(CalendarDate::from_ymd(2024, 2, 29).is_some());
    assert!(CalendarDate::from_ymd(2100, 2, 29).is_none());
    assert!(CalendarDate::from_ymd(2000, 2, 29).is_some());
    assert!(CalendarDate::from_ymd(2026, 13, 1).is_none());
    assert!(CalendarDate::from_ymd(2026, 4, 31).is_none());
    assert!(CalendarDate::from_ymd(2026, 1, 0).is_none());
}

#[test]
fn portions_must_lie_between_one_and_ten() {
    assert_eq!(check_portions(0), Err(CalendarError::PortionsOutOfRange { portions: 0 }));
    assert_eq!(check_portions(-1), Err(CalendarError::PortionsOutOfRange { portions: -1 }));
    assert!(check_portions(1).is_ok());
    assert!(check_portions(10).is_ok());
    assert_eq!(check_portions(11), Err(CalendarError::PortionsOutOfRange { portions: 11 }));
}

fn request(portions: i64) -> PlanMealRequest {
    PlanMealRequest { date: date(2026, 4, 1), slot: MealSlot::Lunch, recipe_id: 1, portions }
}

#[test]
fn plan_meal_runs_its_checks_in_order() {
    let req = request(2);
    assert_eq!(plan_meal_next(&req, PlanMealStep::Requested), PlanMealAction::LoadRecipe);
    assert_eq!(
        plan_meal_next(&req, PlanMealStep::RecipeChecked { found: true }),
        PlanMealAction::CountAllEntries
    );
    assert_eq!(
        plan_meal_next(&req, PlanMealStep::EntriesCounted { total: 0 }),
        PlanMealAction::CountSlotEntries
    );
    assert_eq!(
        plan_meal_next(&req, PlanMealStep::SlotEntriesCounted { count: 0 }),
        PlanMealAction::Insert(MealEntry {
            id: None,
            date: date(2026, 4, 1),
            slot: MealSlot::Lunch,
            recipe_id: 1,
            portions: 2,
        })
    );
}

#[test]
fn plan_meal_rejects_bad_portions_unknown_recipes_and_full_quotas() {
    assert_eq!(
        plan_meal_next(&request(0), PlanMealStep::Requested),
        PlanMealAction::Reject(CalendarError::PortionsOutOfRange { portions: 0 })
    );
    assert_eq!(
        plan_meal_next(&request(1), PlanMealStep::RecipeChecked { found: false }),
        PlanMealAction::Reject(CalendarError::RecipeNotFound { recipe_id: 1 })
    );
    assert_eq!(
        plan_meal_next(&request(1), PlanMealStep::EntriesCounted { total: MAX_MEAL_PLAN_ENTRIES - 1 }),
        PlanMealAction::CountSlotEntries
    );
    assert_eq!(
        plan_meal_next(&request(1), PlanMealStep::EntriesCounted { total: MAX_MEAL_PLAN_ENTRIES }),
        PlanMealAction::Reject(CalendarError::MealPlanLimitReached)
    );
    assert_eq!(
        plan_meal_next(&request(1), PlanMealStep::SlotEntriesCounted { count: MAX_ENTRIES_PER_SLOT }),
        PlanMealAction::Reject(CalendarError::SlotLimitReached)
    );
    assert_eq!(MAX_MEAL_PLAN_ENTRIES, 1000);
    assert_eq!(MAX_ENTRIES_PER_SLOT, 3);
}

fn converted(unit: &str, quantity: f32) -> (String, f32) {
    let (canonical, kind) = normalise_unit(unit);
    let (num, den) = kind.factor();
    let q = if num == den { quantity } else { quantity * (num as f32 / den as f32) };
    (canonical, q)
}

#[test]
fn test_normalise_unit() {
    let (u, q) = converted("g", 100.0);
    assert_eq!(u, "g"); assert!((q - 100.0).abs() < 0.001);
    let (u, q) = converted("kg", 1.0);
    assert_eq!(u, "g"); assert!((q - 1000.0).abs() < 0.001);
    let (u, q) = converted("oz", 1.0);
    assert_eq!(u, "g"); assert!((q - 28.3495).abs() < 0.001);
    let (u, q) = converted("Oz", 1.0);
    assert_eq!(u, "g"); assert!((q - 28.3495).abs() < 0.001);
    let (u, q) = converted("lb", 1.0);
    assert_eq!(u, "g"); assert!((q - 453.592).abs() < 0.001);
    let (u, q) = converted("lbs", 1.0);
    assert_eq!(u, "g"); assert!((q - 453.592).abs() < 0.001);
    let (u, q) = converted("pounds", 1.0);
    assert_eq!(u, "g"); assert!((q - 453.592).abs() < 0.001);
    let (u, q) = converted("ml", 100.0);
    assert_eq!(u, "ml"); assert!((q - 100.0).abs() < 0.001);
    let (u, q) = converted("l", 1.0);
    assert_eq!(u, "ml"); assert!((q - 1000.0).abs() < 0.001);
    let (u, q) = converted("tsp", 1.0);
    assert_eq!(u, "ml"); assert!((q - 4.92892).abs() < 0.001);
    let (u, q) = converted("tbsp", 1.0);
    assert_eq!(u, "ml"); assert!((q - 14.7868).abs() < 0.001);
    let (u, q) = converted("cup", 1.0);
    assert_eq!(u, "ml"); assert!((q - 236.588).abs() < 0.001);
    let (u, q) = converted("cups", 2.0);
    assert_eq!(u, "ml"); assert!((q - 473.176).abs() < 0.001);
    let (u, q) = converted("clove", 3.0);
    assert_eq!(u, "clove"); assert!((q - 3.0).abs() < 0.001);
    let (u, q) = converted("", 1.0);
    assert_eq!(u, ""); assert!((q - 1.0).abs() < 0.001);
}

#[test]
fn conversion_factors_equal_the_documented_decimals() {
    assert_eq!(UnitKind::Ounce.factor(), (283495, 10000));
    assert_eq!(283495f32 / 10000f32, 28.3495f32);
    assert_eq!(453592f32 / 1000f32, 453.592f32);
    assert_eq!(492892f32 / 100000f32, 4.92892f32);
    assert_eq!(147868f32 / 10000f32, 14.7868f32);
    assert_eq!(236588f32 / 1000f32, 236.588f32);
    assert_eq!(35274f32 / 1000000f32, 0.035274f32);
    assert_eq!(33814f32 / 1000000f32, 0.033814f32);
}

#[test]
fn unit_names_match_case_insensitively_and_unknown_units_keep_their_case() {
    assert_eq!(normalise_unit("KG").1, UnitKind::Kilogram);
    assert_eq!(normalise_unit("Tablespoons").1, UnitKind::Tablespoon);
    assert_eq!(normalise_unit("LITRE").0, "ml");
    assert_eq!(normalise_unit("Clove").0, "Clove");
    assert_eq!(normalise_unit("Clove").1, UnitKind::Other);
}

fn key(name: &str, unit: &str) -> IngredientKey {
    ingredient_key(name, unit).0
}

#[test]
fn ingredient_keys_lowercase_the_name_and_normalise_the_unit() {
    let k = key("Flour", "KG");
    assert_eq!(k.name, "flour");
    assert_eq!(k.unit, "g");
}

#[test]
fn grouping_merges_equal_keys_in_first_occurrence_order() {
    let keys = vec![
        key("Flour", "g"),
        key("Butter", "lb"),
        key("flour", "kg"),
        key("Flour", "cup"),
        key("butter", "oz"),
        key("Garlic", "clove"),
    ];
    let groups = group_ingredients(&keys);
    assert_eq!(groups.len(), 4);
    assert_eq!(groups[0].key.name, "flour");
    assert_eq!(groups[0].key.unit, "g");
    assert_eq!(groups[0].members, vec![0, 2]);
    assert_eq!(groups[1].key.name, "butter");
    assert_eq!(groups[1].members, vec![1, 4]);
    assert_eq!(groups[2].key.unit, "ml");
    assert_eq!(groups[2].members, vec![3]);
    assert_eq!(groups[3].key.unit, "clove");
    assert_eq!(groups[3].members, vec![5]);
}

#[test]
fn grouping_of_nothing_is_empty() {
    assert!(group_ingredients(&Vec::new()).is_empty());
}

#[test]
fn weight_and_volume_of_one_name_stay_separate() {
    let groups = group_ingredients(&vec![key("Flour", "g"), key("Flour", "cup")]);
    assert_eq!(groups.len(), 2);
}

#[test]
fn display_rules_pick_units_steps_and_imperial_factors() {
    assert_eq!(unit_family("g"), UnitFamily::Weight);
    assert_eq!(unit_family("ml"), UnitFamily::Volume);
    assert_eq!(unit_family("clove"), UnitFamily::Count);

    let small = display_rule("g", true);
    assert_eq!(small.metric_unit, "g");
    assert_eq!(small.rounding, MetricRounding::CeilTo { step: 10, divisor: 1 });
    assert_eq!(small.imperial, Some(("oz".to_string(), (35274, 1000000))));

    let large = display_rule("ml", false);
    assert_eq!(large.metric_unit, "l");
    assert_eq!(large.rounding, MetricRounding::CeilTo { step: 100, divisor: 1000 });
    assert_eq!(large.imperial, Some(("fl oz".to_string(), (33814, 1000000))));

    let count = display_rule("clove", false);
    assert_eq!(count.metric_unit, "clove");
    assert_eq!(count.rounding, MetricRounding::Exact);
    assert_eq!(count.imperial, None);
}

#[test]
fn calendar_refusals_are_reported_with_the_documented_texts() {
    let e = validate_range(date(2024, 1, 5), date(2024, 1, 1)).unwrap_err();
    assert_eq!(e.message(), "Invalid date range: start (2024-01-05) is after end (2024-01-01)");
    assert_eq!(
        CalendarError::PortionsOutOfRange { portions: 0 }.message(),
        "portions must be between 1 and 10"
    );
    assert_eq!(CalendarError::RecipeNotFound { recipe_id: -3 }.message(), "Recipe with ID -3 not found");
    assert_eq!(CalendarError::MealPlanLimitReached.message(), "Meal plan limit of 1000 entries reached");
    assert_eq!(CalendarError::SlotLimitReached.message(), "Slot limit of 3 entries reached");
}
