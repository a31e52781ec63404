use recipe_app::calendar_storage::{
    cooked_entries_from_rows, cooked_entry_from_row, date_text, meal_entries_from_rows, meal_entry_from_row,
    parse_slot, CalendarStorageError, CookedRow, MealRow,
};
use recipe_app::model::{CalendarDate, MealEntry, MealSlot};
use recipe_app::storage::{
    check_meal_entry_deleted, check_password_updated, check_recipe_saved, decode_instructions, encode_instructions, user_from_row,
    user_info_from_row, users_exist, StorageError, UserInfoRow, UserRow,
};

fn row(id: i64, date: &str, slot: &str) -> MealRow {
    MealRow { id, date: date.to_string(), slot: slot.to_string(), recipe_id: 3, portions: 2 }
}

#[test]
fn parse_slot_reads_the_three_names() {
    assert_eq!(parse_slot("breakfast").unwrap(), MealSlot::Breakfast);
    assert_eq!(parse_slot("lunch").unwrap(), MealSlot::Lunch);
    assert_eq!(parse_slot("dinner").unwrap(), MealSlot::Dinner);
    assert!(matches!(parse_slot("Dinner"), Err(CalendarStorageError::UnknownSlot { text }) if text == "Dinner"));
    assert!(parse_slot("").is_err());
}

#[test]
fn slot_names_round_trip() {
    for slot in [MealSlot::Breakfast, MealSlot::Lunch, MealSlot::Dinner] {
        assert_eq!(parse_slot(&slot.name()).unwrap(), slot);
        assert_eq!(slot.as_str(), slot.name());
    }
}

#[test]
fn meal_rows_become_entries() {
    let e = meal_entry_from_row(&row(5, "2026-04-01", "lunch")).unwrap();
    assert_eq!(
        e,
        MealEntry {
            id: Some(5),
            date: CalendarDate::from_ymd(2026, 4, 1).unwrap(),
            slot: MealSlot::Lunch,
            recipe_id: 3,
            portions: 2,
        }
    );
}

#[test]
fn an_unreadable_date_is_reported_before_the_slot() {
    let r = meal_entry_from_row(&row(5, "2026-02-30", "brunch"));
    assert!(matches!(r, Err(CalendarStorageError::InvalidDate { text, .. }) if text == "2026-02-30"));
    let r = meal_entry_from_row(&row(5, "2026-02-28", "brunch"));
    assert!(matches!(r, Err(CalendarStorageError::UnknownSlot { text }) if text == "brunch"));
}

#[test]
fn reading_rows_stops_at_the_first_bad_row() {
    let rows = vec![row(1, "2026-04-01", "lunch"), row(2, "not a date", "lunch"), row(3, "2026-04-02", "x")];
    assert!(matches!(meal_entries_from_rows(&rows), Err(CalendarStorageError::InvalidDate { text, .. }) if text == "not a date"));
    let good = vec![row(1, "2026-04-01", "lunch"), row(2, "2026-04-02", "dinner")];
    let entries = meal_entries_from_rows(&good).unwrap();
    assert_eq!(entries.len(), 2);
    assert_eq!(entries[1].id, Some(2));
    assert_eq!(entries[1].slot, MealSlot::Dinner);
    assert!(meal_entries_from_rows(&vec![]).unwrap().is_empty());
}

#[test]
fn cooked_rows_become_entries() {
    let rows = vec![CookedRow { date: "2026-05-01".to_string(), recipe_id: 4 }];
    let entries = cooked_entries_from_rows(&rows).unwrap();
    assert_eq!(entries[0].recipe_id, 4);
    assert_eq!(entries[0].date, CalendarDate::from_ymd(2026, 5, 1).unwrap());
    let bad = vec![CookedRow { date: "2026/05/01".to_string(), recipe_id: 4 }];
    assert!(cooked_entries_from_rows(&bad).is_err());
}

#[test]
fn user_rows_read_flags_and_missing_ids() {
    let u = user_from_row(UserRow { id: None, username: "a".into(), password_hash: "h".into(), is_admin: 1 });
    assert_eq!(u.id, 0);
    assert!(u.is_admin);
    let u = user_from_row(UserRow { id: Some(3), username: "b".into(), password_hash: "h".into(), is_admin: 0 });
    assert_eq!(u.id, 3);
    assert!(!u.is_admin);
    let info = user_info_from_row(UserInfoRow { id: 2, username: "c".into(), is_admin: 2, created_at: "t".into() });
    assert!(info.is_admin);
    assert_eq!(info.created_at, "t");
}

#[test]
fn update_checks_need_a_changed_row() {
    assert_eq!(check_password_updated(0, 999_999), Err(StorageError::UserNotFound { user_id: 999_999 }));
    assert!(check_password_updated(1, 1).is_ok());
    assert_eq!(check_recipe_saved(0, 999_999), Err(StorageError::RecipeNotFound { id: 999_999 }));
    assert!(check_recipe_saved(1, 5).is_ok());
    assert!(users_exist(1));
    assert!(!users_exist(0));
}

#[test]
fn dates_are_stored_as_iso_text_with_signed_years_outside_four_digits() {
    let d = |y, m, dd| CalendarDate::from_ymd(y, m, dd).unwrap();
    assert_eq!(date_text(d(2026, 4, 1)), "2026-04-01");
    assert_eq!(date_text(d(0, 1, 1)), "0000-01-01");
    assert_eq!(date_text(d(9999, 12, 31)), "9999-12-31");
    assert_eq!(date_text(d(10000, 12, 31)), "+10000-12-31");
    assert_eq!(date_text(d(-1, 1, 1)), "-0001-01-01");
}

#[test]
fn a_written_row_reads_back_as_the_entry() {
    for (y, m, dd) in [(2024, 2, 29), (1, 1, 1), (10000, 6, 7), (-44, 3, 15)] {
        let date = CalendarDate::from_ymd(y, m, dd).unwrap();
        for slot in [MealSlot::Breakfast, MealSlot::Lunch, MealSlot::Dinner] {
            let stored = MealRow { id: 9, date: date_text(date), slot: slot.name(), recipe_id: 4, portions: 3 };
            assert_eq!(
                meal_entry_from_row(&stored).unwrap(),
                MealEntry { id: Some(9), date, slot, recipe_id: 4, portions: 3 }
            );
        }
        let cooked = cooked_entry_from_row(&CookedRow { date: date_text(date), recipe_id: 4 }).unwrap();
        assert_eq!(cooked.date, date);
    }
}

#[test]
fn instructions_are_stored_as_a_json_list_of_strings() {
    assert_eq!(encode_instructions(&vec![]), "[]");
    assert_eq!(encode_instructions(&vec!["Boil".to_string(), "Serve".to_string()]), r#"["Boil","Serve"]"#);
    assert_eq!(
        encode_instructions(&vec!["say \"hi\"\\\n\t\u{1}/é".to_string()]),
        r#"["say \"hi\"\\\n\t\u0001/é"]"#
    );
}

#[test]
fn stored_instructions_read_back_unchanged() {
    let steps = vec!["Mix \"a\" and b".to_string(), String::new(), "line\nbreak\u{1f}".to_string()];
    assert_eq!(decode_instructions(&encode_instructions(&steps)).unwrap(), steps);
    assert!(decode_instructions("not json").is_err());
    assert!(decode_instructions("[1, 2]").is_err());
    assert_eq!(decode_instructions(" [ \"a\" , \"b\" ] ").unwrap(), vec!["a", "b"]);
}

#[test]
fn stored_date_texts_sort_as_the_dates_for_four_digit_years() {
    let t = |y, m, dd| date_text(CalendarDate::from_ymd(y, m, dd).unwrap());
    assert!(t(2024, 2, 29) < t(2024, 3, 1));
    assert!(t(2023, 12, 31) < t(2024, 1, 1));
    assert!(t(999, 9, 9) < t(1000, 1, 1));
    assert!(t(2024, 1, 10) > t(2024, 1, 9));
    // A signed year of five digits sorts before 9999, unlike its date.
    assert!(t(10000, 1, 1) < t(9999, 1, 1));
}

#[test]
fn storage_refusals_are_reported_with_the_documented_texts() {
    assert_eq!(StorageError::UserNotFound { user_id: 12 }.message(), "User with ID 12 not found");
    assert_eq!(StorageError::RecipeNotFound { id: 999999 }.message(), "Recipe with ID 999999 not found");
    assert_eq!(parse_slot("brunch").unwrap_err().message(), "Unknown meal slot: 'brunch'");
    let e = meal_entry_from_row(&row(1, "2024-13-01", "lunch")).unwrap_err();
    assert!(e.message().starts_with("Failed to parse date '2024-13-01': "));
    assert!(e.message().len() > "Failed to parse date '2024-13-01': ".len());
}

#[test]
fn deleting_a_planned_meal_must_remove_a_row_to_be_reported_done() {
    assert!(check_meal_entry_deleted(1, 4).is_ok());
    let e = check_meal_entry_deleted(0, 4).unwrap_err();
    assert_eq!(e, StorageError::MealEntryNotFound { id: 4 });
    assert_eq!(e.message(), "Meal entry with ID 4 not found");
}
