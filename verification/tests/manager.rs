use recipe_app::manager::{
    check_admin_delete, check_own_password_change, check_password_length, check_recipe_quota,
    validate_new_user, validate_recipe, IngredientFields, RecipeError, RecipeFields,
    RecipeViolation, UserError, MAX_RECIPES_PER_USER,
};

fn bare_recipe(name: &str) -> RecipeFields {
    RecipeFields { name: name.to_string(), source_url: None, ingredients: vec![], instructions: vec![] }
}

fn ingredient(name: &str, unit: &str, quantity_ok: bool) -> IngredientFields {
    IngredientFields { name: name.to_string(), unit: unit.to_string(), quantity_ok }
}

#[test]
fn test_add_recipe_valid() {
    assert!(validate_recipe(&bare_recipe("Pasta")).is_ok());
}

#[test]
fn test_add_recipe_name_too_long() {
    let r = validate_recipe(&bare_recipe(&"a".repeat(201)));
    assert_eq!(r, Err(vec![RecipeViolation::NameLength]));
    assert!(validate_recipe(&bare_recipe(&"a".repeat(200))).is_ok());
}

#[test]
fn name_length_counts_characters_not_bytes() {
    assert!(validate_recipe(&bare_recipe(&"é".repeat(200))).is_ok());
}

#[test]
fn test_add_recipe_empty_name() {
    assert_eq!(validate_recipe(&bare_recipe("")), Err(vec![RecipeViolation::NameLength]));
}

#[test]
fn test_add_recipe_invalid_source_url() {
    let mut r = bare_recipe("Soup");
    r.source_url = Some("not-a-url".to_string());
    assert_eq!(validate_recipe(&r), Err(vec![RecipeViolation::SourceUrlInvalid]));
    r.source_url = Some("https://example.com/bread".to_string());
    assert!(validate_recipe(&r).is_ok());
}

#[test]
fn test_add_recipe_source_url_empty_string() {
    let mut r = bare_recipe("Soup");
    r.source_url = Some(String::new());
    assert_eq!(validate_recipe(&r), Err(vec![RecipeViolation::SourceUrlInvalid]));
}

#[test]
fn source_url_longer_than_limit() {
    let mut r = bare_recipe("Soup");
    r.source_url = Some(format!("https://example.com/{}", "a".repeat(500)));
    assert_eq!(validate_recipe(&r), Err(vec![RecipeViolation::SourceUrlLength]));
}

#[test]
fn test_add_recipe_negative_ingredient_quantity() {
    let mut r = bare_recipe("Bad");
    r.ingredients = vec![ingredient("X", "g", false)];
    assert_eq!(validate_recipe(&r), Err(vec![RecipeViolation::IngredientQuantity { index: 0 }]));
}

#[test]
fn ingredient_rules_report_each_position() {
    let mut r = bare_recipe("Stew");
    r.ingredients = vec![
        ingredient("Water", "ml", true),
        ingredient(&"a".repeat(101), &"u".repeat(33), true),
        ingredient("", "", false),
    ];
    assert_eq!(
        validate_recipe(&r),
        Err(vec![
            RecipeViolation::IngredientNameLength { index: 1 },
            RecipeViolation::IngredientUnitLength { index: 1 },
            RecipeViolation::IngredientNameLength { index: 2 },
            RecipeViolation::IngredientQuantity { index: 2 },
        ])
    );
}

#[test]
fn test_add_recipe_too_many_ingredients_and_instructions() {
    let mut r = bare_recipe("Big");
    r.ingredients = (0..51).map(|_| ingredient("Salt", "g", true)).collect();
    r.instructions = (0..101).map(|i| format!("Step {i}")).collect();
    assert_eq!(
        validate_recipe(&r),
        Err(vec![RecipeViolation::TooManyIngredients, RecipeViolation::TooManyInstructions])
    );
    r.ingredients.truncate(50);
    r.instructions.truncate(100);
    assert!(validate_recipe(&r).is_ok());
}

#[test]
fn recipe_quota_allows_up_to_the_limit() {
    assert_eq!(MAX_RECIPES_PER_USER, 500);
    assert!(check_recipe_quota(0).is_ok());
    assert!(check_recipe_quota(499).is_ok());
    assert!(matches!(check_recipe_quota(500), Err(RecipeError::LimitReached)));
}

#[test]
fn test_admin_create_user_valid() {
    assert!(validate_new_user("alice", "securepassword").is_ok());
}

#[test]
fn test_admin_create_user_password_too_short() {
    assert!(matches!(validate_new_user("charlie", "short"), Err(UserError::PasswordTooShort)));
}

#[test]
fn user_names_must_be_short_and_free_of_white_space() {
    assert!(matches!(validate_new_user("", "password"), Err(UserError::UsernameLength)));
    assert!(matches!(validate_new_user(&"a".repeat(51), "password"), Err(UserError::UsernameLength)));
    assert!(validate_new_user(&"a".repeat(50), "password").is_ok());
    assert!(validate_new_user(&"é".repeat(26), "password").is_ok());
    assert!(validate_new_user(&"é".repeat(50), "password").is_ok());
    assert!(matches!(validate_new_user(&"é".repeat(51), "password"), Err(UserError::UsernameLength)));
    assert!(matches!(validate_new_user("bob smith", "password"), Err(UserError::UsernameWhitespace)));
    assert!(matches!(validate_new_user("bob\u{3000}", "password"), Err(UserError::UsernameWhitespace)));
    assert!(matches!(validate_new_user("bob\t", "short"), Err(UserError::UsernameWhitespace)));
}

#[test]
fn password_length_counts_characters() {
    assert!(check_password_length("12345678").is_ok());
    assert!(check_password_length("1234567").is_err());
    assert!(matches!(check_password_length("éééé"), Err(UserError::PasswordTooShort)));
    assert!(matches!(validate_new_user("alice", "éééé"), Err(UserError::PasswordTooShort)));
    assert!(matches!(check_own_password_change(Ok(true), "éééé"), Err(UserError::PasswordTooShort)));
    assert!(check_password_length("éééééééé").is_ok());
}

#[test]
fn admins_cannot_delete_themselves() {
    assert!(matches!(check_admin_delete(1, 1), Err(UserError::CannotDeleteSelf)));
    assert!(check_admin_delete(1, 2).is_ok());
}

#[test]
fn own_password_change_needs_the_current_password_first() {
    assert!(check_own_password_change(Ok(true), "newpassword1").is_ok());
    assert!(matches!(check_own_password_change(Ok(false), "newpassword1"), Err(UserError::WrongCurrentPassword)));
    assert!(matches!(check_own_password_change(Ok(true), "short"), Err(UserError::PasswordTooShort)));
    assert!(matches!(check_own_password_change(Ok(false), "short"), Err(UserError::WrongCurrentPassword)));
    assert!(matches!(
        check_own_password_change(Err("bad".to_string()), "newpassword1"),
        Err(UserError::HashError(t)) if t == "bad"
    ));
}

#[test]
fn refusals_are_reported_with_the_documented_texts() {
    assert_eq!(RecipeError::LimitReached.message(), "Recipe limit of 500 reached");
    assert!(RecipeError::LimitReached.message().contains("limit"));
    assert_eq!(UserError::UsernameLength.message(), "Username must be between 1 and 50 characters");
    assert_eq!(UserError::UsernameWhitespace.message(), "Username must not contain whitespace");
    assert_eq!(UserError::PasswordTooShort.message(), "password must be at least 8 characters");
    assert_eq!(UserError::CannotDeleteSelf.message(), "You cannot delete your own account");
    assert_eq!(UserError::HashError("bad hash".to_string()).message(), "bad hash");
}

#[test]
fn validation_errors_list_every_broken_rule() {
    let mut r = bare_recipe("");
    r.ingredients = vec![ingredient("", "g", true), ingredient("salt", &"u".repeat(33), false)];
    let vs = validate_recipe(&r).unwrap_err();
    let text = RecipeError::Invalid(vs).message();
    assert_eq!(
        text,
        "Validation error: name: length must be between 1 and 200; \
         ingredients[0].name: length must be between 1 and 100; \
         ingredients[1].quantity: must be finite and not negative; \
         ingredients[1].unit: length must be at most 32"
    );
    assert!(text.contains("Validation"));
    assert_eq!(RecipeViolation::SourceUrlInvalid.message(), "source_url: not a valid URL");
    assert_eq!(RecipeViolation::TooManyInstructions.message(), "instructions: at most 100 allowed");
}

#[test]
fn white_space_in_user_names_is_the_unicode_property() {
    for c in (0u32..=0x10FFFF).filter_map(char::from_u32) {
        let name = format!("a{c}");
        let refused = matches!(validate_new_user(&name, "password"), Err(UserError::UsernameWhitespace));
        assert_eq!(refused, c.is_whitespace(), "{:?}", c);
    }
}
