//! Business rules applied before anything is stored: recipe validation and
//! the per-user recipe quota, and the rules for user names, passwords and
//! account deletion.
use vstd::prelude::*;
use validator::ValidateUrl;
use crate::text::{decimal_u64, has_whitespace, spec_has_white_space, spec_nat_digits};

verus! {

/// Maximum number of recipes one user may store.
pub const MAX_RECIPES_PER_USER: usize = 500;

/// Bounds on a recipe's fields, in characters or items.
pub const MAX_RECIPE_NAME_CHARS: usize = 200;

pub const MAX_SOURCE_URL_CHARS: usize = 500;

pub const MAX_INGREDIENTS: usize = 50;

pub const MAX_INSTRUCTIONS: usize = 100;

pub const MAX_INGREDIENT_NAME_CHARS: usize = 100;

pub const MAX_UNIT_CHARS: usize = 32;

/// Bounds on account credentials, in characters.
pub const MAX_USERNAME_CHARS: usize = 50;

pub const MIN_PASSWORD_CHARS: usize = 8;

/// The fields of an ingredient that validation reads. The quantity, a
/// floating-point number, enters as the outcome of its own check: whether it
/// is finite and not negative.
#[derive(Clone, Debug)]
pub struct IngredientFields {
    pub name: String,
    pub unit: String,
    pub quantity_ok: bool,
}

/// The fields of a recipe that validation reads.
#[derive(Clone, Debug)]
pub struct RecipeFields {
    pub name: String,
    pub source_url: Option<String>,
    pub ingredients: Vec<IngredientFields>,
    pub instructions: Vec<String>,
}

/// One broken rule of a recipe.
#[derive(Clone, Copy, Debug, PartialEq, Eq, Structural)]
pub enum RecipeViolation {
    /// The name has fewer than 1 or more than `MAX_RECIPE_NAME_CHARS` characters.
    NameLength,
    /// The source URL does not parse as a URL.
    SourceUrlInvalid,
    /// The source URL has more than `MAX_SOURCE_URL_CHARS` characters.
    SourceUrlLength,
    /// The recipe has more than `MAX_INGREDIENTS` ingredients.
    TooManyIngredients,
    /// The ingredient at `index` has a name of fewer than 1 or more than
    /// `MAX_INGREDIENT_NAME_CHARS` characters.
    IngredientNameLength { index: usize },
    /// The ingredient at `index` has a quantity that is not finite or is negative.
    IngredientQuantity { index: usize },
    /// The ingredient at `index` has a unit of more than `MAX_UNIT_CHARS` characters.
    IngredientUnitLength { index: usize },
    /// The recipe has more than `MAX_INSTRUCTIONS` steps.
    TooManyInstructions,
}

/// The decimal digits of a count or position.
pub open spec fn spec_count_text(n: usize) -> Seq<char> {
    spec_nat_digits(n as nat)
}

/// The text of an ingredient's position: `ingredients[i]`.
pub open spec fn spec_position_text(index: usize) -> Seq<char> {
    "ingredients["@ + spec_count_text(index) + "]"@
}

fn count_text(n: usize) -> (r: String)
    ensures
        r@ == spec_count_text(n),
{
    decimal_u64(n as u64)
}

fn position_text(index: usize) -> (r: String)
    ensures
        r@ == spec_position_text(index),
{
    let mut s = String::from_str("ingredients[");
    s.append(count_text(index).as_str());
    s.append("]");
    s
}

impl RecipeViolation {
    /// The text a broken rule is reported with: the field, then the rule.
    pub open spec fn spec_message(self) -> Seq<char> {
        match self {
            RecipeViolation::NameLength => "name: length must be between 1 and "@ + spec_count_text(
                MAX_RECIPE_NAME_CHARS,
            ),
            RecipeViolation::SourceUrlInvalid => "source_url: not a valid URL"@,
            RecipeViolation::SourceUrlLength => "source_url: length must be at most "@ + spec_count_text(
                MAX_SOURCE_URL_CHARS,
            ),
            RecipeViolation::TooManyIngredients => "ingredients: at most "@ + spec_count_text(MAX_INGREDIENTS)
                + " allowed"@,
            RecipeViolation::IngredientNameLength { index } => spec_position_text(index)
                + ".name: length must be between 1 and "@ + spec_count_text(MAX_INGREDIENT_NAME_CHARS),
            RecipeViolation::IngredientQuantity { index } => spec_position_text(index)
                + ".quantity: must be finite and not negative"@,
            RecipeViolation::IngredientUnitLength { index } => spec_position_text(index)
                + ".unit: length must be at most "@ + spec_count_text(MAX_UNIT_CHARS),
            RecipeViolation::TooManyInstructions => "instructions: at most "@ + spec_count_text(
                MAX_INSTRUCTIONS,
            ) + " allowed"@,
        }
    }

    /// Returns the text the broken rule is reported with, such as
    /// `"ingredients[2].unit: length must be at most 32"`.
    pub fn message(&self) -> (r: String)
        ensures
            r@ == self.spec_message(),
    {
        match self {
            RecipeViolation::NameLength => {
                let mut s = String::from_str("name: length must be between 1 and ");
                s.append(count_text(MAX_RECIPE_NAME_CHARS).as_str());
                s
            },
            RecipeViolation::SourceUrlInvalid => String::from_str("source_url: not a valid URL"),
            RecipeViolation::SourceUrlLength => {
                let mut s = String::from_str("source_url: length must be at most ");
                s.append(count_text(MAX_SOURCE_URL_CHARS).as_str());
                s
            },
            RecipeViolation::TooManyIngredients => {
                let mut s = String::from_str("ingredients: at most ");
                s.append(count_text(MAX_INGREDIENTS).as_str());
                s.append(" allowed");
                s
            },
            RecipeViolation::IngredientNameLength { index } => {
                let mut s = position_text(*index);
                s.append(".name: length must be between 1 and ");
                s.append(count_text(MAX_INGREDIENT_NAME_CHARS).as_str());
                s
            },
            RecipeViolation::IngredientQuantity { index } => {
                let mut s = position_text(*index);
                s.append(".quantity: must be finite and not negative");
                s
            },
            RecipeViolation::IngredientUnitLength { index } => {
                let mut s = position_text(*index);
                s.append(".unit: length must be at most ");
                s.append(count_text(MAX_UNIT_CHARS).as_str());
                s
            },
            RecipeViolation::TooManyInstructions => {
                let mut s = String::from_str("instructions: at most ");
                s.append(count_text(MAX_INSTRUCTIONS).as_str());
                s.append(" allowed");
                s
            },
        }
    }
}

/// The texts of `l`, joined by `sep`.
pub open spec fn spec_join(l: Seq<Seq<char>>, sep: Seq<char>) -> Seq<char>
    decreases l.len(),
{
    if l.len() == 0 {
        Seq::empty()
    } else if l.len() == 1 {
        l[0]
    } else {
        spec_join(l.drop_last(), sep) + sep + l.last()
    }
}

/// The messages of a list of broken rules, in order.
pub open spec fn spec_violation_messages(vs: Seq<RecipeViolation>) -> Seq<Seq<char>> {
    vs.map_values(|v: RecipeViolation| v.spec_message())
}

/// Why a recipe could not be added.
#[derive(Clone, Debug)]
pub enum RecipeError {
    /// The recipe breaks these rules (never an empty list).
    Invalid(Vec<RecipeViolation>),
    /// The user already stores `MAX_RECIPES_PER_USER` recipes.
    LimitReached,
}

impl RecipeError {
    /// The text the refusal is reported with.
    pub open spec fn spec_message(self) -> Seq<char> {
        match self {
            RecipeError::Invalid(vs) => "Validation error: "@ + spec_join(
                spec_violation_messages(vs@),
                "; "@,
            ),
            RecipeError::LimitReached => "Recipe limit of "@ + spec_count_text(MAX_RECIPES_PER_USER)
                + " reached"@,
        }
    }

    /// Returns the text the refusal is reported with: `Validation error: `
    /// and the broken rules separated by `; `, or
    /// `Recipe limit of 500 reached`.
    pub fn message(&self) -> (r: String)
        ensures
            r@ == self.spec_message(),
    {
        match self {
            RecipeError::Invalid(vs) => {
                let mut s = String::from_str("Validation error: ");
                let ghost prefix = s@;
                let ghost msgs = spec_violation_messages(vs@);
                let mut i: usize = 0;
                while i < vs.len()
                    invariant
                        i <= vs@.len(),
                        msgs == spec_violation_messages(vs@),
                        s@ == prefix + spec_join(msgs.take(i as int), "; "@),
                    decreases vs@.len() - i,
                {
                    let ghost before = s@;
                    if i > 0 {
                        s.append("; ");
                    }
                    s.append(vs[i].message().as_str());
                    assert(msgs.take(i + 1).drop_last() =~= msgs.take(i as int));
                    assert(msgs.take(i + 1).last() == vs@[i as int].spec_message());
                    if i == 0 {
                        assert(msgs.take(0) =~= Seq::<Seq<char>>::empty());
                    }
                    assert(s@ =~= prefix + spec_join(msgs.take(i + 1), "; "@));
                    i = i + 1;
                }
                assert(msgs.take(vs@.len() as int) =~= msgs);
                s
            },
            RecipeError::LimitReached => {
                let mut s = String::from_str("Recipe limit of ");
                s.append(count_text(MAX_RECIPES_PER_USER).as_str());
                s.append(" reached");
                s
            },
        }
    }
}

/// Whether a text parses as a URL under the `validator` crate's `url` rule
/// (`url::Url::parse` succeeds).
pub uninterp spec fn spec_is_url(s: Seq<char>) -> bool;

/// Checks a text with the `validator` crate's URL rule.
///
/// Trusted: calls `ValidateUrl::validate_url`, which is
/// `url::Url::parse(s).is_ok()`; the result is named by `spec_is_url`.
#[verifier::external_body]
fn url_is_valid(s: &str) -> (r: bool)
    ensures
        r == spec_is_url(s@),
{
    s.validate_url()
}

/// The rules that the ingredient at position `index` breaks, in the order
/// name, quantity, unit.
pub open spec fn spec_ingredient_violations(ing: IngredientFields, index: int) -> Seq<RecipeViolation> {
    (if 1 <= ing.name@.len() <= MAX_INGREDIENT_NAME_CHARS {
        Seq::<RecipeViolation>::empty()
    } else {
        seq![RecipeViolation::IngredientNameLength { index: index as usize }]
    }) + (if ing.quantity_ok {
        Seq::<RecipeViolation>::empty()
    } else {
        seq![RecipeViolation::IngredientQuantity { index: index as usize }]
    }) + (if ing.unit@.len() <= MAX_UNIT_CHARS {
        Seq::<RecipeViolation>::empty()
    } else {
        seq![RecipeViolation::IngredientUnitLength { index: index as usize }]
    })
}

/// The rules that the first `n` ingredients break, ingredient by ingredient.
pub open spec fn spec_ingredients_violations(ings: Seq<IngredientFields>, n: int) -> Seq<
    RecipeViolation,
>
    decreases n,
{
    if n <= 0 {
        Seq::empty()
    } else {
        spec_ingredients_violations(ings, n - 1) + spec_ingredient_violations(ings[n - 1], n - 1)
    }
}

/// The rules of the source URL that a recipe breaks.
pub open spec fn spec_source_url_violations(url: Option<String>) -> Seq<RecipeViolation> {
    match url {
        None => Seq::empty(),
        Some(u) => (if spec_is_url(u@) {
            Seq::<RecipeViolation>::empty()
        } else {
            seq![RecipeViolation::SourceUrlInvalid]
        }) + (if u@.len() <= MAX_SOURCE_URL_CHARS {
            Seq::<RecipeViolation>::empty()
        } else {
            seq![RecipeViolation::SourceUrlLength]
        }),
    }
}

/// Every rule a recipe breaks, in field order: name, source URL, number of
/// ingredients, each ingredient, number of steps.
pub open spec fn spec_recipe_violations(r: RecipeFields) -> Seq<RecipeViolation> {
    (if 1 <= r.name@.len() <= MAX_RECIPE_NAME_CHARS {
        Seq::<RecipeViolation>::empty()
    } else {
        seq![RecipeViolation::NameLength]
    }) + spec_source_url_violations(r.source_url) + (if r.ingredients@.len() <= MAX_INGREDIENTS {
        Seq::<RecipeViolation>::empty()
    } else {
        seq![RecipeViolation::TooManyIngredients]
    }) + spec_ingredients_violations(r.ingredients@, r.ingredients@.len() as int) + (
    if r.instructions@.len() <= MAX_INSTRUCTIONS {
        Seq::<RecipeViolation>::empty()
    } else {
        seq![RecipeViolation::TooManyInstructions]
    })
}

/// Validates a recipe: `Ok` if it breaks no rule, otherwise every rule it
/// breaks.
pub fn validate_recipe(r: &RecipeFields) -> (res: Result<(), Vec<RecipeViolation>>)
    ensures
        res is Ok <==> spec_recipe_violations(*r).len() == 0,
        res matches Err(v) ==> v@ == spec_recipe_violations(*r),
{
    let mut v: Vec<RecipeViolation> = Vec::new();
    let name_len = r.name.as_str().unicode_len();
    if !(1 <= name_len && name_len <= MAX_RECIPE_NAME_CHARS) {
        v.push(RecipeViolation::NameLength);
    }
    match &r.source_url {
        None => {},
        Some(u) => {
            if !url_is_valid(u.as_str()) {
                v.push(RecipeViolation::SourceUrlInvalid);
            }
            if u.as_str().unicode_len() > MAX_SOURCE_URL_CHARS {
                v.push(RecipeViolation::SourceUrlLength);
            }
        },
    }
    if r.ingredients.len() > MAX_INGREDIENTS {
        v.push(RecipeViolation::TooManyIngredients);
    }
    let ghost head = v@;
    assert(head =~= (if 1 <= r.name@.len() <= MAX_RECIPE_NAME_CHARS {
        Seq::<RecipeViolation>::empty()
    } else {
        seq![RecipeViolation::NameLength]
    }) + spec_source_url_violations(r.source_url) + (if r.ingredients@.len() <= MAX_INGREDIENTS {
        Seq::<RecipeViolation>::empty()
    } else {
        seq![RecipeViolation::TooManyIngredients]
    }));
    let mut i: usize = 0;
    while i < r.ingredients.len()
        invariant
            i <= r.ingredients@.len(),
            v@ == head + spec_ingredients_violations(r.ingredients@, i as int),
        decreases r.ingredients@.len() - i,
    {
        let ing = &r.ingredients[i];
        let ghost before = v@;
        let n = ing.name.as_str().unicode_len();
        if !(1 <= n && n <= MAX_INGREDIENT_NAME_CHARS) {
            v.push(RecipeViolation::IngredientNameLength { index: i });
        }
        if !ing.quantity_ok {
            v.push(RecipeViolation::IngredientQuantity { index: i });
        }
        if ing.unit.as_str().unicode_len() > MAX_UNIT_CHARS {
            v.push(RecipeViolation::IngredientUnitLength { index: i });
        }
        assert(v@ =~= before + spec_ingredient_violations(r.ingredients@[i as int], i as int));
        i = i + 1;
    }
    if r.instructions.len() > MAX_INSTRUCTIONS {
        v.push(RecipeViolation::TooManyInstructions);
    }
    assert(v@ =~= spec_recipe_violations(*r));
    if v.len() == 0 {
        Ok(())
    } else {
        Err(v)
    }
}

proof fn lemma_contains_concat(a: Seq<RecipeViolation>, b: Seq<RecipeViolation>, x: RecipeViolation)
    ensures
        (a + b).contains(x) <==> a.contains(x) || b.contains(x),
{
    if a.contains(x) {
        let i = choose|i: int| 0 <= i < a.len() && a[i] == x;
        assert((a + b)[i] == x);
    }
    if b.contains(x) {
        let i = choose|i: int| 0 <= i < b.len() && b[i] == x;
        assert((a + b)[a.len() + i] == x);
    }
    if (a + b).contains(x) {
        let i = choose|i: int| 0 <= i < (a + b).len() && (a + b)[i] == x;
        if i < a.len() {
            assert(a[i] == x);
        } else {
            assert(b[i - a.len()] == x);
        }
    }
}

proof fn lemma_ingredients_rules(ings: Seq<IngredientFields>, n: int, j: usize)
    requires
        0 <= n <= ings.len(),
        ings.len() <= usize::MAX,
    ensures
        spec_ingredients_violations(ings, n).contains(RecipeViolation::IngredientNameLength { index: j })
            <==> (j < n && !(1 <= ings[j as int].name@.len() <= 100)),
        spec_ingredients_violations(ings, n).contains(RecipeViolation::IngredientQuantity { index: j }) <==> (
        j < n && !ings[j as int].quantity_ok),
        spec_ingredients_violations(ings, n).contains(RecipeViolation::IngredientUnitLength { index: j })
            <==> (j < n && ings[j as int].unit@.len() > 32),
        !spec_ingredients_violations(ings, n).contains(RecipeViolation::NameLength),
        !spec_ingredients_violations(ings, n).contains(RecipeViolation::SourceUrlInvalid),
        !spec_ingredients_violations(ings, n).contains(RecipeViolation::SourceUrlLength),
        !spec_ingredients_violations(ings, n).contains(RecipeViolation::TooManyIngredients),
        !spec_ingredients_violations(ings, n).contains(RecipeViolation::TooManyInstructions),
    decreases n,
{
    if n > 0 {
        lemma_ingredients_rules(ings, n - 1, j);
        let ing = ings[n - 1];
        let k = (n - 1) as usize;
        let a = if 1 <= ing.name@.len() <= MAX_INGREDIENT_NAME_CHARS {
            Seq::<RecipeViolation>::empty()
        } else {
            seq![RecipeViolation::IngredientNameLength { index: k }]
        };
        let b = if ing.quantity_ok {
            Seq::<RecipeViolation>::empty()
        } else {
            seq![RecipeViolation::IngredientQuantity { index: k }]
        };
        let c = if ing.unit@.len() <= MAX_UNIT_CHARS {
            Seq::<RecipeViolation>::empty()
        } else {
            seq![RecipeViolation::IngredientUnitLength { index: k }]
        };
        let prev = spec_ingredients_violations(ings, n - 1);
        assert(spec_ingredient_violations(ing, n - 1) == a + b + c);
        assert(spec_ingredients_violations(ings, n) == prev + (a + b + c));
        let xs = seq![
            RecipeViolation::IngredientNameLength { index: j },
            RecipeViolation::IngredientQuantity { index: j },
            RecipeViolation::IngredientUnitLength { index: j },
            RecipeViolation::NameLength,
            RecipeViolation::SourceUrlInvalid,
            RecipeViolation::SourceUrlLength,
            RecipeViolation::TooManyIngredients,
            RecipeViolation::TooManyInstructions,
        ];
        assert forall|t: int| 0 <= t < xs.len() implies ((prev + (a + b + c)).contains(xs[t]) <==> prev.contains(
            xs[t],
        ) || a.contains(xs[t]) || b.contains(xs[t]) || c.contains(xs[t])) by {
            lemma_contains_concat(prev, a + b + c, xs[t]);
            lemma_contains_concat(a + b, c, xs[t]);
            lemma_contains_concat(a, b, xs[t]);
        }
        assert(xs[0] == RecipeViolation::IngredientNameLength { index: j });
        assert(xs[1] == RecipeViolation::IngredientQuantity { index: j });
        assert(xs[2] == RecipeViolation::IngredientUnitLength { index: j });
        assert(xs[3] == RecipeViolation::NameLength);
        assert(xs[4] == RecipeViolation::SourceUrlInvalid);
        assert(xs[5] == RecipeViolation::SourceUrlLength);
        assert(xs[6] == RecipeViolation::TooManyIngredients);
        assert(xs[7] == RecipeViolation::TooManyInstructions);
        if a.len() > 0 {
            assert(a[0] == RecipeViolation::IngredientNameLength { index: k });
        }
        if b.len() > 0 {
            assert(b[0] == RecipeViolation::IngredientQuantity { index: k });
        }
        if c.len() > 0 {
            assert(c[0] == RecipeViolation::IngredientUnitLength { index: k });
        }
    }
}

/// What each rule of a recipe means, with its documented bound: the name has
/// 1 to 200 characters, a source URL parses and has at most 500 characters,
/// there are at most 50 ingredients and 100 steps, and each ingredient has a
/// name of 1 to 100 characters, a finite and not negative quantity and a unit
/// of at most 32 characters. A rule is reported exactly when it is broken, and
/// an ingredient's rule with that ingredient's position; a recipe is accepted
/// exactly when it breaks none.
pub proof fn lemma_recipe_rules(r: RecipeFields, j: usize)
    requires
        r.ingredients@.len() <= usize::MAX,
    ensures
        spec_recipe_violations(r).contains(RecipeViolation::NameLength) <==> !(1 <= r.name@.len() <= 200),
        spec_recipe_violations(r).contains(RecipeViolation::SourceUrlInvalid) <==> (r.source_url matches Some(
            u,
        ) && !spec_is_url(u@)),
        spec_recipe_violations(r).contains(RecipeViolation::SourceUrlLength) <==> (r.source_url matches Some(
            u,
        ) && u@.len() > 500),
        spec_recipe_violations(r).contains(RecipeViolation::TooManyIngredients) <==> r.ingredients@.len() > 50,
        spec_recipe_violations(r).contains(RecipeViolation::TooManyInstructions) <==> r.instructions@.len()
            > 100,
        spec_recipe_violations(r).contains(RecipeViolation::IngredientNameLength { index: j }) <==> (j
            < r.ingredients@.len() && !(1 <= r.ingredients@[j as int].name@.len() <= 100)),
        spec_recipe_violations(r).contains(RecipeViolation::IngredientQuantity { index: j }) <==> (j
            < r.ingredients@.len() && !r.ingredients@[j as int].quantity_ok),
        spec_recipe_violations(r).contains(RecipeViolation::IngredientUnitLength { index: j }) <==> (j
            < r.ingredients@.len() && r.ingredients@[j as int].unit@.len() > 32),
        spec_recipe_violations(r).len() == 0 <==> {
            &&& 1 <= r.name@.len() <= 200
            &&& (r.source_url matches Some(u) ==> spec_is_url(u@) && u@.len() <= 500)
            &&& r.ingredients@.len() <= 50
            &&& r.instructions@.len() <= 100
            &&& forall|i: int|
                0 <= i < r.ingredients@.len() ==> {
                    &&& 1 <= (#[trigger] r.ingredients@[i]).name@.len() <= 100
                    &&& r.ingredients@[i].quantity_ok
                    &&& r.ingredients@[i].unit@.len() <= 32
                }
        },
{
    let ings = r.ingredients@;
    let a = if 1 <= r.name@.len() <= MAX_RECIPE_NAME_CHARS {
        Seq::<RecipeViolation>::empty()
    } else {
        seq![RecipeViolation::NameLength]
    };
    let b = spec_source_url_violations(r.source_url);
    let c = if ings.len() <= MAX_INGREDIENTS {
        Seq::<RecipeViolation>::empty()
    } else {
        seq![RecipeViolation::TooManyIngredients]
    };
    let d = spec_ingredients_violations(ings, ings.len() as int);
    let e = if r.instructions@.len() <= MAX_INSTRUCTIONS {
        Seq::<RecipeViolation>::empty()
    } else {
        seq![RecipeViolation::TooManyInstructions]
    };
    assert(spec_recipe_violations(r) == a + b + c + d + e);
    lemma_ingredients_rules(ings, ings.len() as int, j);
    let xs = seq![
        RecipeViolation::IngredientNameLength { index: j },
        RecipeViolation::IngredientQuantity { index: j },
        RecipeViolation::IngredientUnitLength { index: j },
        RecipeViolation::NameLength,
        RecipeViolation::SourceUrlInvalid,
        RecipeViolation::SourceUrlLength,
        RecipeViolation::TooManyIngredients,
        RecipeViolation::TooManyInstructions,
    ];
    assert forall|t: int| 0 <= t < xs.len() implies ((a + b + c + d + e).contains(xs[t]) <==> a.contains(xs[t])
        || b.contains(xs[t]) || c.contains(xs[t]) || d.contains(xs[t]) || e.contains(xs[t])) by {
        lemma_contains_concat(a + b + c + d, e, xs[t]);
        lemma_contains_concat(a + b + c, d, xs[t]);
        lemma_contains_concat(a + b, c, xs[t]);
        lemma_contains_concat(a, b, xs[t]);
    }
    assert(xs[0] == RecipeViolation::IngredientNameLength { index: j });
    assert(xs[1] == RecipeViolation::IngredientQuantity { index: j });
    assert(xs[2] == RecipeViolation::IngredientUnitLength { index: j });
    assert(xs[3] == RecipeViolation::NameLength);
    assert(xs[4] == RecipeViolation::SourceUrlInvalid);
    assert(xs[5] == RecipeViolation::SourceUrlLength);
    assert(xs[6] == RecipeViolation::TooManyIngredients);
    assert(xs[7] == RecipeViolation::TooManyInstructions);
    if a.len() > 0 {
        assert(a[0] == RecipeViolation::NameLength);
    }
    if c.len() > 0 {
        assert(c[0] == RecipeViolation::TooManyIngredients);
    }
    if e.len() > 0 {
        assert(e[0] == RecipeViolation::TooManyInstructions);
    }
    match r.source_url {
        None => {},
        Some(u) => {
            let b1 = if spec_is_url(u@) {
                Seq::<RecipeViolation>::empty()
            } else {
                seq![RecipeViolation::SourceUrlInvalid]
            };
            let b2 = if u@.len() <= MAX_SOURCE_URL_CHARS {
                Seq::<RecipeViolation>::empty()
            } else {
                seq![RecipeViolation::SourceUrlLength]
            };
            assert(b == b1 + b2);
            assert forall|t: int| 0 <= t < xs.len() implies (b.contains(xs[t]) <==> b1.contains(xs[t])
                || b2.contains(xs[t])) by {
                lemma_contains_concat(b1, b2, xs[t]);
            }
            if b1.len() > 0 {
                assert(b1[0] == RecipeViolation::SourceUrlInvalid);
            }
            if b2.len() > 0 {
                assert(b2[0] == RecipeViolation::SourceUrlLength);
            }
        },
    }
    lemma_recipe_accepted(r);
}

/// A recipe breaks no rule exactly when every rule holds.
proof fn lemma_recipe_accepted(r: RecipeFields)
    requires
        r.ingredients@.len() <= usize::MAX,
    ensures
        spec_recipe_violations(r).len() == 0 <==> {
            &&& 1 <= r.name@.len() <= 200
            &&& (r.source_url matches Some(u) ==> spec_is_url(u@) && u@.len() <= 500)
            &&& r.ingredients@.len() <= 50
            &&& r.instructions@.len() <= 100
            &&& forall|i: int|
                0 <= i < r.ingredients@.len() ==> {
                    &&& 1 <= (#[trigger] r.ingredients@[i]).name@.len() <= 100
                    &&& r.ingredients@[i].quantity_ok
                    &&& r.ingredients@[i].unit@.len() <= 32
                }
        },
{
    lemma_ingredients_empty(r.ingredients@, r.ingredients@.len() as int);
}

/// The ingredients' violations are empty exactly when every ingredient keeps
/// its rules.
proof fn lemma_ingredients_empty(ings: Seq<IngredientFields>, n: int)
    requires
        0 <= n <= ings.len(),
    ensures
        spec_ingredients_violations(ings, n).len() == 0 <==> forall|i: int|
            0 <= i < n ==> {
                &&& 1 <= (#[trigger] ings[i]).name@.len() <= 100
                &&& ings[i].quantity_ok
                &&& ings[i].unit@.len() <= 32
            },
    decreases n,
{
    if n > 0 {
        lemma_ingredients_empty(ings, n - 1);
    }
}

/// Checks the recipe quota, given how many recipes the user stores.
pub fn check_recipe_quota(existing: usize) -> (r: Result<(), RecipeError>)
    ensures
        r is Ok <==> existing < MAX_RECIPES_PER_USER,
        r is Err ==> r matches Err(RecipeError::LimitReached),
{
    if existing >= MAX_RECIPES_PER_USER {
        Err(RecipeError::LimitReached)
    } else {
        Ok(())
    }
}

/// Why an account request was refused.
#[derive(Clone, Debug)]
pub enum UserError {
    /// The user name is empty or longer than `MAX_USERNAME_CHARS` characters.
    UsernameLength,
    /// The user name contains a white-space character.
    UsernameWhitespace,
    /// The password is shorter than `MIN_PASSWORD_CHARS` characters.
    PasswordTooShort,
    /// An administrator tried to delete their own account.
    CannotDeleteSelf,
    /// The current password given with a password change is wrong.
    WrongCurrentPassword,
    /// The stored password hash could not be read; the text says why.
    HashError(String),
}

impl UserError {
    /// The text the refusal is reported with.
    pub open spec fn spec_message(self) -> Seq<char> {
        match self {
            UserError::UsernameLength => "Username must be between 1 and "@ + spec_count_text(MAX_USERNAME_CHARS)
                + " characters"@,
            UserError::UsernameWhitespace => "Username must not contain whitespace"@,
            UserError::PasswordTooShort => "password must be at least "@ + spec_count_text(MIN_PASSWORD_CHARS)
                + " characters"@,
            UserError::CannotDeleteSelf => "You cannot delete your own account"@,
            UserError::WrongCurrentPassword => "Current password is incorrect"@,
            UserError::HashError(t) => t@,
        }
    }

    /// Returns the text the refusal is reported with, such as
    /// `"password must be at least 8 characters"`.
    pub fn message(&self) -> (r: String)
        ensures
            r@ == self.spec_message(),
    {
        match self {
            UserError::UsernameLength => {
                let mut s = String::from_str("Username must be between 1 and ");
                s.append(count_text(MAX_USERNAME_CHARS).as_str());
                s.append(" characters");
                s
            },
            UserError::UsernameWhitespace => String::from_str("Username must not contain whitespace"),
            UserError::PasswordTooShort => {
                let mut s = String::from_str("password must be at least ");
                s.append(count_text(MIN_PASSWORD_CHARS).as_str());
                s.append(" characters");
                s
            },
            UserError::CannotDeleteSelf => String::from_str("You cannot delete your own account"),
            UserError::WrongCurrentPassword => String::from_str("Current password is incorrect"),
            UserError::HashError(t) => t.clone(),
        }
    }
}

/// The answer to a request to create an account, checked in the order user
/// name length, white space in the user name, password length.
pub open spec fn spec_new_user_check(username: Seq<char>, password: Seq<char>) -> Option<UserError> {
    if username.len() == 0 || username.len() > MAX_USERNAME_CHARS {
        Some(UserError::UsernameLength)
    } else if spec_has_white_space(username) {
        Some(UserError::UsernameWhitespace)
    } else if password.len() < MIN_PASSWORD_CHARS {
        Some(UserError::PasswordTooShort)
    } else {
        None
    }
}

/// Checks the credentials of a new account: the user name must have 1 to
/// `MAX_USERNAME_CHARS` characters and no white space, the password at least
/// `MIN_PASSWORD_CHARS` characters.
pub fn validate_new_user(username: &str, password: &str) -> (r: Result<(), UserError>)
    ensures
        r is Ok <==> spec_new_user_check(username@, password@) is None,
        r matches Err(e) ==> spec_new_user_check(username@, password@) == Some(e),
{
    let ulen = username.unicode_len();
    if ulen == 0 || ulen > MAX_USERNAME_CHARS {
        return Err(UserError::UsernameLength);
    }
    if has_whitespace(username) {
        return Err(UserError::UsernameWhitespace);
    }
    check_password_length(password)
}

/// Checks that a new password has at least `MIN_PASSWORD_CHARS` characters.
pub fn check_password_length(password: &str) -> (r: Result<(), UserError>)
    ensures
        r is Ok <==> password@.len() >= MIN_PASSWORD_CHARS,
        r is Err ==> r matches Err(UserError::PasswordTooShort),
{
    if password.unicode_len() < MIN_PASSWORD_CHARS {
        Err(UserError::PasswordTooShort)
    } else {
        Ok(())
    }
}

/// Checks that an administrator is not deleting their own account.
pub fn check_admin_delete(admin_user_id: i64, target_user_id: i64) -> (r: Result<(), UserError>)
    ensures
        r is Ok <==> admin_user_id != target_user_id,
        r is Err ==> r matches Err(UserError::CannotDeleteSelf),
{
    if admin_user_id == target_user_id {
        Err(UserError::CannotDeleteSelf)
    } else {
        Ok(())
    }
}

/// Decides a user's change of their own password from the outcome of
/// checking the current password against the stored hash: the current
/// password must match, then the new one must be long enough.
pub fn check_own_password_change(current: Result<bool, String>, new_password: &str) -> (r: Result<
    (),
    UserError,
>)
    ensures
        r is Ok <==> (current == Ok::<bool, String>(true) && new_password@.len()
            >= MIN_PASSWORD_CHARS),
        current == Ok::<bool, String>(false) ==> r matches Err(UserError::WrongCurrentPassword),
        current matches Err(e) ==> (r matches Err(UserError::HashError(t)) && t == e),
        current == Ok::<bool, String>(true) && r is Err ==> r matches Err(UserError::PasswordTooShort),
{
    match current {
        Ok(true) => check_password_length(new_password),
        Ok(false) => Err(UserError::WrongCurrentPassword),
        Err(e) => Err(UserError::HashError(e)),
    }
}

} // verus!
