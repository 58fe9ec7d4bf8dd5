use crate::error::ContractError;
use crate::ledger::{sufficient, sufficient_for};
use vstd::arithmetic::div_mod::{
    lemma_div_is_ordered,
    lemma_div_multiples_vanish,
    lemma_fundamental_div_mod,
    lemma_mod_pos_bound,
};
use vstd::prelude::*;

verus! {

/// Shares are written in hundredths: 100 is the whole cup.
pub const SHARE_PRECISION: u128 = 100;

/// Weight units that one cup of any product weighs.
pub const AVERAGE_CUP_WEIGHT: u128 = 250;

/// The raw materials that the shop keeps in stock.
#[derive(Debug, Clone, Copy, PartialEq, Eq, Structural)]
pub enum Ingredient {
    Sugar,
    Milk,
    Water,
    Beans,
}

/// The kinds of coffee on the seed menu.
#[derive(Debug, Clone, Copy, PartialEq, Eq, Structural)]
pub enum Coffee {
    Cappuccino,
    Late,
    Americano,
}

/// One line of a recipe: this ingredient makes up `share` hundredths of a cup.
#[derive(Debug, Clone, Copy, PartialEq, Eq, Structural)]
pub struct IngredientCupShare {
    pub ingredient_type: Ingredient,
    pub share: u128,
}

/// A weighed amount of one ingredient.
#[derive(Debug, Clone, Copy, PartialEq, Eq, Structural)]
pub struct IngredientPortion {
    pub ingredient: Ingredient,
    pub weight: u128,
}

/// An ordered recipe; one product has one recipe.
#[derive(Debug, Clone, PartialEq)]
pub struct CoffeeRecipe {
    pub ingredients: Vec<IngredientCupShare>,
}

/// A product on the menu and its price in token base units.
#[derive(Debug, Clone, PartialEq)]
pub struct CoffeeCup {
    pub name: String,
    pub price: u128,
}

/// Who owns the shop.
#[derive(Debug, Clone, PartialEq)]
pub struct OwnerResponse {
    pub owner: String,
}

/// A token balance.
#[derive(Debug, Clone, Copy, PartialEq, Eq, Structural)]
pub struct BalanceResponse {
    pub balance: u128,
}

/// The unit price of one product.
#[derive(Debug, Clone, Copy, PartialEq, Eq, Structural)]
pub struct PriceResponse {
    pub price: u128,
}

/// The menu, in product id order.
#[derive(Debug, Clone, PartialEq)]
pub struct MenuResponse {
    pub menu: Vec<CoffeeCup>,
}

/// The recipes, in product id order.
#[derive(Debug, Clone, PartialEq)]
pub struct RecipesResponse {
    pub recipes: Vec<CoffeeRecipe>,
}

/// The ingredient ledger.
#[derive(Debug, Clone, PartialEq)]
pub struct IngredientsResponse {
    pub ingredients: Vec<IngredientPortion>,
}

/// A weight for each ingredient kind.
#[derive(Debug, Clone, Copy, PartialEq, Eq, Structural)]
pub struct IngredientWeights {
    pub sugar: u128,
    pub milk: u128,
    pub water: u128,
    pub beans: u128,
}

impl IngredientWeights {
    pub open spec fn spec_get(&self, kind: Ingredient) -> u128 {
        match kind {
            Ingredient::Sugar => self.sugar,
            Ingredient::Milk => self.milk,
            Ingredient::Water => self.water,
            Ingredient::Beans => self.beans,
        }
    }

    /// No weight of any kind.
    pub fn zero() -> (r: Self)
        ensures
            forall|k: Ingredient| r.spec_get(k) == 0,
    {
        IngredientWeights { sugar: 0, milk: 0, water: 0, beans: 0 }
    }

    /// The weight held for `kind`.
    #[verifier::when_used_as_spec(spec_get)]
    pub fn get(&self, kind: Ingredient) -> (r: u128)
        ensures
            r == self.spec_get(kind),
    {
        match kind {
            Ingredient::Sugar => self.sugar,
            Ingredient::Milk => self.milk,
            Ingredient::Water => self.water,
            Ingredient::Beans => self.beans,
        }
    }

    /// Replaces the weight held for `kind`, keeping the others.
    pub fn set(&mut self, kind: Ingredient, weight: u128)
        ensures
            final(self).spec_get(kind) == weight,
            forall|k: Ingredient| k != kind ==> final(self).spec_get(k) == old(self).spec_get(k),
    {
        match kind {
            Ingredient::Sugar => self.sugar = weight,
            Ingredient::Milk => self.milk = weight,
            Ingredient::Water => self.water = weight,
            Ingredient::Beans => self.beans = weight,
        }
    }
}

/// Two weight tables that agree on every kind are the same table.
pub proof fn lemma_weights_ext(a: IngredientWeights, b: IngredientWeights)
    requires
        forall|k: Ingredient| a.spec_get(k) == b.spec_get(k),
    ensures
        a == b,
{
    assert(a.spec_get(Ingredient::Sugar) == b.spec_get(Ingredient::Sugar));
    assert(a.spec_get(Ingredient::Milk) == b.spec_get(Ingredient::Milk));
    assert(a.spec_get(Ingredient::Water) == b.spec_get(Ingredient::Water));
    assert(a.spec_get(Ingredient::Beans) == b.spec_get(Ingredient::Beans));
}

/// The weight that an amount of cups calls for of one recipe line.
pub open spec fn share_weight(total_weight: int, share: int, share_precision: int) -> int {
    total_weight * share / share_precision
}

/// Weight of one recipe line for an order of `total_ingredients_weight`,
/// rounded down to a whole weight unit.
pub fn calculate_total_ingredient_weight(
    total_ingredients_weight: u128,
    ingredient_share: u128,
    share_precision: u128,
) -> (r: u128)
    requires
        share_precision > 0,
        total_ingredients_weight * ingredient_share <= u128::MAX,
    ensures
        r == share_weight(
            total_ingredients_weight as int,
            ingredient_share as int,
            share_precision as int,
        ),
{
    total_ingredients_weight * ingredient_share / share_precision
}

/// Weight of `kind` that a recipe calls for in an order of `total_weight`:
/// every line of that kind counts, each rounded down on its own.
pub open spec fn required_for(
    recipe: Seq<IngredientCupShare>,
    total_weight: int,
    share_precision: int,
    kind: Ingredient,
) -> int
    decreases recipe.len(),
{
    if recipe.len() == 0 {
        0
    } else {
        let line = recipe.last();
        let part = if line.ingredient_type == kind {
            share_weight(total_weight, line.share as int, share_precision)
        } else {
            0
        };
        required_for(recipe.drop_last(), total_weight, share_precision, kind) + part
    }
}

/// Every product of a line and every weight per kind fit in `u128`.
pub open spec fn requirement_fits(
    recipe: Seq<IngredientCupShare>,
    total_weight: int,
    share_precision: int,
) -> bool {
    &&& forall|i: int| 0 <= i < recipe.len() ==> total_weight * #[trigger] recipe[i].share <= u128::MAX
    &&& forall|k: Ingredient| #[trigger] required_for(recipe, total_weight, share_precision, k) <= u128::MAX
}

/// The weights per kind that a recipe calls for in an order of `total_weight`.
pub open spec fn requirement(
    recipe: Seq<IngredientCupShare>,
    total_weight: int,
    share_precision: int,
) -> IngredientWeights {
    IngredientWeights {
        sugar: required_for(recipe, total_weight, share_precision, Ingredient::Sugar) as u128,
        milk: required_for(recipe, total_weight, share_precision, Ingredient::Milk) as u128,
        water: required_for(recipe, total_weight, share_precision, Ingredient::Water) as u128,
        beans: required_for(recipe, total_weight, share_precision, Ingredient::Beans) as u128,
    }
}

/// A line never asks for a negative weight.
pub proof fn lemma_share_weight_nonneg(total_weight: int, share: int, share_precision: int)
    requires
        total_weight >= 0,
        share >= 0,
        share_precision > 0,
    ensures
        share_weight(total_weight, share, share_precision) >= 0,
{
    assert(total_weight * share >= 0) by (nonlinear_arith)
        requires
            total_weight >= 0,
            share >= 0,
    ;
    vstd::arithmetic::div_mod::lemma_div_pos_is_pos(total_weight * share, share_precision);
}

/// A recipe never asks for a negative weight of any kind.
pub proof fn lemma_required_for_nonneg(
    recipe: Seq<IngredientCupShare>,
    total_weight: int,
    share_precision: int,
    kind: Ingredient,
)
    requires
        total_weight >= 0,
        share_precision > 0,
    ensures
        required_for(recipe, total_weight, share_precision, kind) >= 0,
    decreases recipe.len(),
{
    if recipe.len() > 0 {
        lemma_required_for_nonneg(recipe.drop_last(), total_weight, share_precision, kind);
        lemma_share_weight_nonneg(total_weight, recipe.last().share as int, share_precision);
    }
}

/// What a prefix of a recipe calls for is at most what the whole recipe calls for.
pub proof fn lemma_required_for_prefix(
    recipe: Seq<IngredientCupShare>,
    total_weight: int,
    share_precision: int,
    kind: Ingredient,
    n: int,
)
    requires
        0 <= n <= recipe.len(),
        total_weight >= 0,
        share_precision > 0,
    ensures
        0 <= required_for(recipe.take(n), total_weight, share_precision, kind) <= required_for(
            recipe,
            total_weight,
            share_precision,
            kind,
        ),
    decreases recipe.len(),
{
    if n == recipe.len() {
        assert(recipe.take(n) =~= recipe);
        lemma_required_for_nonneg(recipe, total_weight, share_precision, kind);
    } else {
        let rest = recipe.drop_last();
        lemma_required_for_prefix(rest, total_weight, share_precision, kind, n);
        assert(rest.take(n) =~= recipe.take(n));
        lemma_share_weight_nonneg(total_weight, recipe.last().share as int, share_precision);
    }
}

/// The weights per kind that `ingredients` call for in an order of
/// `total_weight`, or `None` where a step of the sum leaves `u128`.
pub fn ingredient_requirements(
    ingredients: &Vec<IngredientCupShare>,
    total_weight: u128,
    share_precision: u128,
) -> (r: Option<IngredientWeights>)
    requires
        share_precision > 0,
    ensures
        r.is_some() == requirement_fits(ingredients@, total_weight as int, share_precision as int),
        r.is_some() ==> r.unwrap() == requirement(
            ingredients@,
            total_weight as int,
            share_precision as int,
        ),
{
    let ghost recipe = ingredients@;
    let ghost t = total_weight as int;
    let ghost p = share_precision as int;
    let mut acc = IngredientWeights::zero();
    let mut i: usize = 0;
    while i < ingredients.len()
        invariant
            i <= ingredients.len(),
            recipe == ingredients@,
            t == total_weight,
            p == share_precision,
            share_precision > 0,
            forall|j: int| 0 <= j < i ==> t * #[trigger] recipe[j].share <= u128::MAX,
            forall|k: Ingredient| acc.spec_get(k) == required_for(recipe.take(i as int), t, p, k),
        decreases ingredients.len() - i,
    {
        let line = ingredients[i];
        assert(recipe.take(i + 1).drop_last() =~= recipe.take(i as int));
        match total_weight.checked_mul(line.share) {
            None => {
                return None;
            },
            Some(product) => {
                let part = product / share_precision;
                let held = acc.get(line.ingredient_type);
                match held.checked_add(part) {
                    None => {
                        proof {
                            lemma_required_for_prefix(recipe, t, p, line.ingredient_type, i + 1);
                        }
                        return None;
                    },
                    Some(sum) => {
                        acc.set(line.ingredient_type, sum);
                    },
                }
            },
        }
        i = i + 1;
    }
    assert(recipe.take(i as int) =~= recipe);
    assert forall|k: Ingredient| #[trigger]
        required_for(recipe, t, p, k) <= u128::MAX by {
        assert(acc.spec_get(k) == required_for(recipe.take(i as int), t, p, k));
    }
    proof {
        lemma_weights_ext(acc, requirement(recipe, t, p));
    }
    Some(acc)
}

/// The sum of a recipe's shares.
pub open spec fn share_total(recipe: Seq<IngredientCupShare>) -> int
    decreases recipe.len(),
{
    if recipe.len() == 0 {
        0
    } else {
        share_total(recipe.drop_last()) + recipe.last().share
    }
}

/// No line of the recipe takes more than the whole cup.
pub open spec fn shares_in_range(recipe: Seq<IngredientCupShare>) -> bool {
    forall|i: int| 0 <= i < recipe.len() ==> #[trigger] recipe[i].share <= SHARE_PRECISION
}

/// A recipe fit for the catalog: every share in range, and, where
/// `require_full_share` asks for it, shares that make up exactly one cup.
/// Without it, the part of a cup that no line names is untracked filler.
pub open spec fn recipe_valid(recipe: Seq<IngredientCupShare>, require_full_share: bool) -> bool {
    &&& shares_in_range(recipe)
    &&& require_full_share ==> share_total(recipe) == SHARE_PRECISION
}

/// Whether `recipe` may enter the catalog under the chosen rule.
pub fn validate_recipe(recipe: &CoffeeRecipe, require_full_share: bool) -> (r: bool)
    ensures
        r == recipe_valid(recipe.ingredients@, require_full_share),
{
    let lines = &recipe.ingredients;
    let mut total: u128 = 0;
    let mut i: usize = 0;
    while i < lines.len()
        invariant
            i <= lines.len(),
            lines@ == recipe.ingredients@,
            shares_in_range(lines@.take(i as int)),
            total == share_total(lines@.take(i as int)),
            total <= SHARE_PRECISION * i,
        decreases lines.len() - i,
    {
        let line = lines[i];
        assert(lines@.take(i + 1).drop_last() =~= lines@.take(i as int));
        if line.share > SHARE_PRECISION {
            assert(lines@[i as int] == line);
            return false;
        }
        assert(lines@.take(i + 1)[i as int] == line);
        total = total + line.share;
        i = i + 1;
    }
    assert(lines@.take(i as int) =~= lines@);
    !require_full_share || total == SHARE_PRECISION
}

/// The weights per kind that `cup_count` cups of `recipe` call for: the
/// order weighs `cup_count * average_cup_weight`, and each line takes its
/// share of that, rounded down. A step that leaves `u128` is an
/// `InternalError`.
pub fn required_weight(
    recipe: &CoffeeRecipe,
    cup_count: u128,
    average_cup_weight: u128,
    share_precision: u128,
) -> (r: Result<IngredientWeights, ContractError>)
    requires
        share_precision > 0,
    ensures
        r is Ok <==> cup_count * average_cup_weight <= u128::MAX && requirement_fits(
            recipe.ingredients@,
            cup_count * average_cup_weight,
            share_precision as int,
        ),
        r is Ok ==> r->Ok_0 == requirement(
            recipe.ingredients@,
            cup_count * average_cup_weight,
            share_precision as int,
        ),
        r is Err ==> r->Err_0 == ContractError::InternalError,
{
    match cup_count.checked_mul(average_cup_weight) {
        None => Err(ContractError::InternalError),
        Some(total_weight) => match ingredient_requirements(
            &recipe.ingredients,
            total_weight,
            share_precision,
        ) {
            None => Err(ContractError::InternalError),
            Some(weights) => Ok(weights),
        },
    }
}

/// Whether `portions` hold, of every kind, what `ingredients` call for in an
/// order of `weight`; lines of the same kind add up.
pub fn check_weight(
    ingredients: &Vec<IngredientCupShare>,
    portions: &Vec<IngredientPortion>,
    weight: u128,
    share_precision: u128,
) -> (r: bool)
    requires
        share_precision > 0,
        requirement_fits(ingredients@, weight as int, share_precision as int),
    ensures
        r == sufficient(portions@, requirement(ingredients@, weight as int, share_precision as int)),
{
    match ingredient_requirements(ingredients, weight, share_precision) {
        Some(required) => sufficient_for(portions, &required),
        None => false,
    }
}

/// Twice a quotient is at most the quotient of twice the dividend, and equal
/// to it where the division is exact.
pub proof fn lemma_div_double(x: int, d: int)
    requires
        x >= 0,
        d > 0,
    ensures
        2 * (x / d) <= (2 * x) / d,
        x % d == 0 ==> (2 * x) / d == 2 * (x / d),
{
    let q = x / d;
    lemma_fundamental_div_mod(x, d);
    lemma_mod_pos_bound(x, d);
    assert(d * (2 * q) <= 2 * x) by (nonlinear_arith)
        requires
            x == d * q + x % d,
            x % d >= 0,
    ;
    lemma_div_multiples_vanish(2 * q, d);
    lemma_div_is_ordered(d * (2 * q), 2 * x, d);
    if x % d == 0 {
        assert(2 * x == d * (2 * q)) by (nonlinear_arith)
            requires
                x == d * q + x % d,
                x % d == 0,
        ;
    }
}

/// An order of twice the cups never needs less than twice the weight of any
/// kind; rounding down can only make the larger order need more.
pub proof fn lemma_required_weight_doubling_bound(
    recipe: Seq<IngredientCupShare>,
    cup_count: int,
    average_cup_weight: int,
    share_precision: int,
    kind: Ingredient,
)
    requires
        cup_count >= 0,
        average_cup_weight >= 0,
        share_precision > 0,
    ensures
        2 * required_for(recipe, cup_count * average_cup_weight, share_precision, kind)
            <= required_for(recipe, (2 * cup_count) * average_cup_weight, share_precision, kind),
    decreases recipe.len(),
{
    if recipe.len() > 0 {
        lemma_required_weight_doubling_bound(
            recipe.drop_last(),
            cup_count,
            average_cup_weight,
            share_precision,
            kind,
        );
        let share = recipe.last().share as int;
        let x = cup_count * average_cup_weight * share;
        assert(x >= 0 && (2 * cup_count) * average_cup_weight * share == 2 * x) by (nonlinear_arith)
            requires
                cup_count >= 0,
                average_cup_weight >= 0,
                share >= 0,
                x == cup_count * average_cup_weight * share,
        ;
        lemma_div_double(x, share_precision);
    }
}

/// The weight an order needs is linear in its cups where rounding drops
/// nothing: if every line's part of `cup_count` cups divides exactly, twice
/// the cups need exactly twice the weight of every kind.
pub proof fn lemma_required_weight_doubles(
    recipe: Seq<IngredientCupShare>,
    cup_count: int,
    average_cup_weight: int,
    share_precision: int,
    kind: Ingredient,
)
    requires
        cup_count >= 0,
        average_cup_weight >= 0,
        share_precision > 0,
        forall|i: int|
            0 <= i < recipe.len() ==> (cup_count * average_cup_weight * #[trigger] recipe[i].share)
                % share_precision == 0,
    ensures
        required_for(recipe, (2 * cup_count) * average_cup_weight, share_precision, kind) == 2
            * required_for(recipe, cup_count * average_cup_weight, share_precision, kind),
    decreases recipe.len(),
{
    if recipe.len() > 0 {
        let rest = recipe.drop_last();
        assert forall|i: int| 0 <= i < rest.len() implies (cup_count * average_cup_weight
            * #[trigger] rest[i].share) % share_precision == 0 by {
            assert(rest[i] == recipe[i]);
        }
        lemma_required_weight_doubles(rest, cup_count, average_cup_weight, share_precision, kind);
        let share = recipe.last().share as int;
        let x = cup_count * average_cup_weight * share;
        assert(recipe.last() == recipe[recipe.len() - 1]);
        assert(x >= 0 && (2 * cup_count) * average_cup_weight * share == 2 * x) by (nonlinear_arith)
            requires
                cup_count >= 0,
                average_cup_weight >= 0,
                share >= 0,
                x == cup_count * average_cup_weight * share,
        ;
        lemma_div_double(x, share_precision);
    }
}

} // verus!
