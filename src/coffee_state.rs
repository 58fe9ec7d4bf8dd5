use crate::ledger::{ledger_is_wf, ledger_wf};
use crate::products::{
    shares_in_range,
    validate_recipe,
    CoffeeCup,
    CoffeeRecipe,
    Ingredient,
    IngredientCupShare,
    IngredientPortion,
};
use vstd::prelude::*;

verus! {

/// One shop's menu, its recipes and its ingredient ledger.
#[derive(Debug, Clone, PartialEq)]
pub struct CoffeeState {
    pub menu: Vec<CoffeeCup>,
    pub recipes: Vec<CoffeeRecipe>,
    pub ingredient_portions: Vec<IngredientPortion>,
}

impl CoffeeState {
    /// Recipes line up with the menu one to one, no recipe line takes more
    /// than a whole cup, and the ledger holds one portion of every kind.
    pub open spec fn wf(&self) -> bool {
        &&& self.menu.len() == self.recipes.len()
        &&& forall|i: int|
            0 <= i < self.recipes.len() ==> shares_in_range(#[trigger] self.recipes@[i].ingredients@)
        &&& ledger_wf(self.ingredient_portions@)
    }

    /// Whether the state keeps its invariant; a state read back from storage
    /// is checked with this before the shop works on it.
    pub fn is_wf(&self) -> (r: bool)
        ensures
            r == self.wf(),
    {
        if self.menu.len() != self.recipes.len() {
            return false;
        }
        let mut i: usize = 0;
        while i < self.recipes.len()
            invariant
                i <= self.recipes.len(),
                forall|m: int|
                    0 <= m < i ==> shares_in_range(#[trigger] self.recipes@[m].ingredients@),
            decreases self.recipes.len() - i,
        {
            if !validate_recipe(&self.recipes[i], false) {
                return false;
            }
            i = i + 1;
        }
        ledger_is_wf(&self.ingredient_portions)
    }

    /// Whether `id` names a product: ids count from 1.
    pub open spec fn valid_id(&self, id: int) -> bool {
        1 <= id <= self.menu.len()
    }

    /// The recipe of product `id`.
    pub open spec fn recipe_of(&self, id: int) -> Seq<IngredientCupShare> {
        self.recipes@[id - 1].ingredients@
    }

    /// The unit price of product `id`.
    pub open spec fn price_of(&self, id: int) -> u128 {
        self.menu@[id - 1].price
    }
}

/// The ledger a new shop starts from: nothing of any kind.
pub open spec fn seed_ledger() -> Seq<IngredientPortion> {
    seq![
        IngredientPortion { ingredient: Ingredient::Beans, weight: 0 },
        IngredientPortion { ingredient: Ingredient::Water, weight: 0 },
        IngredientPortion { ingredient: Ingredient::Milk, weight: 0 },
        IngredientPortion { ingredient: Ingredient::Sugar, weight: 0 },
    ]
}

/// The recipes of the seed menu, in menu order.
pub open spec fn seed_recipes() -> Seq<Seq<IngredientCupShare>> {
    seq![
        seq![
            IngredientCupShare { ingredient_type: Ingredient::Water, share: 45 },
            IngredientCupShare { ingredient_type: Ingredient::Beans, share: 25 },
            IngredientCupShare { ingredient_type: Ingredient::Milk, share: 25 },
            IngredientCupShare { ingredient_type: Ingredient::Sugar, share: 5 },
        ],
        seq![
            IngredientCupShare { ingredient_type: Ingredient::Beans, share: 2 },
            IngredientCupShare { ingredient_type: Ingredient::Water, share: 45 },
            IngredientCupShare { ingredient_type: Ingredient::Beans, share: 25 },
        ],
        seq![
            IngredientCupShare { ingredient_type: Ingredient::Water, share: 70 },
            IngredientCupShare { ingredient_type: Ingredient::Beans, share: 25 },
            IngredientCupShare { ingredient_type: Ingredient::Sugar, share: 5 },
        ],
    ]
}

} // verus!
