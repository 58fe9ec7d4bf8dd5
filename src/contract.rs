//! The shop's operations: the owner gate, prices, restocking and purchases.
use crate::coffee_state::{seed_ledger, seed_recipes, CoffeeState};
use crate::error::ContractError;
use crate::ledger::{
    debit,
    debited,
    has_zero_weight,
    restock,
    restock_overflows,
    restocked,
    sufficient,
    sufficient_for,
};
use crate::products::{
    requirement,
    requirement_fits,
    required_weight,
    CoffeeCup,
    CoffeeRecipe,
    Ingredient,
    IngredientCupShare,
    IngredientPortion,
    IngredientsResponse,
    MenuResponse,
    OwnerResponse,
    PriceResponse,
    RecipesResponse,
    AVERAGE_CUP_WEIGHT,
    SHARE_PRECISION,
};
use crate::state::State;
use vstd::prelude::*;
use vstd::string::*;

verus! {

/// The price of every product on a new menu.
pub const DEFAULT_PRICE: u128 = 1000;

pub const CAPPUCCINO: &'static str = "Cappuccino";

pub const LATE: &'static str = "Late";

pub const AMERICANO: &'static str = "Americano";

/// A settled purchase: what was bought, by whom, and what it costs.
#[derive(Debug, Clone, PartialEq)]
pub struct Purchase {
    pub product_id: u128,
    pub cup_count: u128,
    pub buyer: String,
    pub total_price: u128,
}

/// Why the token service would refuse to move `amount` from the buyer to the
/// shop, given the buyer's balance and what the buyer allowed the shop to
/// spend: the allowance is checked first, as the token does.
pub open spec fn payment_error(balance: int, allowance: int, amount: int) -> Option<ContractError> {
    if allowance < amount {
        Some(ContractError::NoAllowance)
    } else if balance < amount {
        Some(ContractError::NotEnoughFunds)
    } else {
        None
    }
}

/// The first step at which buying `cup_amount` cups of product `id` fails,
/// or `None` where the purchase goes through.
pub open spec fn purchase_error(
    cs: CoffeeState,
    id: int,
    cup_amount: int,
    balance: int,
    allowance: int,
) -> Option<ContractError> {
    let total_weight = cup_amount * AVERAGE_CUP_WEIGHT;
    if !cs.valid_id(id) {
        Some(ContractError::InvalidParam)
    } else if total_weight > u128::MAX || !requirement_fits(
        cs.recipe_of(id),
        total_weight,
        SHARE_PRECISION as int,
    ) {
        Some(ContractError::InternalError)
    } else if !sufficient(
        cs.ingredient_portions@,
        requirement(cs.recipe_of(id), total_weight, SHARE_PRECISION as int),
    ) {
        Some(ContractError::NotEnoughIngredients)
    } else if cup_amount * cs.price_of(id) > u128::MAX {
        Some(ContractError::InternalError)
    } else {
        payment_error(balance, allowance, cup_amount * cs.price_of(id))
    }
}

/// Creates a shop owned by `owner` and paid in the token at
/// `coffee_token_addr`, with the seed menu at the default price, the seed
/// recipes and an empty ledger.
pub fn instantiate(owner: String, coffee_token_addr: String) -> (r: (State, CoffeeState))
    ensures
        r.0.owner@ == owner@,
        r.0.balance == 0,
        r.0.coffee_token_addr@ == coffee_token_addr@,
        r.1.wf(),
        r.1.menu@.len() == 3,
        r.1.menu@[0].name@ == CAPPUCCINO@,
        r.1.menu@[1].name@ == LATE@,
        r.1.menu@[2].name@ == AMERICANO@,
        forall|i: int| 0 <= i < 3 ==> #[trigger] r.1.menu@[i].price == DEFAULT_PRICE,
        r.1.recipes@.map_values(|c: CoffeeRecipe| c.ingredients@) == seed_recipes(),
        r.1.ingredient_portions@ == seed_ledger(),
{
    let state = State { owner, balance: 0, coffee_token_addr };
    let ingredient_portions = vec![
        IngredientPortion { ingredient: Ingredient::Beans, weight: 0 },
        IngredientPortion { ingredient: Ingredient::Water, weight: 0 },
        IngredientPortion { ingredient: Ingredient::Milk, weight: 0 },
        IngredientPortion { ingredient: Ingredient::Sugar, weight: 0 },
    ];
    let menu = vec![
        CoffeeCup { name: String::from_str(CAPPUCCINO), price: DEFAULT_PRICE },
        CoffeeCup { name: String::from_str(LATE), price: DEFAULT_PRICE },
        CoffeeCup { name: String::from_str(AMERICANO), price: DEFAULT_PRICE },
    ];
    let recipes = vec![
        CoffeeRecipe {
            ingredients: vec![
                IngredientCupShare { ingredient_type: Ingredient::Water, share: 45 },
                IngredientCupShare { ingredient_type: Ingredient::Beans, share: 25 },
                IngredientCupShare { ingredient_type: Ingredient::Milk, share: 25 },
                IngredientCupShare { ingredient_type: Ingredient::Sugar, share: 5 },
            ],
        },
        CoffeeRecipe {
            ingredients: vec![
                IngredientCupShare { ingredient_type: Ingredient::Beans, share: 2 },
                IngredientCupShare { ingredient_type: Ingredient::Water, share: 45 },
                IngredientCupShare { ingredient_type: Ingredient::Beans, share: 25 },
            ],
        },
        CoffeeRecipe {
            ingredients: vec![
                IngredientCupShare { ingredient_type: Ingredient::Water, share: 70 },
                IngredientCupShare { ingredient_type: Ingredient::Beans, share: 25 },
                IngredientCupShare { ingredient_type: Ingredient::Sugar, share: 5 },
            ],
        },
    ];
    let coffee_state = CoffeeState { menu, recipes, ingredient_portions };
    proof {
        let kinds = crate::ledger::kinds_of(coffee_state.ingredient_portions@);
        assert(coffee_state.ingredient_portions@ =~= seed_ledger());
        assert(kinds =~= seq![Ingredient::Beans, Ingredient::Water, Ingredient::Milk, Ingredient::Sugar]);
        assert forall|k: Ingredient| kinds.contains(k) by {
            match k {
                Ingredient::Beans => assert(kinds[0] == k),
                Ingredient::Water => assert(kinds[1] == k),
                Ingredient::Milk => assert(kinds[2] == k),
                Ingredient::Sugar => assert(kinds[3] == k),
            }
        }
        assert(coffee_state.recipes@.map_values(|c: CoffeeRecipe| c.ingredients@) =~= seed_recipes());
    }
    (state, coffee_state)
}

/// The owner gate in front of every mutation but a purchase.
pub fn check_owner(state: &State, sender: &String) -> (r: Result<(), ContractError>)
    ensures
        r is Ok <==> sender@ == state.owner@,
        r is Err ==> r->Err_0 == ContractError::Unauthorized,
{
    if *sender == state.owner {
        Ok(())
    } else {
        Err(ContractError::Unauthorized)
    }
}

/// Sets the unit price of product `id`. Only the owner may, and only to a
/// price above zero for a product on the menu; otherwise nothing changes.
pub fn set_price(
    state: &State,
    coffee_state: &mut CoffeeState,
    sender: &String,
    id: u128,
    price: u128,
) -> (r: Result<(), ContractError>)
    requires
        old(coffee_state).wf(),
    ensures
        final(coffee_state).wf(),
        sender@ != state.owner@ ==> r == Err::<(), ContractError>(ContractError::Unauthorized),
        sender@ == state.owner@ && !(old(coffee_state).valid_id(id as int) && price > 0) ==> r
            == Err::<(), ContractError>(ContractError::InvalidParam),
        r is Ok <==> sender@ == state.owner@ && old(coffee_state).valid_id(id as int) && price > 0,
        r is Ok ==> final(coffee_state).menu@ == old(coffee_state).menu@.update(
            id - 1,
            (CoffeeCup { name: old(coffee_state).menu@[id - 1].name, price }),
        ),
        r is Ok ==> final(coffee_state).recipes == old(coffee_state).recipes,
        r is Ok ==> final(coffee_state).ingredient_portions == old(coffee_state).ingredient_portions,
        r is Err ==> *final(coffee_state) == *old(coffee_state),
{
    check_owner(state, sender)?;
    if id == 0 || id > coffee_state.menu.len() as u128 || price == 0 {
        return Err(ContractError::InvalidParam);
    }
    let index = (id - 1) as usize;
    coffee_state.menu[index].price = price;
    Ok(())
}

/// Adds `portions` to the ledger. Only the owner may; a portion that weighs
/// nothing, or a total that would leave `u128`, refuses the whole restock and
/// nothing changes.
pub fn load_ingredients(
    state: &State,
    coffee_state: &mut CoffeeState,
    sender: &String,
    portions: Vec<IngredientPortion>,
) -> (r: Result<(), ContractError>)
    requires
        old(coffee_state).wf(),
    ensures
        final(coffee_state).wf(),
        sender@ != state.owner@ ==> r == Err::<(), ContractError>(ContractError::Unauthorized),
        sender@ == state.owner@ && has_zero_weight(portions@) ==> r == Err::<(), ContractError>(
            ContractError::InvalidParam,
        ),
        sender@ == state.owner@ && !has_zero_weight(portions@) && restock_overflows(
            old(coffee_state).ingredient_portions@,
            portions@,
        ) ==> r == Err::<(), ContractError>(ContractError::InternalError),
        r is Ok <==> sender@ == state.owner@ && !has_zero_weight(portions@) && !restock_overflows(
            old(coffee_state).ingredient_portions@,
            portions@,
        ),
        r is Ok ==> final(coffee_state).ingredient_portions@ == restocked(
            old(coffee_state).ingredient_portions@,
            portions@,
        ),
        r is Ok ==> final(coffee_state).menu == old(coffee_state).menu,
        r is Ok ==> final(coffee_state).recipes == old(coffee_state).recipes,
        r is Err ==> *final(coffee_state) == *old(coffee_state),
{
    check_owner(state, sender)?;
    let ghost before = coffee_state.ingredient_portions@;
    let r = restock(&mut coffee_state.ingredient_portions, &portions);
    proof {
        if r is Ok {
            assert(crate::ledger::kinds_of(coffee_state.ingredient_portions@) =~= crate::ledger::kinds_of(before));
        }
    }
    r
}

/// Whether the buyer can pay `amount`: refused without allowance for it,
/// then without the balance for it.
pub fn check_funds(balance: u128, allowance: u128, amount: u128) -> (r: Result<(), ContractError>)
    ensures
        r is Ok <==> payment_error(balance as int, allowance as int, amount as int) is None,
        r is Err ==> payment_error(balance as int, allowance as int, amount as int) == Some(
            r->Err_0,
        ),
{
    if allowance < amount {
        Err(ContractError::NoAllowance)
    } else if balance < amount {
        Err(ContractError::NotEnoughFunds)
    } else {
        Ok(())
    }
}

/// Sells `cup_amount` cups of product `id` to `sender`, who holds `balance`
/// tokens and allows the shop to spend `allowance` of them. The product must
/// be on the menu, the ledger must hold what the order needs of every kind,
/// and the buyer must be able to pay `price * cup_amount`; then, and only
/// then, the ledger is debited and the purchase returned for payment.
pub fn buy_coffee(
    coffee_state: &mut CoffeeState,
    sender: &String,
    id: u128,
    cup_amount: u128,
    balance: u128,
    allowance: u128,
) -> (r: Result<Purchase, ContractError>)
    requires
        old(coffee_state).wf(),
    ensures
        final(coffee_state).wf(),
        !old(coffee_state).valid_id(id as int) ==> r == Err::<Purchase, ContractError>(
            ContractError::InvalidParam,
        ),
        r is Ok <==> purchase_error(
            *old(coffee_state),
            id as int,
            cup_amount as int,
            balance as int,
            allowance as int,
        ) is None,
        r is Err ==> purchase_error(
            *old(coffee_state),
            id as int,
            cup_amount as int,
            balance as int,
            allowance as int,
        ) == Some(r->Err_0),
        r is Err ==> *final(coffee_state) == *old(coffee_state),
        r is Ok ==> final(coffee_state).ingredient_portions@ == debited(
            old(coffee_state).ingredient_portions@,
            requirement(
                old(coffee_state).recipe_of(id as int),
                cup_amount * AVERAGE_CUP_WEIGHT,
                SHARE_PRECISION as int,
            ),
        ),
        r is Ok ==> final(coffee_state).menu == old(coffee_state).menu,
        r is Ok ==> final(coffee_state).recipes == old(coffee_state).recipes,
        r is Ok ==> r->Ok_0.product_id == id && r->Ok_0.cup_count == cup_amount
            && r->Ok_0.buyer@ == sender@ && r->Ok_0.total_price == cup_amount * old(
            coffee_state,
        ).price_of(id as int),
{
    if id == 0 || id > coffee_state.menu.len() as u128 {
        return Err(ContractError::InvalidParam);
    }
    let index = (id - 1) as usize;
    let required = match required_weight(
        &coffee_state.recipes[index],
        cup_amount,
        AVERAGE_CUP_WEIGHT,
        SHARE_PRECISION,
    ) {
        Ok(w) => w,
        Err(e) => {
            return Err(e);
        },
    };
    if !sufficient_for(&coffee_state.ingredient_portions, &required) {
        return Err(ContractError::NotEnoughIngredients);
    }
    let total_price = match cup_amount.checked_mul(coffee_state.menu[index].price) {
        Some(t) => t,
        None => {
            return Err(ContractError::InternalError);
        },
    };
    match check_funds(balance, allowance, total_price) {
        Ok(()) => {},
        Err(e) => {
            return Err(e);
        },
    }
    let ghost before = coffee_state.ingredient_portions@;
    debit(&mut coffee_state.ingredient_portions, &required);
    assert(crate::ledger::kinds_of(coffee_state.ingredient_portions@) =~= crate::ledger::kinds_of(
        before,
    ));
    Ok(Purchase { product_id: id, cup_count: cup_amount, buyer: sender.clone(), total_price })
}

/// How much the owner may withdraw of the shop's token `balance`: all of it,
/// if there is any.
pub fn transfer_tokens_to_owner(state: &State, sender: &String, balance: u128) -> (r: Result<
    u128,
    ContractError,
>)
    ensures
        sender@ != state.owner@ ==> r == Err::<u128, ContractError>(ContractError::Unauthorized),
        sender@ == state.owner@ && balance == 0 ==> r == Err::<u128, ContractError>(
            ContractError::NotEnoughFunds,
        ),
        sender@ == state.owner@ && balance > 0 ==> r == Ok::<u128, ContractError>(balance),
{
    check_owner(state, sender)?;
    if balance == 0 {
        return Err(ContractError::NotEnoughFunds);
    }
    Ok(balance)
}

/// Who owns the shop.
pub fn query_owner(state: &State) -> (r: OwnerResponse)
    ensures
        r.owner@ == state.owner@,
{
    OwnerResponse { owner: state.owner.clone() }
}

/// The owner's identity.
pub fn get_owner(state: &State) -> (r: String)
    ensures
        r@ == state.owner@,
{
    query_owner(state).owner
}

/// The unit price of product `id`, which must be on the menu.
pub fn query_price(coffee_state: &CoffeeState, id: u128) -> (r: Result<PriceResponse, ContractError>)
    ensures
        r is Ok <==> coffee_state.valid_id(id as int),
        r is Ok ==> r->Ok_0.price == coffee_state.price_of(id as int),
        r is Err ==> r->Err_0 == ContractError::InvalidParam,
{
    if id == 0 || id > coffee_state.menu.len() as u128 {
        return Err(ContractError::InvalidParam);
    }
    Ok(PriceResponse { price: coffee_state.menu[(id - 1) as usize].price })
}

/// The menu, in product id order.
pub fn query_menu(coffee_state: CoffeeState) -> (r: MenuResponse)
    ensures
        r.menu@ == coffee_state.menu@,
{
    MenuResponse { menu: coffee_state.menu }
}

/// The menu's products.
pub fn get_menu(coffee_state: CoffeeState) -> (r: Vec<CoffeeCup>)
    ensures
        r@ == coffee_state.menu@,
{
    query_menu(coffee_state).menu
}

/// The recipes, in product id order.
pub fn query_recipes(coffee_state: CoffeeState) -> (r: RecipesResponse)
    ensures
        r.recipes@ == coffee_state.recipes@,
{
    RecipesResponse { recipes: coffee_state.recipes }
}

/// The ingredient ledger.
pub fn query_ingredients(coffee_state: CoffeeState) -> (r: IngredientsResponse)
    ensures
        r.ingredients@ == coffee_state.ingredient_portions@,
{
    IngredientsResponse { ingredients: coffee_state.ingredient_portions }
}

/// The ledger's portions.
pub fn get_ingredients(coffee_state: CoffeeState) -> (r: Vec<IngredientPortion>)
    ensures
        r@ == coffee_state.ingredient_portions@,
{
    query_ingredients(coffee_state).ingredients
}

} // verus!
