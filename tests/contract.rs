use coffee_shop::coffee_state::CoffeeState;
use coffee_shop::contract::{
    buy_coffee, check_funds, check_owner, get_ingredients, get_menu, get_owner, instantiate,
    load_ingredients, query_ingredients, query_menu, query_owner, query_price, query_recipes,
    set_price, transfer_tokens_to_owner, AMERICANO, CAPPUCCINO, DEFAULT_PRICE, LATE,
};
use coffee_shop::products::{
    Ingredient, IngredientCupShare, IngredientPortion, AVERAGE_CUP_WEIGHT, SHARE_PRECISION,
};
use coffee_shop::products::calculate_total_ingredient_weight;
use coffee_shop::state::State;
use coffee_shop::ContractError;

fn portion(ingredient: Ingredient, weight: u128) -> IngredientPortion {
    IngredientPortion { ingredient, weight }
}

fn thousand_each() -> Vec<IngredientPortion> {
    vec![
        portion(Ingredient::Beans, 1000),
        portion(Ingredient::Water, 1000),
        portion(Ingredient::Milk, 1000),
        portion(Ingredient::Sugar, 1000),
    ]
}

fn stocked_shop(owner: &str) -> (State, CoffeeState) {
    let (state, mut coffee_state) = instantiate(owner.to_string(), "addr".to_string());
    load_ingredients(&state, &mut coffee_state, &owner.to_string(), thousand_each()).unwrap();
    (state, coffee_state)
}

#[test]
fn contract_proper_instantiation() {
    let creator = String::from("creator");
    let (state, coffee_state) = instantiate(creator.clone(), "addr".to_string());

    // no balance
    assert_eq!(state.balance, 0);
    // owner
    assert_eq!(query_owner(&state).owner, creator);
    assert_eq!(get_owner(&state), creator);
    assert_eq!(state.coffee_token_addr, "addr");

    let menu = get_menu(coffee_state.clone());
    assert_eq!(menu.len(), 3);
    assert_eq!(menu[0].name, CAPPUCCINO);
    assert_eq!(menu[1].name, LATE);
    assert_eq!(menu[2].name, AMERICANO);
    assert!(menu.iter().all(|c| c.price == DEFAULT_PRICE));
    assert_eq!(query_recipes(coffee_state.clone()).recipes.len(), 3);
    assert!(get_ingredients(coffee_state).iter().all(|p| p.weight == 0));
}

#[test]
fn contract_set_price_test() {
    let creator = String::from("creator");
    let (state, mut coffee_state) = instantiate(creator.clone(), "addr".to_string());

    let zero_value = 0u128;
    let id = 1u128;

    set_price(&state, &mut coffee_state, &creator, id, id).unwrap();

    let menu = query_menu(coffee_state.clone()).menu;

    assert_ne!(menu[zero_value as usize].price, zero_value);
    assert_eq!(menu[id as usize - 1].price, id);

    let res = set_price(&state, &mut coffee_state, &creator, zero_value, zero_value).unwrap_err();
    assert_eq!(res.to_string(), "InvalidParam");

    let menu = get_menu(coffee_state);
    assert_ne!(menu[zero_value as usize].price, zero_value);
}

#[test]
fn should_allow_buy_if_coffee_shop_init() {
    let owner = String::from("owner");
    let alice = String::from("Alice");
    let bob = String::from("Bob");
    let amount = u128::pow(10, 6);
    let alice_balance = amount;
    let allowed_spend_amount = amount * amount;

    let (state, mut coffee_state) = instantiate(owner.clone(), "token".to_string());

    let price = 91u128;
    let coffee_cup_id = 1u128;
    set_price(&state, &mut coffee_state, &owner, coffee_cup_id, price).unwrap();
    assert_eq!(query_price(&coffee_state, coffee_cup_id).unwrap().price, price);

    let portions = thousand_each();

    // user can't load ingredients
    let res = load_ingredients(&state, &mut coffee_state, &alice, portions.clone()).unwrap_err();
    assert_eq!(res.to_string(), "Unauthorized");

    // owner loads ingredients
    load_ingredients(&state, &mut coffee_state, &owner, portions.clone()).unwrap();

    // check the load was successful
    let ingredients = query_ingredients(coffee_state.clone());
    assert_eq!(ingredients.ingredients, portions.clone());

    let cup_amount = 2u128;
    let infinite_amount = u128::pow(10, 22);

    let res = buy_coffee(&mut coffee_state, &bob, coffee_cup_id, infinite_amount, 0, 0).unwrap_err();
    assert_eq!(res.to_string(), "NotEnoughIngredients");

    // user without set allowance can't buy
    let res = buy_coffee(&mut coffee_state, &bob, coffee_cup_id, cup_amount, 0, 0).unwrap_err();
    assert_eq!(res.to_string(), "NotEnoughFunds");

    // user buys coffee successfully
    let purchase = buy_coffee(
        &mut coffee_state,
        &alice,
        coffee_cup_id,
        cup_amount,
        alice_balance,
        allowed_spend_amount,
    )
    .unwrap();
    assert_eq!(purchase.total_price, price * cup_amount);
    assert_eq!(purchase.buyer, alice);

    // check decreasing ingredients portions
    let recipes = query_recipes(coffee_state.clone());
    let ingredients_for_selected_cup: Vec<IngredientCupShare> =
        recipes.recipes[coffee_cup_id as usize - 1].ingredients.clone();

    let total_ingredients_weight = cup_amount * AVERAGE_CUP_WEIGHT;
    let mut ingredients_remained = ingredients.ingredients;
    for ingredient in ingredients_remained.iter_mut() {
        for ingredient_portion in ingredients_for_selected_cup.clone() {
            if ingredient.ingredient != ingredient_portion.ingredient_type {
                continue;
            }
            ingredient.weight = ingredient
                .weight
                .checked_sub(calculate_total_ingredient_weight(
                    total_ingredients_weight,
                    ingredient_portion.share,
                    SHARE_PRECISION,
                ))
                .unwrap();
        }
    }
    let ingredients_after_sell = query_ingredients(coffee_state);

    assert_eq!(ingredients_after_sell.ingredients, ingredients_remained);
}

#[test]
fn purchase_of_two_cups_debits_the_ledger() {
    let (_state, mut coffee_state) = stocked_shop("owner");
    let purchase = buy_coffee(&mut coffee_state, &"buyer".to_string(), 1, 2, 5000, 5000).unwrap();
    assert_eq!(purchase.product_id, 1);
    assert_eq!(purchase.cup_count, 2);
    assert_eq!(purchase.buyer, "buyer");
    assert_eq!(purchase.total_price, DEFAULT_PRICE * 2);
    assert_eq!(
        get_ingredients(coffee_state),
        vec![
            portion(Ingredient::Beans, 875),
            portion(Ingredient::Water, 775),
            portion(Ingredient::Milk, 875),
            portion(Ingredient::Sugar, 975),
        ]
    );
}

#[test]
fn purchase_beyond_stock_changes_nothing() {
    let (_state, mut coffee_state) = stocked_shop("owner");
    let before = coffee_state.clone();
    let res = buy_coffee(&mut coffee_state, &"buyer".to_string(), 1, 10, u128::MAX, u128::MAX);
    assert_eq!(res, Err(ContractError::NotEnoughIngredients {}));
    assert_eq!(coffee_state, before);
    assert_eq!(get_ingredients(coffee_state), thousand_each());
}

#[test]
fn purchase_without_funds_changes_nothing() {
    let (_state, mut coffee_state) = stocked_shop("owner");
    let before = coffee_state.clone();
    let buyer = "buyer".to_string();
    let res = buy_coffee(&mut coffee_state, &buyer, 1, 2, 1999, 5000);
    assert_eq!(res, Err(ContractError::NotEnoughFunds {}));
    assert_eq!(coffee_state, before);
    let res = buy_coffee(&mut coffee_state, &buyer, 1, 2, 5000, 1999);
    assert_eq!(res, Err(ContractError::NoAllowance {}));
    assert_eq!(res.unwrap_err().to_string(), "NotEnoughFunds");
    assert_eq!(coffee_state, before);
    // exactly the price is enough
    assert!(buy_coffee(&mut coffee_state, &buyer, 1, 2, 2000, 2000).is_ok());
}

#[test]
fn purchase_of_unknown_product_is_invalid() {
    let (_state, mut coffee_state) = stocked_shop("owner");
    let before = coffee_state.clone();
    let buyer = "buyer".to_string();
    for id in [0u128, 4, u128::MAX] {
        let res = buy_coffee(&mut coffee_state, &buyer, id, 1, u128::MAX, u128::MAX);
        assert_eq!(res, Err(ContractError::InvalidParam {}));
        assert_eq!(coffee_state, before);
    }
    let (_state, mut empty_shop) = instantiate("owner".to_string(), "addr".to_string());
    let res = buy_coffee(&mut empty_shop, &buyer, 0, 1, 0, 0);
    assert_eq!(res, Err(ContractError::InvalidParam {}));
}

#[test]
fn purchase_price_overflow_is_internal_error() {
    let owner = "owner".to_string();
    let (state, mut coffee_state) = stocked_shop("owner");
    set_price(&state, &mut coffee_state, &owner, 1, u128::MAX).unwrap();
    let before = coffee_state.clone();
    let res = buy_coffee(&mut coffee_state, &owner, 1, 2, u128::MAX, u128::MAX);
    assert_eq!(res, Err(ContractError::InternalError {}));
    assert_eq!(coffee_state, before);
}

#[test]
fn purchase_with_two_lines_of_one_kind() {
    let (_state, mut coffee_state) = stocked_shop("owner");
    // the second product takes beans twice: 2% and 25% of 500
    buy_coffee(&mut coffee_state, &"buyer".to_string(), 2, 2, 5000, 5000).unwrap();
    assert_eq!(
        get_ingredients(coffee_state.clone()),
        vec![
            portion(Ingredient::Beans, 865),
            portion(Ingredient::Water, 775),
            portion(Ingredient::Milk, 1000),
            portion(Ingredient::Sugar, 1000),
        ]
    );
    // 7 cups need 35 + 437 = 472 beans of the 865 left, and
    // 787 water of 775: refused
    let res = buy_coffee(&mut coffee_state, &"buyer".to_string(), 2, 7, 1 << 40, 1 << 40);
    assert_eq!(res, Err(ContractError::NotEnoughIngredients {}));
}

#[test]
fn set_price_by_stranger_is_unauthorized() {
    let (state, mut coffee_state) = stocked_shop("owner");
    let before = coffee_state.clone();
    for (id, price) in [(1u128, 5u128), (0, 0), (9, 1)] {
        let res = set_price(&state, &mut coffee_state, &"mallory".to_string(), id, price);
        assert_eq!(res, Err(ContractError::Unauthorized {}));
        assert_eq!(coffee_state, before);
    }
}

#[test]
fn set_price_touches_one_product() {
    let owner = "owner".to_string();
    let (state, mut coffee_state) = stocked_shop("owner");
    let res = set_price(&state, &mut coffee_state, &owner, 2, 0);
    assert_eq!(res, Err(ContractError::InvalidParam {}));
    let res = set_price(&state, &mut coffee_state, &owner, 4, 10);
    assert_eq!(res, Err(ContractError::InvalidParam {}));
    set_price(&state, &mut coffee_state, &owner, 3, 10).unwrap();
    let menu = get_menu(coffee_state.clone());
    assert_eq!(menu[0].price, DEFAULT_PRICE);
    assert_eq!(menu[1].price, DEFAULT_PRICE);
    assert_eq!(menu[2].price, 10);
    assert_eq!(menu[2].name, AMERICANO);
    assert_eq!(query_price(&coffee_state, 3), Ok(coffee_shop::products::PriceResponse { price: 10 }));
}

#[test]
fn query_price_out_of_range() {
    let (_state, coffee_state) = stocked_shop("owner");
    assert_eq!(query_price(&coffee_state, 0), Err(ContractError::InvalidParam {}));
    assert_eq!(query_price(&coffee_state, 4), Err(ContractError::InvalidParam {}));
    assert_eq!(query_price(&coffee_state, 1).unwrap().price, DEFAULT_PRICE);
}

#[test]
fn load_ingredients_round_trip() {
    let owner = "owner".to_string();
    let (state, mut coffee_state) = stocked_shop("owner");
    let extra = vec![portion(Ingredient::Milk, 250), portion(Ingredient::Beans, 1)];
    load_ingredients(&state, &mut coffee_state, &owner, extra).unwrap();
    assert_eq!(
        query_ingredients(coffee_state.clone()).ingredients,
        vec![
            portion(Ingredient::Beans, 1001),
            portion(Ingredient::Water, 1000),
            portion(Ingredient::Milk, 1250),
            portion(Ingredient::Sugar, 1000),
        ]
    );
    let before = coffee_state.clone();
    load_ingredients(&state, &mut coffee_state, &owner, vec![]).unwrap();
    assert_eq!(coffee_state, before);
    let res = load_ingredients(&state, &mut coffee_state, &owner, vec![portion(Ingredient::Sugar, 0)]);
    assert_eq!(res, Err(ContractError::InvalidParam {}));
    assert_eq!(coffee_state, before);
    let res = load_ingredients(&state, &mut coffee_state, &owner, vec![portion(Ingredient::Sugar, u128::MAX)]);
    assert_eq!(res, Err(ContractError::InternalError {}));
    assert_eq!(coffee_state, before);
}

#[test]
fn withdrawal_to_owner() {
    let (state, _coffee_state) = instantiate("owner".to_string(), "addr".to_string());
    let owner = "owner".to_string();
    assert_eq!(
        transfer_tokens_to_owner(&state, &"bob".to_string(), 10),
        Err(ContractError::Unauthorized {})
    );
    assert_eq!(
        transfer_tokens_to_owner(&state, &owner, 0),
        Err(ContractError::NotEnoughFunds {})
    );
    assert_eq!(transfer_tokens_to_owner(&state, &owner, 10), Ok(10));
    assert_eq!(check_owner(&state, &owner), Ok(()));
    assert_eq!(check_owner(&state, &"bob".to_string()), Err(ContractError::Unauthorized {}));
}

#[test]
fn funds_check_order() {
    assert_eq!(check_funds(0, 0, 0), Ok(()));
    assert_eq!(check_funds(5, 5, 5), Ok(()));
    assert_eq!(check_funds(0, 0, 1), Err(ContractError::NoAllowance {}));
    assert_eq!(check_funds(0, 1, 1), Err(ContractError::NotEnoughFunds {}));
}

#[test]
fn error_texts() {
    assert_eq!(ContractError::Unauthorized {}.to_string(), "Unauthorized");
    assert_eq!(ContractError::InvalidParam {}.to_string(), "InvalidParam");
    assert_eq!(ContractError::NotEnoughIngredients {}.to_string(), "NotEnoughIngredients");
    assert_eq!(ContractError::InternalError {}.to_string(), "InternalError");
    assert_eq!(ContractError::NotEnoughFunds {}.to_string(), "NotEnoughFunds");
    assert_eq!(ContractError::NoAllowance {}.to_string(), "NotEnoughFunds");
}

#[test]
fn state_invariant_check() {
    let (_state, coffee_state) = instantiate("owner".to_string(), "addr".to_string());
    assert!(coffee_state.is_wf());
    let mut short_menu = coffee_state.clone();
    short_menu.menu.pop();
    assert!(!short_menu.is_wf());
    let mut big_share = coffee_state.clone();
    big_share.recipes[2].ingredients[0].share = 101;
    assert!(!big_share.is_wf());
    let mut no_sugar = coffee_state;
    no_sugar.ingredient_portions.pop();
    assert!(!no_sugar.is_wf());
}
