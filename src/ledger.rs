//! The ingredient ledger: one weighed portion per ingredient kind.
use crate::error::ContractError;
use crate::products::{Ingredient, IngredientPortion, IngredientWeights};
use vstd::prelude::*;

verus! {

/// The kinds of a ledger, in its order.
pub open spec fn kinds_of(ledger: Seq<IngredientPortion>) -> Seq<Ingredient> {
    ledger.map_values(|p: IngredientPortion| p.ingredient)
}

/// A ledger holds exactly one portion of every kind.
pub open spec fn ledger_wf(ledger: Seq<IngredientPortion>) -> bool {
    &&& kinds_of(ledger).no_duplicates()
    &&& forall|k: Ingredient| kinds_of(ledger).contains(k)
}

/// Every portion of the ledger covers what `required` asks of its kind.
pub open spec fn sufficient(ledger: Seq<IngredientPortion>, required: IngredientWeights) -> bool {
    forall|i: int|
        0 <= i < ledger.len() ==> #[trigger] required.spec_get(ledger[i].ingredient)
            <= ledger[i].weight
}

/// The ledger after `required` is taken from each kind.
pub open spec fn debited(ledger: Seq<IngredientPortion>, required: IngredientWeights) -> Seq<
    IngredientPortion,
> {
    Seq::new(
        ledger.len(),
        |i: int|
            IngredientPortion {
                ingredient: ledger[i].ingredient,
                weight: (ledger[i].weight - required.spec_get(ledger[i].ingredient)) as u128,
            },
    )
}

/// Total weight that `portions` bring of `kind`.
pub open spec fn added_weight(portions: Seq<IngredientPortion>, kind: Ingredient) -> int
    decreases portions.len(),
{
    if portions.len() == 0 {
        0
    } else {
        let p = portions.last();
        added_weight(portions.drop_last(), kind) + if p.ingredient == kind {
            p.weight as int
        } else {
            0
        }
    }
}

/// Some portion weighs nothing.
pub open spec fn has_zero_weight(portions: Seq<IngredientPortion>) -> bool {
    exists|i: int| 0 <= i < portions.len() && #[trigger] portions[i].weight == 0
}

/// Some stored weight would leave `u128` after the restock.
pub open spec fn restock_overflows(
    ledger: Seq<IngredientPortion>,
    portions: Seq<IngredientPortion>,
) -> bool {
    exists|i: int|
        0 <= i < ledger.len() && ledger[i].weight + added_weight(portions, #[trigger] ledger[i].ingredient)
            > u128::MAX
}

/// The ledger after `portions` are added, each to the stored portion of its kind.
pub open spec fn restocked(
    ledger: Seq<IngredientPortion>,
    portions: Seq<IngredientPortion>,
) -> Seq<IngredientPortion> {
    Seq::new(
        ledger.len(),
        |i: int|
            IngredientPortion {
                ingredient: ledger[i].ingredient,
                weight: (ledger[i].weight + added_weight(portions, ledger[i].ingredient)) as u128,
            },
    )
}

/// What a prefix of the portions adds is at most what all of them add.
pub proof fn lemma_added_weight_prefix(
    portions: Seq<IngredientPortion>,
    kind: Ingredient,
    n: int,
)
    requires
        0 <= n <= portions.len(),
    ensures
        0 <= added_weight(portions.take(n), kind) <= added_weight(portions, kind),
    decreases portions.len(),
{
    if n == portions.len() {
        assert(portions.take(n) =~= portions);
        lemma_added_weight_nonneg(portions, kind);
    } else {
        let rest = portions.drop_last();
        lemma_added_weight_prefix(rest, kind, n);
        assert(rest.take(n) =~= portions.take(n));
    }
}

/// Portions never add a negative weight.
pub proof fn lemma_added_weight_nonneg(portions: Seq<IngredientPortion>, kind: Ingredient)
    ensures
        added_weight(portions, kind) >= 0,
    decreases portions.len(),
{
    if portions.len() > 0 {
        lemma_added_weight_nonneg(portions.drop_last(), kind);
    }
}

/// Restocking with no portions is accepted and leaves the ledger as it was.
pub proof fn lemma_restock_nothing(ledger: Seq<IngredientPortion>)
    ensures
        !has_zero_weight(Seq::<IngredientPortion>::empty()),
        !restock_overflows(ledger, Seq::<IngredientPortion>::empty()),
        restocked(ledger, Seq::<IngredientPortion>::empty()) == ledger,
{
    let none = Seq::<IngredientPortion>::empty();
    assert forall|k: Ingredient| added_weight(none, k) == 0 by {}
    assert(restocked(ledger, none) =~= ledger);
}

/// After an accepted restock, the ledger reads, for each stored portion, the
/// weight it held before plus everything the portions brought of its kind.
pub proof fn lemma_restock_round_trip(
    ledger: Seq<IngredientPortion>,
    portions: Seq<IngredientPortion>,
)
    requires
        !has_zero_weight(portions),
        !restock_overflows(ledger, portions),
    ensures
        restocked(ledger, portions).len() == ledger.len(),
        forall|i: int|
            0 <= i < ledger.len() ==> (#[trigger] restocked(ledger, portions)[i]).ingredient
                == ledger[i].ingredient && restocked(ledger, portions)[i].weight == ledger[i].weight
                + added_weight(portions, ledger[i].ingredient),
{
    assert forall|i: int| 0 <= i < ledger.len() implies (#[trigger] restocked(
        ledger,
        portions,
    )[i]).weight == ledger[i].weight + added_weight(portions, ledger[i].ingredient) by {
        lemma_added_weight_nonneg(portions, ledger[i].ingredient);
    }
}

/// Whether some portion of the ledger is of `kind`.
pub fn holds_kind(ledger: &Vec<IngredientPortion>, kind: Ingredient) -> (r: bool)
    ensures
        r == kinds_of(ledger@).contains(kind),
{
    let mut i: usize = 0;
    while i < ledger.len()
        invariant
            i <= ledger.len(),
            forall|m: int| 0 <= m < i ==> #[trigger] kinds_of(ledger@)[m] != kind,
        decreases ledger.len() - i,
    {
        if ledger[i].ingredient == kind {
            assert(kinds_of(ledger@)[i as int] == kind);
            return true;
        }
        i = i + 1;
    }
    false
}

/// Whether the ledger holds exactly one portion of every kind.
pub fn ledger_is_wf(ledger: &Vec<IngredientPortion>) -> (r: bool)
    ensures
        r == ledger_wf(ledger@),
{
    let ghost kinds = kinds_of(ledger@);
    let mut i: usize = 0;
    while i < ledger.len()
        invariant
            i <= ledger.len(),
            kinds == kinds_of(ledger@),
            forall|a: int, b: int|
                0 <= a < i && 0 <= b < ledger.len() && a != b ==> #[trigger] kinds[a]
                    != #[trigger] kinds[b],
        decreases ledger.len() - i,
    {
        let mut j: usize = 0;
        while j < ledger.len()
            invariant
                i < ledger.len(),
                j <= ledger.len(),
                kinds == kinds_of(ledger@),
                forall|a: int, b: int|
                    0 <= a < i && 0 <= b < ledger.len() && a != b ==> #[trigger] kinds[a]
                        != #[trigger] kinds[b],
                forall|b: int| 0 <= b < j && b != i ==> kinds[i as int] != #[trigger] kinds[b],
            decreases ledger.len() - j,
        {
            if j != i && ledger[i].ingredient == ledger[j].ingredient {
                assert(kinds[i as int] == kinds[j as int]);
                return false;
            }
            j = j + 1;
        }
        i = i + 1;
    }
    assert(kinds.no_duplicates());
    let all = holds_kind(ledger, Ingredient::Sugar) && holds_kind(ledger, Ingredient::Milk)
        && holds_kind(ledger, Ingredient::Water) && holds_kind(ledger, Ingredient::Beans);
    proof {
        if all {
            assert forall|k: Ingredient| kinds.contains(k) by {
                match k {
                    Ingredient::Sugar => {},
                    Ingredient::Milk => {},
                    Ingredient::Water => {},
                    Ingredient::Beans => {},
                }
            }
        }
    }
    all
}

/// Whether the ledger covers `required` for every kind it holds.
pub fn sufficient_for(ledger: &Vec<IngredientPortion>, required: &IngredientWeights) -> (r: bool)
    ensures
        r == sufficient(ledger@, *required),
{
    let mut i: usize = 0;
    while i < ledger.len()
        invariant
            i <= ledger.len(),
            sufficient(ledger@.take(i as int), *required),
        decreases ledger.len() - i,
    {
        let p = ledger[i];
        if p.weight < required.get(p.ingredient) {
            return false;
        }
        assert(ledger@.take(i + 1) =~= ledger@.take(i as int).push(p));
        i = i + 1;
    }
    assert(ledger@.take(i as int) =~= ledger@);
    true
}

/// Takes `required` from each kind of a ledger that covers it.
pub fn debit(ledger: &mut Vec<IngredientPortion>, required: &IngredientWeights)
    requires
        sufficient(old(ledger)@, *required),
    ensures
        final(ledger)@ == debited(old(ledger)@, *required),
{
    let ghost start = ledger@;
    let mut i: usize = 0;
    while i < ledger.len()
        invariant
            i <= ledger.len(),
            ledger@.len() == start.len(),
            sufficient(start, *required),
            forall|j: int| i <= j < start.len() ==> ledger@[j] == start[j],
            forall|j: int| 0 <= j < i ==> ledger@[j] == debited(start, *required)[j],
        decreases ledger.len() - i,
    {
        let p = ledger[i];
        let need = required.get(p.ingredient);
        assert(need <= start[i as int].weight);
        ledger[i].weight = p.weight - need;
        i = i + 1;
    }
    assert(ledger@ =~= debited(start, *required));
}

/// Adds each portion's weight to the stored portion of its kind; refuses a
/// portion that weighs nothing, and a restock that would leave `u128`.
/// Nothing changes unless it succeeds.
pub fn restock(ledger: &mut Vec<IngredientPortion>, portions: &Vec<IngredientPortion>) -> (r: Result<
    (),
    ContractError,
>)
    ensures
        r == Err::<(), ContractError>(ContractError::InvalidParam) <==> has_zero_weight(
            portions@,
        ),
        r == Err::<(), ContractError>(ContractError::InternalError) <==> !has_zero_weight(
            portions@,
        ) && restock_overflows(old(ledger)@, portions@),
        r is Ok <==> !has_zero_weight(portions@) && !restock_overflows(old(ledger)@, portions@),
        r is Ok ==> final(ledger)@ == restocked(old(ledger)@, portions@),
        r is Err ==> *final(ledger) == *old(ledger),
{
    let mut j: usize = 0;
    while j < portions.len()
        invariant
            j <= portions.len(),
            forall|m: int| 0 <= m < j ==> #[trigger] portions@[m].weight != 0,
        decreases portions.len() - j,
    {
        if portions[j].weight == 0 {
            return Err(ContractError::InvalidParam);
        }
        j = j + 1;
    }
    let ghost start = ledger@;
    let ghost target = restocked(start, portions@);
    let mut updated: Vec<IngredientPortion> = Vec::new();
    let mut i: usize = 0;
    while i < ledger.len()
        invariant
            i <= ledger.len(),
            ledger@ == start,
            target == restocked(start, portions@),
            !has_zero_weight(portions@),
            updated@ =~= target.take(i as int),
            forall|m: int| 0 <= m < i ==> start[m].weight + added_weight(portions@, #[trigger] start[m].ingredient) <= u128::MAX,
        decreases ledger.len() - i,
    {
        let stored = ledger[i];
        let mut weight = stored.weight;
        let mut n: usize = 0;
        while n < portions.len()
            invariant
                n <= portions.len(),
                i < ledger.len(),
                ledger@ == start,
                stored == start[i as int],
                !has_zero_weight(portions@),
                weight == stored.weight + added_weight(portions@.take(n as int), stored.ingredient),
            decreases portions.len() - n,
        {
            let p = portions[n];
            assert(portions@.take(n + 1).drop_last() =~= portions@.take(n as int));
            if p.ingredient == stored.ingredient {
                match weight.checked_add(p.weight) {
                    None => {
                        proof {
                            lemma_added_weight_prefix(portions@, stored.ingredient, n + 1);
                        }
                        return Err(ContractError::InternalError);
                    },
                    Some(sum) => {
                        weight = sum;
                    },
                }
            }
            n = n + 1;
        }
        assert(portions@.take(n as int) =~= portions@);
        let portion = IngredientPortion { ingredient: stored.ingredient, weight };
        assert(portion == target[i as int]);
        assert(target.take(i + 1) =~= target.take(i as int).push(portion));
        updated.push(portion);
        i = i + 1;
    }
    assert(target.take(i as int) =~= target);
    *ledger = updated;
    Ok(())
}

} // verus!
