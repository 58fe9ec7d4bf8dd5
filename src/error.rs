use vstd::prelude::*;
use vstd::string::*;

verus! {

/// Why an operation of the shop was refused.
#[derive(Debug, Clone, Copy, PartialEq, Eq, Structural)]
pub enum ContractError {
    /// The caller is not the shop's owner.
    Unauthorized,
    /// A product id, price or restock weight is out of range.
    InvalidParam,
    /// The stock does not cover what the order needs.
    NotEnoughIngredients,
    /// An amount left the range of `u128`.
    InternalError,
    /// The buyer's token balance does not cover the price.
    NotEnoughFunds,
    /// The buyer has not allowed the shop to spend the price.
    NoAllowance,
}

/// The text by which an error is reported to callers.
pub open spec fn error_text(e: ContractError) -> Seq<char> {
    match e {
        ContractError::Unauthorized => "Unauthorized"@,
        ContractError::InvalidParam => "InvalidParam"@,
        ContractError::NotEnoughIngredients => "NotEnoughIngredients"@,
        ContractError::InternalError => "InternalError"@,
        ContractError::NotEnoughFunds => "NotEnoughFunds"@,
        ContractError::NoAllowance => "NotEnoughFunds"@,
    }
}

impl ContractError {
    /// The error's text; a missing allowance reads as missing funds.
    #[allow(clippy::inherent_to_string)]
    pub fn to_string(&self) -> (r: String)
        ensures
            r@ == error_text(*self),
    {
        match self {
            ContractError::Unauthorized => String::from_str("Unauthorized"),
            ContractError::InvalidParam => String::from_str("InvalidParam"),
            ContractError::NotEnoughIngredients => String::from_str("NotEnoughIngredients"),
            ContractError::InternalError => String::from_str("InternalError"),
            ContractError::NotEnoughFunds => String::from_str("NotEnoughFunds"),
            ContractError::NoAllowance => String::from_str("NotEnoughFunds"),
        }
    }
}

} // verus!
