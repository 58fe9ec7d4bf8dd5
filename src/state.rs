use vstd::prelude::*;

verus! {

/// What the shop knows of itself: who owns it and which token it is paid in.
#[derive(Debug, Clone, PartialEq)]
pub struct State {
    pub owner: String,
    pub balance: u128,
    pub coffee_token_addr: String,
}

} // verus!
