//! A single purchase attempt.

use vstd::prelude::*;

use crate::beverage::Beverage;
use crate::beverage::SugarAmount;

verus! {

/// One purchase attempt: the requested beverage, the sugar preference, and
/// the money tendered in cents. Created per attempt and discarded after the
/// machine has handled it.
pub struct BeverageRequest {
    pub beverage: Beverage,
    pub sugar_amount: SugarAmount,
    pub money_amount: u32,
}

impl BeverageRequest {
    pub fn new(beverage: Beverage, sugar_amount: SugarAmount, money_amount: u32) -> (request:
        BeverageRequest)
        ensures
            request.beverage == beverage,
            request.sugar_amount == sugar_amount,
            request.money_amount == money_amount,
    {
        BeverageRequest { beverage, sugar_amount, money_amount }
    }
}

} // verus!
