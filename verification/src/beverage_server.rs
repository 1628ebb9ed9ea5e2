//! The collaborator that physically serves a drink.

use vstd::prelude::*;

use crate::beverage::Beverage;
use crate::beverage::SugarAmount;

verus! {

/// Performs the actual serve action, typically by driving the drink-making
/// hardware. Its effect is outside this crate: implementations make no
/// promise here, and a serve is assumed to succeed once requested.
pub trait BeverageServer {
    fn serve(&self, beverage: &Beverage, sugar_amount: &SugarAmount);
}

} // verus!
