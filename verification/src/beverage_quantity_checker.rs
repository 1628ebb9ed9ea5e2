//! The collaborator that knows the stock.

use vstd::prelude::*;

use crate::beverage::Beverage;

verus! {

/// Reports whether a beverage is currently out of stock. A pure query, safe
/// to call once per request; which answer comes back is the implementation's
/// business, and the callers state what they do for either answer.
pub trait BeverageQuantityChecker {
    fn is_empty(&self, beverage: &Beverage) -> bool;
}

} // verus!
