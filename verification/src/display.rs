//! The collaborator that faces the customer.

use vstd::prelude::*;

use crate::beverage::Beverage;

verus! {

/// Shows user-facing messages. Presentation is outside this crate;
/// implementations make no promise here.
pub trait Display {
    /// Tells the customer how much money is missing, in cents.
    fn show_missing_money_message(&self, missing_money: u32);

    /// Tells the customer the requested beverage ran out.
    fn show_beverage_shortage_message(&self, beverage: &Beverage);
}

} // verus!
