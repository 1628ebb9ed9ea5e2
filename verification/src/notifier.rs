//! The collaborator told about shortages.

use vstd::prelude::*;

use crate::beverage::Beverage;

verus! {

/// Informed exactly once per shortage event, so that stock can be refilled.
/// Delivery is outside this crate; implementations make no promise here.
pub trait Notifier {
    fn notify_missing_beverage(&self, beverage: &Beverage);
}

} // verus!
