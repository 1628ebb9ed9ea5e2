//! The stock-aware dispenser that composes the stock checker and the
//! beverage server.

use vstd::prelude::*;

use crate::beverage::Beverage;
use crate::beverage::SugarAmount;
use crate::beverage_quantity_checker::BeverageQuantityChecker;
use crate::beverage_server::BeverageServer;
use crate::dispenser::BeverageDispsense;
use crate::dispenser::DispensedBeveragesHistory;

verus! {

/// Decides serve-or-shortage: a request for an out-of-stock beverage is
/// refused with no side effect at all; otherwise the beverage server is asked
/// to serve and the unit is recorded.
pub struct Dispenser<'a, BS: BeverageServer, Q: BeverageQuantityChecker> {
    beverage_server: &'a BS,
    beverage_quantity_checker: &'a Q,
    dispensed_beverages_history: DispensedBeveragesHistory,
}

impl<'a, BS: BeverageServer, Q: BeverageQuantityChecker> Dispenser<'a, BS, Q> {
    /// The record of successfully served units kept by this dispenser.
    pub closed spec fn history(self) -> DispensedBeveragesHistory {
        self.dispensed_beverages_history
    }

    /// The beverage server this dispenser is wired to.
    pub closed spec fn server(self) -> &'a BS {
        self.beverage_server
    }

    /// The stock checker this dispenser is wired to.
    pub closed spec fn checker(self) -> &'a Q {
        self.beverage_quantity_checker
    }

    pub fn new(beverage_server: &'a BS, beverage_quantity_checker: &'a Q) -> (dispenser: Self)
        ensures
            dispenser.history().wf(),
            dispenser.history().quantities@.len() == 0,
            forall|beverage: Beverage| dispenser.history().count_of(beverage) == 0,
            dispenser.server() == beverage_server,
            dispenser.checker() == beverage_quantity_checker,
    {
        Dispenser {
            beverage_server,
            beverage_quantity_checker,
            dispensed_beverages_history: DispensedBeveragesHistory::new(),
        }
    }

    /// Queries the stock; on a shortage nothing happens at all, otherwise the
    /// beverage is served and exactly one unit of it is recorded.
    pub fn dispense(&mut self, beverage: &Beverage, sugar_amount: &SugarAmount) -> (dispense:
        BeverageDispsense)
        requires
            old(self).history().wf(),
            old(self).history().count_of(*beverage) < u32::MAX,
        ensures
            final(self).history().wf(),
            final(self).server() == old(self).server(),
            final(self).checker() == old(self).checker(),
            dispense == BeverageDispsense::Shortage ==> final(self).history() == old(
                self,
            ).history(),
            dispense == BeverageDispsense::Served ==> final(self).history().count_of(*beverage)
                == old(self).history().count_of(*beverage) + 1 && (forall|other: Beverage|
                other != *beverage ==> final(self).history().count_of(other) == old(
                    self,
                ).history().count_of(other)),
    {
        if self.beverage_quantity_checker.is_empty(beverage) {
            BeverageDispsense::Shortage
        } else {
            self.beverage_server.serve(beverage, sugar_amount);
            self.dispensed_beverages_history.record_dispensed_beverage(beverage);
            BeverageDispsense::Served
        }
    }

    /// Read-only view of the record of served units.
    pub fn dispensed_beverages(&self) -> (history: &DispensedBeveragesHistory)
        ensures
            *history == self.history(),
    {
        &self.dispensed_beverages_history
    }
}

} // verus!
