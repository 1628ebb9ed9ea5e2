//! Adapter that dispenses through the drink-maker hardware while keeping the
//! served-units record.

use vstd::prelude::*;

use crate::beverage::Beverage;
use crate::beverage::SugarAmount;
use crate::beverage_quantity_checker::BeverageQuantityChecker;
use crate::dispenser::BeverageDispsense;
use crate::dispenser::DispensedBeveragesHistory;
use crate::dispenser::Dispenser;
use crate::drink_maker::build_beverage_command;
use crate::drink_maker::DrinkMaker;

verus! {

/// A [`Dispenser`] that checks the stock, sends the drink command to the
/// hardware, and records what was served.
pub struct DrinkMakerDispenser<'a, DM: DrinkMaker, Q: BeverageQuantityChecker> {
    drink_maker: &'a DM,
    beverage_quantity_checker: &'a Q,
    dispensed_beverages_history: DispensedBeveragesHistory,
}

impl<'a, DM: DrinkMaker, Q: BeverageQuantityChecker> DrinkMakerDispenser<'a, DM, Q> {
    pub fn new(drink_maker: &'a DM, beverage_quantity_checker: &'a Q) -> (dispenser: Self)
        ensures
            dispenser.history().wf(),
            dispenser.history().quantities@.len() == 0,
            forall|beverage: Beverage| dispenser.history().count_of(beverage) == 0,
    {
        DrinkMakerDispenser {
            drink_maker,
            beverage_quantity_checker,
            dispensed_beverages_history: DispensedBeveragesHistory::new(),
        }
    }

    /// Sends the drink command for the request to the hardware.
    fn send_beverage_request(&mut self, beverage: &Beverage, sugar_amount: &SugarAmount)
        ensures
            *final(self) == *old(self),
    {
        let drink_maker_cmd = build_beverage_command(beverage, sugar_amount);
        self.drink_maker.execute(drink_maker_cmd);
    }

    /// Records one served unit of the beverage.
    fn record_dispensed_beverage(&mut self, beverage: &Beverage)
        requires
            old(self).history().wf(),
            old(self).history().count_of(*beverage) < u32::MAX,
        ensures
            final(self).history().wf(),
            final(self).history().count_of(*beverage) == old(self).history().count_of(*beverage)
                + 1,
            forall|other: Beverage|
                other != *beverage ==> final(self).history().count_of(other) == old(
                    self,
                ).history().count_of(other),
    {
        self.dispensed_beverages_history.record_dispensed_beverage(beverage)
    }
}

impl<'a, DM: DrinkMaker, Q: BeverageQuantityChecker> Dispenser for DrinkMakerDispenser<
    'a,
    DM,
    Q,
> {
    closed spec fn history(&self) -> DispensedBeveragesHistory {
        self.dispensed_beverages_history
    }

    fn dispense(&mut self, beverage: &Beverage, sugar_amount: &SugarAmount) -> (dispense:
        BeverageDispsense) {
        if self.beverage_quantity_checker.is_empty(beverage) {
            BeverageDispsense::Shortage
        } else {
            self.send_beverage_request(beverage, sugar_amount);
            self.record_dispensed_beverage(beverage);
            BeverageDispsense::Served
        }
    }

    fn dispensed_beverages(&self) -> (history: &DispensedBeveragesHistory) {
        &self.dispensed_beverages_history
    }
}

} // verus!
