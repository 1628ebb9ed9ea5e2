//! A thin façade over the drink maker: translates serve requests and
//! missing-money messages into the hardware's command strings.

use vstd::prelude::*;

use crate::beverage::Beverage;
use crate::beverage::SugarAmount;
use crate::drink_maker::build_beverage_command;
use crate::drink_maker::build_missing_money_command;
use crate::drink_maker::DrinkMaker;

verus! {

/// Sends both drink commands and display commands to one drink maker,
/// without keeping any state of its own.
pub struct DrinkMakerProxy<'a, DM: DrinkMaker> {
    drink_maker: &'a DM,
}

impl<'a, DM: DrinkMaker> DrinkMakerProxy<'a, DM> {
    pub fn new(drink_maker: &'a DM) -> (proxy: Self) {
        DrinkMakerProxy { drink_maker }
    }

    /// Asks the hardware to make the beverage.
    pub fn dispense(&self, beverage: &Beverage, sugar_amount: &SugarAmount) {
        let drink_maker_cmd = build_beverage_command(beverage, sugar_amount);
        self.drink_maker.execute(drink_maker_cmd)
    }

    /// Tells the customer how much money is missing, in cents.
    pub fn show_missing_money_message(&self, missing_money: u32) {
        self.drink_maker.execute(build_missing_money_command(missing_money));
    }
}

} // verus!
