//! Adapter that serves beverages by sending drink commands to the hardware.

use vstd::prelude::*;

use crate::beverage::Beverage;
use crate::beverage::SugarAmount;
use crate::beverage_server::BeverageServer;
use crate::drink_maker::build_beverage_command;
use crate::drink_maker::DrinkMaker;

verus! {

/// A [`BeverageServer`] that translates each serve request into the drink
/// command the hardware understands.
pub struct DrinkMakerBeverageServer<'a, DM: DrinkMaker> {
    drink_maker: &'a DM,
}

impl<'a, DM: DrinkMaker> DrinkMakerBeverageServer<'a, DM> {
    pub fn new(drink_maker: &'a DM) -> (server: Self) {
        DrinkMakerBeverageServer { drink_maker }
    }
}

impl<'a, DM: DrinkMaker> BeverageServer for DrinkMakerBeverageServer<'a, DM> {
    fn serve(&self, beverage: &Beverage, sugar_amount: &SugarAmount) {
        let drink_maker_cmd = build_beverage_command(beverage, sugar_amount);
        self.drink_maker.execute(drink_maker_cmd);
    }
}

} // verus!
