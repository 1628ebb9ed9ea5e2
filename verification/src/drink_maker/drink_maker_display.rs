//! Adapter that shows customer messages through the drink maker's display
//! channel.

use vstd::prelude::*;

use crate::beverage::Beverage;
use crate::display::Display;
use crate::drink_maker::build_missing_money_command;
use crate::drink_maker::build_shortage_message_command;
use crate::drink_maker::DrinkMaker;

verus! {

/// A [`Display`] that renders each message as a display command for the
/// hardware.
pub struct DrinkMakerDisplay<'a, DM: DrinkMaker> {
    drink_maker: &'a DM,
}

impl<'a, DM: DrinkMaker> DrinkMakerDisplay<'a, DM> {
    pub fn new(drink_maker: &'a DM) -> (display: Self) {
        DrinkMakerDisplay { drink_maker }
    }
}

impl<'a, DM: DrinkMaker> Display for DrinkMakerDisplay<'a, DM> {
    fn show_missing_money_message(&self, missing_money: u32) {
        self.drink_maker.execute(build_missing_money_command(missing_money));
    }

    fn show_beverage_shortage_message(&self, beverage: &Beverage) {
        self.drink_maker.execute(build_shortage_message_command(beverage));
    }
}

} // verus!
