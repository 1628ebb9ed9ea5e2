//! The purchasable items and the sugar preference that accompanies a request.

use vstd::prelude::*;

verus! {

/// A purchasable drink. The hot drinks carry a temperature option; orange
/// juice has none.
#[derive(PartialEq, Eq, Structural, Clone, Copy, Debug, Hash)]
pub enum Beverage {
    Coffee(HotBeverageOption),
    Tea(HotBeverageOption),
    HotChocolate(HotBeverageOption),
    OrangeJuice,
}

/// Temperature option of a hot beverage. It never affects the price.
#[derive(PartialEq, Eq, Structural, Clone, Copy, Debug, Hash)]
pub enum HotBeverageOption {
    Standard,
    ExtraHot,
}

/// How many sugar doses a request asks for.
#[derive(PartialEq, Eq, Structural, Clone, Copy, Debug, Hash)]
pub enum SugarAmount {
    Zero,
    One,
    Two,
}

} // verus!
