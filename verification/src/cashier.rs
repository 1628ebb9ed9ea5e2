//! Payment and refund accounting: the single source of truth for the money
//! the machine has earned.

use vstd::prelude::*;

use crate::beverage::Beverage;

verus! {

/// Catalog price of a beverage, in cents. The temperature option is
/// price-irrelevant.
pub open spec fn beverage_price(beverage: Beverage) -> u32 {
    match beverage {
        Beverage::Coffee(_) => 60,
        Beverage::Tea(_) => 40,
        Beverage::HotChocolate(_) => 50,
        Beverage::OrangeJuice => 60,
    }
}

/// Catalog price lookup, in cents.
pub fn get_beverage_price(beverage: &Beverage) -> (price: u32)
    ensures
        price == beverage_price(*beverage),
{
    match beverage {
        Beverage::Coffee(_) => 60,
        Beverage::Tea(_) => 40,
        Beverage::HotChocolate(_) => 50,
        Beverage::OrangeJuice => 60,
    }
}

/// Outcome of presenting money for a beverage: accepted, or short by the
/// carried amount (in cents, always positive on the failure path).
#[derive(PartialEq, Eq, Structural, Clone, Copy, Debug)]
pub enum BeveragePayment {
    Accepted,
    NotEnoughMoney(u32),
}

/// The machine's cash box: a single running balance in cents.
struct Cash {
    total_balance: u32,
}

impl Cash {
    fn new() -> (cash: Cash)
        ensures
            cash.total_balance == 0,
    {
        Cash { total_balance: 0 }
    }

    fn deposit(&mut self, amount: u32)
        requires
            old(self).total_balance + amount <= u32::MAX,
        ensures
            final(self).total_balance == old(self).total_balance + amount,
    {
        self.total_balance += amount;
    }

    fn withdrawn(&mut self, amount: u32)
        requires
            amount <= old(self).total_balance,
        ensures
            final(self).total_balance == old(self).total_balance - amount,
    {
        self.total_balance -= amount;
    }
}

/// Validates payments against the catalog and keeps the cumulative balance.
pub struct Cashier {
    cash: Cash,
}

impl Cashier {
    /// Current balance, in cents: every successful sale deposited the catalog
    /// price and every shortage refund withdrew it again.
    pub closed spec fn balance(self) -> u32 {
        self.cash.total_balance
    }

    pub fn new() -> (cashier: Cashier)
        ensures
            cashier.balance() == 0,
    {
        Cashier { cash: Cash::new() }
    }

    /// Answers what a payment would do, without touching the balance.
    pub fn check_payment(&self, beverage_type: &Beverage, money_amount: u32) -> (payment:
        BeveragePayment)
        ensures
            money_amount >= beverage_price(*beverage_type) ==> payment == BeveragePayment::Accepted,
            money_amount < beverage_price(*beverage_type) ==> payment
                == BeveragePayment::NotEnoughMoney(
                (beverage_price(*beverage_type) - money_amount) as u32,
            ),
    {
        let beverage_price = get_beverage_price(beverage_type);

        if money_amount >= beverage_price {
            BeveragePayment::Accepted
        } else {
            BeveragePayment::NotEnoughMoney(beverage_price - money_amount)
        }
    }

    /// Accepts a sufficient payment, depositing exactly the catalog price;
    /// rejects an insufficient one, carrying the exact shortfall and leaving
    /// the balance untouched.
    pub fn checkout_payment(&mut self, beverage: &Beverage, money_amount: u32) -> (payment:
        BeveragePayment)
        requires
            money_amount >= beverage_price(*beverage) ==> old(self).balance() + beverage_price(
                *beverage,
            ) <= u32::MAX,
        ensures
            money_amount >= beverage_price(*beverage) ==> payment == BeveragePayment::Accepted
                && final(self).balance() == old(self).balance() + beverage_price(*beverage),
            money_amount < beverage_price(*beverage) ==> payment
                == BeveragePayment::NotEnoughMoney((beverage_price(*beverage) - money_amount) as u32)
                && final(self).balance() == old(self).balance(),
    {
        let beverage_price = get_beverage_price(beverage);

        if money_amount >= beverage_price {
            self.cash.deposit(beverage_price);
            BeveragePayment::Accepted
        } else {
            BeveragePayment::NotEnoughMoney(beverage_price - money_amount)
        }
    }

    /// Reverses the deposit of a sale that could not be served. The caller is
    /// responsible for pairing each refund with a prior successful checkout of
    /// the same beverage, which is what makes the balance sufficient.
    pub fn refund_beverage_payment(&mut self, beverage: &Beverage)
        requires
            old(self).balance() >= beverage_price(*beverage),
        ensures
            final(self).balance() == old(self).balance() - beverage_price(*beverage),
    {
        let beverage_price = get_beverage_price(beverage);
        self.cash.withdrawn(beverage_price);
    }

    /// Net money the operator is owed: successful sales minus shortage refunds.
    pub fn total_money_earned(&self) -> (total: u32)
        ensures
            total == self.balance(),
    {
        self.cash.total_balance
    }
}

} // verus!
