//! Control logic of a beverage vending machine.
//!
//! A purchase request (beverage, sugar preference, money tendered) is checked
//! against the price catalog, dispensed if the stock allows it, and refunded on
//! a shortage; running sales statistics are kept for reporting. The hardware,
//! display, notification and report-printing collaborators are traits that the
//! embedding program implements; the decision logic around them is verified.

pub mod beverage;
pub mod beverage_quantity_checker;
pub mod beverage_server;
pub mod beverages;
pub mod cashier;
pub mod dispenser;
pub mod display;
pub mod drink_maker;
pub mod drink_maker_proxy;
pub mod machine;
pub mod machine_builder;
pub mod notifier;
pub mod reports_printer;
