pub mod beverage_request;
pub mod dispenser;
