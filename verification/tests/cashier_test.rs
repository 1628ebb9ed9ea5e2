use coffee_machine::beverage::Beverage;
use coffee_machine::beverage::HotBeverageOption;
use coffee_machine::cashier::get_beverage_price;
use coffee_machine::cashier::BeveragePayment;
use coffee_machine::cashier::Cashier;
use coffee_machine::dispenser::DispensedBeveragesHistory;

#[test]
fn catalog_prices_are_fixed_and_ignore_the_hot_option() {
    assert_eq!(
        get_beverage_price(&Beverage::Coffee(HotBeverageOption::Standard)),
        60
    );
    assert_eq!(
        get_beverage_price(&Beverage::Coffee(HotBeverageOption::ExtraHot)),
        60
    );
    assert_eq!(
        get_beverage_price(&Beverage::Tea(HotBeverageOption::Standard)),
        40
    );
    assert_eq!(
        get_beverage_price(&Beverage::Tea(HotBeverageOption::ExtraHot)),
        40
    );
    assert_eq!(
        get_beverage_price(&Beverage::HotChocolate(HotBeverageOption::Standard)),
        50
    );
    assert_eq!(
        get_beverage_price(&Beverage::HotChocolate(HotBeverageOption::ExtraHot)),
        50
    );
    assert_eq!(get_beverage_price(&Beverage::OrangeJuice), 60);
}

#[test]
fn checkout_of_a_sufficient_payment_deposits_the_price() {
    let mut cashier = Cashier::new();

    let payment =
        cashier.checkout_payment(&Beverage::Coffee(HotBeverageOption::Standard), 60);

    assert_eq!(payment, BeveragePayment::Accepted);
    assert_eq!(cashier.total_money_earned(), 60);
}

#[test]
fn checkout_of_an_overpayment_deposits_only_the_price() {
    let mut cashier = Cashier::new();

    let payment = cashier.checkout_payment(&Beverage::Tea(HotBeverageOption::Standard), 100);

    assert_eq!(payment, BeveragePayment::Accepted);
    assert_eq!(cashier.total_money_earned(), 40);
}

#[test]
fn checkout_of_an_insufficient_payment_reports_the_shortfall_and_keeps_the_balance() {
    let mut cashier = Cashier::new();

    let payment = cashier.checkout_payment(&Beverage::Tea(HotBeverageOption::Standard), 39);

    assert_eq!(payment, BeveragePayment::NotEnoughMoney(1));
    assert_eq!(cashier.total_money_earned(), 0);
}

#[test]
fn checkout_failures_carry_the_exact_missing_amount() {
    let mut cashier = Cashier::new();

    assert_eq!(
        cashier.checkout_payment(&Beverage::Coffee(HotBeverageOption::Standard), 1),
        BeveragePayment::NotEnoughMoney(59)
    );
    assert_eq!(
        cashier.checkout_payment(&Beverage::HotChocolate(HotBeverageOption::Standard), 49),
        BeveragePayment::NotEnoughMoney(1)
    );
    assert_eq!(
        cashier.checkout_payment(&Beverage::OrangeJuice, 59),
        BeveragePayment::NotEnoughMoney(1)
    );
    assert_eq!(cashier.total_money_earned(), 0);
}

#[test]
fn check_payment_answers_without_touching_the_balance() {
    let cashier = Cashier::new();

    assert_eq!(
        cashier.check_payment(&Beverage::Coffee(HotBeverageOption::Standard), 60),
        BeveragePayment::Accepted
    );
    assert_eq!(
        cashier.check_payment(&Beverage::Coffee(HotBeverageOption::Standard), 59),
        BeveragePayment::NotEnoughMoney(1)
    );
    assert_eq!(cashier.total_money_earned(), 0);
}

#[test]
fn refund_after_a_checkout_restores_the_balance() {
    let mut cashier = Cashier::new();
    let beverage = Beverage::HotChocolate(HotBeverageOption::ExtraHot);

    let payment = cashier.checkout_payment(&beverage, 50);
    assert_eq!(payment, BeveragePayment::Accepted);
    assert_eq!(cashier.total_money_earned(), 50);

    cashier.refund_beverage_payment(&beverage);
    assert_eq!(cashier.total_money_earned(), 0);
}

#[test]
fn history_counts_each_served_unit_per_beverage() {
    let mut history = DispensedBeveragesHistory::new();

    history.record_dispensed_beverage(&Beverage::Coffee(HotBeverageOption::Standard));
    history.record_dispensed_beverage(&Beverage::OrangeJuice);
    history.record_dispensed_beverage(&Beverage::Coffee(HotBeverageOption::Standard));

    assert_eq!(
        history.quantities,
        vec![
            (Beverage::Coffee(HotBeverageOption::Standard), 2),
            (Beverage::OrangeJuice, 1)
        ]
    );
}

#[test]
fn history_tells_hot_option_variants_apart() {
    let mut history = DispensedBeveragesHistory::new();

    history.record_dispensed_beverage(&Beverage::Tea(HotBeverageOption::Standard));
    history.record_dispensed_beverage(&Beverage::Tea(HotBeverageOption::ExtraHot));

    assert_eq!(
        history.quantities,
        vec![
            (Beverage::Tea(HotBeverageOption::Standard), 1),
            (Beverage::Tea(HotBeverageOption::ExtraHot), 1)
        ]
    );
}
