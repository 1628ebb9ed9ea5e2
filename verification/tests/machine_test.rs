use std::cell::RefCell;
use std::collections::HashSet;

use coffee_machine::beverage::Beverage;
use coffee_machine::beverage::HotBeverageOption;
use coffee_machine::beverage::SugarAmount;
use coffee_machine::beverage_quantity_checker::BeverageQuantityChecker;
use coffee_machine::beverage_server::BeverageServer;
use coffee_machine::beverages::beverage_request::BeverageRequest;
use coffee_machine::display::Display;
use coffee_machine::machine_builder::MachineBuilder;
use coffee_machine::notifier::Notifier;
use coffee_machine::reports_printer::PurchasesReport;
use coffee_machine::reports_printer::ReportsPrinter;

const ENOUGH_MONEY: u32 = 100;

struct DummyBeverageServer {}
impl BeverageServer for DummyBeverageServer {
    fn serve(&self, _beverage: &Beverage, _sugar_amount: &SugarAmount) {}
}

struct BeverageServerTestDouble {
    requested_beverages: RefCell<Vec<(Beverage, SugarAmount)>>,
}

impl BeverageServerTestDouble {
    fn new() -> Self {
        Self {
            requested_beverages: RefCell::new(Vec::new()),
        }
    }

    fn spied_requested_beverages(&self) -> Vec<(Beverage, SugarAmount)> {
        self.requested_beverages.borrow().clone()
    }
}

impl BeverageServer for BeverageServerTestDouble {
    fn serve(&self, beverage: &Beverage, sugar_amount: &SugarAmount) {
        self.requested_beverages
            .borrow_mut()
            .push((*beverage, *sugar_amount));
    }
}

struct InfiniteBeverageQuantityCheckerFake {}
impl BeverageQuantityChecker for InfiniteBeverageQuantityCheckerFake {
    fn is_empty(&self, _beverage: &Beverage) -> bool {
        false
    }
}

struct EmptyBeverageQuantityCheckerFake {}
impl BeverageQuantityChecker for EmptyBeverageQuantityCheckerFake {
    fn is_empty(&self, _beverage: &Beverage) -> bool {
        true
    }
}

struct BeverageQuantityCheckerTestDouble {
    empty_beverages: RefCell<HashSet<Beverage>>,
}

impl BeverageQuantityCheckerTestDouble {
    fn new() -> Self {
        BeverageQuantityCheckerTestDouble {
            empty_beverages: RefCell::new(HashSet::new()),
        }
    }

    fn stub_beverage_as_available(&self, _beverage: &Beverage) {}

    fn stub_beverage_as_empty(&self, beverage: Beverage) {
        self.empty_beverages.borrow_mut().insert(beverage);
    }
}

impl BeverageQuantityChecker for BeverageQuantityCheckerTestDouble {
    fn is_empty(&self, beverage: &Beverage) -> bool {
        self.empty_beverages.borrow().contains(beverage)
    }
}

struct DummyDisplay {}
impl Display for DummyDisplay {
    fn show_missing_money_message(&self, _missing_money: u32) {}

    fn show_beverage_shortage_message(&self, _beverage: &Beverage) {}
}

struct DisplayTestDouble {
    missing_money_message_requests: RefCell<Vec<u32>>,
    beverage_shortage_message_request: RefCell<Vec<Beverage>>,
}

impl DisplayTestDouble {
    fn new() -> Self {
        Self {
            missing_money_message_requests: RefCell::new(Vec::new()),
            beverage_shortage_message_request: RefCell::new(Vec::new()),
        }
    }

    fn spied_missing_money_message_requests(&self) -> Vec<u32> {
        self.missing_money_message_requests.borrow().clone()
    }

    fn spied_beverage_shortage_message_requests(&self) -> Vec<Beverage> {
        self.beverage_shortage_message_request.borrow().clone()
    }
}

impl Display for DisplayTestDouble {
    fn show_missing_money_message(&self, missing_money: u32) {
        self.missing_money_message_requests
            .borrow_mut()
            .push(missing_money);
    }

    fn show_beverage_shortage_message(&self, beverage: &Beverage) {
        self.beverage_shortage_message_request
            .borrow_mut()
            .push(*beverage);
    }
}

struct DummyReportsPrinter {}
impl ReportsPrinter for DummyReportsPrinter {
    fn print(&self, _purchase_report: PurchasesReport) {}
}

struct ReportsPrinterTestDouble {
    reports_requested_to_print: RefCell<Vec<PurchasesReport>>,
}

impl ReportsPrinterTestDouble {
    fn new() -> ReportsPrinterTestDouble {
        ReportsPrinterTestDouble {
            reports_requested_to_print: RefCell::new(vec![]),
        }
    }

    fn spied_reports_requested_to_print(&self) -> Vec<PurchasesReport> {
        self.reports_requested_to_print.borrow().clone()
    }
}

impl ReportsPrinter for ReportsPrinterTestDouble {
    fn print(&self, purchase_report: PurchasesReport) {
        self.reports_requested_to_print
            .borrow_mut()
            .push(purchase_report.clone())
    }
}

struct DummyNotifier {}
impl Notifier for DummyNotifier {
    fn notify_missing_beverage(&self, _drink: &Beverage) {}
}

struct NotifierTestDouble {
    missing_beverages_notifications: RefCell<Vec<Beverage>>,
}

impl NotifierTestDouble {
    fn new() -> NotifierTestDouble {
        NotifierTestDouble {
            missing_beverages_notifications: RefCell::new(Vec::new()),
        }
    }

    fn spied_missing_beverages_notifications(&self) -> Vec<Beverage> {
        self.missing_beverages_notifications.borrow().clone()
    }
}

impl Notifier for NotifierTestDouble {
    fn notify_missing_beverage(&self, drink: &Beverage) {
        self.missing_beverages_notifications.borrow_mut().push(*drink)
    }
}

#[test]
fn machine_machine_prints_purchases_report() {
    let reports_printer_test_double = ReportsPrinterTestDouble::new();
    let mut machine = MachineBuilder::default()
        .set(&DummyBeverageServer {})
        .set(&InfiniteBeverageQuantityCheckerFake {})
        .set(&DummyDisplay {})
        .set(&reports_printer_test_double)
        .set(&DummyNotifier {})
        .build();
    machine.dispense(BeverageRequest::new(
        Beverage::Coffee(HotBeverageOption::Standard),
        SugarAmount::Zero,
        ENOUGH_MONEY,
    ));
    machine.dispense(BeverageRequest::new(
        Beverage::Coffee(HotBeverageOption::Standard),
        SugarAmount::Zero,
        ENOUGH_MONEY,
    ));
    machine.dispense(BeverageRequest::new(
        Beverage::OrangeJuice,
        SugarAmount::Zero,
        ENOUGH_MONEY,
    ));

    machine.print_purchases_report();

    let expected_report = PurchasesReport {
        beverages_quantities: vec![
            (Beverage::Coffee(HotBeverageOption::Standard), 2),
            (Beverage::OrangeJuice, 1),
        ],
        total_money_earned: 180,
    };
    assert_eq!(
        reports_printer_test_double.spied_reports_requested_to_print(),
        vec![expected_report]
    )
}

#[test]
fn machine_machine_does_not_dispense_the_requested_beverage_when_there_is_a_shortage() {
    let beverage_server_test_double = BeverageServerTestDouble::new();
    let mut machine = MachineBuilder::default()
        .set(&beverage_server_test_double)
        .set(&EmptyBeverageQuantityCheckerFake {})
        .set(&DummyDisplay {})
        .set(&DummyReportsPrinter {})
        .set(&DummyNotifier {})
        .build();

    let beverage_request = BeverageRequest::new(
        Beverage::Coffee(HotBeverageOption::Standard),
        SugarAmount::Zero,
        ENOUGH_MONEY,
    );
    machine.dispense(beverage_request);

    let requested_beverages = beverage_server_test_double.spied_requested_beverages();
    assert_eq!(requested_beverages, Vec::new())
}

#[test]
fn machine_purchase_report_does_not_contain_beverages_not_dispensed_due_to_a_shortage() {
    let reports_printer_test_double = ReportsPrinterTestDouble::new();
    let stub_beverage_quantity_checker = BeverageQuantityCheckerTestDouble::new();
    stub_beverage_quantity_checker
        .stub_beverage_as_available(&Beverage::Coffee(HotBeverageOption::Standard));
    stub_beverage_quantity_checker.stub_beverage_as_empty(Beverage::OrangeJuice);
    let mut machine = MachineBuilder::default()
        .set(&DummyBeverageServer {})
        .set(&stub_beverage_quantity_checker)
        .set(&DummyDisplay {})
        .set(&reports_printer_test_double)
        .set(&DummyNotifier {})
        .build();
    machine.dispense(BeverageRequest::new(
        Beverage::Coffee(HotBeverageOption::Standard),
        SugarAmount::Zero,
        ENOUGH_MONEY,
    ));
    machine.dispense(BeverageRequest::new(
        Beverage::OrangeJuice,
        SugarAmount::Zero,
        ENOUGH_MONEY,
    ));

    machine.print_purchases_report();

    let expected_report = PurchasesReport {
        beverages_quantities: vec![(Beverage::Coffee(HotBeverageOption::Standard), 1)],
        total_money_earned: 60,
    };
    assert_eq!(
        reports_printer_test_double.spied_reports_requested_to_print(),
        vec![expected_report]
    )
}

#[test]
fn machine_machine_notifies_when_unable_to_dipsense_beverage_due_to_a_shortage() {
    let stub_beverage_quantity_checker = BeverageQuantityCheckerTestDouble::new();
    stub_beverage_quantity_checker
        .stub_beverage_as_available(&Beverage::Coffee(HotBeverageOption::Standard));
    stub_beverage_quantity_checker.stub_beverage_as_empty(Beverage::OrangeJuice);
    stub_beverage_quantity_checker
        .stub_beverage_as_empty(Beverage::Tea(HotBeverageOption::ExtraHot));
    let notifier_test_double = NotifierTestDouble::new();
    let mut machine = MachineBuilder::default()
        .set(&DummyBeverageServer {})
        .set(&stub_beverage_quantity_checker)
        .set(&DummyDisplay {})
        .set(&DummyReportsPrinter {})
        .set(&notifier_test_double)
        .build();

    let coffee_beverage_request = BeverageRequest::new(
        Beverage::Coffee(HotBeverageOption::Standard),
        SugarAmount::Zero,
        ENOUGH_MONEY,
    );
    let orange_juice_beverage_request =
        BeverageRequest::new(Beverage::OrangeJuice, SugarAmount::Zero, ENOUGH_MONEY);
    let tea_beverage_request = BeverageRequest::new(
        Beverage::Tea(HotBeverageOption::ExtraHot),
        SugarAmount::Zero,
        ENOUGH_MONEY,
    );
    machine.dispense(coffee_beverage_request);
    machine.dispense(orange_juice_beverage_request);
    machine.dispense(tea_beverage_request);

    let notified_missing_beverages = notifier_test_double.spied_missing_beverages_notifications();
    assert_eq!(
        notified_missing_beverages,
        vec![
            Beverage::OrangeJuice,
            Beverage::Tea(HotBeverageOption::ExtraHot)
        ]
    )
}

#[test]
fn machine_dispenses_beverage_and_reports_the_sale() {
    let beverage_server_test_double = BeverageServerTestDouble::new();
    let reports_printer_test_double = ReportsPrinterTestDouble::new();
    let mut machine = MachineBuilder::default()
        .set(&beverage_server_test_double)
        .set(&InfiniteBeverageQuantityCheckerFake {})
        .set(&DummyDisplay {})
        .set(&reports_printer_test_double)
        .set(&DummyNotifier {})
        .build();

    machine.dispense(BeverageRequest::new(
        Beverage::Coffee(HotBeverageOption::Standard),
        SugarAmount::One,
        60,
    ));
    machine.print_purchases_report();

    assert_eq!(
        beverage_server_test_double.spied_requested_beverages(),
        vec![(Beverage::Coffee(HotBeverageOption::Standard), SugarAmount::One)]
    );
    let expected_report = PurchasesReport {
        beverages_quantities: vec![(Beverage::Coffee(HotBeverageOption::Standard), 1)],
        total_money_earned: 60,
    };
    assert_eq!(machine.purchases_report(), expected_report);
    assert_eq!(
        reports_printer_test_double.spied_reports_requested_to_print(),
        vec![expected_report]
    )
}

#[test]
fn machine_rejects_insufficient_payment_with_the_exact_shortfall() {
    let beverage_server_test_double = BeverageServerTestDouble::new();
    let display_test_double = DisplayTestDouble::new();
    let reports_printer_test_double = ReportsPrinterTestDouble::new();
    let mut machine = MachineBuilder::default()
        .set(&beverage_server_test_double)
        .set(&InfiniteBeverageQuantityCheckerFake {})
        .set(&display_test_double)
        .set(&reports_printer_test_double)
        .set(&DummyNotifier {})
        .build();

    machine.dispense(BeverageRequest::new(
        Beverage::Tea(HotBeverageOption::Standard),
        SugarAmount::Zero,
        39,
    ));
    machine.print_purchases_report();

    assert_eq!(
        display_test_double.spied_missing_money_message_requests(),
        vec![1]
    );
    assert_eq!(
        beverage_server_test_double.spied_requested_beverages(),
        Vec::new()
    );
    let expected_report = PurchasesReport {
        beverages_quantities: vec![],
        total_money_earned: 0,
    };
    assert_eq!(
        reports_printer_test_double.spied_reports_requested_to_print(),
        vec![expected_report]
    )
}

#[test]
fn machine_compensates_a_shortage_with_a_full_refund_and_both_notifications() {
    let beverage_server_test_double = BeverageServerTestDouble::new();
    let display_test_double = DisplayTestDouble::new();
    let reports_printer_test_double = ReportsPrinterTestDouble::new();
    let notifier_test_double = NotifierTestDouble::new();
    let mut machine = MachineBuilder::default()
        .set(&beverage_server_test_double)
        .set(&EmptyBeverageQuantityCheckerFake {})
        .set(&display_test_double)
        .set(&reports_printer_test_double)
        .set(&notifier_test_double)
        .build();

    machine.dispense(BeverageRequest::new(
        Beverage::Coffee(HotBeverageOption::Standard),
        SugarAmount::Zero,
        60,
    ));
    machine.print_purchases_report();

    assert_eq!(
        notifier_test_double.spied_missing_beverages_notifications(),
        vec![Beverage::Coffee(HotBeverageOption::Standard)]
    );
    assert_eq!(
        display_test_double.spied_beverage_shortage_message_requests(),
        vec![Beverage::Coffee(HotBeverageOption::Standard)]
    );
    assert_eq!(
        beverage_server_test_double.spied_requested_beverages(),
        Vec::new()
    );
    let expected_report = PurchasesReport {
        beverages_quantities: vec![],
        total_money_earned: 0,
    };
    assert_eq!(
        reports_printer_test_double.spied_reports_requested_to_print(),
        vec![expected_report]
    )
}

#[test]
fn machine_reporting_twice_without_dispensing_prints_two_equal_reports() {
    let reports_printer_test_double = ReportsPrinterTestDouble::new();
    let mut machine = MachineBuilder::default()
        .set(&DummyBeverageServer {})
        .set(&InfiniteBeverageQuantityCheckerFake {})
        .set(&DummyDisplay {})
        .set(&reports_printer_test_double)
        .set(&DummyNotifier {})
        .build();

    machine.dispense(BeverageRequest::new(
        Beverage::OrangeJuice,
        SugarAmount::Zero,
        ENOUGH_MONEY,
    ));
    machine.print_purchases_report();
    machine.print_purchases_report();

    let reports = reports_printer_test_double.spied_reports_requested_to_print();
    assert_eq!(reports.len(), 2);
    assert_eq!(reports[0], reports[1]);
}
