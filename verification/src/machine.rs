//! The orchestrator: wires the cashier, the dispenser and the notification
//! collaborators, and drives one purchase attempt from payment to serving,
//! rejection, or compensated shortage.

use vstd::prelude::*;

use crate::beverage::Beverage;
use crate::beverage::SugarAmount;
use crate::beverage_quantity_checker::BeverageQuantityChecker;
use crate::beverage_server::BeverageServer;
use crate::beverages::beverage_request::BeverageRequest;
use crate::beverages::dispenser::Dispenser;
use crate::cashier::beverage_price;
use crate::cashier::BeveragePayment;
use crate::cashier::Cashier;
use crate::dispenser::BeverageDispsense;
use crate::dispenser::DispensedBeveragesHistory;
use crate::display::Display;
use crate::notifier::Notifier;
use crate::reports_printer::PurchasesReport;
use crate::reports_printer::ReportsPrinter;

verus! {

/// The vending machine: exclusive owner of its cashier and dispenser, with
/// shared read-only references to the display, report-printing and
/// notification collaborators.
pub struct Machine<
    'a,
    BS: BeverageServer,
    Q: BeverageQuantityChecker,
    D: Display,
    RP: ReportsPrinter,
    N: Notifier,
> {
    dispenser: Dispenser<'a, BS, Q>,
    cashier: Cashier,
    display: &'a D,
    reports_printer: &'a RP,
    notifier: &'a N,
}

impl<
    'a,
    BS: BeverageServer,
    Q: BeverageQuantityChecker,
    D: Display,
    RP: ReportsPrinter,
    N: Notifier,
> Machine<'a, BS, Q, D, RP, N> {
    /// Net cash balance, in cents.
    pub closed spec fn balance(self) -> u32 {
        self.cashier.balance()
    }

    /// The record of successfully served units.
    pub closed spec fn history(self) -> DispensedBeveragesHistory {
        self.dispenser.history()
    }

    /// The machine's invariant: its served-units record is well formed.
    pub open spec fn wf(self) -> bool {
        self.history().wf()
    }

    /// Whether `self` and `other` are wired to the same collaborators.
    pub closed spec fn shares_collaborators(self, other: Self) -> bool {
        self.dispenser.server() == other.dispenser.server() && self.dispenser.checker()
            == other.dispenser.checker() && self.display == other.display && self.reports_printer
            == other.reports_printer && self.notifier == other.notifier
    }

    /// Whether the machine is wired to exactly these five collaborators.
    pub closed spec fn wired_to(
        self,
        beverage_server: &'a BS,
        beverage_quantity_checker: &'a Q,
        display: &'a D,
        reports_printer: &'a RP,
        notifier: &'a N,
    ) -> bool {
        self.dispenser.server() == beverage_server && self.dispenser.checker()
            == beverage_quantity_checker && self.display == display && self.reports_printer
            == reports_printer && self.notifier == notifier
    }

    /// The attempt left no trace: same balance, same served-units record.
    pub open spec fn left_untouched(pre: Self, post: Self) -> bool {
        post.balance() == pre.balance() && post.history() == pre.history()
    }

    /// The beverage was sold: the balance grew by exactly its catalog price,
    /// its served count grew by exactly one, and no other count moved.
    pub open spec fn sold(pre: Self, post: Self, beverage: Beverage) -> bool {
        post.balance() == pre.balance() + beverage_price(beverage) && post.history().count_of(
            beverage,
        ) == pre.history().count_of(beverage) + 1 && forall|other: Beverage|
            other != beverage ==> post.history().count_of(other) == pre.history().count_of(other)
    }

    /// A fresh machine: empty cash box, nothing served yet.
    pub fn new(
        beverage_server: &'a BS,
        beverage_quantity_checker: &'a Q,
        display: &'a D,
        reports_printer: &'a RP,
        notifier: &'a N,
    ) -> (machine: Self)
        ensures
            machine.wf(),
            machine.balance() == 0,
            machine.history().quantities@.len() == 0,
            forall|beverage: Beverage| machine.history().count_of(beverage) == 0,
            machine.wired_to(
                beverage_server,
                beverage_quantity_checker,
                display,
                reports_printer,
                notifier,
            ),
    {
        Machine {
            dispenser: Dispenser::new(beverage_server, beverage_quantity_checker),
            cashier: Cashier::new(),
            display,
            reports_printer,
            notifier,
        }
    }

    /// Handles one purchase attempt. An insufficient payment is rejected with
    /// a missing-money message and changes nothing. A sufficient payment
    /// deposits the catalog price and asks the dispenser: either the beverage
    /// is served and one unit of it is recorded, or the shortage is
    /// compensated — the deposit is refunded, the notifier and the display
    /// are told — and the attempt leaves no trace in balance or record.
    pub fn dispense(&mut self, beverage_request: BeverageRequest)
        requires
            old(self).wf(),
            beverage_request.money_amount >= beverage_price(beverage_request.beverage)
                ==> old(self).balance() + beverage_price(beverage_request.beverage) <= u32::MAX
                && old(self).history().count_of(beverage_request.beverage) < u32::MAX,
        ensures
            final(self).wf(),
            final(self).shares_collaborators(*old(self)),
            beverage_request.money_amount < beverage_price(beverage_request.beverage)
                ==> Self::left_untouched(*old(self), *final(self)),
            beverage_request.money_amount >= beverage_price(beverage_request.beverage)
                ==> Self::sold(*old(self), *final(self), beverage_request.beverage)
                || Self::left_untouched(*old(self), *final(self)),
    {
        let payment = self.cashier.checkout_payment(
            &beverage_request.beverage,
            beverage_request.money_amount,
        );

        match payment {
            BeveragePayment::Accepted => self.handle_dispense(
                &beverage_request.beverage,
                &beverage_request.sugar_amount,
            ),
            BeveragePayment::NotEnoughMoney(missing_money_amount) => self
                .display
                .show_missing_money_message(missing_money_amount),
        }
    }

    /// Payment is already deposited: serve, or compensate the shortage.
    fn handle_dispense(&mut self, beverage: &Beverage, sugar_amount: &SugarAmount)
        requires
            old(self).wf(),
            old(self).history().count_of(*beverage) < u32::MAX,
            old(self).balance() >= beverage_price(*beverage),
        ensures
            final(self).wf(),
            final(self).shares_collaborators(*old(self)),
            (final(self).balance() == old(self).balance()
                && final(self).history().count_of(*beverage)
                == old(self).history().count_of(*beverage) + 1
                && (forall|other: Beverage| other != *beverage
                    ==> final(self).history().count_of(other)
                    == old(self).history().count_of(other)))
            || (final(self).balance() == old(self).balance() - beverage_price(*beverage)
                && final(self).history() == old(self).history()),
    {
        let dispensed = self.dispenser.dispense(beverage, sugar_amount);

        match dispensed {
            BeverageDispsense::Served => (),
            BeverageDispsense::Shortage => self.handle_beverage_shortage(beverage),
        }
    }

    /// The compensating sequence, in this exact order: refund the deposit,
    /// notify the missing beverage, show the shortage message.
    fn handle_beverage_shortage(&mut self, beverage: &Beverage)
        requires
            old(self).wf(),
            old(self).balance() >= beverage_price(*beverage),
        ensures
            final(self).wf(),
            final(self).shares_collaborators(*old(self)),
            final(self).balance() == old(self).balance() - beverage_price(*beverage),
            final(self).history() == old(self).history(),
    {
        self.cashier.refund_beverage_payment(beverage);
        self.notifier.notify_missing_beverage(beverage);
        self.display.show_beverage_shortage_message(beverage)
    }

    /// Builds the sales snapshot: the served quantities as recorded and the
    /// balance as of now.
    pub fn purchases_report(&self) -> (report: PurchasesReport)
        ensures
            report.beverages_quantities@ == self.history().quantities@,
            report.total_money_earned == self.balance(),
    {
        let dispensed_beverages_history = self.dispenser.dispensed_beverages();
        let total_money_earned = self.cashier.total_money_earned();

        PurchasesReport::new(&dispensed_beverages_history.quantities, total_money_earned)
    }

    /// Snapshots the sales and hands the snapshot to the reports printer.
    /// Reads only: the machine is left exactly as it was.
    pub fn print_purchases_report(&self) {
        let purchase_report = self.purchases_report();
        self.reports_printer.print(purchase_report)
    }
}

/// Reporting is idempotent: two snapshots taken from the same machine state —
/// no dispense in between — are equal.
pub proof fn lemma_purchases_report_idempotent<
    'a,
    BS: BeverageServer,
    Q: BeverageQuantityChecker,
    D: Display,
    RP: ReportsPrinter,
    N: Notifier,
>(machine: Machine<'a, BS, Q, D, RP, N>, first: PurchasesReport, second: PurchasesReport)
    requires
        first.beverages_quantities@ == machine.history().quantities@,
        first.total_money_earned == machine.balance(),
        second.beverages_quantities@ == machine.history().quantities@,
        second.total_money_earned == machine.balance(),
    ensures
        first.beverages_quantities@ == second.beverages_quantities@,
        first.total_money_earned == second.total_money_earned,
{
}

/// A shortage is fully compensated: depositing the catalog price of the
/// beverage and then refunding it leaves the balance where it started.
pub proof fn lemma_shortage_refund_restores_balance(balance: u32, beverage: Beverage)
    requires
        balance + beverage_price(beverage) <= u32::MAX,
    ensures
        (((balance + beverage_price(beverage)) as u32) - beverage_price(beverage)) as u32
            == balance,
{
}

} // verus!
