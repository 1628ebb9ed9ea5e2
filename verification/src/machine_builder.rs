//! Staged construction of a [`Machine`]: each collaborator must be supplied,
//! in a fixed order, before `build` becomes available — a configuration the
//! type system enforces at compile time.

use vstd::prelude::*;

use crate::beverage::Beverage;
use crate::beverage_quantity_checker::BeverageQuantityChecker;
use crate::beverage_server::BeverageServer;
use crate::display::Display;
use crate::machine::Machine;
use crate::notifier::Notifier;
use crate::reports_printer::ReportsPrinter;

verus! {

/// Entry point of the staged builder; asks for the beverage server first.
pub struct MachineBuilder {}

impl MachineBuilder {
    pub fn set<'a, BS: BeverageServer>(self, beverage_server: &'a BS) -> (next:
        RequiresBeverageQuantityChecker<'a, BS>)
        ensures
            next.server() == beverage_server,
    {
        RequiresBeverageQuantityChecker::new(beverage_server)
    }
}

impl Default for MachineBuilder {
    fn default() -> (builder: MachineBuilder)
        ensures
            builder == (MachineBuilder {  }),
    {
        MachineBuilder {  }
    }
}

/// Holds the beverage server; asks for the stock checker next.
pub struct RequiresBeverageQuantityChecker<'a, BS: BeverageServer> {
    beverage_server: &'a BS,
}

impl<'a, BS: BeverageServer> RequiresBeverageQuantityChecker<'a, BS> {
    pub closed spec fn server(self) -> &'a BS {
        self.beverage_server
    }

    fn new(beverage_server: &'a BS) -> (stage: Self)
        ensures
            stage.server() == beverage_server,
    {
        RequiresBeverageQuantityChecker { beverage_server }
    }

    pub fn set<Q: BeverageQuantityChecker>(self, beverage_quantity_checker: &'a Q) -> (next:
        RequiresDisplay<'a, BS, Q>)
        ensures
            next.server() == self.server(),
            next.checker() == beverage_quantity_checker,
    {
        RequiresDisplay::new(self, beverage_quantity_checker)
    }
}

/// Holds server and stock checker; asks for the display next.
pub struct RequiresDisplay<'a, BS: BeverageServer, Q: BeverageQuantityChecker> {
    beverage_server: &'a BS,
    beverage_quantity_checker: &'a Q,
}

impl<'a, BS: BeverageServer, Q: BeverageQuantityChecker> RequiresDisplay<'a, BS, Q> {
    pub closed spec fn server(self) -> &'a BS {
        self.beverage_server
    }

    pub closed spec fn checker(self) -> &'a Q {
        self.beverage_quantity_checker
    }

    fn new(
        requires_beverage_quantity_checker: RequiresBeverageQuantityChecker<'a, BS>,
        beverage_quantity_checker: &'a Q,
    ) -> (stage: Self)
        ensures
            stage.server() == requires_beverage_quantity_checker.server(),
            stage.checker() == beverage_quantity_checker,
    {
        RequiresDisplay {
            beverage_server: requires_beverage_quantity_checker.beverage_server,
            beverage_quantity_checker,
        }
    }

    pub fn set<D: Display>(self, display: &'a D) -> (next: RequiresReportsPrinter<'a, BS, Q, D>)
        ensures
            next.server() == self.server(),
            next.checker() == self.checker(),
            next.display() == display,
    {
        RequiresReportsPrinter::new(self, display)
    }
}

/// Holds server, stock checker and display; asks for the reports printer
/// next.
pub struct RequiresReportsPrinter<
    'a,
    BS: BeverageServer,
    Q: BeverageQuantityChecker,
    D: Display,
> {
    beverage_server: &'a BS,
    beverage_quantity_checker: &'a Q,
    display: &'a D,
}

impl<'a, BS: BeverageServer, Q: BeverageQuantityChecker, D: Display> RequiresReportsPrinter<
    'a,
    BS,
    Q,
    D,
> {
    pub closed spec fn server(self) -> &'a BS {
        self.beverage_server
    }

    pub closed spec fn checker(self) -> &'a Q {
        self.beverage_quantity_checker
    }

    pub closed spec fn display(self) -> &'a D {
        self.display
    }

    fn new(requires_display: RequiresDisplay<'a, BS, Q>, display: &'a D) -> (stage: Self)
        ensures
            stage.server() == requires_display.server(),
            stage.checker() == requires_display.checker(),
            stage.display() == display,
    {
        RequiresReportsPrinter {
            beverage_server: requires_display.beverage_server,
            beverage_quantity_checker: requires_display.beverage_quantity_checker,
            display,
        }
    }

    pub fn set<RP: ReportsPrinter>(self, report_printer: &'a RP) -> (next: RequiresNotifier<
        'a,
        BS,
        Q,
        D,
        RP,
    >)
        ensures
            next.server() == self.server(),
            next.checker() == self.checker(),
            next.display() == self.display(),
            next.printer() == report_printer,
    {
        RequiresNotifier::new(self, report_printer)
    }
}

/// Holds everything but the notifier; asks for it next.
pub struct RequiresNotifier<
    'a,
    BS: BeverageServer,
    Q: BeverageQuantityChecker,
    D: Display,
    RP: ReportsPrinter,
> {
    beverage_server: &'a BS,
    beverage_quantity_checker: &'a Q,
    display: &'a D,
    reports_printer: &'a RP,
}

impl<
    'a,
    BS: BeverageServer,
    Q: BeverageQuantityChecker,
    D: Display,
    RP: ReportsPrinter,
> RequiresNotifier<'a, BS, Q, D, RP> {
    pub closed spec fn server(self) -> &'a BS {
        self.beverage_server
    }

    pub closed spec fn checker(self) -> &'a Q {
        self.beverage_quantity_checker
    }

    pub closed spec fn display(self) -> &'a D {
        self.display
    }

    pub closed spec fn printer(self) -> &'a RP {
        self.reports_printer
    }

    fn new(
        requires_reports_printer: RequiresReportsPrinter<'a, BS, Q, D>,
        reports_printer: &'a RP,
    ) -> (stage: Self)
        ensures
            stage.server() == requires_reports_printer.server(),
            stage.checker() == requires_reports_printer.checker(),
            stage.display() == requires_reports_printer.display(),
            stage.printer() == reports_printer,
    {
        RequiresNotifier {
            beverage_server: requires_reports_printer.beverage_server,
            beverage_quantity_checker: requires_reports_printer.beverage_quantity_checker,
            display: requires_reports_printer.display,
            reports_printer,
        }
    }

    pub fn set<N: Notifier>(self, notifier: &'a N) -> (next: MachineBuilderReadyForBuilding<
        'a,
        BS,
        Q,
        D,
        RP,
        N,
    >)
        ensures
            next.server() == self.server(),
            next.checker() == self.checker(),
            next.display() == self.display(),
            next.printer() == self.printer(),
            next.notifier() == notifier,
    {
        MachineBuilderReadyForBuilding::new(self, notifier)
    }
}

/// All five collaborators supplied: the machine can be built.
pub struct MachineBuilderReadyForBuilding<
    'a,
    BS: BeverageServer,
    Q: BeverageQuantityChecker,
    D: Display,
    RP: ReportsPrinter,
    N: Notifier,
> {
    beverage_server: &'a BS,
    beverage_quantity_checker: &'a Q,
    display: &'a D,
    reports_printer: &'a RP,
    notifier: &'a N,
}

impl<
    'a,
    BS: BeverageServer,
    Q: BeverageQuantityChecker,
    D: Display,
    RP: ReportsPrinter,
    N: Notifier,
> MachineBuilderReadyForBuilding<'a, BS, Q, D, RP, N> {
    pub closed spec fn server(self) -> &'a BS {
        self.beverage_server
    }

    pub closed spec fn checker(self) -> &'a Q {
        self.beverage_quantity_checker
    }

    pub closed spec fn display(self) -> &'a D {
        self.display
    }

    pub closed spec fn printer(self) -> &'a RP {
        self.reports_printer
    }

    pub closed spec fn notifier(self) -> &'a N {
        self.notifier
    }

    fn new(requires_notifier: RequiresNotifier<'a, BS, Q, D, RP>, notifier: &'a N) -> (stage: Self)
        ensures
            stage.server() == requires_notifier.server(),
            stage.checker() == requires_notifier.checker(),
            stage.display() == requires_notifier.display(),
            stage.printer() == requires_notifier.printer(),
            stage.notifier() == notifier,
    {
        MachineBuilderReadyForBuilding {
            beverage_server: requires_notifier.beverage_server,
            beverage_quantity_checker: requires_notifier.beverage_quantity_checker,
            display: requires_notifier.display,
            reports_printer: requires_notifier.reports_printer,
            notifier,
        }
    }

    /// A fresh machine wired to the five supplied collaborators.
    pub fn build(self) -> (machine: Machine<'a, BS, Q, D, RP, N>)
        ensures
            machine.wf(),
            machine.balance() == 0,
            machine.history().quantities@.len() == 0,
            forall|beverage: Beverage| machine.history().count_of(beverage) == 0,
            machine.wired_to(
                self.server(),
                self.checker(),
                self.display(),
                self.printer(),
                self.notifier(),
            ),
    {
        Machine::new(
            self.beverage_server,
            self.beverage_quantity_checker,
            self.display,
            self.reports_printer,
            self.notifier,
        )
    }
}

} // verus!
