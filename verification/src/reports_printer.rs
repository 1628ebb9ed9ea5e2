//! Sales reporting: the snapshot type and the collaborator that consumes it.

use vstd::prelude::*;

use crate::beverage::Beverage;

verus! {

/// Consumes a sales snapshot, for printing or forwarding. Presentation is
/// outside this crate; implementations make no promise here.
pub trait ReportsPrinter {
    fn print(&self, purchase_report: PurchasesReport);
}

/// Immutable snapshot of the sales: the per-beverage served quantities and
/// the total balance at snapshot time.
#[derive(PartialEq, Eq, Debug, Clone)]
pub struct PurchasesReport {
    pub beverages_quantities: Vec<(Beverage, u32)>,
    pub total_money_earned: u32,
}

impl PurchasesReport {
    pub fn new(beverages_quantities: &Vec<(Beverage, u32)>, total_money_earned: u32) -> (report:
        PurchasesReport)
        ensures
            report.beverages_quantities@ == beverages_quantities@,
            report.total_money_earned == total_money_earned,
    {
        PurchasesReport { beverages_quantities: copy_quantities(beverages_quantities), total_money_earned }
    }
}

/// Copies an entry list element by element.
fn copy_quantities(quantities: &Vec<(Beverage, u32)>) -> (copy: Vec<(Beverage, u32)>)
    ensures
        copy@ == quantities@,
{
    let n = quantities.len();
    let mut copy: Vec<(Beverage, u32)> = Vec::new();
    let mut i: usize = 0;
    while i < n
        invariant
            i <= n,
            n == quantities@.len(),
            copy@ =~= quantities@.subrange(0, i as int),
        decreases n - i,
    {
        copy.push(quantities[i]);
        i += 1;
    }
    proof {
        assert(copy@ =~= quantities@);
    }
    copy
}

} // verus!
