//! Stock-aware serving: the dispensing outcome and the per-beverage record of
//! successfully served units.

use vstd::prelude::*;

use crate::beverage::Beverage;
use crate::beverage::SugarAmount;

verus! {

/// Outcome of a dispense attempt: served, or refused for lack of stock.
#[derive(PartialEq, Eq, Structural, Clone, Copy, Debug)]
pub enum BeverageDispsense {
    Served,
    Shortage,
}

/// Number of units recorded for `beverage` in the entry list `s`: the count of
/// its entry, or zero where it has none.
pub open spec fn seq_count(s: Seq<(Beverage, u32)>, beverage: Beverage) -> u32
    decreases s.len(),
{
    if s.len() == 0 {
        0
    } else if s.last().0 == beverage {
        s.last().1
    } else {
        seq_count(s.drop_last(), beverage)
    }
}

/// Per-beverage count of successfully served units, used to build sales
/// reports. Insertion order is irrelevant to the counts.
#[derive(PartialEq, Eq, Debug, Clone)]
pub struct DispensedBeveragesHistory {
    pub quantities: Vec<(Beverage, u32)>,
}

impl DispensedBeveragesHistory {
    /// Each beverage has at most one entry, and every entry counts at least
    /// one served unit: an attempt that was not served leaves no entry.
    pub open spec fn wf(self) -> bool {
        (forall|i: int, j: int|
            0 <= i < j < self.quantities@.len() ==> (#[trigger] self.quantities@[i]).0 != (
            #[trigger] self.quantities@[j]).0) && (forall|i: int|
            0 <= i < self.quantities@.len() ==> (#[trigger] self.quantities@[i]).1 >= 1)
    }

    /// Units recorded for `beverage`; zero where it was never served.
    pub open spec fn count_of(self, beverage: Beverage) -> u32 {
        seq_count(self.quantities@, beverage)
    }

    pub fn new() -> (history: DispensedBeveragesHistory)
        ensures
            history.wf(),
            history.quantities@ =~= Seq::<(Beverage, u32)>::empty(),
            forall|beverage: Beverage| history.count_of(beverage) == 0,
    {
        DispensedBeveragesHistory { quantities: Vec::new() }
    }

    /// Adds one served unit of `beverage`: its count grows by exactly one and
    /// every other count is untouched.
    pub fn record_dispensed_beverage(&mut self, beverage: &Beverage)
        requires
            old(self).wf(),
            old(self).count_of(*beverage) < u32::MAX,
        ensures
            final(self).wf(),
            final(self).count_of(*beverage) == old(self).count_of(*beverage) + 1,
            forall|other: Beverage|
                other != *beverage ==> final(self).count_of(other) == old(self).count_of(other),
    {
        let n = self.quantities.len();
        let mut i: usize = 0;
        while i < n
            invariant
                i <= n,
                n == self.quantities@.len(),
                *self == *old(self),
                old(self).wf(),
                old(self).count_of(*beverage) < u32::MAX,
                forall|j: int| 0 <= j < i ==> (#[trigger] self.quantities@[j]).0 != *beverage,
            decreases n - i,
        {
            if self.quantities[i].0 == *beverage {
                let count = self.quantities[i].1;
                proof {
                    lemma_seq_count_at_index(self.quantities@, i as int);
                    lemma_seq_count_update(self.quantities@, i as int, (count + 1) as u32);
                }
                self.quantities.set(i, (*beverage, count + 1));
                return;
            }
            i += 1;
        }
        proof {
            lemma_seq_count_absent(self.quantities@, *beverage);
            lemma_seq_count_push(self.quantities@, (*beverage, 1));
        }
        self.quantities.push((*beverage, 1));
    }
}

impl Default for DispensedBeveragesHistory {
    fn default() -> (history: DispensedBeveragesHistory)
        ensures
            history.wf(),
            forall|beverage: Beverage| history.count_of(beverage) == 0,
    {
        DispensedBeveragesHistory::new()
    }
}

/// In an entry list with at most one entry per beverage, the count of the
/// beverage at any position is that entry's count.
proof fn lemma_seq_count_at_index(s: Seq<(Beverage, u32)>, i: int)
    requires
        0 <= i < s.len(),
        forall|k: int, l: int| 0 <= k < l < s.len() ==> (#[trigger] s[k]).0 != (#[trigger] s[l]).0,
    ensures
        seq_count(s, s[i].0) == s[i].1,
    decreases s.len(),
{
    if i < s.len() - 1 {
        assert(s.drop_last()[i] == s[i]);
        lemma_seq_count_at_index(s.drop_last(), i);
    }
}

/// A beverage without an entry has count zero.
proof fn lemma_seq_count_absent(s: Seq<(Beverage, u32)>, beverage: Beverage)
    requires
        forall|k: int| 0 <= k < s.len() ==> (#[trigger] s[k]).0 != beverage,
    ensures
        seq_count(s, beverage) == 0,
    decreases s.len(),
{
    if s.len() > 0 {
        lemma_seq_count_absent(s.drop_last(), beverage);
    }
}

/// Replacing the count at one position changes that beverage's count to the
/// new value and no other count, provided each beverage has at most one entry.
proof fn lemma_seq_count_update(s: Seq<(Beverage, u32)>, i: int, value: u32)
    requires
        0 <= i < s.len(),
        forall|k: int, l: int| 0 <= k < l < s.len() ==> (#[trigger] s[k]).0 != (#[trigger] s[l]).0,
    ensures
        seq_count(s.update(i, (s[i].0, value)), s[i].0) == value,
        forall|other: Beverage|
            other != s[i].0 ==> seq_count(s.update(i, (s[i].0, value)), other) == #[trigger] seq_count(
                s,
                other,
            ),
    decreases s.len(),
{
    let t = s.update(i, (s[i].0, value));
    if i == s.len() - 1 {
        assert(t.drop_last() =~= s.drop_last());
    } else {
        assert(s.drop_last()[i] == s[i]);
        assert(t.drop_last() =~= s.drop_last().update(i, (s[i].0, value)));
        lemma_seq_count_update(s.drop_last(), i, value);
        assert(s[i].0 != s.last().0);
        assert(seq_count(t, s[i].0) == seq_count(t.drop_last(), s[i].0));
        assert forall|other: Beverage|
            other != s[i].0 implies seq_count(t, other) == seq_count(s, other) by {
            if other != s.last().0 {
                assert(seq_count(t, other) == seq_count(t.drop_last(), other));
                assert(seq_count(s, other) == seq_count(s.drop_last(), other));
            }
        }
    }
}

/// Appending an entry sets that beverage's count to the entry's count and
/// leaves every other count unchanged.
proof fn lemma_seq_count_push(s: Seq<(Beverage, u32)>, entry: (Beverage, u32))
    ensures
        seq_count(s.push(entry), entry.0) == entry.1,
        forall|other: Beverage|
            other != entry.0 ==> seq_count(s.push(entry), other) == #[trigger] seq_count(s, other),
{
    assert(s.push(entry).drop_last() =~= s);
}

/// Gatekeeper between accepted payment and a physically served beverage: it
/// consults the stock, triggers the serve action, and records what was served.
pub trait Dispenser {
    /// The record of successfully served units that this dispenser keeps.
    spec fn history(&self) -> DispensedBeveragesHistory;

    /// Serves `beverage` and records it, or reports a shortage and leaves the
    /// record untouched — there is no third outcome.
    fn dispense(&mut self, beverage: &Beverage, sugar_amount: &SugarAmount) -> (dispense:
        BeverageDispsense)
        requires
            old(self).history().wf(),
            old(self).history().count_of(*beverage) < u32::MAX,
        ensures
            final(self).history().wf(),
            dispense == BeverageDispsense::Shortage ==> final(self).history() == old(
                self,
            ).history(),
            dispense == BeverageDispsense::Served ==> final(self).history().count_of(*beverage)
                == old(self).history().count_of(*beverage) + 1 && (forall|other: Beverage|
                other != *beverage ==> final(self).history().count_of(other) == old(
                    self,
                ).history().count_of(other)),
    ;

    /// Read-only view of the record of served units.
    fn dispensed_beverages(&self) -> (history: &DispensedBeveragesHistory)
        ensures
            *history == self.history(),
    ;
}

} // verus!
