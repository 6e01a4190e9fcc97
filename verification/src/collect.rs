use crate::error::BatchError;
use crate::report::StepReport;
use crate::report::StepReportView;
use vstd::prelude::*;

verus! {

/// The reports stand in rising order of their slots, no slot twice.
spec fn strictly_ordered(reports: Seq<StepReport>) -> bool {
    forall|a: int, b: int| 0 <= a < b < reports.len() ==> reports[a].slot_index < reports[b].slot_index
}

/// Some report in `reports` is that of `slot`.
spec fn reported(reports: Seq<StepReport>, slot: usize) -> bool {
    exists|j: int| 0 <= j < reports.len() && #[trigger] reports[j].slot_index == slot
}

/// The reports by the slot that each came from.
spec fn by_slot(reports: Seq<StepReport>) -> Map<usize, StepReport> {
    Map::new(
        |slot: usize| reported(reports, slot),
        |slot: usize|
            reports[choose|j: int| 0 <= j < reports.len() && #[trigger] reports[j].slot_index == slot],
    )
}

/// `arrivals` holds exactly one report from each of the slots `0..n`.
pub open spec fn one_per_slot(arrivals: Seq<StepReport>, n: nat) -> bool {
    &&& arrivals.len() == n
    &&& forall|j: int| 0 <= j < arrivals.len() ==> (#[trigger] arrivals[j]).slot_index < n
    &&& forall|j: int, k: int|
        0 <= j < k < arrivals.len() ==> (#[trigger] arrivals[j]).slot_index != (
        #[trigger] arrivals[k]).slot_index
}

/// `batch` is `arrivals` put in the order of the slots: the report at place
/// `i` comes from slot `i`, every arrival stands at its slot's place, and
/// nothing stands in the batch that did not arrive.
pub open spec fn is_ordered_batch(batch: Seq<StepReport>, arrivals: Seq<StepReport>) -> bool {
    &&& batch.len() == arrivals.len()
    &&& forall|i: int| 0 <= i < batch.len() ==> (#[trigger] batch[i]).slot_index == i
    &&& forall|j: int|
        0 <= j < arrivals.len() ==> batch[(#[trigger] arrivals[j]).slot_index as int] == arrivals[j]
    &&& forall|i: int| 0 <= i < batch.len() ==> arrivals.contains(#[trigger] batch[i])
}

/// In a strictly ordered sequence the report of a slot is the one found there.
proof fn lemma_by_slot_at(reports: Seq<StepReport>, j: int)
    requires
        strictly_ordered(reports),
        0 <= j < reports.len(),
    ensures
        by_slot(reports).contains_key(reports[j].slot_index),
        by_slot(reports)[reports[j].slot_index] == reports[j],
{
    let slot = reports[j].slot_index;
    assert(reported(reports, slot));
    let c = choose|c: int| 0 <= c < reports.len() && #[trigger] reports[c].slot_index == slot;
    if c < j {
        assert(reports[c].slot_index < reports[j].slot_index);
    } else if j < c {
        assert(reports[j].slot_index < reports[c].slot_index);
    }
}

/// Slots in rising order, all below `bound`: the report at place `j` comes
/// from a slot no smaller than `j` and no larger than the places behind it
/// leave room for.
proof fn lemma_ordered_squeeze(reports: Seq<StepReport>, bound: int, j: int)
    requires
        strictly_ordered(reports),
        forall|i: int| 0 <= i < reports.len() ==> (#[trigger] reports[i]).slot_index < bound,
        0 <= j < reports.len(),
    ensures
        j <= reports[j].slot_index <= bound - (reports.len() - j),
    decreases reports.len(),
{
    if reports.len() > 1 {
        if j > 0 {
            let front = reports.drop_last();
            assert(strictly_ordered(front));
            lemma_ordered_squeeze(front, reports.last().slot_index as int, j - 1);
            assert(front[j - 1] == reports[j - 1]);
            assert(reports[j - 1].slot_index < reports[j].slot_index);
        }
        if j < reports.len() - 1 {
            let back = reports.drop_first();
            assert(strictly_ordered(back)) by {
                assert forall|a: int, b: int| 0 <= a < b < back.len() implies back[a].slot_index
                    < back[b].slot_index by {
                    assert(back[a] == reports[a + 1] && back[b] == reports[b + 1]);
                }
            }
            assert forall|i: int| 0 <= i < back.len() implies (#[trigger] back[i]).slot_index
                < bound by {
                assert(back[i] == reports[i + 1]);
            }
            lemma_ordered_squeeze(back, bound, j);
            assert(back[j] == reports[j + 1]);
            assert(reports[j].slot_index < reports[j + 1].slot_index);
        }
    }
}

/// Slots in rising order, and every slot up to `k` among them: the report at
/// place `k` is that of slot `k`.
proof fn lemma_prefix_in_place(reports: Seq<StepReport>, bound: int, k: usize)
    requires
        strictly_ordered(reports),
        forall|i: int| 0 <= i < reports.len() ==> (#[trigger] reports[i]).slot_index < bound,
        forall|slot: usize| slot <= k ==> reported(reports, slot),
    ensures
        k < reports.len(),
        reports[k as int].slot_index == k,
    decreases k,
{
    assert(reported(reports, k));
    let j = choose|j: int| 0 <= j < reports.len() && #[trigger] reports[j].slot_index == k;
    lemma_ordered_squeeze(reports, bound, j);
    if j < k {
        lemma_prefix_in_place(reports, bound, j as usize);
    }
}

/// What a slot reports when its simulator has failed.
pub open spec fn fault_of(slot: usize) -> StepReportView {
    StepReportView { slot_index: slot, result: Err(BatchError::SlotFault { slot_index: slot }) }
}

/// `batch` holds, in the order of the slots `0..n`, the report that is held
/// for each slot, and a fault for each slot of which none is held.
pub open spec fn is_settled(batch: Seq<StepReport>, n: nat, held: Map<usize, StepReport>) -> bool {
    &&& batch.len() == n
    &&& forall|i: int|
        0 <= i < batch.len() ==> {
            &&& (#[trigger] batch[i]).slot_index == i
            &&& held.contains_key(i as usize) ==> batch[i] == held[i as usize]
            &&& !held.contains_key(i as usize) ==> batch[i]@ == fault_of(i as usize)
        }
}

/// Gathers the reports of one round, whatever order they arrive in, and hands
/// them out in the order of the slots once every slot has reported.
pub struct Collector {
    expected: usize,
    reports: Vec<StepReport>,
}

impl View for Collector {
    type V = Map<usize, StepReport>;

    /// The reports taken so far, by slot.
    closed spec fn view(&self) -> Map<usize, StepReport> {
        by_slot(self.reports@)
    }
}

impl Collector {
    /// The reports are kept in the order of their slots, one to a slot, and
    /// each comes from a slot of the round.
    pub closed spec fn wf(&self) -> bool {
        &&& strictly_ordered(self.reports@)
        &&& forall|i: int|
            0 <= i < self.reports@.len() ==> (#[trigger] self.reports@[i]).slot_index < self.expected
    }

    /// The number of slots that a round has.
    pub closed spec fn spec_expected(&self) -> usize {
        self.expected
    }

    /// The number of reports taken so far.
    pub closed spec fn spec_count(&self) -> nat {
        self.reports@.len()
    }

    /// Every slot has reported.
    pub open spec fn spec_complete(&self) -> bool {
        self.spec_count() == self.spec_expected()
    }

    /// A report is taken only from a slot of the round that has not reported.
    pub open spec fn takes(&self, report: StepReport) -> bool {
        report.slot_index < self.spec_expected() && !self@.contains_key(report.slot_index)
    }

    /// Never more reports than slots, and each from a slot of the round; once
    /// the round is complete every slot has its report.
    pub proof fn lemma_count_bounded(&self)
        requires
            self.wf(),
        ensures
            self.spec_count() <= self.spec_expected(),
            forall|slot: usize| self@.contains_key(slot) ==> slot < self.spec_expected(),
            self.spec_complete() ==> forall|slot: usize|
                slot < self.spec_expected() ==> self@.contains_key(slot),
    {
        let reports = self.reports@;
        if reports.len() > 0 {
            lemma_ordered_squeeze(reports, self.expected as int, reports.len() - 1);
        }
        if self.spec_complete() {
            assert forall|slot: usize| slot < self.spec_expected() implies self@.contains_key(
                slot,
            ) by {
                lemma_ordered_squeeze(reports, self.expected as int, slot as int);
                assert(reports[slot as int].slot_index == slot);
                assert(reported(reports, slot));
            }
        }
    }

    /// A collector for a round of `expected` slots, with nothing taken yet.
    pub fn new(expected: usize) -> (collector: Collector)
        ensures
            collector.wf(),
            collector.spec_expected() == expected,
            collector.spec_count() == 0,
            collector@ == Map::<usize, StepReport>::empty(),
    {
        let collector = Collector { expected, reports: Vec::new() };
        assert(collector@ =~= Map::<usize, StepReport>::empty());
        collector
    }

    pub fn expected(&self) -> (n: usize)
        ensures
            n == self.spec_expected(),
    {
        self.expected
    }

    /// How many reports are still to come.
    pub fn remaining(&self) -> (n: usize)
        requires
            self.wf(),
        ensures
            n == self.spec_expected() - self.spec_count(),
    {
        proof {
            self.lemma_count_bounded();
        }
        self.expected - self.reports.len()
    }

    pub fn is_complete(&self) -> (complete: bool)
        ensures
            complete == self.spec_complete(),
    {
        self.reports.len() == self.expected
    }

    /// Takes one report. A report from a slot outside the round, or from one
    /// that has reported already, is handed back and changes nothing.
    pub fn accept(&mut self, report: StepReport) -> (refused: Option<StepReport>)
        requires
            old(self).wf(),
        ensures
            final(self).wf(),
            final(self).spec_expected() == old(self).spec_expected(),
            old(self).takes(report) ==> {
                &&& refused.is_none()
                &&& final(self)@ == old(self)@.insert(report.slot_index, report)
                &&& final(self).spec_count() == old(self).spec_count() + 1
            },
            !old(self).takes(report) ==> {
                &&& refused == Some(report)
                &&& final(self)@ == old(self)@
                &&& final(self).spec_count() == old(self).spec_count()
            },
    {
        let slot = report.slot_index;
        if slot >= self.expected {
            return Some(report);
        }
        let mut at: usize = 0;
        while at < self.reports.len() && self.reports[at].slot_index < slot
            invariant
                0 <= at <= self.reports.len(),
                *self == *old(self),
                forall|i: int| 0 <= i < at ==> self.reports@[i].slot_index < slot,
            decreases self.reports.len() - at,
        {
            at = at + 1;
        }
        let ghost before = self.reports@;
        if at < self.reports.len() && self.reports[at].slot_index == slot {
            proof {
                lemma_by_slot_at(before, at as int);
            }
            return Some(report);
        }
        proof {
            if reported(before, slot) {
                let j = choose|j: int| 0 <= j < before.len() && #[trigger] before[j].slot_index == slot;
                if j > at {
                    assert(before[at as int].slot_index < before[j].slot_index);
                }
            }
        }
        self.reports.insert(at, report);
        proof {
            let after = self.reports@;
            assert(after == before.insert(at as int, report));
            assert forall|a: int, b: int| 0 <= a < b < after.len() implies after[a].slot_index
                < after[b].slot_index by {
                let pa = if a < at { a } else { a - 1 };
                let pb = if b < at { b } else { b - 1 };
                if a != at && b != at {
                    assert(after[a] == before[pa] && after[b] == before[pb]);
                } else if a == at {
                    assert(after[b] == before[pb]);
                    if pb > at {
                        assert(before[at as int].slot_index < before[pb].slot_index);
                    }
                } else {
                    assert(after[a] == before[pa]);
                }
            }
            assert forall|i: int| 0 <= i < after.len() implies (#[trigger] after[i]).slot_index
                < self.expected by {
                if i != at {
                    let pi = if i < at { i } else { i - 1 };
                    assert(after[i] == before[pi]);
                }
            }
            let grown = by_slot(before).insert(slot, report);
            assert forall|k: usize| by_slot(after).contains_key(k) <==> grown.contains_key(k) by {
                if reported(after, k) {
                    let j = choose|j: int| 0 <= j < after.len() && #[trigger] after[j].slot_index == k;
                    if j != at {
                        let pj = if j < at { j } else { j - 1 };
                        assert(after[j] == before[pj]);
                        assert(reported(before, k));
                    }
                }
                if reported(before, k) {
                    let j = choose|j: int| 0 <= j < before.len() && #[trigger] before[j].slot_index
                        == k;
                    let nj = if j < at { j } else { j + 1 };
                    assert(after[nj] == before[j]);
                    assert(reported(after, k));
                }
                if k == slot {
                    assert(after[at as int].slot_index == slot);
                    assert(reported(after, k));
                }
            }
            assert forall|k: usize| grown.contains_key(k) implies by_slot(after)[k] == grown[k] by {
                if k == slot {
                    lemma_by_slot_at(after, at as int);
                } else {
                    let j = choose|j: int| 0 <= j < before.len() && #[trigger] before[j].slot_index
                        == k;
                    let nj = if j < at { j } else { j + 1 };
                    assert(after[nj] == before[j]);
                    lemma_by_slot_at(before, j);
                    lemma_by_slot_at(after, nj);
                }
            }
            assert(by_slot(after) =~= grown);
        }
        None
    }

    /// Closes the round whether or not every slot has reported: hands out the
    /// reports in the order of the slots, with a fault in the place of each
    /// slot that has not reported.
    pub fn settle(self) -> (batch: Vec<StepReport>)
        requires
            self.wf(),
        ensures
            is_settled(batch@, self.spec_expected() as nat, self@),
    {
        let ghost held = self@;
        let mut filled = self;
        let mut slot: usize = 0;
        while slot < filled.expected
            invariant
                filled.wf(),
                filled.spec_expected() == self.spec_expected(),
                filled.expected == filled.spec_expected(),
                held == self@,
                0 <= slot <= filled.expected,
                forall|k: usize| k < slot ==> #[trigger] filled@.contains_key(k),
                forall|k: usize| #[trigger]
                    held.contains_key(k) ==> filled@.contains_key(k) && filled@[k] == held[k],
                forall|k: usize|
                    #[trigger] filled@.contains_key(k) && !held.contains_key(k) ==> filled@[k]@
                        == fault_of(k),
            decreases filled.expected - slot,
        {
            let ghost before = filled@;
            let fault = StepReport::fault(slot);
            let ghost filler = fault;
            let _ = filled.accept(fault);
            proof {
                assert(filler.slot_index == slot);
                assert(filler@ == fault_of(slot));
                assert(filled@.contains_key(slot));
                assert forall|k: usize| k < slot + 1 implies filled@.contains_key(k) by {
                    if k < slot {
                        assert(before.contains_key(k));
                    }
                }
                assert forall|k: usize| held.contains_key(k) implies filled@.contains_key(k)
                    && filled@[k] == held[k] by {
                    assert(before.contains_key(k) && before[k] == held[k]);
                }
                assert forall|k: usize|
                    filled@.contains_key(k) && !held.contains_key(k) implies filled@[k]@
                    == fault_of(k) by {
                    if before.contains_key(k) {
                        assert(before[k]@ == fault_of(k));
                    }
                }
            }
            slot = slot + 1;
        }
        proof {
            let reports = filled.reports@;
            filled.lemma_count_bounded();
            if filled.expected > 0 {
                assert forall|k: usize| k <= filled.expected - 1 implies reported(reports, k) by {
                    assert(filled@.contains_key(k));
                }
                lemma_prefix_in_place(reports, filled.expected as int, (filled.expected - 1) as usize);
            }
        }
        filled.finish()
    }

    /// Hands out the round's reports in the order of the slots.
    pub fn finish(self) -> (batch: Vec<StepReport>)
        requires
            self.wf(),
            self.spec_complete(),
        ensures
            batch.len() == self.spec_expected(),
            forall|i: int|
                0 <= i < batch.len() ==> {
                    &&& (#[trigger] batch@[i]).slot_index == i
                    &&& self@.contains_key(i as usize)
                    &&& self@[i as usize] == batch@[i]
                },
    {
        proof {
            let reports = self.reports@;
            assert forall|i: int| 0 <= i < reports.len() implies {
                &&& (#[trigger] reports[i]).slot_index == i
                &&& self@.contains_key(i as usize)
                &&& self@[i as usize] == reports[i]
            } by {
                lemma_ordered_squeeze(reports, self.expected as int, i);
                lemma_by_slot_at(reports, i);
            }
        }
        self.reports
    }
}

/// The reports that a round keeps of `arrivals`, by slot: of each slot of the
/// round the report that arrived first. Any other report is dropped.
pub open spec fn collected(n: nat, arrivals: Seq<StepReport>) -> Map<usize, StepReport>
    decreases arrivals.len(),
{
    if arrivals.len() == 0 {
        Map::empty()
    } else {
        let earlier = collected(n, arrivals.drop_last());
        let report = arrivals.last();
        if report.slot_index < n && !earlier.contains_key(report.slot_index) {
            earlier.insert(report.slot_index, report)
        } else {
            earlier
        }
    }
}

/// Turns a sequence of reports round, the last one first.
fn turned(reports: Vec<StepReport>) -> (back: Vec<StepReport>)
    ensures
        back@ == reports@.reverse(),
{
    let ghost all = reports@;
    let mut rest = reports;
    let mut back: Vec<StepReport> = Vec::new();
    while rest.len() > 0
        invariant
            rest@.len() <= all.len(),
            rest@ == all.subrange(0, rest@.len() as int),
            back@.len() == all.len() - rest@.len(),
            forall|i: int| 0 <= i < back@.len() ==> back@[i] == all[all.len() - 1 - i],
        decreases rest@.len(),
    {
        let report = rest.pop().unwrap();
        back.push(report);
    }
    assert(back@ =~= all.reverse());
    back
}

/// Puts a round's reports, as they arrived, in the order of the slots
/// `0..expected`. Of a slot that reported more than once, the first report
/// counts; a report from outside the round is dropped; a slot that did not
/// report stands in the batch with a fault. Where exactly one report came
/// from each slot, the batch holds the arrivals and nothing else.
pub fn collect(arrivals: Vec<StepReport>, expected: usize) -> (batch: Vec<StepReport>)
    ensures
        is_settled(batch@, expected as nat, collected(expected as nat, arrivals@)),
        one_per_slot(arrivals@, expected as nat) ==> is_ordered_batch(batch@, arrivals@),
{
    let ghost all = arrivals@;
    let ghost n = expected as nat;
    let mut rest = turned(arrivals);
    let mut collector = Collector::new(expected);
    assert(all.take(0) =~= Seq::<StepReport>::empty());
    while rest.len() > 0
        invariant
            collector.wf(),
            collector.spec_expected() == expected,
            n == expected,
            all == arrivals@,
            rest@.len() <= all.len(),
            forall|i: int| 0 <= i < rest@.len() ==> rest@[i] == all[all.len() - 1 - i],
            collector@ == collected(n, all.take(all.len() - rest@.len())),
            one_per_slot(all, n) ==> collector.spec_count() == all.len() - rest@.len(),
            forall|slot: usize| #[trigger]
                collector@.contains_key(slot) ==> all.contains(collector@[slot])
                    && collector@[slot].slot_index == slot,
            forall|j: int|
                0 <= j < all.len() - rest@.len() && one_per_slot(all, n) ==> collector@.contains_key(
                    (#[trigger] all[j]).slot_index,
                ) && collector@[all[j].slot_index] == all[j],
        decreases rest@.len(),
    {
        let ghost held = collector@;
        let ghost done = all.len() - rest@.len();
        let arrived = rest.pop().unwrap();
        let ghost report = arrived;
        assert(report == all[done]);
        let _ = collector.accept(arrived);
        proof {
            assert(all.take(done + 1).drop_last() =~= all.take(done));
            assert(all.take(done + 1).last() == report);
            assert(collector@ == collected(n, all.take(done + 1)));
            if one_per_slot(all, n) {
                assert(report.slot_index < n);
                if held.contains_key(report.slot_index) {
                    lemma_kept_arrived_before(n, all, done, report.slot_index);
                    let j = choose|j: int|
                        0 <= j < done && #[trigger] all[j] == held[report.slot_index]
                            && all[j].slot_index == report.slot_index;
                    assert(all[j].slot_index != all[done].slot_index);
                }
            }
            assert forall|slot: usize| #[trigger]
                collector@.contains_key(slot) implies all.contains(collector@[slot])
                && collector@[slot].slot_index == slot by {
                if slot == report.slot_index && !held.contains_key(slot) {
                    assert(all[done] == report);
                } else {
                    assert(held.contains_key(slot));
                }
            }
            assert forall|j: int| 0 <= j < done + 1 && one_per_slot(all, n) implies collector@.contains_key(
                (#[trigger] all[j]).slot_index,
            ) && collector@[all[j].slot_index] == all[j] by {
                if j < done {
                    assert(held.contains_key(all[j].slot_index));
                    assert(all[j].slot_index != all[done].slot_index);
                }
            }
        }
    }
    assert(all.take(all.len() as int) =~= all);
    let ghost held = collector@;
    proof {
        collector.lemma_count_bounded();
    }
    let batch = collector.settle();
    proof {
        if one_per_slot(all, n) {
            assert forall|i: int| 0 <= i < batch@.len() implies all.contains(#[trigger] batch@[i]) by {
                assert(held.contains_key(i as usize));
            }
            assert forall|j: int| 0 <= j < all.len() implies batch@[(
            #[trigger] all[j]).slot_index as int] == all[j] by {
                assert(held.contains_key(all[j].slot_index));
            }
        }
    }
    batch
}

/// A report that a round keeps of a slot is one of the arrivals so far.
proof fn lemma_kept_arrived_before(n: nat, arrivals: Seq<StepReport>, done: int, slot: usize)
    requires
        0 <= done <= arrivals.len(),
        collected(n, arrivals.take(done)).contains_key(slot),
    ensures
        exists|j: int|
            0 <= j < done && #[trigger] arrivals[j] == collected(n, arrivals.take(done))[slot]
                && arrivals[j].slot_index == slot,
    decreases done,
{
    let so_far = arrivals.take(done);
    if done > 0 {
        assert(so_far.drop_last() =~= arrivals.take(done - 1));
        let earlier = collected(n, arrivals.take(done - 1));
        let report = so_far.last();
        assert(report == arrivals[done - 1]);
        if earlier.contains_key(slot) {
            lemma_kept_arrived_before(n, arrivals, done - 1, slot);
            let j = choose|j: int|
                0 <= j < done - 1 && #[trigger] arrivals[j] == earlier[slot] && arrivals[j].slot_index
                    == slot;
            assert(arrivals[j] == collected(n, so_far)[slot]);
        } else {
            assert(arrivals[done - 1] == collected(n, so_far)[slot]);
        }
    }
}

/// Whether a round's reports can be put in order depends only on the slots
/// they come from: a slot that reports a fault in place of an observation
/// holds up neither the round nor any other slot's report.
pub proof fn lemma_fault_does_not_block(
    arrivals: Seq<StepReport>,
    n: nat,
    j: int,
    faulty: StepReport,
    batch: Seq<StepReport>,
)
    requires
        0 <= j < arrivals.len(),
        faulty.slot_index == arrivals[j].slot_index,
    ensures
        one_per_slot(arrivals.update(j, faulty), n) == one_per_slot(arrivals, n),
        one_per_slot(arrivals, n) && is_ordered_batch(batch, arrivals) ==> is_ordered_batch(
            batch.update(faulty.slot_index as int, faulty),
            arrivals.update(j, faulty),
        ),
{
    let changed = arrivals.update(j, faulty);
    assert forall|k: int| 0 <= k < arrivals.len() implies (#[trigger] changed[k]).slot_index == (
    #[trigger] arrivals[k]).slot_index by {}
    if one_per_slot(arrivals, n) {
        assert(one_per_slot(changed, n)) by {
            assert forall|a: int, b: int| 0 <= a < b < changed.len() implies (
            #[trigger] changed[a]).slot_index != (#[trigger] changed[b]).slot_index by {
                assert(arrivals[a].slot_index != arrivals[b].slot_index);
            }
            assert forall|k: int| 0 <= k < changed.len() implies (#[trigger] changed[k]).slot_index
                < n by {
                assert(arrivals[k].slot_index < n);
            }
        }
        if is_ordered_batch(batch, arrivals) {
            let patched = batch.update(faulty.slot_index as int, faulty);
            assert(arrivals[j].slot_index < n);
            assert forall|k: int| 0 <= k < changed.len() implies patched[(
            #[trigger] changed[k]).slot_index as int] == changed[k] by {
                assert(arrivals[k].slot_index < n);
                if k != j {
                    if k < j {
                        assert(arrivals[k].slot_index != arrivals[j].slot_index);
                    } else {
                        assert(arrivals[j].slot_index != arrivals[k].slot_index);
                    }
                    assert(batch[arrivals[k].slot_index as int] == arrivals[k]);
                }
            }
            assert forall|i: int| 0 <= i < patched.len() implies (#[trigger] patched[i]).slot_index
                == i by {
                assert(batch[i].slot_index == i);
            }
            assert forall|i: int| 0 <= i < patched.len() implies changed.contains(
                #[trigger] patched[i],
            ) by {
                if i == faulty.slot_index {
                    assert(changed[j] == faulty);
                } else {
                    assert(arrivals.contains(batch[i]));
                    let k = choose|k: int| 0 <= k < arrivals.len() && arrivals[k] == batch[i];
                    assert(batch[i].slot_index == i);
                    assert(changed[k] == arrivals[k]);
                }
            }
        }
    }
    if one_per_slot(changed, n) {
        assert(one_per_slot(arrivals, n)) by {
            assert forall|a: int, b: int| 0 <= a < b < arrivals.len() implies (
            #[trigger] arrivals[a]).slot_index != (#[trigger] arrivals[b]).slot_index by {
                assert(changed[a].slot_index != changed[b].slot_index);
            }
            assert forall|k: int| 0 <= k < arrivals.len() implies (
            #[trigger] arrivals[k]).slot_index < n by {
                assert(changed[k].slot_index < n);
            }
        }
    }
}

/// The order in which a round's reports arrive does not show in the batch:
/// two runs in which the same reports arrive, one from each slot, end in the
/// same batch.
pub proof fn lemma_arrival_order_is_immaterial(
    first: Seq<StepReport>,
    second: Seq<StepReport>,
    n: nat,
    first_batch: Seq<StepReport>,
    second_batch: Seq<StepReport>,
)
    requires
        one_per_slot(first, n),
        one_per_slot(second, n),
        forall|j: int| 0 <= j < first.len() ==> second.contains(#[trigger] first[j]),
        is_ordered_batch(first_batch, first),
        is_ordered_batch(second_batch, second),
    ensures
        first_batch == second_batch,
{
    assert forall|i: int| 0 <= i < first_batch.len() implies first_batch[i] == second_batch[i] by {
        assert(first.contains(first_batch[i]));
        let j = choose|j: int| 0 <= j < first.len() && first[j] == first_batch[i];
        assert(second.contains(first[j]));
        let k = choose|k: int| 0 <= k < second.len() && second[k] == first[j];
        assert(second_batch[second[k].slot_index as int] == second[k]);
        assert(first_batch[i].slot_index == i);
    }
    assert(first_batch =~= second_batch);
}

} // verus!
