//! Aggregated connection counters.

use vstd::prelude::*;
use vstd::string::*;

use crate::relay::{ConnectionLog, ConnectionOutcome, ConnectionOutcomeView};

verus! {

/// The sum of all values of a finite map.
pub open spec fn sum_of(counts: Map<Seq<char>, u64>) -> nat
    decreases counts.dom().len(),
    when counts.dom().finite()
{
    if counts.dom().len() == 0 {
        0
    } else {
        let label = counts.dom().choose();
        counts[label] as nat + sum_of(counts.remove(label))
    }
}

/// The value of a label, zero if it has none.
pub open spec fn count_of(counts: Map<Seq<char>, u64>, label: Seq<char>) -> u64 {
    if counts.contains_key(label) {
        counts[label]
    } else {
        0
    }
}

/// The map that pairs of label and count, later ones first, stand for.
spec fn map_of(entries: Seq<(String, u64)>) -> Map<Seq<char>, u64>
    decreases entries.len(),
{
    if entries.len() == 0 {
        Map::empty()
    } else {
        map_of(entries.drop_last()).insert(entries.last().0@, entries.last().1)
    }
}

spec fn labels_differ(entries: Seq<(String, u64)>) -> bool {
    forall|i: int, j: int|
        0 <= i < j < entries.len() ==> (#[trigger] entries[i]).0@ != (#[trigger] entries[j]).0@
}

/// Event counts by label. Together they stay within the range of `u64`.
#[derive(Debug)]
pub struct LabelCounts {
    entries: Vec<(String, u64)>,
}

impl View for LabelCounts {
    type V = Map<Seq<char>, u64>;

    closed spec fn view(&self) -> Map<Seq<char>, u64> {
        map_of(self.entries@)
    }
}

impl Clone for LabelCounts {
    fn clone(&self) -> (copy: Self)
        ensures
            copy@ == self@,
    {
        proof {
            use_type_invariant(self);
        }
        let mut entries: Vec<(String, u64)> = Vec::new();
        let mut at: usize = 0;
        while at < self.entries.len()
            invariant
                at <= self.entries@.len(),
                entries@ == self.entries@.take(at as int),
            decreases self.entries@.len() - at,
        {
            entries.push((self.entries[at].0.clone(), self.entries[at].1));
            assert(entries@ =~= self.entries@.take(at + 1));
            at = at + 1;
        }
        assert(entries@ =~= self.entries@);
        LabelCounts { entries }
    }
}

impl LabelCounts {
    #[verifier::type_invariant]
    spec fn wf(self) -> bool {
        &&& labels_differ(self.entries@)
        &&& sum_of(map_of(self.entries@)) <= u64::MAX
    }

    /// No counts at all.
    pub fn new() -> (counts: Self)
        ensures
            counts@ == Map::<Seq<char>, u64>::empty(),
    {
        LabelCounts { entries: Vec::new() }
    }

    /// Where `label` stands among the entries.
    fn position(&self, label: &str) -> (position: Option<usize>)
        ensures
            match position {
                Some(at) => at < self.entries@.len() && self.entries@[at as int].0@ == label@,
                None => forall|i: int|
                    0 <= i < self.entries@.len() ==> (#[trigger] self.entries@[i]).0@ != label@,
            },
    {
        let wanted = label.to_owned();
        let mut at: usize = 0;
        while at < self.entries.len()
            invariant
                at <= self.entries@.len(),
                wanted@ == label@,
                forall|i: int| 0 <= i < at ==> (#[trigger] self.entries@[i]).0@ != label@,
            decreases self.entries@.len() - at,
        {
            if self.entries[at].0 == wanted {
                return Some(at);
            }
            at = at + 1;
        }
        None
    }

    /// The count of `label`, if anything was counted under it.
    pub fn get(&self, label: &str) -> (count: Option<&u64>)
        ensures
            match count {
                Some(count) => self@.contains_key(label@) && *count == self@[label@],
                None => !self@.contains_key(label@),
            },
    {
        proof {
            use_type_invariant(self);
        }
        match self.position(label) {
            Some(at) => {
                proof {
                    lemma_map_of_entry(self.entries@, at as int);
                }
                Some(&self.entries[at].1)
            },
            None => {
                proof {
                    lemma_map_of_absent(self.entries@, label@);
                }
                None
            },
        }
    }

    /// The sum of all counts.
    pub fn total(&self) -> (total: u64)
        ensures
            total == sum_of(self@),
    {
        proof {
            use_type_invariant(self);
        }
        let mut total: u64 = 0;
        let mut at: usize = 0;
        assert(self.entries@.take(0) =~= Seq::<(String, u64)>::empty());
        while at < self.entries.len()
            invariant
                at <= self.entries@.len(),
                labels_differ(self.entries@),
                sum_of(map_of(self.entries@)) <= u64::MAX,
                total == sum_of(map_of(self.entries@.take(at as int))),
            decreases self.entries@.len() - at,
        {
            proof {
                lemma_sum_of_prefix(self.entries@, at as int);
            }
            total = total + self.entries[at].1;
            at = at + 1;
        }
        assert(self.entries@.take(at as int) =~= self.entries@);
        total
    }

    /// Count one more event under `label`.
    pub fn bump(&mut self, label: &str)
        requires
            sum_of(old(self)@) < u64::MAX,
        ensures
            final(self)@ == old(self)@.insert(label@, (count_of(old(self)@, label@) + 1) as u64),
            sum_of(final(self)@) == sum_of(old(self)@) + 1,
    {
        proof {
            use_type_invariant(&*self);
        }
        let position = self.position(label);
        let mut entries: Vec<(String, u64)> = Vec::new();
        let ghost before = self.entries@;
        proof {
            lemma_map_of_finite(before);
        }
        std::mem::swap(&mut entries, &mut self.entries);
        match position {
            Some(at) => {
                proof {
                    lemma_map_of_entry(before, at as int);
                    lemma_sum_bounds(map_of(before), label@);
                }
                let count: u64 = entries[at].1;
                entries.set(at, (label.to_owned(), count + 1));
                proof {
                    lemma_map_of_update(before, entries@, at as int);
                }
            },
            None => {
                proof {
                    lemma_map_of_absent(before, label@);
                }
                entries.push((label.to_owned(), 1));
                assert(entries@.drop_last() =~= before);
            },
        }
        proof {
            lemma_sum_of_insert(
                map_of(before),
                label@,
                (count_of(map_of(before), label@) + 1) as u64,
            );
        }
        self.entries = entries;
    }
}

proof fn lemma_map_of_finite(entries: Seq<(String, u64)>)
    ensures
        map_of(entries).dom().finite(),
    decreases entries.len(),
{
    if entries.len() > 0 {
        lemma_map_of_finite(entries.drop_last());
    }
}

proof fn lemma_map_of_absent(entries: Seq<(String, u64)>, label: Seq<char>)
    requires
        forall|i: int| 0 <= i < entries.len() ==> (#[trigger] entries[i]).0@ != label,
    ensures
        !map_of(entries).contains_key(label),
    decreases entries.len(),
{
    if entries.len() > 0 {
        assert forall|i: int| 0 <= i < entries.drop_last().len() implies (
        #[trigger] entries.drop_last()[i]).0@ != label by {
            assert(entries[i].0@ != label);
        }
        lemma_map_of_absent(entries.drop_last(), label);
        assert(entries[entries.len() - 1].0@ != label);
    }
}

proof fn lemma_map_of_entry(entries: Seq<(String, u64)>, at: int)
    requires
        labels_differ(entries),
        0 <= at < entries.len(),
    ensures
        map_of(entries).contains_key(entries[at].0@),
        map_of(entries)[entries[at].0@] == entries[at].1,
    decreases entries.len(),
{
    if at < entries.len() - 1 {
        lemma_labels_differ_in_prefix(entries);
        lemma_map_of_entry(entries.drop_last(), at);
        assert(entries.drop_last()[at] == entries[at]);
        assert(entries[at].0@ != entries[entries.len() - 1].0@);
    }
}

proof fn lemma_labels_differ_in_prefix(entries: Seq<(String, u64)>)
    requires
        labels_differ(entries),
        entries.len() > 0,
    ensures
        labels_differ(entries.drop_last()),
{
    assert forall|i: int, j: int| 0 <= i < j < entries.drop_last().len() implies (
    #[trigger] entries.drop_last()[i]).0@ != (#[trigger] entries.drop_last()[j]).0@ by {
        assert(entries[i].0@ != entries[j].0@);
    }
}

proof fn lemma_map_of_update(before: Seq<(String, u64)>, after: Seq<(String, u64)>, at: int)
    requires
        labels_differ(before),
        0 <= at < before.len(),
        after.len() == before.len(),
        after[at].0@ == before[at].0@,
        forall|i: int| 0 <= i < before.len() && i != at ==> #[trigger] after[i] == before[i],
    ensures
        labels_differ(after),
        map_of(after) == map_of(before).insert(after[at].0@, after[at].1),
    decreases before.len(),
{
    assert forall|i: int, j: int| 0 <= i < j < after.len() implies (#[trigger] after[i]).0@ != (
    #[trigger] after[j]).0@ by {
        assert(before[i].0@ != before[j].0@);
    }
    let last = before.len() - 1;
    if at == last {
        assert(before.drop_last() =~= after.drop_last());
        assert(map_of(after) =~= map_of(before).insert(after[at].0@, after[at].1));
    } else {
        lemma_labels_differ_in_prefix(before);
        lemma_map_of_update(before.drop_last(), after.drop_last(), at);
        assert(after[last] == before[last]);
        assert(before[at].0@ != before[last].0@);
        assert(map_of(after) =~= map_of(before).insert(after[at].0@, after[at].1));
    }
}

/// Any label may be taken out first.
proof fn lemma_sum_takes_out(counts: Map<Seq<char>, u64>, label: Seq<char>)
    requires
        counts.dom().finite(),
        counts.contains_key(label),
    ensures
        sum_of(counts) == counts[label] as nat + sum_of(counts.remove(label)),
    decreases counts.dom().len(),
{
    let first = counts.dom().choose();
    if first != label {
        lemma_sum_takes_out(counts.remove(first), label);
        lemma_sum_takes_out(counts.remove(label), first);
        assert(counts.remove(first).remove(label) =~= counts.remove(label).remove(first));
    }
}

proof fn lemma_sum_bounds(counts: Map<Seq<char>, u64>, label: Seq<char>)
    requires
        counts.contains_key(label),
        counts.dom().finite(),
    ensures
        counts[label] <= sum_of(counts),
{
    lemma_sum_takes_out(counts, label);
}

proof fn lemma_sum_of_insert(counts: Map<Seq<char>, u64>, label: Seq<char>, value: u64)
    requires
        counts.dom().finite(),
    ensures
        sum_of(counts.insert(label, value)) + count_of(counts, label) == sum_of(counts) + value,
{
    let after = counts.insert(label, value);
    lemma_sum_takes_out(after, label);
    if counts.contains_key(label) {
        lemma_sum_takes_out(counts, label);
        assert(after.remove(label) =~= counts.remove(label));
    } else {
        assert(after.remove(label) =~= counts);
    }
}

/// The sum over a prefix grows by the next entry and stays within the whole.
proof fn lemma_sum_of_prefix(entries: Seq<(String, u64)>, at: int)
    requires
        labels_differ(entries),
        0 <= at < entries.len(),
    ensures
        sum_of(map_of(entries.take(at + 1))) == sum_of(map_of(entries.take(at))) + entries[at].1,
        sum_of(map_of(entries.take(at + 1))) <= sum_of(map_of(entries)),
    decreases entries.len() - at,
{
    let shorter = entries.take(at);
    let longer = entries.take(at + 1);
    assert(longer.drop_last() =~= shorter);
    assert forall|i: int| 0 <= i < shorter.len() implies (#[trigger] shorter[i]).0@
        != entries[at].0@ by {
        assert(entries[i].0@ != entries[at].0@);
    }
    lemma_map_of_absent(shorter, entries[at].0@);
    lemma_map_of_finite(shorter);
    lemma_sum_of_insert(map_of(shorter), entries[at].0@, entries[at].1);
    if at + 1 < entries.len() {
        lemma_sum_of_prefix(entries, at + 1);
    } else {
        assert(longer =~= entries);
    }
}

/// The label that connections of an outcome are counted under.
pub open spec fn outcome_label(outcome: ConnectionOutcomeView) -> Seq<char> {
    match outcome {
        ConnectionOutcomeView::Closed => "closed"@,
        ConnectionOutcomeView::RateLimited => "rate_limited"@,
        ConnectionOutcomeView::TrustRejected => "trust_rejected"@,
        ConnectionOutcomeView::Error(_) => "error"@,
    }
}

/// Aggregated counters kept by the relay service for diagnostics.
#[derive(Debug)]
pub struct RelayStats {
    pub counts: LabelCounts,
}

impl Clone for RelayStats {
    fn clone(&self) -> (copy: Self)
        ensures
            copy.counts@ == self.counts@,
    {
        RelayStats { counts: self.counts.clone() }
    }
}

impl Default for RelayStats {
    fn default() -> (stats: Self)
        ensures
            stats.counts@ == Map::<Seq<char>, u64>::empty(),
    {
        RelayStats { counts: LabelCounts::new() }
    }
}

impl RelayStats {
    /// Statistics of no connection.
    pub fn new() -> (stats: Self)
        ensures
            stats.counts@ == Map::<Seq<char>, u64>::empty(),
    {
        RelayStats { counts: LabelCounts::new() }
    }

    /// Count the connection that `log` sums up. The total must stay within the
    /// range of `u64`.
    pub fn record(&mut self, log: &ConnectionLog)
        requires
            sum_of(old(self).counts@) < u64::MAX,
        ensures
            ({
                let label = outcome_label(log.outcome@);
                final(self).counts@ == old(self).counts@.insert(
                    label,
                    (count_of(old(self).counts@, label) + 1) as u64,
                )
            }),
            sum_of(final(self).counts@) == sum_of(old(self).counts@) + 1,
    {
        let label = match &log.outcome {
            ConnectionOutcome::Closed => "closed",
            ConnectionOutcome::RateLimited => "rate_limited",
            ConnectionOutcome::TrustRejected => "trust_rejected",
            ConnectionOutcome::Error(_) => "error",
        };
        self.counts.bump(label);
    }

    /// Number of connections counted.
    pub fn total(&self) -> (total: u64)
        ensures
            total == sum_of(self.counts@),
    {
        self.counts.total()
    }
}

/// The counts after a series of connections.
pub open spec fn counts_after(outcomes: Seq<ConnectionOutcomeView>) -> Map<Seq<char>, u64>
    decreases outcomes.len(),
{
    if outcomes.len() == 0 {
        Map::empty()
    } else {
        let before = counts_after(outcomes.drop_last());
        let label = outcome_label(outcomes.last());
        before.insert(label, (count_of(before, label) + 1) as u64)
    }
}

/// Law: connections are counted by outcome, each under one label: the total is
/// the number of connections, and the count of a label the number of those
/// that ended so.
pub proof fn law_connections_are_counted(outcomes: Seq<ConnectionOutcomeView>, label: Seq<char>)
    requires
        outcomes.len() <= u64::MAX,
    ensures
        sum_of(counts_after(outcomes)) == outcomes.len(),
        count_of(counts_after(outcomes), label) == outcomes.filter(
            |outcome: ConnectionOutcomeView| outcome_label(outcome) == label,
        ).len(),
{
    lemma_connections_are_counted(outcomes, label);
}

proof fn lemma_connections_are_counted(outcomes: Seq<ConnectionOutcomeView>, label: Seq<char>)
    requires
        outcomes.len() <= u64::MAX,
    ensures
        counts_after(outcomes).dom().finite(),
        sum_of(counts_after(outcomes)) == outcomes.len(),
        count_of(counts_after(outcomes), label) <= outcomes.len(),
        count_of(counts_after(outcomes), label) == outcomes.filter(
            |outcome: ConnectionOutcomeView| outcome_label(outcome) == label,
        ).len(),
    decreases outcomes.len(),
{
    reveal(Seq::filter);
    if outcomes.len() > 0 {
        let earlier = outcomes.drop_last();
        let last = outcome_label(outcomes.last());
        lemma_connections_are_counted(earlier, label);
        lemma_connections_are_counted(earlier, last);
        let before = counts_after(earlier);
        lemma_sum_of_insert(before, last, (count_of(before, last) + 1) as u64);
    }
}

/// Law: each outcome has its own label, an error whatever its text.
pub proof fn law_outcomes_have_their_labels(a: ConnectionOutcomeView, b: ConnectionOutcomeView)
    ensures
        outcome_label(a) == outcome_label(b) <==> {
            ||| a == b
            ||| a is Error && b is Error
        },
        a is Closed ==> outcome_label(a) == "closed"@,
        a is RateLimited ==> outcome_label(a) == "rate_limited"@,
        a is TrustRejected ==> outcome_label(a) == "trust_rejected"@,
        a is Error ==> outcome_label(a) == "error"@,
{
    reveal_strlit("closed");
    reveal_strlit("rate_limited");
    reveal_strlit("trust_rejected");
    reveal_strlit("error");
    assert("closed"@.len() == 6);
    assert("rate_limited"@.len() == 12);
    assert("trust_rejected"@.len() == 14);
    assert("error"@.len() == 5);
}

/// Law: the sum over labels is made of each label's count: taking a label out
/// takes its count out, and nothing counts zero.
pub proof fn law_sums_add_up(counts: Map<Seq<char>, u64>, label: Seq<char>)
    requires
        counts.dom().finite(),
    ensures
        sum_of(Map::<Seq<char>, u64>::empty()) == 0,
        counts.contains_key(label) ==> sum_of(counts) == counts[label] + sum_of(
            counts.remove(label),
        ),
        counts.contains_key(label) ==> count_of(counts, label) == counts[label],
        !counts.contains_key(label) ==> count_of(counts, label) == 0,
{
    if counts.contains_key(label) {
        lemma_sum_takes_out(counts, label);
    }
}

} // verus!
