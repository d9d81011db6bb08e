//! Statistics of a probe run: what became of each probe, and the summary of
//! all of them.

use vstd::prelude::*;

verus! {

/// What became of one probe.
#[derive(Clone, Copy, Debug, PartialEq, Eq, Structural)]
pub enum ProbeOutcome {
    /// A reply came back; the round-trip time in milliseconds.
    Success(u64),
    /// No reply was matched to the probe.
    Loss,
}

/// The statistics of a whole run. Round-trip times are in milliseconds.
#[derive(Clone, Copy, Debug, PartialEq, Eq, Structural)]
pub struct ProbeSummary {
    /// Number of probes sent.
    pub transmitted: usize,
    /// Number of probes that were answered.
    pub received: usize,
    /// Share of the probes that were lost, in percent, rounded down.
    pub loss_percent: usize,
    /// Shortest round-trip time among the answered probes; 0 if there is none.
    pub min: u64,
    /// Sum of the round-trip times divided by the number of probes sent,
    /// rounded down; 0 if no probe was sent.
    pub avg: u64,
    /// Longest round-trip time among the answered probes; 0 if there is none.
    pub max: u64,
    /// Sum of the round-trip times of the answered probes.
    pub total: u128,
}

/// The number of answered probes in `outcomes`.
pub open spec fn received_count(outcomes: Seq<ProbeOutcome>) -> nat
    decreases outcomes.len(),
{
    if outcomes.len() == 0 {
        0
    } else {
        received_count(outcomes.drop_last()) + match outcomes.last() {
            ProbeOutcome::Success(_) => 1nat,
            ProbeOutcome::Loss => 0nat,
        }
    }
}

/// The sum of the round-trip times of the answered probes in `outcomes`.
pub open spec fn total_rtt(outcomes: Seq<ProbeOutcome>) -> nat
    decreases outcomes.len(),
{
    if outcomes.len() == 0 {
        0
    } else {
        total_rtt(outcomes.drop_last()) + match outcomes.last() {
            ProbeOutcome::Success(rtt) => rtt as nat,
            ProbeOutcome::Loss => 0nat,
        }
    }
}

/// The share of lost probes in percent, rounded down; 0 where nothing was
/// sent.
pub open spec fn loss_percent_of(transmitted: nat, received: nat) -> nat {
    if transmitted == 0 {
        0
    } else {
        ((transmitted - received) * 100 / (transmitted as int)) as nat
    }
}

/// The average round-trip time over all probes sent, rounded down; 0 where
/// nothing was sent.
pub open spec fn average_of(total: nat, transmitted: nat) -> nat {
    if transmitted == 0 {
        0
    } else {
        total / transmitted
    }
}

/// `outcomes[i]` is an answered probe with round-trip time `rtt`.
pub open spec fn answered_with(outcomes: Seq<ProbeOutcome>, i: int, rtt: u64) -> bool {
    0 <= i < outcomes.len() && outcomes[i] == ProbeOutcome::Success(rtt)
}

/// `m` is the shortest round-trip time in `outcomes`, or 0 where no probe was
/// answered.
pub open spec fn is_min_rtt(outcomes: Seq<ProbeOutcome>, m: u64) -> bool {
    if received_count(outcomes) == 0 {
        m == 0
    } else {
        &&& exists|i: int| answered_with(outcomes, i, m)
        &&& forall|i: int, rtt: u64| answered_with(outcomes, i, rtt) ==> m <= rtt
    }
}

/// `m` is the longest round-trip time in `outcomes`, or 0 where no probe was
/// answered.
pub open spec fn is_max_rtt(outcomes: Seq<ProbeOutcome>, m: u64) -> bool {
    if received_count(outcomes) == 0 {
        m == 0
    } else {
        &&& exists|i: int| answered_with(outcomes, i, m)
        &&& forall|i: int, rtt: u64| answered_with(outcomes, i, rtt) ==> rtt <= m
    }
}

impl ProbeSummary {
    /// `self` is the summary of `outcomes`.
    pub open spec fn summarizes(self, outcomes: Seq<ProbeOutcome>) -> bool {
        &&& self.transmitted == outcomes.len()
        &&& self.received == received_count(outcomes)
        &&& self.loss_percent == loss_percent_of(outcomes.len(), received_count(outcomes))
        &&& self.total == total_rtt(outcomes)
        &&& self.avg == average_of(total_rtt(outcomes), outcomes.len())
        &&& is_min_rtt(outcomes, self.min)
        &&& is_max_rtt(outcomes, self.max)
    }
}

/// No more probes were answered than were sent, and each answered probe adds
/// at most `u64::MAX` to the total.
pub proof fn lemma_received_and_total_bounds(outcomes: Seq<ProbeOutcome>)
    ensures
        received_count(outcomes) <= outcomes.len(),
        total_rtt(outcomes) <= received_count(outcomes) * u64::MAX,
    decreases outcomes.len(),
{
    if outcomes.len() > 0 {
        lemma_received_and_total_bounds(outcomes.drop_last());
        assert((received_count(outcomes.drop_last()) + 1) * u64::MAX == received_count(
            outcomes.drop_last(),
        ) * u64::MAX + u64::MAX) by (nonlinear_arith);
    }
}

/// A sequence without an answered probe holds none at any index, and one
/// with an answered probe holds one at some index.
pub proof fn lemma_received_count_witness(outcomes: Seq<ProbeOutcome>)
    ensures
        received_count(outcomes) == 0 <==> forall|i: int, rtt: u64|
            !answered_with(outcomes, i, rtt),
    decreases outcomes.len(),
{
    if outcomes.len() > 0 {
        let front = outcomes.drop_last();
        lemma_received_count_witness(front);
        assert forall|i: int, rtt: u64| answered_with(front, i, rtt) implies answered_with(
            outcomes,
            i,
            rtt,
        ) by {}
        match outcomes.last() {
            ProbeOutcome::Success(rtt) => {
                assert(answered_with(outcomes, outcomes.len() - 1, rtt));
            },
            ProbeOutcome::Loss => {
                if received_count(outcomes) == 0 {
                    assert forall|i: int, rtt: u64| !answered_with(outcomes, i, rtt) by {
                        if answered_with(outcomes, i, rtt) {
                            assert(answered_with(front, i, rtt));
                        }
                    }
                }
            },
        }
    }
}

/// Where every probe was answered, as many were answered as were sent, and
/// nothing was lost.
pub proof fn lemma_all_answered(outcomes: Seq<ProbeOutcome>)
    requires
        forall|i: int| 0 <= i < outcomes.len() ==> outcomes[i] is Success,
    ensures
        received_count(outcomes) == outcomes.len(),
        loss_percent_of(outcomes.len(), received_count(outcomes)) == 0,
    decreases outcomes.len(),
{
    if outcomes.len() > 0 {
        lemma_all_answered(outcomes.drop_last());
    }
}

/// The summary of no probes at all is zero in every field: nothing is
/// divided by the number of probes where there is none.
pub proof fn lemma_summary_of_nothing(summary: ProbeSummary)
    requires
        summary.summarizes(Seq::empty()),
    ensures
        summary == (ProbeSummary {
            transmitted: 0,
            received: 0,
            loss_percent: 0,
            min: 0,
            avg: 0,
            max: 0,
            total: 0,
        }),
{
}

/// The summary is a function of the outcome sequence: two summaries of the
/// same sequence are equal.
pub proof fn lemma_summary_is_unique(
    outcomes: Seq<ProbeOutcome>,
    first: ProbeSummary,
    second: ProbeSummary,
)
    requires
        first.summarizes(outcomes),
        second.summarizes(outcomes),
    ensures
        first == second,
{
    if received_count(outcomes) != 0 {
        let i = choose|i: int| answered_with(outcomes, i, first.min);
        let j = choose|j: int| answered_with(outcomes, j, second.min);
        assert(answered_with(outcomes, i, first.min));
        assert(answered_with(outcomes, j, second.min));
        let k = choose|k: int| answered_with(outcomes, k, first.max);
        let l = choose|l: int| answered_with(outcomes, l, second.max);
        assert(answered_with(outcomes, k, first.max));
        assert(answered_with(outcomes, l, second.max));
    }
}

/// Folds the outcomes of a run into its statistics. An empty run has no
/// loss and an average of 0; a run without replies has 0 for the shortest
/// and the longest round-trip time.
pub fn summarize(outcomes: &[ProbeOutcome]) -> (summary: ProbeSummary)
    ensures
        summary.summarizes(outcomes@),
{
    let transmitted: usize = outcomes.len();
    let mut received: usize = 0;
    let mut total: u128 = 0;
    let mut min: u64 = 0;
    let mut max: u64 = 0;
    let mut i: usize = 0;
    while i < transmitted
        invariant
            transmitted == outcomes@.len(),
            i <= transmitted,
            received == received_count(outcomes@.take(i as int)),
            total == total_rtt(outcomes@.take(i as int)),
            is_min_rtt(outcomes@.take(i as int), min),
            is_max_rtt(outcomes@.take(i as int), max),
        decreases transmitted - i,
    {
        let ghost before = outcomes@.take(i as int);
        let ghost after = outcomes@.take(i + 1);
        proof {
            assert(after.drop_last() =~= before);
            lemma_received_and_total_bounds(after);
            lemma_received_count_witness(before);
            assert(received_count(after) * u64::MAX <= usize::MAX * u64::MAX)
                by (nonlinear_arith)
                requires
                    received_count(after) <= usize::MAX,
            ;
            assert(usize::MAX * u64::MAX <= u128::MAX) by (nonlinear_arith)
                requires
                    usize::MAX <= u64::MAX,
                    u64::MAX == 0xffff_ffff_ffff_ffff,
                    u128::MAX == 0xffff_ffff_ffff_ffff_ffff_ffff_ffff_ffff,
            ;
        }
        let ghost min_before = min;
        let ghost max_before = max;
        match outcomes[i] {
            ProbeOutcome::Success(rtt) => {
                if received == 0 || rtt < min {
                    min = rtt;
                }
                if received == 0 || rtt > max {
                    max = rtt;
                }
                received = received + 1;
                total = total + rtt as u128;
                proof {
                    assert(answered_with(after, i as int, rtt));
                    assert forall|j: int, other: u64| answered_with(after, j, other)
                        implies j == i || answered_with(before, j, other) by {}
                    if received_count(before) != 0 {
                        let lo = choose|j: int| answered_with(before, j, min_before);
                        let hi = choose|j: int| answered_with(before, j, max_before);
                        assert(answered_with(after, lo, min_before));
                        assert(answered_with(after, hi, max_before));
                    }
                }
            },
            ProbeOutcome::Loss => {
                proof {
                    assert forall|j: int, other: u64| answered_with(before, j, other)
                        implies answered_with(after, j, other) by {}
                    assert forall|j: int, other: u64| answered_with(after, j, other)
                        implies answered_with(before, j, other) by {}
                }
            },
        }
        i = i + 1;
    }
    proof {
        assert(outcomes@.take(transmitted as int) =~= outcomes@);
        lemma_received_and_total_bounds(outcomes@);
    }
    let loss_percent: usize = if transmitted == 0 {
        0
    } else {
        let lost: u128 = (transmitted - received) as u128;
        assert(lost * 100 / (transmitted as int) <= 100) by (nonlinear_arith)
            requires
                0 <= lost <= transmitted,
                transmitted > 0,
        ;
        (lost * 100 / (transmitted as u128)) as usize
    };
    let avg: u64 = if transmitted == 0 {
        0
    } else {
        assert(total / (transmitted as u128) <= u64::MAX) by (nonlinear_arith)
            requires
                total <= received * u64::MAX,
                received <= transmitted,
                transmitted > 0,
        ;
        (total / (transmitted as u128)) as u64
    };
    ProbeSummary { transmitted, received, loss_percent, min, avg, max, total }
}

} // verus!
