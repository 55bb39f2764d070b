//! The debounce machine as mathematics: its states, its transition table, and
//! what holds of it over whole sequences of samples.

use vstd::prelude::*;

verus! {

/// The threshold of the debounce machine: a candidate press is validated by
/// the high sample that finds this many high samples before it in the same
/// unbroken row, so by the sample after `MIN_BUTTON_COUNT` consecutive high
/// ones.
pub const MIN_BUTTON_COUNT: u8 = 5;

/// A state of the debounce machine.
pub enum DebounceState {
    /// No candidate press is in progress.
    Waiting,
    /// A rising edge was seen and is being confirmed; `tick_count` counts the
    /// high samples that followed the one that started the candidate.
    Detected { tick_count: nat },
    /// A press was validated; the machine waits for the line to go low.
    Settled,
}

/// The state that follows `state` when the line is sampled as `is_high`.
pub open spec fn debounce_step(state: DebounceState, is_high: bool) -> DebounceState {
    if !is_high {
        DebounceState::Waiting
    } else {
        match state {
            DebounceState::Waiting => DebounceState::Detected { tick_count: 0 },
            DebounceState::Detected { tick_count } => if tick_count + 1 >= MIN_BUTTON_COUNT {
                DebounceState::Settled
            } else {
                DebounceState::Detected { tick_count: tick_count + 1 }
            },
            DebounceState::Settled => DebounceState::Settled,
        }
    }
}

/// Whether sampling the line as `is_high` in `state` validates a press, and
/// so asks for the stopwatch to be toggled. This happens on the edge from
/// `Detected` to `Settled` and on no other.
pub open spec fn debounce_fires(state: DebounceState, is_high: bool) -> bool {
    &&& is_high
    &&& state matches DebounceState::Detected { tick_count }
    &&& tick_count + 1 >= MIN_BUTTON_COUNT
}

/// The state of a machine that started in `state` and was fed `samples`, one
/// per sampling tick, in order.
pub open spec fn debounce_run(state: DebounceState, samples: Seq<bool>) -> DebounceState
    decreases samples.len(),
{
    if samples.len() == 0 {
        state
    } else {
        debounce_step(debounce_run(state, samples.drop_last()), samples.last())
    }
}

/// Whether sample number `k` of `samples` validates a press, for a machine
/// that started in `state`.
pub open spec fn toggles_at(state: DebounceState, samples: Seq<bool>, k: int) -> bool {
    debounce_fires(debounce_run(state, samples.take(k)), samples[k])
}

/// How many of the samples numbered `from` up to, but not including, `to`
/// validate a press, for a machine that started in `state` before sample 0.
pub open spec fn toggles_between(
    state: DebounceState,
    samples: Seq<bool>,
    from: int,
    to: int,
) -> nat
    decreases to - from,
{
    if to <= from {
        0
    } else {
        let before = toggles_between(state, samples, from, to - 1);
        if toggles_at(state, samples, to - 1) {
            before + 1
        } else {
            before
        }
    }
}

/// The samples numbered `from` up to, but not including, `to` exist, are at
/// least one, and are all high.
pub open spec fn is_high_run(samples: Seq<bool>, from: int, to: int) -> bool {
    &&& 0 <= from < to <= samples.len()
    &&& forall|k: int| from <= k < to ==> samples[k]
}

/// The samples numbered `from` up to, but not including, `to` are a row of
/// high samples that cannot be extended on either side.
pub open spec fn is_maximal_run(samples: Seq<bool>, from: int, to: int) -> bool {
    &&& is_high_run(samples, from, to)
    &&& from == 0 || !samples[from - 1]
    &&& to == samples.len() || !samples[to]
}

/// Feeding one more sample is one step of the machine.
pub proof fn lemma_run_step(state: DebounceState, samples: Seq<bool>, k: int)
    requires
        0 <= k < samples.len(),
    ensures
        debounce_run(state, samples.take(k + 1)) == debounce_step(
            debounce_run(state, samples.take(k)),
            samples[k],
        ),
{
    assert(samples.take(k + 1).drop_last() =~= samples.take(k));
}

/// A low sample brings the machine to `Waiting`, whatever state it was in.
pub proof fn lemma_low_sample_resets(state: DebounceState, samples: Seq<bool>, k: int)
    requires
        0 <= k < samples.len(),
        !samples[k],
    ensures
        debounce_run(state, samples.take(k + 1)) is Waiting,
        !toggles_at(state, samples, k),
{
    lemma_run_step(state, samples, k);
}

/// Every maximal row of high samples finds the machine in `Waiting`, provided
/// the machine started in `Waiting` or the row does not start at sample 0.
pub proof fn lemma_run_starts_in_waiting(
    state: DebounceState,
    samples: Seq<bool>,
    from: int,
    to: int,
)
    requires
        is_maximal_run(samples, from, to),
        from > 0 || state is Waiting,
    ensures
        debounce_run(state, samples.take(from)) is Waiting,
{
    if from > 0 {
        lemma_low_sample_resets(state, samples, from - 1);
    } else {
        assert(samples.take(0) =~= Seq::<bool>::empty());
    }
}

/// The state inside a row of high samples that found the machine in
/// `Waiting`: after `m` samples of the row, with `m` at least one, the machine
/// is in `Detected` with a count of `m - 1` as long as `m` is no more than the
/// threshold, and in `Settled` from then on.
pub proof fn lemma_state_in_run(
    state: DebounceState,
    samples: Seq<bool>,
    from: int,
    to: int,
    m: int,
)
    requires
        is_high_run(samples, from, to),
        debounce_run(state, samples.take(from)) is Waiting,
        1 <= m <= to - from,
    ensures
        debounce_run(state, samples.take(from + m)) == (if m <= MIN_BUTTON_COUNT {
            DebounceState::Detected { tick_count: (m - 1) as nat }
        } else {
            DebounceState::Settled
        }),
    decreases m,
{
    lemma_run_step(state, samples, from + m - 1);
    if m > 1 {
        lemma_state_in_run(state, samples, from, to, m - 1);
    }
}

/// Within a row of high samples that found the machine in `Waiting`, a press
/// is validated by the sample that has `MIN_BUTTON_COUNT` samples of the row
/// before it, and by no other.
pub proof fn lemma_toggle_position_in_run(
    state: DebounceState,
    samples: Seq<bool>,
    from: int,
    to: int,
)
    requires
        is_high_run(samples, from, to),
        debounce_run(state, samples.take(from)) is Waiting,
    ensures
        forall|k: int|
            from <= k < to ==> (#[trigger] toggles_at(state, samples, k) <==> k == from
                + MIN_BUTTON_COUNT),
{
    assert forall|k: int| from <= k < to implies (#[trigger] toggles_at(state, samples, k) <==> k
        == from + MIN_BUTTON_COUNT) by {
        if k > from {
            lemma_state_in_run(state, samples, from, to, k - from);
        }
    }
}

/// The number of presses validated within the first `m` samples of a row of
/// high samples that found the machine in `Waiting`: one if `m` exceeds the
/// threshold, none otherwise.
pub proof fn lemma_toggles_in_run_prefix(
    state: DebounceState,
    samples: Seq<bool>,
    from: int,
    to: int,
    m: int,
)
    requires
        is_high_run(samples, from, to),
        debounce_run(state, samples.take(from)) is Waiting,
        0 <= m <= to - from,
    ensures
        toggles_between(state, samples, from, from + m) == (if m > MIN_BUTTON_COUNT {
            1nat
        } else {
            0nat
        }),
    decreases m,
{
    if m > 0 {
        lemma_toggles_in_run_prefix(state, samples, from, to, m - 1);
        lemma_toggle_position_in_run(state, samples, from, to);
        assert(toggles_at(state, samples, from + m - 1) <==> m - 1 == MIN_BUTTON_COUNT);
    }
}

/// A maximal row of high samples that finds the machine in `Waiting`
/// validates exactly one press if it is longer than the threshold, and none
/// otherwise. In particular a row of exactly `MIN_BUTTON_COUNT` samples
/// validates none: the press is validated by the sample after them.
pub proof fn lemma_run_toggles_once(state: DebounceState, samples: Seq<bool>, from: int, to: int)
    requires
        is_maximal_run(samples, from, to),
        debounce_run(state, samples.take(from)) is Waiting,
    ensures
        toggles_between(state, samples, from, to) == (if to - from > MIN_BUTTON_COUNT {
            1nat
        } else {
            0nat
        }),
{
    lemma_toggles_in_run_prefix(state, samples, from, to, to - from);
}

/// A maximal row of high samples that finds the machine in `Waiting` and
/// whose length is not exactly the threshold validates one press if it has at
/// least `MIN_BUTTON_COUNT` samples, and none if it has fewer.
pub proof fn lemma_run_toggles_by_threshold(
    state: DebounceState,
    samples: Seq<bool>,
    from: int,
    to: int,
)
    requires
        is_maximal_run(samples, from, to),
        debounce_run(state, samples.take(from)) is Waiting,
        to - from != MIN_BUTTON_COUNT,
    ensures
        to - from >= MIN_BUTTON_COUNT ==> toggles_between(state, samples, from, to) == 1,
        to - from < MIN_BUTTON_COUNT ==> toggles_between(state, samples, from, to) == 0,
{
    lemma_run_toggles_once(state, samples, from, to);
}

/// Where the row of high samples that reaches sample `k` begins: the number
/// of the first sample of the unbroken row of high samples that ends just
/// before sample `k`, and `k` itself if the sample before `k` is low or
/// absent.
pub open spec fn run_start(samples: Seq<bool>, k: int) -> int
    decreases k,
{
    if k <= 0 || !samples[k - 1] {
        k
    } else {
        run_start(samples, k - 1)
    }
}

/// `run_start` is what its name says: from it up to sample `k` all samples
/// are high, and the sample before it, if there is one, is low.
pub proof fn lemma_run_start(samples: Seq<bool>, k: int)
    requires
        0 <= k < samples.len(),
    ensures
        0 <= run_start(samples, k) <= k,
        forall|m: int| run_start(samples, k) <= m < k ==> samples[m],
        run_start(samples, k) == 0 || !samples[run_start(samples, k) - 1],
    decreases k,
{
    if k > 0 && samples[k - 1] {
        lemma_run_start(samples, k - 1);
    }
}

/// Which samples validate a press, said of the samples alone. For a machine
/// that starts in `Waiting`, sample `k` validates a press if and only if it
/// is high and exactly `MIN_BUTTON_COUNT` high samples come before it in its
/// row.
pub proof fn lemma_toggle_characterized(samples: Seq<bool>, k: int)
    requires
        0 <= k < samples.len(),
    ensures
        toggles_at(DebounceState::Waiting, samples, k) <==> samples[k] && k - run_start(
            samples,
            k,
        ) == MIN_BUTTON_COUNT,
{
    let state = DebounceState::Waiting;
    if samples[k] {
        let from = run_start(samples, k);
        lemma_run_start(samples, k);
        if from > 0 {
            lemma_low_sample_resets(state, samples, from - 1);
        } else {
            assert(samples.take(0) =~= Seq::<bool>::empty());
        }
        lemma_toggle_position_in_run(state, samples, from, k + 1);
    } else {
        lemma_low_sample_resets(state, samples, k);
    }
}

/// Where the row of high samples that holds sample `k` ends: the number of
/// the first low sample from `k` on, and the length of `samples` if there is
/// none.
pub open spec fn run_end(samples: Seq<bool>, k: int) -> int
    decreases samples.len() - k,
{
    if k >= samples.len() || !samples[k] {
        k
    } else {
        run_end(samples, k + 1)
    }
}

/// `run_end` is what its name says: from sample `k` up to it all samples are
/// high, and the sample at it, if there is one, is low.
pub proof fn lemma_run_end(samples: Seq<bool>, k: int)
    requires
        0 <= k <= samples.len(),
    ensures
        k <= run_end(samples, k) <= samples.len(),
        forall|m: int| k <= m < run_end(samples, k) ==> samples[m],
        run_end(samples, k) == samples.len() || !samples[run_end(samples, k)],
    decreases samples.len() - k,
{
    if k < samples.len() && samples[k] {
        lemma_run_end(samples, k + 1);
    }
}

/// Whether a maximal row of high samples that is longer than the threshold
/// starts at sample `from`.
pub open spec fn starts_long_run(samples: Seq<bool>, from: int) -> bool {
    exists|to: int| is_maximal_run(samples, from, to) && to - from > MIN_BUTTON_COUNT
}

/// How many maximal rows of high samples that are longer than the threshold
/// start before sample `n`.
pub open spec fn long_runs_before(samples: Seq<bool>, n: int) -> nat
    decreases n,
{
    if n <= 0 {
        0
    } else if starts_long_run(samples, n - 1) {
        long_runs_before(samples, n - 1) + 1
    } else {
        long_runs_before(samples, n - 1)
    }
}

/// For a machine that starts in `Waiting`, the samples that validate a press
/// and the long maximal rows correspond one to one: sample `k` validates a
/// press if and only if a long maximal row starts `MIN_BUTTON_COUNT` samples
/// before it.
pub proof fn lemma_toggle_matches_long_run(samples: Seq<bool>, k: int)
    requires
        0 <= k < samples.len(),
    ensures
        toggles_at(DebounceState::Waiting, samples, k) <==> k >= MIN_BUTTON_COUNT
            && starts_long_run(samples, k - MIN_BUTTON_COUNT),
{
    let state = DebounceState::Waiting;
    let from = k - MIN_BUTTON_COUNT;
    lemma_toggle_characterized(samples, k);
    if toggles_at(state, samples, k) {
        lemma_run_start(samples, k);
        lemma_run_end(samples, k);
        assert(is_maximal_run(samples, from, run_end(samples, k)));
    }
    if from >= 0 && starts_long_run(samples, from) {
        let to = choose|to: int| is_maximal_run(samples, from, to) && to - from > MIN_BUTTON_COUNT;
        lemma_run_starts_in_waiting(state, samples, from, to);
        lemma_toggle_position_in_run(state, samples, from, to);
    }
}

/// The presses validated among the first `n` samples are as many as the long
/// maximal rows that start early enough to be validated by then.
proof fn lemma_toggle_count_prefix(samples: Seq<bool>, n: int)
    requires
        0 <= n <= samples.len(),
    ensures
        toggles_between(DebounceState::Waiting, samples, 0, n) == long_runs_before(
            samples,
            n - MIN_BUTTON_COUNT,
        ),
    decreases n,
{
    if n > 0 {
        lemma_toggle_count_prefix(samples, n - 1);
        lemma_toggle_matches_long_run(samples, n - 1);
    }
}

/// No long maximal row starts within the last `MIN_BUTTON_COUNT` samples.
proof fn lemma_no_late_long_run(samples: Seq<bool>, n: int)
    requires
        samples.len() - MIN_BUTTON_COUNT <= n <= samples.len(),
    ensures
        long_runs_before(samples, n) == long_runs_before(samples, samples.len() - MIN_BUTTON_COUNT),
    decreases n - (samples.len() - MIN_BUTTON_COUNT),
{
    if n > samples.len() - MIN_BUTTON_COUNT {
        lemma_no_late_long_run(samples, n - 1);
        assert(!starts_long_run(samples, n - 1));
    }
}

/// The toggle count of a whole sequence. A machine that starts in `Waiting`
/// validates as many presses as the sequence has maximal rows of high
/// samples that are longer than the threshold: one for each such row, none
/// for any shorter row, and none on a low sample.
pub proof fn lemma_toggle_count(samples: Seq<bool>)
    ensures
        toggles_between(DebounceState::Waiting, samples, 0, samples.len() as int)
            == long_runs_before(samples, samples.len() as int),
{
    lemma_toggle_count_prefix(samples, samples.len() as int);
    lemma_no_late_long_run(samples, samples.len() as int);
}

/// After a press was validated the machine stays in `Settled` for as long as
/// the samples stay high.
pub proof fn lemma_settled_while_high(state: DebounceState, samples: Seq<bool>, a: int, k: int)
    requires
        0 <= a < k <= samples.len(),
        toggles_at(state, samples, a),
        forall|m: int| a < m < k ==> samples[m],
    ensures
        debounce_run(state, samples.take(k)) is Settled,
    decreases k - a,
{
    lemma_run_step(state, samples, k - 1);
    if k - 1 > a {
        lemma_settled_while_high(state, samples, a, k - 1);
    }
}

/// No press is validated twice: between any two samples that each validate a
/// press lies a low sample, and that sample brings the machine back to
/// `Waiting`. This holds for every starting state and every sequence.
pub proof fn lemma_no_double_toggle(state: DebounceState, samples: Seq<bool>, a: int, b: int)
    requires
        0 <= a < b < samples.len(),
        toggles_at(state, samples, a),
        toggles_at(state, samples, b),
    ensures
        exists|c: int|
            a < c < b && !#[trigger] samples[c] && debounce_run(state, samples.take(c + 1))
                is Waiting,
{
    if forall|m: int| a < m < b ==> samples[m] {
        lemma_settled_while_high(state, samples, a, b);
    }
    let c = choose|c: int| a < c < b && !samples[c];
    lemma_low_sample_resets(state, samples, c);
}

} // verus!
