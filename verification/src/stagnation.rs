//! The stagnation detector: tells a sampling source that has stopped
//! updating from a clock that is merely steady, by counting consecutive
//! samples that repeat the one before.

use vstd::prelude::*;

verus! {

/// What a detector remembers between cycles.
pub struct StagnationView {
    /// The sample of the previous cycle; empty before the first one.
    pub previous: Seq<u64>,
    /// How many cycles in a row repeated their predecessor.
    pub run: u64,
}

/// A sample repeats its predecessor when both hold readings and hold the
/// same ones, core by core.
pub open spec fn samples_identical(previous: Seq<u64>, current: Seq<u64>) -> bool {
    previous.len() > 0 && current.len() > 0 && previous == current
}

/// The run counter once `sample` has been compared with the previous one.
pub open spec fn observed_run(state: StagnationView, sample: Seq<u64>) -> int {
    if samples_identical(state.previous, sample) {
        state.run + 1
    } else {
        0
    }
}

/// Whether the run counter, with `sample` counted, has reached the
/// configured run length.
pub open spec fn stagnation_reached(
    state: StagnationView,
    sample: Seq<u64>,
    run_length: u64,
) -> bool {
    observed_run(state, sample) >= run_length
}

/// The detector after `sample`. Where the run length was reached the counter
/// starts over and the sample is dropped; otherwise the sample becomes the
/// one to compare the next with.
pub open spec fn stagnation_after(
    state: StagnationView,
    sample: Seq<u64>,
    run_length: u64,
) -> StagnationView {
    if stagnation_reached(state, sample, run_length) {
        StagnationView { previous: state.previous, run: 0 }
    } else {
        StagnationView { previous: sample, run: observed_run(state, sample) as u64 }
    }
}

/// The detector after the same sample was seen `times` times in a row.
pub open spec fn stagnation_after_repeats(
    state: StagnationView,
    sample: Seq<u64>,
    run_length: u64,
    times: nat,
) -> StagnationView
    decreases times,
{
    if times == 0 {
        state
    } else {
        stagnation_after(
            stagnation_after_repeats(state, sample, run_length, (times - 1) as nat),
            sample,
            run_length,
        )
    }
}

/// How often the run length was reached while the same sample was seen
/// `times` times in a row.
pub open spec fn switches_in_repeats(
    state: StagnationView,
    sample: Seq<u64>,
    run_length: u64,
    times: nat,
) -> nat
    decreases times,
{
    if times == 0 {
        0
    } else {
        let before = stagnation_after_repeats(state, sample, run_length, (times - 1) as nat);
        let earlier = switches_in_repeats(state, sample, run_length, (times - 1) as nat);
        if stagnation_reached(before, sample, run_length) {
            earlier + 1
        } else {
            earlier
        }
    }
}

/// What the detector found in one cycle.
#[derive(Clone, Copy, Debug, PartialEq, Eq, Structural)]
pub struct StagnationVerdict {
    /// The run counter to publish: the count with this cycle's sample.
    pub unchanged_count: u64,
    /// Whether the run length was reached, so that the sampling mode is to
    /// fall back and this cycle's sample is not published.
    pub switch_mode: bool,
}

/// Compares consecutive samples and counts how long they have not changed.
pub struct StagnationDetector {
    previous: Vec<u64>,
    run: u64,
}

impl View for StagnationDetector {
    type V = StagnationView;

    closed spec fn view(&self) -> StagnationView {
        StagnationView { previous: self.previous@, run: self.run }
    }
}

/// Whether two samples hold the same readings, core by core.
pub fn same_readings(a: &Vec<u64>, b: &Vec<u64>) -> (r: bool)
    ensures
        r == (a@ == b@),
{
    if a.len() != b.len() {
        return false;
    }
    let mut i: usize = 0;
    while i < a.len()
        invariant
            a@.len() == b@.len(),
            i <= a@.len(),
            forall|k: int| 0 <= k < i ==> a@[k] == b@[k],
        decreases a@.len() - i,
    {
        if a[i] != b[i] {
            return false;
        }
        i += 1;
    }
    assert(a@ =~= b@);
    true
}

/// A copy of a sample.
pub fn copy_readings(sample: &Vec<u64>) -> (r: Vec<u64>)
    ensures
        r@ == sample@,
{
    let mut r: Vec<u64> = Vec::new();
    let mut i: usize = 0;
    while i < sample.len()
        invariant
            i <= sample@.len(),
            r@ == sample@.take(i as int),
        decreases sample@.len() - i,
    {
        r.push(sample[i]);
        i += 1;
    }
    r
}

impl StagnationDetector {
    /// The run counter stays below the largest number, so that counting one
    /// more sample never overflows.
    #[verifier::type_invariant]
    spec fn counter_bounded(&self) -> bool {
        self.run < u64::MAX
    }

    /// A detector that has seen no sample.
    pub fn new() -> (detector: Self)
        ensures
            detector@.previous == Seq::<u64>::empty(),
            detector@.run == 0,
    {
        StagnationDetector { previous: Vec::new(), run: 0 }
    }

    /// The run counter as it stands.
    pub fn run_count(&self) -> (r: u64)
        ensures
            r == self@.run,
            r < u64::MAX,
    {
        proof {
            use_type_invariant(self);
        }
        self.run
    }

    /// The sample that the next one will be compared with.
    pub fn previous_sample(&self) -> (r: &Vec<u64>)
        ensures
            r@ == self@.previous,
    {
        &self.previous
    }

    /// Compares `sample` with the previous one and counts it. The verdict
    /// carries the counter to publish; where it says to switch the mode, the
    /// counter has started over and the sample was not remembered.
    pub fn observe(&mut self, sample: &Vec<u64>, run_length: u64) -> (verdict: StagnationVerdict)
        ensures
            verdict.unchanged_count == observed_run(old(self)@, sample@),
            verdict.switch_mode == stagnation_reached(old(self)@, sample@, run_length),
            final(self)@ == stagnation_after(old(self)@, sample@, run_length),
    {
        proof {
            use_type_invariant(&*self);
        }
        let repeated = self.previous.len() > 0 && sample.len() > 0 && same_readings(
            &self.previous,
            sample,
        );
        let count: u64 = if repeated {
            self.run + 1
        } else {
            0
        };
        if count >= run_length {
            self.run = 0;
            StagnationVerdict { unchanged_count: count, switch_mode: true }
        } else {
            self.run = count;
            self.previous = copy_readings(sample);
            StagnationVerdict { unchanged_count: count, switch_mode: false }
        }
    }

    /// Takes `sample` as the previous one without comparing, and puts the
    /// counter back to zero: the cycle of an engine whose detector is switched
    /// off. Returns whether the counter stood above zero.
    pub fn pass(&mut self, sample: &Vec<u64>) -> (was_counting: bool)
        ensures
            was_counting == (old(self)@.run > 0),
            final(self)@ == (StagnationView { previous: sample@, run: 0 }),
    {
        let was_counting = self.run > 0;
        self.run = 0;
        self.previous = copy_readings(sample);
        was_counting
    }
}

/// A sample equal to its non-empty predecessor raises the run counter by
/// one; a sample of the same length that differs somewhere puts it to zero.
pub proof fn lemma_run_counter(state: StagnationView, sample: Seq<u64>)
    ensures
        state.previous == sample && sample.len() > 0 ==> observed_run(state, sample) == state.run
            + 1 && observed_run(state, sample) > state.run,
        state.previous.len() == sample.len() && state.previous != sample ==> observed_run(
            state,
            sample,
        ) == 0,
{
}

/// While fewer repeats were seen than the run length asks for, each repeat
/// is counted and none reaches the run length.
pub proof fn lemma_repeats_below_run_length(
    state: StagnationView,
    sample: Seq<u64>,
    run_length: u64,
    times: nat,
)
    requires
        sample.len() > 0,
        state.previous == sample,
        state.run == 0,
        times < run_length,
    ensures
        stagnation_after_repeats(state, sample, run_length, times) == (StagnationView {
            previous: sample,
            run: times as u64,
        }),
        switches_in_repeats(state, sample, run_length, times) == 0,
    decreases times,
{
    if times > 0 {
        lemma_repeats_below_run_length(state, sample, run_length, (times - 1) as nat);
    }
}

/// From a counter at zero, exactly `run_length` samples in a row that repeat
/// their predecessor reach the run length once, at the last of them, and the
/// counter is back at zero right after.
pub proof fn lemma_switch_after_run_length(
    state: StagnationView,
    sample: Seq<u64>,
    run_length: u64,
)
    requires
        sample.len() > 0,
        state.previous == sample,
        state.run == 0,
        run_length >= 1,
    ensures
        switches_in_repeats(state, sample, run_length, (run_length - 1) as nat) == 0,
        switches_in_repeats(state, sample, run_length, run_length as nat) == 1,
        stagnation_after_repeats(state, sample, run_length, run_length as nat).run == 0,
{
    lemma_repeats_below_run_length(state, sample, run_length, (run_length - 1) as nat);
}

/// A detector that has seen nothing takes its first sample as the one to
/// compare with and counts from the second: the first sample reaches no run
/// length of one or more, and leaves the counter at zero.
pub proof fn lemma_first_sample_is_not_counted(sample: Seq<u64>, run_length: u64)
    requires
        run_length >= 1,
    ensures
        ({
            let fresh = StagnationView { previous: Seq::empty(), run: 0 };
            &&& observed_run(fresh, sample) == 0
            &&& !stagnation_reached(fresh, sample, run_length)
            &&& stagnation_after(fresh, sample, run_length) == (StagnationView {
                previous: sample,
                run: 0,
            })
        }),
{
}

} // verus!
