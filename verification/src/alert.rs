//! The threshold alerter: which cores run above the configured ceiling, how
//! severe that is, and whether the debounce window lets an alert fire.

use vstd::prelude::*;

verus! {

/// The alert level shown to observers, derived from the share of cores that
/// run above the threshold.
#[derive(Clone, Copy, Debug, PartialEq, Eq, Structural)]
pub enum IndicatorStatus {
    Normal,
    Warning,
    Danger,
}

impl IndicatorStatus {
    /// The lower-case word under which observers know the level.
    pub fn label(&self) -> (r: &'static str)
        ensures
            r@ == match *self {
                IndicatorStatus::Normal => "normal"@,
                IndicatorStatus::Warning => "warning"@,
                IndicatorStatus::Danger => "danger"@,
            },
    {
        match self {
            IndicatorStatus::Normal => "normal",
            IndicatorStatus::Warning => "warning",
            IndicatorStatus::Danger => "danger",
        }
    }
}

/// A reading is over the threshold when it is strictly greater. Both are in
/// MHz; a negative threshold is below every reading.
pub open spec fn exceeds(frequency: u64, threshold_mhz: i64) -> bool {
    frequency as int > threshold_mhz as int
}

/// The indices of the readings over the threshold, in ascending order.
pub open spec fn breaching_cores(frequencies: Seq<u64>, threshold_mhz: i64) -> Seq<usize>
    decreases frequencies.len(),
{
    if frequencies.len() == 0 {
        Seq::empty()
    } else {
        let before = breaching_cores(frequencies.drop_last(), threshold_mhz);
        if exceeds(frequencies.last(), threshold_mhz) {
            before.push((frequencies.len() - 1) as usize)
        } else {
            before
        }
    }
}

/// The level for `breaches` cores over the threshold out of `total`.
pub open spec fn indicator_for(breaches: nat, total: nat) -> IndicatorStatus {
    if total == 0 || breaches == 0 {
        IndicatorStatus::Normal
    } else if breaches == total {
        IndicatorStatus::Danger
    } else {
        IndicatorStatus::Warning
    }
}

/// The level that a sample calls for.
pub open spec fn indicator_of(frequencies: Seq<u64>, threshold_mhz: i64) -> IndicatorStatus {
    indicator_for(breaching_cores(frequencies, threshold_mhz).len(), frequencies.len())
}

/// Seconds between the last alert and `now`; a clock that went backwards
/// counts as no time elapsed.
pub open spec fn elapsed_since(last_alert: u64, now: u64) -> int {
    if now >= last_alert {
        now - last_alert
    } else {
        0
    }
}

/// Whether the debounce window lets an alert through at `now`.
pub open spec fn debounce_open(last_alert: u64, now: u64, debounce_seconds: u64) -> bool {
    elapsed_since(last_alert, now) >= debounce_seconds
}

/// Whether a sample taken at `now` raises an alert: some core is over the
/// threshold and the debounce window has passed.
pub open spec fn alert_fires(
    frequencies: Seq<u64>,
    threshold_mhz: i64,
    last_alert: u64,
    now: u64,
    debounce_seconds: u64,
) -> bool {
    breaching_cores(frequencies, threshold_mhz).len() > 0 && debounce_open(
        last_alert,
        now,
        debounce_seconds,
    )
}

/// The time of the last alert after a sample taken at `now` was judged.
pub open spec fn next_alert_time(
    frequencies: Seq<u64>,
    threshold_mhz: i64,
    last_alert: u64,
    now: u64,
    debounce_seconds: u64,
) -> u64 {
    if alert_fires(frequencies, threshold_mhz, last_alert, now, debounce_seconds) {
        now
    } else {
        last_alert
    }
}

/// No more cores are over the threshold than there are cores.
pub proof fn lemma_breach_count_bound(frequencies: Seq<u64>, threshold_mhz: i64)
    ensures
        breaching_cores(frequencies, threshold_mhz).len() <= frequencies.len(),
    decreases frequencies.len(),
{
    if frequencies.len() > 0 {
        lemma_breach_count_bound(frequencies.drop_last(), threshold_mhz);
    }
}

/// `breaching_cores` holds exactly the indices of the readings over the
/// threshold, each once and in ascending order.
pub proof fn lemma_breaching_cores(frequencies: Seq<u64>, threshold_mhz: i64)
    requires
        frequencies.len() <= usize::MAX,
    ensures
        forall|k: int|
            0 <= k < breaching_cores(frequencies, threshold_mhz).len() ==> {
                let core = #[trigger] breaching_cores(frequencies, threshold_mhz)[k];
                core < frequencies.len() && exceeds(frequencies[core as int], threshold_mhz)
            },
        forall|j: int, k: int|
            0 <= j < k < breaching_cores(frequencies, threshold_mhz).len()
                ==> breaching_cores(frequencies, threshold_mhz)[j] < breaching_cores(
                frequencies,
                threshold_mhz,
            )[k],
        forall|i: int|
            0 <= i < frequencies.len() && exceeds(#[trigger] frequencies[i], threshold_mhz)
                ==> breaching_cores(frequencies, threshold_mhz).contains(i as usize),
    decreases frequencies.len(),
{
    if frequencies.len() > 0 {
        let shorter = frequencies.drop_last();
        let before = breaching_cores(shorter, threshold_mhz);
        let all = breaching_cores(frequencies, threshold_mhz);
        lemma_breaching_cores(shorter, threshold_mhz);
        assert forall|i: int|
            0 <= i < frequencies.len() && exceeds(
                #[trigger] frequencies[i],
                threshold_mhz,
            ) implies all.contains(i as usize) by {
            if i < shorter.len() {
                assert(shorter[i] == frequencies[i]);
                let k = choose|k: int| 0 <= k < before.len() && before[k] == i as usize;
                assert(all[k] == i as usize);
            } else {
                assert(all[all.len() - 1] == i as usize);
            }
        }
        assert forall|k: int| 0 <= k < all.len() implies {
            let core = #[trigger] all[k];
            core < frequencies.len() && exceeds(frequencies[core as int], threshold_mhz)
        } by {}
        assert forall|j: int, k: int| 0 <= j < k < all.len() implies all[j] < all[k] by {}
    }
}

/// All cores are over the threshold exactly when the breach count equals the
/// number of cores.
pub proof fn lemma_breach_count_full(frequencies: Seq<u64>, threshold_mhz: i64)
    ensures
        breaching_cores(frequencies, threshold_mhz).len() == frequencies.len() <==> (forall|
            i: int,
        |
            0 <= i < frequencies.len() ==> exceeds(#[trigger] frequencies[i], threshold_mhz)),
        breaching_cores(frequencies, threshold_mhz).len() == 0 <==> (forall|i: int|
            0 <= i < frequencies.len() ==> !exceeds(#[trigger] frequencies[i], threshold_mhz)),
    decreases frequencies.len(),
{
    if frequencies.len() > 0 {
        let shorter = frequencies.drop_last();
        lemma_breach_count_full(shorter, threshold_mhz);
        lemma_breach_count_bound(shorter, threshold_mhz);
        assert forall|i: int| 0 <= i < shorter.len() implies shorter[i] == frequencies[i] by {}
    }
}

/// The indicator is `Danger` exactly when the sample is non-empty and every
/// core is counted as a breach, `Normal` exactly when there is no breach or no
/// core, and `Warning` in every other case.
pub proof fn lemma_indicator_levels(frequencies: Seq<u64>, threshold_mhz: i64)
    ensures
        indicator_of(frequencies, threshold_mhz) == IndicatorStatus::Danger <==> (
        frequencies.len() > 0 && breaching_cores(frequencies, threshold_mhz).len()
            == frequencies.len()),
        indicator_of(frequencies, threshold_mhz) == IndicatorStatus::Normal <==> (
        frequencies.len() == 0 || breaching_cores(frequencies, threshold_mhz).len() == 0),
        indicator_of(frequencies, threshold_mhz) == IndicatorStatus::Warning <==> (0
            < breaching_cores(frequencies, threshold_mhz).len() < frequencies.len()),
{
    lemma_breach_count_bound(frequencies, threshold_mhz);
}

/// Whether one reading is over the threshold.
pub fn is_over_threshold(frequency: u64, threshold_mhz: i64) -> (r: bool)
    ensures
        r == exceeds(frequency, threshold_mhz),
{
    threshold_mhz < 0 || frequency > threshold_mhz as u64
}

/// Collects the indices of the cores whose reading is over the threshold.
pub fn find_breaches(frequencies: &Vec<u64>, threshold_mhz: i64) -> (cores: Vec<usize>)
    ensures
        cores@ == breaching_cores(frequencies@, threshold_mhz),
{
    let mut cores: Vec<usize> = Vec::new();
    let mut i: usize = 0;
    while i < frequencies.len()
        invariant
            i <= frequencies@.len(),
            cores@ == breaching_cores(frequencies@.take(i as int), threshold_mhz),
        decreases frequencies@.len() - i,
    {
        proof {
            let longer = frequencies@.take(i + 1);
            assert(longer.drop_last() =~= frequencies@.take(i as int));
        }
        if is_over_threshold(frequencies[i], threshold_mhz) {
            cores.push(i);
        }
        i += 1;
    }
    assert(frequencies@.take(i as int) =~= frequencies@);
    cores
}

/// The indicator level for a count of breaching cores among `total` cores.
pub fn classify(breaches: usize, total: usize) -> (r: IndicatorStatus)
    ensures
        r == indicator_for(breaches as nat, total as nat),
{
    if total == 0 || breaches == 0 {
        IndicatorStatus::Normal
    } else if breaches == total {
        IndicatorStatus::Danger
    } else {
        IndicatorStatus::Warning
    }
}

/// What one pass of the alerter found and decided.
pub struct ThresholdReport {
    /// Number of cores in the sample.
    pub total_cores: usize,
    /// Indices of the cores over the threshold, ascending.
    pub exceeded_cores: Vec<usize>,
    /// The live level: it follows the sample whether or not an alert fires.
    pub indicator: IndicatorStatus,
    /// Whether the breach event and the user notification are to be sent.
    pub alert: bool,
    /// Whether the trigger-action executor is to run on the active action.
    pub run_action: bool,
}

/// Judges one sample. `last_alert` is the single debounce timestamp shared by
/// all cores and actions; it moves to `now` exactly when an alert fires.
pub fn check_frequency_threshold(
    frequencies: &Vec<u64>,
    threshold_mhz: i64,
    trigger_action_enabled: bool,
    last_alert: &mut u64,
    debounce_seconds: u64,
    now: u64,
) -> (report: ThresholdReport)
    ensures
        report.total_cores == frequencies@.len(),
        report.exceeded_cores@ == breaching_cores(frequencies@, threshold_mhz),
        report.indicator == indicator_of(frequencies@, threshold_mhz),
        report.alert == alert_fires(
            frequencies@,
            threshold_mhz,
            *old(last_alert),
            now,
            debounce_seconds,
        ),
        report.run_action == (report.alert && trigger_action_enabled),
        *final(last_alert) == next_alert_time(
            frequencies@,
            threshold_mhz,
            *old(last_alert),
            now,
            debounce_seconds,
        ),
{
    let exceeded_cores = find_breaches(frequencies, threshold_mhz);
    let indicator = classify(exceeded_cores.len(), frequencies.len());
    let mut alert = false;
    if exceeded_cores.len() > 0 {
        let elapsed: u64 = if now >= *last_alert {
            now - *last_alert
        } else {
            0
        };
        if elapsed >= debounce_seconds {
            *last_alert = now;
            alert = true;
        }
    }
    ThresholdReport {
        total_cores: frequencies.len(),
        exceeded_cores,
        indicator,
        alert,
        run_action: alert && trigger_action_enabled,
    }
}

/// A first alert that fires is followed by a second one exactly when at least
/// the debounce window lies between the two breaches: two breaches closer
/// together than the window give one alert, two at least the window apart give
/// two.
pub proof fn lemma_debounce_two_breaches(
    first: Seq<u64>,
    second: Seq<u64>,
    threshold_mhz: i64,
    last_alert: u64,
    first_time: u64,
    second_time: u64,
    debounce_seconds: u64,
)
    requires
        breaching_cores(first, threshold_mhz).len() > 0,
        breaching_cores(second, threshold_mhz).len() > 0,
        first_time <= second_time,
        alert_fires(first, threshold_mhz, last_alert, first_time, debounce_seconds),
    ensures
        ({
            let after_first = next_alert_time(
                first,
                threshold_mhz,
                last_alert,
                first_time,
                debounce_seconds,
            );
            let second_fires = alert_fires(
                second,
                threshold_mhz,
                after_first,
                second_time,
                debounce_seconds,
            );
            &&& after_first == first_time
            &&& second_time - first_time < debounce_seconds ==> !second_fires
            &&& second_time - first_time >= debounce_seconds ==> second_fires
        }),
{
}

} // verus!
