//! The refresh path: which datapoints count, what they aggregate to, and
//! whether enough operators agree.

use crate::chain::PublicKey;
use crate::sequences::lemma_filter_next;
use crate::state::{epoch_is_over, BoxRef};
use vstd::prelude::*;

verus! {

/// One operator's last committed observation.
#[derive(Clone, Copy, Debug, PartialEq, Eq)]
pub struct Datapoint {
    pub box_ref: BoxRef,
    pub public_key: PublicKey,
    pub value: u64,
    /// Ledger height at which the datapoint was committed.
    pub height: u32,
}

/// How the reference value is computed from the fresh datapoints.
#[derive(Clone, Copy, Debug, PartialEq, Eq, Structural)]
pub enum AggregationRule {
    /// The average of all fresh datapoints.
    Average,
    /// The average after one least and one greatest value are set aside, where
    /// there are at least three datapoints; the plain average otherwise.
    TrimmedMean,
}

/// How far a datapoint may lie from the reference value.
#[derive(Clone, Copy, Debug, PartialEq, Eq, Structural)]
pub enum DeviationBound {
    /// At most `percent` hundredths of the reference value.
    Relative { percent: u32 },
    /// At most `delta`.
    Absolute { delta: u64 },
}

/// The datapoint was committed in the epoch that began at `epoch_start_height`
/// and no later than `height`.
pub open spec fn committed_in_epoch(dp: Datapoint, epoch_start_height: u32, height: u32) -> bool {
    epoch_start_height <= dp.height <= height
}

/// The datapoint is no older than one epoch length at `height`.
pub open spec fn is_fresh(dp: Datapoint, epoch_length: u32, height: u32) -> bool {
    height - dp.height <= epoch_length
}

/// The predicate that keeps the datapoints that are collected for a refresh.
pub open spec fn collected(epoch_start_height: u32, epoch_length: u32, height: u32) -> spec_fn(
    Datapoint,
) -> bool {
    |dp: Datapoint|
        committed_in_epoch(dp, epoch_start_height, height) && is_fresh(dp, epoch_length, height)
}

/// The sum of the datapoints' values.
pub open spec fn sum_of_values(dps: Seq<Datapoint>) -> int
    decreases dps.len(),
{
    if dps.len() == 0 {
        0
    } else {
        sum_of_values(dps.drop_last()) + dps.last().value
    }
}

/// The least of the datapoints' values; 0 where there is none.
pub open spec fn least_value(dps: Seq<Datapoint>) -> int
    decreases dps.len(),
{
    if dps.len() == 0 {
        0
    } else if dps.len() == 1 {
        dps.last().value as int
    } else {
        let rest = least_value(dps.drop_last());
        if dps.last().value < rest {
            dps.last().value as int
        } else {
            rest
        }
    }
}

/// The greatest of the datapoints' values; 0 where there is none.
pub open spec fn greatest_value(dps: Seq<Datapoint>) -> int
    decreases dps.len(),
{
    if dps.len() == 0 {
        0
    } else {
        let rest = greatest_value(dps.drop_last());
        if dps.last().value > rest {
            dps.last().value as int
        } else {
            rest
        }
    }
}

/// The average of the datapoints' values, rounded down; 0 where there is none.
pub open spec fn average_value(dps: Seq<Datapoint>) -> int {
    if dps.len() == 0 {
        0
    } else {
        sum_of_values(dps) / (dps.len() as int)
    }
}

/// The value that the datapoints are held against.
pub open spec fn reference_value(rule: AggregationRule, dps: Seq<Datapoint>) -> int {
    match rule {
        AggregationRule::Average => average_value(dps),
        AggregationRule::TrimmedMean => if dps.len() >= 3 {
            (sum_of_values(dps) - least_value(dps) - greatest_value(dps)) / (dps.len() - 2)
        } else {
            average_value(dps)
        },
    }
}

/// `value` lies within `bound` of `reference`.
pub open spec fn within_deviation(bound: DeviationBound, reference: int, value: int) -> bool {
    let distance = if value >= reference {
        value - reference
    } else {
        reference - value
    };
    match bound {
        DeviationBound::Relative { percent } => distance * 100 <= reference * percent,
        DeviationBound::Absolute { delta } => distance <= delta,
    }
}

/// The predicate that keeps the datapoints within `bound` of `reference`.
pub open spec fn agreeing(bound: DeviationBound, reference: int) -> spec_fn(Datapoint) -> bool {
    |dp: Datapoint| within_deviation(bound, reference, dp.value as int)
}

/// The sum lies between the length times a lower and an upper bound of the
/// values.
pub proof fn lemma_sum_bounds(dps: Seq<Datapoint>)
    ensures
        0 <= sum_of_values(dps) <= dps.len() * u64::MAX,
    decreases dps.len(),
{
    if dps.len() > 0 {
        lemma_sum_bounds(dps.drop_last());
        assert(dps.len() * u64::MAX == (dps.len() - 1) * u64::MAX + u64::MAX) by (nonlinear_arith);
    }
}

/// The least and the greatest value are values of the sequence and bound all
/// of them.
pub proof fn lemma_least_and_greatest(dps: Seq<Datapoint>)
    requires
        dps.len() > 0,
    ensures
        exists|i: int| 0 <= i < dps.len() && dps[i].value == least_value(dps),
        exists|i: int| 0 <= i < dps.len() && dps[i].value == greatest_value(dps),
        forall|i: int| 0 <= i < dps.len() ==> least_value(dps) <= (#[trigger] dps[i]).value,
        forall|i: int| 0 <= i < dps.len() ==> (#[trigger] dps[i]).value <= greatest_value(dps),
    decreases dps.len(),
{
    let last = dps.len() - 1;
    let rest = dps.drop_last();
    if dps.len() == 1 {
        assert(rest.len() == 0);
        assert(dps[last].value == least_value(dps));
        assert(dps[last].value == greatest_value(dps));
    } else {
        lemma_least_and_greatest(rest);
        let i = choose|i: int| 0 <= i < rest.len() && rest[i].value == least_value(rest);
        let j = choose|j: int| 0 <= j < rest.len() && rest[j].value == greatest_value(rest);
        assert(dps[i] == rest[i] && dps[j] == rest[j]);
        if dps.last().value < least_value(rest) {
            assert(dps[last].value == least_value(dps));
        } else {
            assert(dps[i].value == least_value(dps));
        }
        if dps.last().value > greatest_value(rest) {
            assert(dps[last].value == greatest_value(dps));
        } else {
            assert(dps[j].value == greatest_value(dps));
        }
        assert forall|k: int| 0 <= k < dps.len() implies least_value(dps) <= (#[trigger] dps[k]).value
            && dps[k].value <= greatest_value(dps) by {
            if k < last {
                assert(dps[k] == rest[k]);
            }
        }
    }
}

/// With one least and one greatest value set aside, what is left of the sum
/// is the sum of as many values as remain.
pub proof fn lemma_trimmed_sum_bounds(dps: Seq<Datapoint>)
    requires
        dps.len() >= 2,
    ensures
        0 <= sum_of_values(dps) - least_value(dps) - greatest_value(dps) <= (dps.len() - 2)
            * u64::MAX,
    decreases dps.len(),
{
    let rest = dps.drop_last();
    let v = dps.last().value as int;
    assert(sum_of_values(dps) == sum_of_values(rest) + v);
    if dps.len() == 2 {
        let first = rest.drop_last();
        let a = rest.last().value as int;
        assert(first.len() == 0);
        assert(sum_of_values(first) == 0 && greatest_value(first) == 0);
        assert(sum_of_values(rest) == a);
        assert(least_value(rest) == a);
        assert(greatest_value(rest) == a);
        assert(least_value(dps) == if v < a { v } else { a });
        assert(greatest_value(dps) == if v > a { v } else { a });
    } else {
        let lo = least_value(rest);
        let hi = greatest_value(rest);
        lemma_trimmed_sum_bounds(rest);
        lemma_least_and_greatest(rest);
        let i = choose|i: int| 0 <= i < rest.len() && rest[i].value == lo;
        let j = choose|j: int| 0 <= j < rest.len() && rest[j].value == hi;
        assert(0 <= rest[i].value <= u64::MAX && 0 <= rest[j].value <= u64::MAX);
        assert(lo <= rest[0].value <= hi);
        assert(least_value(dps) == if v < lo { v } else { lo });
        assert(greatest_value(dps) == if v > hi { v } else { hi });
        assert((dps.len() - 2) * u64::MAX == (rest.len() - 2) * u64::MAX + u64::MAX)
            by (nonlinear_arith)
            requires
                rest.len() == dps.len() - 1,
        ;
    }
}

/// The thresholds that the refresh box encodes, and the pool's aggregation
/// policy.
#[derive(Clone, Copy, Debug, PartialEq, Eq)]
pub struct RefreshSettings {
    /// Length of an epoch in blocks.
    pub epoch_length: u32,
    /// The least number of agreeing datapoints that a refresh needs.
    pub min_data_points: u32,
    pub aggregation: AggregationRule,
    pub max_deviation: DeviationBound,
}

impl RefreshSettings {
    /// An epoch has a length, and a refresh needs at least one datapoint.
    pub open spec fn valid(self) -> bool {
        self.epoch_length > 0 && self.min_data_points > 0
    }
}

/// Why settings were turned down.
#[derive(Clone, Copy, Debug, PartialEq, Eq, Structural)]
pub enum SettingsError {
    ZeroEpochLength,
    ZeroMinDataPoints,
}

/// Settings that have been checked.
#[derive(Clone, Copy, Debug, PartialEq, Eq)]
pub struct RefreshParameters {
    settings: RefreshSettings,
}

impl View for RefreshParameters {
    type V = RefreshSettings;

    closed spec fn view(&self) -> RefreshSettings {
        self.settings
    }
}

impl RefreshParameters {
    #[verifier::type_invariant]
    spec fn checked(self) -> bool {
        self.settings.valid()
    }

    /// Checks the settings: an epoch length of zero is turned down first, then
    /// a minimum of zero datapoints.
    pub fn new(settings: RefreshSettings) -> (r: Result<RefreshParameters, SettingsError>)
        ensures
            settings.epoch_length == 0 ==> r == Err::<RefreshParameters, _>(
                SettingsError::ZeroEpochLength,
            ),
            settings.epoch_length > 0 && settings.min_data_points == 0 ==> r == Err::<
                RefreshParameters,
                _,
            >(SettingsError::ZeroMinDataPoints),
            settings.valid() ==> r is Ok && r->Ok_0@ == settings,
    {
        if settings.epoch_length == 0 {
            Err(SettingsError::ZeroEpochLength)
        } else if settings.min_data_points == 0 {
            Err(SettingsError::ZeroMinDataPoints)
        } else {
            Ok(RefreshParameters { settings })
        }
    }

    /// The settings that were checked.
    pub fn settings(&self) -> (r: RefreshSettings)
        ensures
            r == self@,
            r.valid(),
    {
        proof {
            use_type_invariant(self);
        }
        self.settings
    }
}

/// The datapoints that were committed in the epoch and are still fresh, in
/// the order in which they were given.
pub fn collect_datapoints(
    datapoints: &Vec<Datapoint>,
    epoch_start_height: u32,
    epoch_length: u32,
    height: u32,
) -> (kept: Vec<Datapoint>)
    ensures
        kept@ == datapoints@.filter(collected(epoch_start_height, epoch_length, height)),
{
    let ghost pred = collected(epoch_start_height, epoch_length, height);
    let mut kept: Vec<Datapoint> = Vec::new();
    let mut i: usize = 0;
    proof {
        reveal(Seq::filter);
        assert(datapoints@.take(0).len() == 0);
    }
    while i < datapoints.len()
        invariant
            i <= datapoints.len(),
            pred == collected(epoch_start_height, epoch_length, height),
            kept@ == datapoints@.take(i as int).filter(pred),
        decreases datapoints.len() - i,
    {
        let dp = datapoints[i];
        proof {
            lemma_filter_next(datapoints@, pred, i as int);
        }
        if epoch_start_height <= dp.height && dp.height <= height && height - dp.height
            <= epoch_length {
            kept.push(dp);
        }
        i += 1;
    }
    proof {
        assert(datapoints@.take(i as int) =~= datapoints@);
    }
    kept
}

/// The value that the datapoints are held against under `rule`.
pub fn compute_reference_value(rule: AggregationRule, datapoints: &Vec<Datapoint>) -> (reference:
    u64)
    ensures
        reference == reference_value(rule, datapoints@),
{
    let n = datapoints.len();
    if n == 0 {
        return 0;
    }
    let mut sum: u128 = 0;
    let mut least: u64 = datapoints[0].value;
    let mut greatest: u64 = 0;
    let mut i: usize = 0;
    proof {
        assert(datapoints@.take(0).len() == 0);
    }
    while i < n
        invariant
            n == datapoints.len(),
            n > 0,
            i <= n,
            sum == sum_of_values(datapoints@.take(i as int)),
            sum <= i * u64::MAX,
            i > 0 ==> least == least_value(datapoints@.take(i as int)),
            i == 0 ==> least == datapoints@[0].value,
            greatest == greatest_value(datapoints@.take(i as int)),
        decreases n - i,
    {
        let value = datapoints[i].value;
        proof {
            let next = datapoints@.take(i + 1);
            assert(next.drop_last() =~= datapoints@.take(i as int));
            assert(next.last() == datapoints@[i as int]);
            lemma_sum_bounds(next);
            assert((i + 1) * u64::MAX == i * u64::MAX + u64::MAX) by (nonlinear_arith);
        }
        sum = sum + value as u128;
        if i == 0 || value < least {
            least = value;
        }
        if value > greatest {
            greatest = value;
        }
        i += 1;
    }
    proof {
        assert(datapoints@.take(n as int) =~= datapoints@);
        lemma_sum_bounds(datapoints@);
        if n >= 2 {
            lemma_trimmed_sum_bounds(datapoints@);
        }
    }
    let trimmed = match rule {
        AggregationRule::Average => false,
        AggregationRule::TrimmedMean => n >= 3,
    };
    if trimmed {
        let rest: u128 = sum - least as u128 - greatest as u128;
        let count: u128 = (n - 2) as u128;
        proof {
            assert(rest / count <= u64::MAX) by (nonlinear_arith)
                requires
                    0 <= rest <= count * u64::MAX,
                    count > 0,
            ;
        }
        (rest / count) as u64
    } else {
        let count: u128 = n as u128;
        proof {
            assert(sum / count <= u64::MAX) by (nonlinear_arith)
                requires
                    0 <= sum <= count * u64::MAX,
                    count > 0,
            ;
        }
        (sum / count) as u64
    }
}

/// Whether `value` lies within `bound` of `reference`.
pub fn is_within_deviation(bound: DeviationBound, reference: u64, value: u64) -> (within: bool)
    ensures
        within == within_deviation(bound, reference as int, value as int),
{
    let distance: u64 = if value >= reference {
        value - reference
    } else {
        reference - value
    };
    match bound {
        DeviationBound::Relative { percent } => {
            assert(distance * 100 <= u128::MAX && reference * percent <= u128::MAX)
                by (nonlinear_arith)
                requires
                    distance <= u64::MAX,
                    reference <= u64::MAX,
                    percent <= u32::MAX,
            ;
            distance as u128 * 100 <= reference as u128 * percent as u128
        },
        DeviationBound::Absolute { delta } => distance <= delta,
    }
}

/// The datapoints that lie within `bound` of `reference`, in the order in
/// which they were given.
pub fn datapoints_within_deviation(
    datapoints: &Vec<Datapoint>,
    bound: DeviationBound,
    reference: u64,
) -> (kept: Vec<Datapoint>)
    ensures
        kept@ == datapoints@.filter(agreeing(bound, reference as int)),
{
    let ghost pred = agreeing(bound, reference as int);
    let mut kept: Vec<Datapoint> = Vec::new();
    let mut i: usize = 0;
    proof {
        reveal(Seq::filter);
        assert(datapoints@.take(0).len() == 0);
    }
    while i < datapoints.len()
        invariant
            i <= datapoints.len(),
            pred == agreeing(bound, reference as int),
            kept@ == datapoints@.take(i as int).filter(pred),
        decreases datapoints.len() - i,
    {
        let dp = datapoints[i];
        proof {
            lemma_filter_next(datapoints@, pred, i as int);
        }
        if is_within_deviation(bound, reference, dp.value) {
            kept.push(dp);
        }
        i += 1;
    }
    proof {
        assert(datapoints@.take(i as int) =~= datapoints@);
    }
    kept
}

/// The pool box: the one box that holds the aggregated value.
#[derive(Clone, Copy, Debug, PartialEq, Eq)]
pub struct PoolBox {
    pub box_ref: BoxRef,
    /// The value that the last refresh aggregated.
    pub value: u64,
    /// The number of refreshes so far.
    pub epoch_counter: u32,
    /// Ledger height at which the current epoch began.
    pub epoch_start_height: u32,
}

/// Why no refresh could be built.
#[derive(Debug, PartialEq, Eq)]
pub enum RefreshActionError {
    /// Fewer than `expected` datapoints lie within the deviation bound.
    /// `found_public_keys` are the keys of those that do, `found_num` their
    /// number.
    FailedToReachConsensus { expected: u32, found_public_keys: Vec<PublicKey>, found_num: u32 },
    /// The pool box's epoch counter cannot be raised any further.
    EpochCounterOverflow,
}

/// A refresh: the boxes it spends and the pool box it creates.
#[derive(Debug, PartialEq, Eq)]
pub struct RefreshAction {
    pub pool_box_in: BoxRef,
    pub refresh_box_in: BoxRef,
    /// The boxes of the agreeing datapoints.
    pub datapoint_inputs: Vec<BoxRef>,
    pub new_pool_value: u64,
    pub new_epoch_counter: u32,
    pub new_epoch_start_height: u32,
    pub change_address: String,
}

/// The datapoints that a refresh at `height` aggregates: those collected for
/// the epoch that lie within the deviation bound of their reference value.
pub open spec fn qualifying_datapoints(
    settings: RefreshSettings,
    datapoints: Seq<Datapoint>,
    epoch_start_height: u32,
    height: u32,
) -> Seq<Datapoint> {
    let fresh = datapoints.filter(collected(epoch_start_height, settings.epoch_length, height));
    fresh.filter(agreeing(settings.max_deviation, reference_value(settings.aggregation, fresh)))
}

/// Enough operators agree.
pub open spec fn consensus_reached(
    settings: RefreshSettings,
    datapoints: Seq<Datapoint>,
    epoch_start_height: u32,
    height: u32,
) -> bool {
    qualifying_datapoints(settings, datapoints, epoch_start_height, height).len()
        >= settings.min_data_points
}

/// The public keys of the datapoints, in order.
pub open spec fn public_keys_of(dps: Seq<Datapoint>) -> Seq<PublicKey> {
    Seq::new(dps.len(), |i: int| dps[i].public_key)
}

/// The box references of the datapoints, in order.
pub open spec fn box_refs_of(dps: Seq<Datapoint>) -> Seq<BoxRef> {
    Seq::new(dps.len(), |i: int| dps[i].box_ref)
}

/// `r` is the consensus failure that names exactly the datapoints `found`.
pub open spec fn is_consensus_failure<T>(
    r: Result<T, RefreshActionError>,
    expected: u32,
    found: Seq<Datapoint>,
) -> bool {
    &&& r matches Err(
        RefreshActionError::FailedToReachConsensus { expected: e, found_public_keys, found_num },
    )
    &&& e == expected
    &&& found_public_keys@ == public_keys_of(found)
    &&& found_num == found.len()
}

fn public_keys(datapoints: &Vec<Datapoint>) -> (keys: Vec<PublicKey>)
    ensures
        keys@ == public_keys_of(datapoints@),
{
    let mut keys: Vec<PublicKey> = Vec::new();
    let mut i: usize = 0;
    while i < datapoints.len()
        invariant
            i <= datapoints.len(),
            keys@ == public_keys_of(datapoints@.take(i as int)),
        decreases datapoints.len() - i,
    {
        keys.push(datapoints[i].public_key);
        i += 1;
        assert(keys@ =~= public_keys_of(datapoints@.take(i as int)));
    }
    assert(datapoints@.take(i as int) =~= datapoints@);
    keys
}

fn box_refs(datapoints: &Vec<Datapoint>) -> (refs: Vec<BoxRef>)
    ensures
        refs@ == box_refs_of(datapoints@),
{
    let mut refs: Vec<BoxRef> = Vec::new();
    let mut i: usize = 0;
    while i < datapoints.len()
        invariant
            i <= datapoints.len(),
            refs@ == box_refs_of(datapoints@.take(i as int)),
        decreases datapoints.len() - i,
    {
        refs.push(datapoints[i].box_ref);
        i += 1;
        assert(refs@ =~= box_refs_of(datapoints@.take(i as int)));
    }
    assert(datapoints@.take(i as int) =~= datapoints@);
    refs
}

/// Checks operator consensus for a refresh at `height`. Succeeds with the
/// qualifying datapoints where they are at least as many as the settings ask
/// for, and fails naming exactly those datapoints otherwise.
pub fn check_consensus(
    parameters: &RefreshParameters,
    datapoints: &Vec<Datapoint>,
    epoch_start_height: u32,
    height: u32,
) -> (r: Result<Vec<Datapoint>, RefreshActionError>)
    ensures
        r is Ok <==> consensus_reached(parameters@, datapoints@, epoch_start_height, height),
        r matches Ok(found) ==> found@ == qualifying_datapoints(
            parameters@,
            datapoints@,
            epoch_start_height,
            height,
        ) && found@.len() > 0,
        r is Err ==> is_consensus_failure(
            r,
            parameters@.min_data_points,
            qualifying_datapoints(parameters@, datapoints@, epoch_start_height, height),
        ),
{
    let settings = parameters.settings();
    let fresh = collect_datapoints(datapoints, epoch_start_height, settings.epoch_length, height);
    let reference = compute_reference_value(settings.aggregation, &fresh);
    let found = datapoints_within_deviation(&fresh, settings.max_deviation, reference);
    if found.len() < settings.min_data_points as usize {
        let found_num = found.len() as u32;
        Err(
            RefreshActionError::FailedToReachConsensus {
                expected: settings.min_data_points,
                found_public_keys: public_keys(&found),
                found_num,
            },
        )
    } else {
        Ok(found)
    }
}

/// What `build_refresh_action` returns on the given inputs.
pub open spec fn is_refresh_outcome(
    r: Result<RefreshAction, RefreshActionError>,
    settings: RefreshSettings,
    pool_box: PoolBox,
    refresh_box: BoxRef,
    datapoints: Seq<Datapoint>,
    height: u32,
    change_address: Seq<char>,
) -> bool {
    let found = qualifying_datapoints(settings, datapoints, pool_box.epoch_start_height, height);
    if found.len() < settings.min_data_points {
        is_consensus_failure(r, settings.min_data_points, found)
    } else if pool_box.epoch_counter == u32::MAX {
        r matches Err(RefreshActionError::EpochCounterOverflow)
    } else {
        &&& r matches Ok(action)
        &&& action.pool_box_in == pool_box.box_ref
        &&& action.refresh_box_in == refresh_box
        &&& action.datapoint_inputs@ == box_refs_of(found)
        &&& action.new_pool_value == average_value(found)
        &&& action.new_epoch_counter == pool_box.epoch_counter + 1
        &&& action.new_epoch_start_height == height
        &&& action.change_address@ == change_address
    }
}

/// Builds the refresh at `height`: checks consensus, then spends the pool box,
/// the refresh box and the boxes of the agreeing datapoints for a pool box
/// that holds their average and starts the next epoch at `height`.
pub fn build_refresh_action(
    parameters: &RefreshParameters,
    pool_box: PoolBox,
    refresh_box: BoxRef,
    datapoints: &Vec<Datapoint>,
    height: u32,
    change_address: String,
) -> (r: Result<RefreshAction, RefreshActionError>)
    ensures
        is_refresh_outcome(
            r,
            parameters@,
            pool_box,
            refresh_box,
            datapoints@,
            height,
            change_address@,
        ),
        r is Ok && epoch_is_over(pool_box.epoch_start_height, parameters@.epoch_length, height)
            ==> r->Ok_0.new_epoch_start_height > pool_box.epoch_start_height,
{
    let settings = parameters.settings();
    let found = match check_consensus(parameters, datapoints, pool_box.epoch_start_height, height) {
        Ok(found) => found,
        Err(e) => {
            return Err(e);
        },
    };
    if pool_box.epoch_counter == u32::MAX {
        return Err(RefreshActionError::EpochCounterOverflow);
    }
    let new_pool_value = compute_reference_value(AggregationRule::Average, &found);
    Ok(
        RefreshAction {
            pool_box_in: pool_box.box_ref,
            refresh_box_in: refresh_box,
            datapoint_inputs: box_refs(&found),
            new_pool_value,
            new_epoch_counter: pool_box.epoch_counter + 1,
            new_epoch_start_height: height,
            change_address,
        },
    )
}

/// Where fewer datapoints qualify than the settings ask for, a refresh is no
/// aggregate but the consensus failure that names exactly the qualifying
/// datapoints: this holds of every result that `build_refresh_action` can
/// give.
pub proof fn lemma_no_refresh_without_consensus(
    r: Result<RefreshAction, RefreshActionError>,
    settings: RefreshSettings,
    pool_box: PoolBox,
    refresh_box: BoxRef,
    datapoints: Seq<Datapoint>,
    height: u32,
    change_address: Seq<char>,
)
    requires
        is_refresh_outcome(r, settings, pool_box, refresh_box, datapoints, height, change_address),
        !consensus_reached(settings, datapoints, pool_box.epoch_start_height, height),
    ensures
        r is Err,
        is_consensus_failure(
            r,
            settings.min_data_points,
            qualifying_datapoints(settings, datapoints, pool_box.epoch_start_height, height),
        ),
{
}

} // verus!
