//! Plan-versus-actual reconciliation on a grid of UTC hours.

use crate::calendar::{Day, DayRange, SECONDS_PER_HOUR};
use crate::plan::{PlanKey, PlanStore, HOURS_PER_DAY};
use vstd::prelude::*;

verus! {

/// Minutes that one telemetry sample stands for unless told otherwise.
pub const DEFAULT_SAMPLE_INTERVAL_MINUTES: u16 = 5;

/// Most samples one reconciliation reads, so that an hour's sum fits in `i128`.
pub const MAX_SAMPLES: usize = 0xffff_ffff;

/// Bound on the magnitude of any hour's actual energy (2^106 kWh).
pub const ENERGY_LIMIT: i128 = 0x400000000000000000000000000;

/// Longest span, in days, whose totals are kept exactly.
pub const MAX_SPAN_DAYS: i64 = 4096;

/// One power reading of a plant.
#[derive(Clone, Copy, Debug, PartialEq, Eq, Structural)]
pub struct Sample {
    /// Instant of the reading, in seconds since the Unix epoch.
    pub at: i64,
    /// Power, in kilowatts.
    pub power: i64,
}

/// An exact quotient `num / den`; `den` is positive.
#[derive(Clone, Copy, Debug, PartialEq, Eq, Structural)]
pub struct Ratio {
    pub num: i128,
    pub den: i128,
}

/// `s` falls in the hour that starts at `start`.
pub open spec fn in_hour(s: Sample, start: int) -> bool {
    start <= s.at && s.at < start + SECONDS_PER_HOUR
}

/// Number of samples of `ss` in the hour that starts at `start`.
pub open spec fn hour_count(ss: Seq<Sample>, start: int) -> nat
    decreases ss.len(),
{
    if ss.len() == 0 {
        0
    } else {
        hour_count(ss.drop_last(), start) + if in_hour(ss.last(), start) {
            1nat
        } else {
            0nat
        }
    }
}

/// Sum of `power * minutes` over the samples of `ss` in the hour that starts
/// at `start`.
pub open spec fn hour_energy(ss: Seq<Sample>, start: int, minutes: int) -> int
    decreases ss.len(),
{
    if ss.len() == 0 {
        0
    } else {
        hour_energy(ss.drop_last(), start, minutes) + if in_hour(ss.last(), start) {
            ss.last().power * minutes
        } else {
            0
        }
    }
}

/// Actual energy of the hour that starts at `start`, in kWh rounded down: each
/// sample counts as its power held for `minutes`; `None` when no sample falls in
/// the hour.
pub open spec fn hour_actual(ss: Seq<Sample>, start: int, minutes: int) -> Option<int> {
    if hour_count(ss, start) > 0 {
        Some(hour_energy(ss, start, minutes) / 60)
    } else {
        None
    }
}

/// `o` holds the integer that `v` holds, or both are empty.
pub open spec fn same_value(o: Option<i128>, v: Option<int>) -> bool {
    match v {
        None => o is None,
        Some(x) => o matches Some(y) && y == x,
    }
}

/// `x / d`, rounded down.
pub fn floor_div(x: i128, d: i128) -> (r: i128)
    requires
        d > 0,
    ensures
        r == x / d,
{
    if x >= 0 {
        x / d
    } else {
        let y: i128 = -(x + 1);
        let q: i128 = y / d;
        proof {
            let m = y % d;
            assert(y == d * q + m) by (nonlinear_arith)
                requires
                    d > 0,
                    q == y / d,
                    m == y % d,
            ;
            assert(0 <= m < d);
            assert(x == d * (-q - 1) + (d - 1 - m)) by (nonlinear_arith)
                requires
                    y == d * q + m,
                    y == -(x + 1),
            ;
            vstd::arithmetic::div_mod::lemma_fundamental_div_mod_converse(
                x as int,
                d as int,
                -q - 1,
                d - 1 - m,
            );
        }
        -q - 1
    }
}

/// Actual energy of the hour that starts at `hour_start`.
pub fn hour_actual_energy(samples: &Vec<Sample>, hour_start: i64, interval_minutes: u16) -> (r:
    Option<i128>)
    requires
        samples@.len() <= MAX_SAMPLES,
    ensures
        same_value(r, hour_actual(samples@, hour_start as int, interval_minutes as int)),
        r matches Some(a) ==> -ENERGY_LIMIT <= a <= ENERGY_LIMIT,
{
    let n = samples.len();
    let mut count: usize = 0;
    let mut sum: i128 = 0;
    let mut i: usize = 0;
    while i < n
        invariant
            n == samples@.len(),
            n <= MAX_SAMPLES,
            i <= n,
            count == hour_count(samples@.subrange(0, i as int), hour_start as int),
            sum == hour_energy(
                samples@.subrange(0, i as int),
                hour_start as int,
                interval_minutes as int,
            ),
            count <= i,
            -(i as int) * 0x8000_0000_0000_0000_0000 <= sum <= (i as int)
                * 0x8000_0000_0000_0000_0000,
        decreases n - i,
    {
        let s = samples[i];
        proof {
            let sub = samples@.subrange(0, i as int + 1);
            assert(sub.drop_last() == samples@.subrange(0, i as int));
            assert(sub.last() == s);
        }
        if hour_start <= s.at && (s.at as i128) < hour_start as i128 + SECONDS_PER_HOUR as i128 {
            assert(-0x8000_0000_0000_0000_0000 <= s.power * interval_minutes
                <= 0x8000_0000_0000_0000_0000) by (nonlinear_arith)
                requires
                    i64::MIN <= s.power <= i64::MAX,
                    0 <= interval_minutes <= 0xffff,
            ;
            let term: i128 = s.power as i128 * interval_minutes as i128;
            sum = sum + term;
            count = count + 1;
        }
        i = i + 1;
    }
    assert(samples@.subrange(0, n as int) == samples@);
    if count > 0 {
        let a = floor_div(sum, 60);
        Some(a)
    } else {
        None
    }
}

/// One hour of the reconciliation grid.
#[derive(Clone, Copy, Debug, PartialEq, Eq, Structural)]
pub struct Row {
    /// Hour of the UTC day, 0 to 23, taken from `hour_start`.
    pub hour_index: u32,
    /// First instant of the hour, in seconds since the Unix epoch.
    pub hour_start: i64,
    /// Planned energy, in kWh.
    pub plan: Option<i64>,
    /// Actual energy, in kWh.
    pub actual: Option<i128>,
    /// `actual - plan`, where both are known.
    pub deviation: Option<i128>,
    /// `(actual - plan) / plan`, where both are known and the plan is positive.
    pub deviation_ratio: Option<Ratio>,
}

/// The deviation and its ratio follow from the plan and the actual energy.
pub open spec fn row_consistent(r: Row) -> bool {
    &&& r.deviation is Some <==> (r.plan is Some && r.actual is Some)
    &&& r.deviation_ratio is Some <==> (r.plan matches Some(p) && p > 0 && r.actual is Some)
    &&& match (r.plan, r.actual) {
        (Some(p), Some(a)) => {
            &&& r.deviation == Some((a - p) as i128)
            &&& p > 0 ==> r.deviation_ratio == Some(Ratio { num: (a - p) as i128, den: p as i128 })
        },
        _ => true,
    }
}

/// Builds a row from its hour, plan and actual energy.
pub fn make_row(hour_index: u32, hour_start: i64, plan: Option<i64>, actual: Option<i128>) -> (r:
    Row)
    requires
        actual matches Some(a) ==> -ENERGY_LIMIT <= a <= ENERGY_LIMIT,
    ensures
        r.hour_index == hour_index,
        r.hour_start == hour_start,
        r.plan == plan,
        r.actual == actual,
        row_consistent(r),
{
    let (deviation, deviation_ratio) = match (plan, actual) {
        (Some(p), Some(a)) => {
            let d: i128 = a - p as i128;
            if p > 0 {
                (Some(d), Some(Ratio { num: d, den: p as i128 }))
            } else {
                (Some(d), None)
            }
        },
        _ => (None, None),
    };
    Row { hour_index, hour_start, plan, actual, deviation, deviation_ratio }
}

/// Planned energy of hour `h` of `day` for `plant`, if a plan is stored.
pub open spec fn planned(m: Map<PlanKey, Seq<i64>>, plant: u128, day: Day, h: int) -> Option<i64> {
    if m.contains_key((plant, day.n)) {
        Some(m[(plant, day.n)][h])
    } else {
        None
    }
}

/// `r` is hour `h` of `day`: its plan comes from `m` and its actual energy
/// from `ss`.
pub open spec fn row_of(
    r: Row,
    m: Map<PlanKey, Seq<i64>>,
    plant: u128,
    ss: Seq<Sample>,
    minutes: int,
    day: Day,
    h: int,
) -> bool {
    &&& r.hour_index == h
    &&& r.hour_start == day.hour_start_spec(h)
    &&& r.hour_index == (r.hour_start / SECONDS_PER_HOUR) % 24
    &&& r.plan == planned(m, plant, day, h)
    &&& same_value(r.actual, hour_actual(ss, day.hour_start_spec(h), minutes))
    &&& row_consistent(r)
}

/// `rows` is the grid of the 24 hours of `day`.
pub open spec fn day_grid(
    rows: Seq<Row>,
    m: Map<PlanKey, Seq<i64>>,
    plant: u128,
    ss: Seq<Sample>,
    minutes: int,
    day: Day,
) -> bool {
    &&& rows.len() == 24
    &&& forall|h: int| 0 <= h < 24 ==> row_of(#[trigger] rows[h], m, plant, ss, minutes, day, h)
    &&& energies_bounded(rows)
}

/// `rows` is the grid of every hour of `range`, day after day.
pub open spec fn range_grid(
    rows: Seq<Row>,
    m: Map<PlanKey, Seq<i64>>,
    plant: u128,
    ss: Seq<Sample>,
    minutes: int,
    range: DayRange,
) -> bool {
    &&& rows.len() == 24 * range.days_spec()
    &&& forall|j: int, h: int|
        0 <= j < range.days_spec() && 0 <= h < 24 ==> row_of(
            #[trigger] rows[24 * j + h],
            m,
            plant,
            ss,
            minutes,
            Day { n: (range.start.n + j) as i32 },
            h,
        )
    &&& energies_bounded(rows)
}

/// The hour of the UTC day of an hour's first instant is the hour itself.
pub proof fn lemma_hour_of_day(day: Day, h: int)
    requires
        0 <= h < 24,
    ensures
        (day.hour_start_spec(h) / (SECONDS_PER_HOUR as int)) % 24 == h,
{
    let k = 24 * (day.n - crate::calendar::UNIX_EPOCH_DAY) + h;
    assert(day.hour_start_spec(h) == 3600 * k + 0);
    vstd::arithmetic::div_mod::lemma_fundamental_div_mod_converse(day.hour_start_spec(h), 3600, k, 0);
    vstd::arithmetic::div_mod::lemma_fundamental_div_mod_converse(
        k,
        24,
        day.n - crate::calendar::UNIX_EPOCH_DAY,
        h,
    );
}

/// Appends the 24 rows of `day` to `rows`.
fn push_day_rows(
    rows: &mut Vec<Row>,
    plant: u128,
    day: Day,
    plans: &PlanStore,
    samples: &Vec<Sample>,
    interval_minutes: u16,
)
    requires
        plans.wf(),
        samples@.len() <= MAX_SAMPLES,
    ensures
        final(rows)@.len() == old(rows)@.len() + 24,
        forall|i: int| 0 <= i < old(rows)@.len() ==> final(rows)@[i] == old(rows)@[i],
        energies_bounded(old(rows)@) ==> energies_bounded(final(rows)@),
        forall|h: int|
            0 <= h < 24 ==> row_of(
                #[trigger] final(rows)@[old(rows)@.len() + h],
                plans@,
                plant,
                samples@,
                interval_minutes as int,
                day,
                h,
            ),
{
    let plan = plans.get(plant, day);
    let base = rows.len();
    let mut h: usize = 0;
    while h < HOURS_PER_DAY
        invariant
            h <= HOURS_PER_DAY,
            rows@.len() == base + h,
            base == old(rows)@.len(),
            samples@.len() <= MAX_SAMPLES,
            plans@.contains_key((plant, day.n)) <==> plan is Some,
            plan matches Some(p) ==> p.wf() && p.hourly@ == plans@[(plant, day.n)],
            forall|i: int| 0 <= i < old(rows)@.len() ==> rows@[i] == old(rows)@[i],
            energies_bounded(old(rows)@) ==> energies_bounded(rows@),
            forall|k: int|
                0 <= k < h ==> row_of(
                    #[trigger] rows@[base + k],
                    plans@,
                    plant,
                    samples@,
                    interval_minutes as int,
                    day,
                    k,
                ),
        decreases HOURS_PER_DAY - h,
    {
        let start = day.hour_start(h as i64);
        let p = match plan {
            Some(p) => Some(p.hour(h)),
            None => None,
        };
        let a = hour_actual_energy(samples, start, interval_minutes);
        let row = make_row(h as u32, start, p, a);
        proof {
            lemma_hour_of_day(day, h as int);
        }
        rows.push(row);
        h = h + 1;
    }
}

/// The 24 hourly rows of `day` for `plant`: the stored plan, the actual
/// energy of the samples that fall in each hour, and the deviations.
pub fn reconcile_day(
    plant: u128,
    day: Day,
    plans: &PlanStore,
    samples: &Vec<Sample>,
    interval_minutes: u16,
) -> (rows: Vec<Row>)
    requires
        plans.wf(),
        samples@.len() <= MAX_SAMPLES,
    ensures
        day_grid(rows@, plans@, plant, samples@, interval_minutes as int, day),
        rows@.len() == 24,
        forall|h: int| 0 <= h < 24 ==> (#[trigger] rows@[h]).hour_index == h,
        forall|h: int|
            0 <= h < 24 && (#[trigger] rows@[h]).plan == Some(0i64) ==> rows@[h].deviation_ratio
                is None,
{
    let mut rows: Vec<Row> = Vec::new();
    push_day_rows(&mut rows, plant, day, plans, samples, interval_minutes);
    assert forall|h: int| 0 <= h < 24 implies row_of(
        #[trigger] rows@[h],
        plans@,
        plant,
        samples@,
        interval_minutes as int,
        day,
        h,
    ) by {
        assert(rows@[0 + h] == rows@[h]);
    }
    rows
}

/// The hourly rows of every day of `range` for `plant`, day after day.
pub fn reconcile_range(
    plant: u128,
    range: DayRange,
    plans: &PlanStore,
    samples: &Vec<Sample>,
    interval_minutes: u16,
) -> (rows: Vec<Row>)
    requires
        plans.wf(),
        samples@.len() <= MAX_SAMPLES,
    ensures
        range_grid(rows@, plans@, plant, samples@, interval_minutes as int, range),
{
    let days = range.days();
    let mut rows: Vec<Row> = Vec::new();
    let mut j: i64 = 0;
    while j < days
        invariant
            days == range.days_spec(),
            0 <= j <= days,
            plans.wf(),
            samples@.len() <= MAX_SAMPLES,
            rows@.len() == 24 * j,
            energies_bounded(rows@),
            forall|jj: int, h: int|
                0 <= jj < j && 0 <= h < 24 ==> row_of(
                    #[trigger] rows@[24 * jj + h],
                    plans@,
                    plant,
                    samples@,
                    interval_minutes as int,
                    Day { n: (range.start.n + jj) as i32 },
                    h,
                ),
        decreases days - j,
    {
        let day = Day { n: (range.start.n as i64 + j) as i32 };
        let ghost before = rows@;
        push_day_rows(&mut rows, plant, day, plans, samples, interval_minutes);
        assert forall|jj: int, h: int|
            0 <= jj < j + 1 && 0 <= h < 24 implies row_of(
            #[trigger] rows@[24 * jj + h],
            plans@,
            plant,
            samples@,
            interval_minutes as int,
            Day { n: (range.start.n + jj) as i32 },
            h,
        ) by {
            if jj < j {
                assert(rows@[24 * jj + h] == before[24 * jj + h]);
            } else {
                assert(24 * jj + h == before.len() + h);
            }
        }
        j = j + 1;
    }
    rows
}

/// Sum of the planned energy of the rows that have a plan.
pub open spec fn plan_total(rows: Seq<Row>) -> int
    decreases rows.len(),
{
    if rows.len() == 0 {
        0
    } else {
        plan_total(rows.drop_last()) + match rows.last().plan {
            Some(p) => p as int,
            None => 0,
        }
    }
}

/// Sum of the actual energy of the rows that have one.
pub open spec fn actual_total(rows: Seq<Row>) -> int
    decreases rows.len(),
{
    if rows.len() == 0 {
        0
    } else {
        actual_total(rows.drop_last()) + match rows.last().actual {
            Some(a) => a as int,
            None => 0,
        }
    }
}

/// Some row has a plan.
pub open spec fn any_plan(rows: Seq<Row>) -> bool {
    exists|i: int| 0 <= i < rows.len() && (#[trigger] rows[i]).plan is Some
}

/// Some row has an actual energy.
pub open spec fn any_actual(rows: Seq<Row>) -> bool {
    exists|i: int| 0 <= i < rows.len() && (#[trigger] rows[i]).actual is Some
}

/// The row takes part in the error rate: a positive plan and a known actual.
pub open spec fn comparable(r: Row) -> bool {
    r.plan matches Some(p) && p > 0 && r.actual is Some
}

/// Sum of `|plan - actual|` over the comparable rows.
pub open spec fn error_total(rows: Seq<Row>) -> int
    decreases rows.len(),
{
    if rows.len() == 0 {
        0
    } else {
        error_total(rows.drop_last()) + match (rows.last().plan, rows.last().actual) {
            (Some(p), Some(a)) => if p > 0 {
                if p >= a {
                    p - a
                } else {
                    a - p
                }
            } else {
                0
            },
            _ => 0,
        }
    }
}

/// Sum of the plans of the comparable rows.
pub open spec fn error_base(rows: Seq<Row>) -> int
    decreases rows.len(),
{
    if rows.len() == 0 {
        0
    } else {
        error_base(rows.drop_last()) + if comparable(rows.last()) {
            rows.last().plan->Some_0 as int
        } else {
            0
        }
    }
}

/// Totals over a grid of rows.
#[derive(Clone, Copy, Debug, PartialEq, Eq, Structural)]
pub struct Summary {
    /// Sum of the plans, if any hour has one.
    pub total_plan: Option<i128>,
    /// Sum of the actual energies, if any hour has one.
    pub total_actual: Option<i128>,
    /// `total_actual - total_plan`, if both are known.
    pub total_deviation: Option<i128>,
    /// `Σ|plan - actual| / Σplan` over the hours with a positive plan and a
    /// known actual, if there is any.
    pub mape: Option<Ratio>,
}

/// What the totals of `rows` are.
pub open spec fn summary_of(rows: Seq<Row>) -> Summary {
    Summary {
        total_plan: if any_plan(rows) {
            Some(plan_total(rows) as i128)
        } else {
            None
        },
        total_actual: if any_actual(rows) {
            Some(actual_total(rows) as i128)
        } else {
            None
        },
        total_deviation: if any_plan(rows) && any_actual(rows) {
            Some((actual_total(rows) - plan_total(rows)) as i128)
        } else {
            None
        },
        mape: if error_base(rows) > 0 {
            Some(Ratio { num: error_total(rows) as i128, den: error_base(rows) as i128 })
        } else {
            None
        },
    }
}

/// Most rows that `summarize` takes.
pub const MAX_SUMMARY_ROWS: usize = 98304;

/// The actual energy of every row stays within `ENERGY_LIMIT`.
pub open spec fn energies_bounded(rows: Seq<Row>) -> bool {
    forall|i: int|
        0 <= i < rows.len() ==> ((#[trigger] rows[i]).actual matches Some(a) ==> -ENERGY_LIMIT
            <= a <= ENERGY_LIMIT)
}

/// Totals of a grid: plan, actual, deviation and the approximate error rate.
pub fn summarize(rows: &Vec<Row>) -> (r: Summary)
    requires
        rows@.len() <= MAX_SUMMARY_ROWS,
        energies_bounded(rows@),
    ensures
        r == summary_of(rows@),
        r.total_plan is Some <==> any_plan(rows@),
        r.total_actual is Some <==> any_actual(rows@),
        r.total_deviation is Some <==> any_plan(rows@) && any_actual(rows@),
        r.mape is Some <==> error_base(rows@) > 0,
        r.total_plan matches Some(p) ==> p == plan_total(rows@),
        r.total_actual matches Some(a) ==> a == actual_total(rows@),
        r.total_deviation matches Some(d) ==> d == actual_total(rows@) - plan_total(rows@),
        r.mape matches Some(q) ==> q.num == error_total(rows@) && q.den == error_base(rows@)
            && q.den > 0,
{
    let n = rows.len();
    let mut plan_sum: i128 = 0;
    let mut actual_sum: i128 = 0;
    let mut err_sum: i128 = 0;
    let mut err_base: i128 = 0;
    let mut has_plan = false;
    let mut has_actual = false;
    let mut i: usize = 0;
    while i < n
        invariant
            n == rows@.len(),
            n <= MAX_SUMMARY_ROWS,
            i <= n,
            energies_bounded(rows@),
            plan_sum == plan_total(rows@.subrange(0, i as int)),
            actual_sum == actual_total(rows@.subrange(0, i as int)),
            err_sum == error_total(rows@.subrange(0, i as int)),
            err_base == error_base(rows@.subrange(0, i as int)),
            has_plan == any_plan(rows@.subrange(0, i as int)),
            has_actual == any_actual(rows@.subrange(0, i as int)),
            -(i as int) * 0x8000_0000_0000_0000 <= plan_sum <= (i as int) * 0x8000_0000_0000_0000,
            -(i as int) * ENERGY_LIMIT <= actual_sum <= (i as int) * ENERGY_LIMIT,
            0 <= err_sum <= (i as int) * 0x800000000000000000000000000,
            0 <= err_base <= (i as int) * 0x8000_0000_0000_0000,
        decreases n - i,
    {
        let r = rows[i];
        let ghost prev = rows@.subrange(0, i as int);
        let ghost next = rows@.subrange(0, i as int + 1);
        proof {
            assert(next.drop_last() == prev);
            assert(next.last() == r);
            assert(has_plan || r.plan is Some ==> any_plan(next)) by {
                if r.plan is Some {
                    assert(next[i as int] == r);
                } else if has_plan {
                    let k = choose|k: int| 0 <= k < prev.len() && (#[trigger] prev[k]).plan is Some;
                    assert(next[k] == prev[k]);
                }
            }
            assert(any_plan(next) ==> has_plan || r.plan is Some) by {
                if any_plan(next) && r.plan is None {
                    let k = choose|k: int| 0 <= k < next.len() && (#[trigger] next[k]).plan is Some;
                    assert(k < i);
                    assert(prev[k] == next[k]);
                }
            }
            assert(has_actual || r.actual is Some ==> any_actual(next)) by {
                if r.actual is Some {
                    assert(next[i as int] == r);
                } else if has_actual {
                    let k = choose|k: int|
                        0 <= k < prev.len() && (#[trigger] prev[k]).actual is Some;
                    assert(next[k] == prev[k]);
                }
            }
            assert(any_actual(next) ==> has_actual || r.actual is Some) by {
                if any_actual(next) && r.actual is None {
                    let k = choose|k: int|
                        0 <= k < next.len() && (#[trigger] next[k]).actual is Some;
                    assert(k < i);
                    assert(prev[k] == next[k]);
                }
            }
            assert(rows@[i as int] == r);
        }
        if let Some(p) = r.plan {
            plan_sum = plan_sum + p as i128;
            has_plan = true;
        }
        if let Some(a) = r.actual {
            actual_sum = actual_sum + a;
            has_actual = true;
        }
        if let (Some(p), Some(a)) = (r.plan, r.actual) {
            if p > 0 {
                let d: i128 = if (p as i128) >= a {
                    p as i128 - a
                } else {
                    a - p as i128
                };
                err_sum = err_sum + d;
                err_base = err_base + p as i128;
            }
        }
        i = i + 1;
    }
    assert(rows@.subrange(0, n as int) == rows@);
    let total_plan = if has_plan {
        Some(plan_sum)
    } else {
        None
    };
    let total_actual = if has_actual {
        Some(actual_sum)
    } else {
        None
    };
    let total_deviation = if has_plan && has_actual {
        Some(actual_sum - plan_sum)
    } else {
        None
    };
    let mape = if err_base > 0 {
        Some(Ratio { num: err_sum, den: err_base })
    } else {
        None
    };
    Summary { total_plan, total_actual, total_deviation, mape }
}

/// The reconciliation of one plant and day: the hourly grid and its totals.
#[derive(Clone, Debug)]
pub struct DayReport {
    pub plant: u128,
    pub day: Day,
    pub rows: Vec<Row>,
    pub summary: Summary,
}

/// The reconciliation of one plant over a range of days.
#[derive(Clone, Debug)]
pub struct RangeReport {
    pub plant: u128,
    pub range: DayRange,
    pub rows: Vec<Row>,
    pub summary: Summary,
}

/// Reconciles `plant` on `day` and totals the grid.
pub fn day_report(
    plant: u128,
    day: Day,
    plans: &PlanStore,
    samples: &Vec<Sample>,
    interval_minutes: u16,
) -> (r: DayReport)
    requires
        plans.wf(),
        samples@.len() <= MAX_SAMPLES,
    ensures
        r.plant == plant,
        r.day == day,
        day_grid(r.rows@, plans@, plant, samples@, interval_minutes as int, day),
        r.summary == summary_of(r.rows@),
{
    let rows = reconcile_day(plant, day, plans, samples, interval_minutes);
    let summary = summarize(&rows);
    DayReport { plant, day, rows, summary }
}

/// Reconciles `plant` over `range` and totals the grid.
pub fn range_report(
    plant: u128,
    range: DayRange,
    plans: &PlanStore,
    samples: &Vec<Sample>,
    interval_minutes: u16,
) -> (r: RangeReport)
    requires
        plans.wf(),
        samples@.len() <= MAX_SAMPLES,
        range.days_spec() <= MAX_SPAN_DAYS,
    ensures
        r.plant == plant,
        r.range == range,
        range_grid(r.rows@, plans@, plant, samples@, interval_minutes as int, range),
        r.summary == summary_of(r.rows@),
{
    let rows = reconcile_range(plant, range, plans, samples, interval_minutes);
    let summary = summarize(&rows);
    RangeReport { plant, range, rows, summary }
}

} // verus!
