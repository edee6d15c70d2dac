use santral_core::calendar::{Day, DayRange};
use santral_core::plan::{Plan, PlanStore};
use santral_core::reconcile::{
    day_report, floor_div, hour_actual_energy, make_row, range_report, reconcile_day,
    reconcile_range, summarize, Ratio, Row, Sample, DEFAULT_SAMPLE_INTERVAL_MINUTES,
};

const DAY: Day = Day { n: 739433 };
const T0: i64 = 1751328000;

fn store_with(plant: u128, day: Day, values: Vec<i64>) -> PlanStore {
    let mut s = PlanStore::new();
    s.upsert(Plan::new(plant, day, values).unwrap());
    s
}

#[test]
fn day_grid_has_24_ordered_rows_without_data() {
    let rows = reconcile_day(1, DAY, &PlanStore::new(), &vec![], 5);
    assert_eq!(rows.len(), 24);
    for (h, r) in rows.iter().enumerate() {
        assert_eq!(r.hour_index, h as u32);
        assert_eq!(r.hour_start, T0 + 3600 * h as i64);
        assert_eq!(r.plan, None);
        assert_eq!(r.actual, None);
        assert_eq!(r.deviation, None);
        assert_eq!(r.deviation_ratio, None);
    }
}

#[test]
fn twelve_five_minute_samples_of_fifty_make_fifty() {
    let samples: Vec<Sample> =
        (0..12).map(|k| Sample { at: T0 + 3 * 3600 + 300 * k, power: 50 }).collect();
    assert_eq!(hour_actual_energy(&samples, T0 + 3 * 3600, DEFAULT_SAMPLE_INTERVAL_MINUTES), Some(50));
    let rows = reconcile_day(1, DAY, &PlanStore::new(), &samples, 5);
    assert_eq!(rows[3].actual, Some(50));
    assert_eq!(rows[2].actual, None);
    assert_eq!(rows[4].actual, None);
}

#[test]
fn samples_are_bucketed_half_open() {
    let samples = vec![
        Sample { at: T0 - 1, power: 600 },
        Sample { at: T0, power: 600 },
        Sample { at: T0 + 3599, power: 600 },
        Sample { at: T0 + 3600, power: 1200 },
    ];
    let rows = reconcile_day(1, DAY, &PlanStore::new(), &samples, 5);
    assert_eq!(rows[0].actual, Some(100));
    assert_eq!(rows[1].actual, Some(100));
}

#[test]
fn actual_energy_rounds_down() {
    let samples = vec![Sample { at: T0, power: 7 }];
    assert_eq!(hour_actual_energy(&samples, T0, 5), Some(0));
    let negative = vec![Sample { at: T0, power: -7 }];
    assert_eq!(hour_actual_energy(&negative, T0, 5), Some(-1));
    assert_eq!(floor_div(-35, 60), -1);
    assert_eq!(floor_div(-60, 60), -1);
    assert_eq!(floor_div(59, 60), 0);
    assert_eq!(floor_div(-1, 1000), -1);
}

#[test]
fn zero_plan_has_no_ratio() {
    let mut values = vec![100; 24];
    values[0] = 0;
    let plans = store_with(1, DAY, values);
    let samples = vec![Sample { at: T0, power: 1200 }, Sample { at: T0 + 3600, power: 1200 }];
    let rows = reconcile_day(1, DAY, &plans, &samples, 5);
    assert_eq!(rows[0].plan, Some(0));
    assert_eq!(rows[0].actual, Some(100));
    assert_eq!(rows[0].deviation, Some(100));
    assert_eq!(rows[0].deviation_ratio, None);
    assert_eq!(rows[1].deviation, Some(0));
    assert_eq!(rows[1].deviation_ratio, Some(Ratio { num: 0, den: 100 }));
    assert_eq!(rows[2].plan, Some(100));
    assert_eq!(rows[2].deviation, None);
}

#[test]
fn make_row_derives_deviation() {
    let r = make_row(4, 99, Some(200), Some(150));
    assert_eq!(
        r,
        Row {
            hour_index: 4,
            hour_start: 99,
            plan: Some(200),
            actual: Some(150),
            deviation: Some(-50),
            deviation_ratio: Some(Ratio { num: -50, den: 200 }),
        }
    );
    let negative_plan = make_row(0, 0, Some(-10), Some(5));
    assert_eq!(negative_plan.deviation, Some(15));
    assert_eq!(negative_plan.deviation_ratio, None);
    assert_eq!(make_row(0, 0, None, Some(5)).deviation, None);
}

#[test]
fn plan_of_another_plant_is_not_used() {
    let plans = store_with(2, DAY, vec![10_000; 24]);
    let rows = reconcile_day(1, DAY, &plans, &vec![], 5);
    assert!(rows.iter().all(|r| r.plan.is_none()));
}

#[test]
fn day_summary_totals_and_error_rate() {
    let mut values = vec![0; 24];
    values[0] = 100;
    values[1] = 200;
    values[2] = 50;
    let plans = store_with(1, DAY, values);
    let samples = vec![
        Sample { at: T0, power: 1440 },
        Sample { at: T0 + 3600, power: 1800 },
        Sample { at: T0 + 5 * 3600, power: 600 },
    ];
    let report = day_report(1, DAY, &plans, &samples, 5);
    assert_eq!(report.rows.len(), 24);
    assert_eq!(report.summary.total_plan, Some(350));
    assert_eq!(report.summary.total_actual, Some(120 + 150 + 50));
    assert_eq!(report.summary.total_deviation, Some(320 - 350));
    assert_eq!(report.summary.mape, Some(Ratio { num: 20 + 50, den: 300 }));
}

#[test]
fn summary_of_empty_grid_is_empty() {
    let s = summarize(&vec![]);
    assert_eq!(s.total_plan, None);
    assert_eq!(s.total_actual, None);
    assert_eq!(s.total_deviation, None);
    assert_eq!(s.mape, None);
    let only_actual = summarize(&vec![make_row(0, 0, None, Some(9))]);
    assert_eq!(only_actual.total_actual, Some(9));
    assert_eq!(only_actual.total_plan, None);
    assert_eq!(only_actual.total_deviation, None);
    assert_eq!(only_actual.mape, None);
}

#[test]
fn range_grid_spans_each_day() {
    let mut plans = store_with(1, DAY, vec![10; 24]);
    plans.upsert(Plan::new(1, Day { n: DAY.n + 1 }, vec![20; 24]).unwrap());
    let samples = vec![Sample { at: T0 + 86400 + 7200, power: 1200 }];
    let range = DayRange { start: DAY, end: Day { n: DAY.n + 2 } };
    let rows = reconcile_range(1, range, &plans, &samples, 5);
    assert_eq!(rows.len(), 48);
    assert_eq!(rows[0].plan, Some(10));
    assert_eq!(rows[24].plan, Some(20));
    assert_eq!(rows[24].hour_index, 0);
    assert_eq!(rows[26].hour_index, 2);
    assert_eq!(rows[26].hour_start, T0 + 86400 + 7200);
    assert_eq!(rows[26].actual, Some(100));
    assert_eq!(rows[26].deviation, Some(80));
    let report = range_report(1, range, &plans, &samples, 5);
    assert_eq!(report.summary.total_plan, Some(24 * 10 + 24 * 20));
    assert_eq!(report.summary.total_actual, Some(100));
    assert_eq!(report.summary.mape, Some(Ratio { num: 80, den: 20 }));
}

#[test]
fn empty_range_has_no_rows() {
    let range = DayRange { start: DAY, end: DAY };
    assert!(reconcile_range(1, range, &PlanStore::new(), &vec![], 5).is_empty());
}
