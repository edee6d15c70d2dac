use santral_core::calendar::Day;
use santral_core::plan::{Plan, PlanError, PlanStore};

#[test]
fn upsert_then_get_returns_the_written_plan() {
    let mut store = PlanStore::new();
    let day = Day { n: 739433 };
    let plan = Plan::new(7, day, vec![10_000; 24]).unwrap();
    store.upsert(plan);
    assert_eq!(store.get_values(7, day), Some(vec![10_000; 24]));
    assert_eq!(store.get_values(7, Day { n: 739434 }), None);
    assert_eq!(store.get_values(8, day), None);
}

#[test]
fn last_write_wins() {
    let mut store = PlanStore::new();
    let day = Day { n: 739433 };
    store.upsert(Plan::new(7, day, vec![1; 24]).unwrap());
    store.upsert(Plan::new(7, Day { n: 739434 }, vec![3; 24]).unwrap());
    let mut second: Vec<i64> = (0..24).collect();
    second[5] = -4;
    store.upsert(Plan::new(7, day, second.clone()).unwrap());
    assert_eq!(store.get_values(7, day), Some(second));
    assert_eq!(store.get_values(7, Day { n: 739434 }), Some(vec![3; 24]));
    assert_eq!(store.get(7, day).unwrap().hour(5), -4);
}

#[test]
fn plan_needs_exactly_24_entries() {
    let day = Day { n: 1 };
    assert_eq!(Plan::new(1, day, vec![0; 23]).unwrap_err(), PlanError::WrongLength);
    assert_eq!(Plan::new(1, day, vec![0; 25]).unwrap_err(), PlanError::WrongLength);
    assert_eq!(Plan::new(1, day, vec![]).unwrap_err(), PlanError::WrongLength);
    assert!(Plan::new(1, day, vec![0; 24]).is_ok());
}
