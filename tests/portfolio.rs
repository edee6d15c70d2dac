use santral_core::hub::Event;
use santral_core::portfolio::{portfolio_snapshot, PlantStatus};
use santral_core::producer::{broadcast_event, scaled_reading, synthetic_reading, PlantInfo};
use santral_core::reconcile::Ratio;

fn status(plant: u128, capacity: i64, latest: Option<i64>) -> PlantStatus {
    PlantStatus { plant, name: format!("s{plant}"), capacity, latest_power: latest, latest_at: latest }
}

#[test]
fn snapshot_totals_and_utilization() {
    let snap = portfolio_snapshot(
        5,
        vec![status(1, 100_000, Some(50_000)), status(2, 60_000, None), status(3, 40_000, Some(30_000))],
    );
    assert_eq!(snap.tenant, 5);
    assert_eq!(snap.plants.len(), 3);
    assert_eq!(snap.total_power, 80_000);
    assert_eq!(snap.total_capacity, 200_000);
    assert_eq!(snap.utilization, Some(Ratio { num: 80_000, den: 200_000 }));
}

#[test]
fn empty_portfolio_has_no_utilization() {
    let snap = portfolio_snapshot(5, vec![]);
    assert_eq!(snap.total_power, 0);
    assert_eq!(snap.total_capacity, 0);
    assert_eq!(snap.utilization, None);
}

#[test]
fn readings_scale_the_capacity() {
    assert_eq!(scaled_reading(100_000, 800), 80_000);
    assert_eq!(scaled_reading(100_000, 999), 99_900);
    assert_eq!(scaled_reading(7, 500), 4);
    assert_eq!(scaled_reading(-7, 500), -3);
    assert_eq!(scaled_reading(1, 800), 1);
    assert_eq!(scaled_reading(100_001, 800), 80_001);
    for _ in 0..50 {
        assert_eq!(synthetic_reading(1), 1);
        let r = synthetic_reading(100_001);
        assert!(800 * 100_001 <= 1000 * r && r <= 100_001);
    }
    for _ in 0..200 {
        let r = synthetic_reading(100_000);
        assert!((80_000..100_000).contains(&r));
    }
}

#[test]
fn only_owned_plants_are_published() {
    let owned = PlantInfo { id: 3, name: "Kale".to_string(), tenant: Some(8), capacity: 10 };
    let free = PlantInfo { id: 4, name: "Tepe".to_string(), tenant: None, capacity: 10 };
    assert_eq!(
        broadcast_event(&owned, 9, 77),
        Some(Event { tenant: 8, plant: 3, plant_name: "Kale".to_string(), power: 9, at: 77 })
    );
    assert_eq!(broadcast_event(&free, 9, 77), None);
}
