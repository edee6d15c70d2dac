//! The periodic portfolio snapshot pushed to a session: each plant's latest
//! power and the tenant's totals.

use crate::reconcile::Ratio;
use vstd::prelude::*;

verus! {

/// A plant of the tenant with its latest reading, if any.
#[derive(Clone, Debug)]
pub struct PlantStatus {
    pub plant: u128,
    pub name: String,
    /// Installed capacity, in kilowatts.
    pub capacity: i64,
    /// Latest power, in kilowatts.
    pub latest_power: Option<i64>,
    /// Instant of the latest reading, in seconds since the Unix epoch.
    pub latest_at: Option<i64>,
}

/// The snapshot of a tenant's portfolio.
#[derive(Clone, Debug)]
pub struct Snapshot {
    pub tenant: u128,
    pub plants: Vec<PlantStatus>,
    /// Sum of the latest powers; a plant without a reading counts as 0.
    pub total_power: i128,
    /// Sum of the installed capacities.
    pub total_capacity: i128,
    /// `total_power / total_capacity`, when the capacity is positive.
    pub utilization: Option<Ratio>,
}

/// Sum of the latest powers of `ps`.
pub open spec fn power_total(ps: Seq<PlantStatus>) -> int
    decreases ps.len(),
{
    if ps.len() == 0 {
        0
    } else {
        power_total(ps.drop_last()) + match ps.last().latest_power {
            Some(p) => p as int,
            None => 0,
        }
    }
}

/// Sum of the installed capacities of `ps`.
pub open spec fn capacity_total(ps: Seq<PlantStatus>) -> int
    decreases ps.len(),
{
    if ps.len() == 0 {
        0
    } else {
        capacity_total(ps.drop_last()) + ps.last().capacity
    }
}

/// Builds the snapshot of `tenant` from the status of each of its plants.
pub fn portfolio_snapshot(tenant: u128, plants: Vec<PlantStatus>) -> (r: Snapshot)
    ensures
        r.tenant == tenant,
        r.plants@ == plants@,
        r.total_power == power_total(plants@),
        r.total_capacity == capacity_total(plants@),
        r.utilization == (if capacity_total(plants@) > 0 {
            Some(Ratio { num: power_total(plants@) as i128, den: capacity_total(plants@) as i128 })
        } else {
            None
        }),
{
    let n = plants.len();
    let mut power: i128 = 0;
    let mut capacity: i128 = 0;
    let mut i: usize = 0;
    while i < n
        invariant
            n == plants@.len(),
            n <= usize::MAX,
            i <= n,
            power == power_total(plants@.subrange(0, i as int)),
            capacity == capacity_total(plants@.subrange(0, i as int)),
            -(i as int) * 0x8000_0000_0000_0000 <= power <= (i as int) * 0x8000_0000_0000_0000,
            -(i as int) * 0x8000_0000_0000_0000 <= capacity <= (i as int) * 0x8000_0000_0000_0000,
        decreases n - i,
    {
        let ghost prev = plants@.subrange(0, i as int);
        proof {
            assert(plants@.subrange(0, i as int + 1).drop_last() == prev);
        }
        if let Some(p) = plants[i].latest_power {
            power = power + p as i128;
        }
        capacity = capacity + plants[i].capacity as i128;
        i = i + 1;
    }
    assert(plants@.subrange(0, n as int) == plants@);
    let utilization = if capacity > 0 {
        Some(Ratio { num: power, den: capacity })
    } else {
        None
    };
    Snapshot { tenant, plants, total_power: power, total_capacity: capacity, utilization }
}

} // verus!
