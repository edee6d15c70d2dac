//! The sample producer's decisions: a synthetic reading bounded by a plant's
//! capacity, and the event that publishing a stored reading takes.

use crate::hub::Event;
use crate::reconcile::floor_div;
use rand::Rng;
use vstd::prelude::*;

verus! {

/// Least share of capacity, in thousandths, that a synthetic reading takes.
pub const READING_MIN_PERMILLE: u32 = 800;

/// Share of capacity, in thousandths, that a synthetic reading stays below.
pub const READING_END_PERMILLE: u32 = 1000;

/// A plant as the producer sees it.
#[derive(Clone, Debug)]
pub struct PlantInfo {
    pub id: u128,
    pub name: String,
    /// Owning tenant; an unassigned plant has none.
    pub tenant: Option<u128>,
    /// Installed capacity, in kilowatts.
    pub capacity: i64,
}

/// Relies on rand's `thread_rng` and `Rng::gen_range`, which returns a value of
/// `lo..hi` and panics on an empty range.
#[verifier::external_body]
fn draw_between(lo: u32, hi: u32) -> (r: u32)
    requires
        lo < hi,
    ensures
        lo <= r < hi,
{
    rand::thread_rng().gen_range(lo..hi)
}

/// `x / d` rounded up.
pub open spec fn ceil_div(x: int, d: int) -> int {
    -((-x) / d)
}

/// `permille` thousandths of `capacity`, rounded up to a whole kilowatt.
pub fn scaled_reading(capacity: i64, permille: u32) -> (r: i64)
    requires
        permille <= 1000,
    ensures
        r == ceil_div(capacity * permille, 1000),
        capacity * permille <= 1000 * r < capacity * permille + 1000,
{
    assert(-0x8000_0000_0000_0000_0000 <= capacity * permille <= 0x8000_0000_0000_0000_0000) by (
    nonlinear_arith)
        requires
            permille <= 1000,
            0 <= permille,
            i64::MIN <= capacity <= i64::MAX,
    ;
    let x: i128 = capacity as i128 * permille as i128;
    let q = floor_div(-x, 1000);
    proof {
        let m = (-x) % 1000;
        vstd::arithmetic::div_mod::lemma_fundamental_div_mod(-x as int, 1000);
        assert(-x == 1000 * q + m);
        assert(0 <= m < 1000);
        assert(x <= 1000 * (-q) < x + 1000);
        assert(i64::MIN <= -q <= i64::MAX) by (nonlinear_arith)
            requires
                x <= 1000 * (-q) < x + 1000,
                x == capacity * permille,
                permille <= 1000,
                0 <= permille,
                i64::MIN <= capacity <= i64::MAX,
        ;
    }
    (-q) as i64
}

/// A synthetic reading for a plant of `capacity`: a random share of it
/// between 80% and 100%, rounded up to a whole kilowatt.
pub fn synthetic_reading(capacity: i64) -> (r: i64)
    ensures
        exists|p: int|
            READING_MIN_PERMILLE <= p < READING_END_PERMILLE && r == ceil_div(
                #[trigger] (capacity * p),
                1000,
            ),
        capacity >= 0 ==> 800 * capacity <= 1000 * r && r <= capacity,
{
    let p = draw_between(READING_MIN_PERMILLE, READING_END_PERMILLE);
    let r = scaled_reading(capacity, p);
    assert(r == ceil_div(capacity * (p as int), 1000));
    proof {
        if capacity >= 0 {
            assert(800 * capacity <= capacity * p) by (nonlinear_arith)
                requires
                    capacity >= 0,
                    800 <= p,
            ;
            assert(capacity * p <= 999 * capacity) by (nonlinear_arith)
                requires
                    capacity >= 0,
                    p <= 999,
            ;
        }
    }
    r
}

/// The event that publishes a stored reading: only a plant with an owning
/// tenant is published.
pub fn broadcast_event(plant: &PlantInfo, power: i64, at: i64) -> (r: Option<Event>)
    ensures
        plant.tenant is Some <==> r is Some,
        r matches Some(e) ==> {
            &&& Some(e.tenant) == plant.tenant
            &&& e.plant == plant.id
            &&& e.plant_name@ == plant.name@
            &&& e.power == power
            &&& e.at == at
        },
{
    match plant.tenant {
        Some(t) => Some(
            Event {
                tenant: t,
                plant: plant.id,
                plant_name: plant.name.clone(),
                power,
                at,
            },
        ),
        None => None,
    }
}

} // verus!
