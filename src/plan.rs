//! Hourly generation plans and the store that keeps the latest plan of each
//! plant and day.

use crate::calendar::Day;
use vstd::prelude::*;

verus! {

/// Entries of a day's plan, one per hour.
pub const HOURS_PER_DAY: usize = 24;

/// Key of a plan: the plant and the day number.
pub type PlanKey = (u128, i32);

/// A plant's committed generation for one day, in kilowatt-hours per hour.
#[derive(Clone, Debug)]
pub struct Plan {
    pub plant: u128,
    pub day: Day,
    pub hourly: Vec<i64>,
}

/// Why a plan was refused.
#[derive(Clone, Copy, Debug, PartialEq, Eq, Structural)]
pub enum PlanError {
    /// The plan does not hold exactly one entry per hour of the day.
    WrongLength,
}

impl Plan {
    /// A plan holds exactly one entry per hour.
    pub open spec fn wf(&self) -> bool {
        self.hourly@.len() == HOURS_PER_DAY
    }

    pub open spec fn key(&self) -> PlanKey {
        (self.plant, self.day.n)
    }

    /// Builds the plan of `plant` for `day`, refusing any array that is not
    /// exactly 24 entries long.
    pub fn new(plant: u128, day: Day, hourly: Vec<i64>) -> (r: Result<Plan, PlanError>)
        ensures
            hourly@.len() == HOURS_PER_DAY <==> r is Ok,
            r matches Ok(p) ==> p.wf() && p.plant == plant && p.day == day && p.hourly@
                == hourly@,
            r matches Err(e) ==> e == PlanError::WrongLength,
    {
        if hourly.len() == HOURS_PER_DAY {
            Ok(Plan { plant, day, hourly })
        } else {
            Err(PlanError::WrongLength)
        }
    }

    /// The planned energy of hour `h`.
    pub fn hour(&self, h: usize) -> (r: i64)
        requires
            self.wf(),
            h < HOURS_PER_DAY,
        ensures
            r == self.hourly@[h as int],
    {
        self.hourly[h]
    }
}

/// The plans in `s`, later entries overriding earlier ones of the same key.
pub open spec fn plans_map(s: Seq<Plan>) -> Map<PlanKey, Seq<i64>>
    decreases s.len(),
{
    if s.len() == 0 {
        Map::empty()
    } else {
        plans_map(s.drop_last()).insert(s.last().key(), s.last().hourly@)
    }
}

/// No two plans in `s` share a key.
pub open spec fn keys_unique(s: Seq<Plan>) -> bool {
    forall|i: int, j: int| 0 <= i < s.len() && 0 <= j < s.len() && i != j ==> s[i].key() != s[j].key()
}

proof fn lemma_plans_map_lookup(s: Seq<Plan>, i: int)
    requires
        keys_unique(s),
        0 <= i < s.len(),
    ensures
        plans_map(s).contains_key(s[i].key()),
        plans_map(s)[s[i].key()] == s[i].hourly@,
    decreases s.len(),
{
    if i < s.len() - 1 {
        let t = s.drop_last();
        assert(keys_unique(t));
        assert(t[i] == s[i]);
        lemma_plans_map_lookup(t, i);
        assert(s.last().key() != s[i].key());
    }
}

proof fn lemma_plans_map_absent(s: Seq<Plan>, k: PlanKey)
    requires
        forall|i: int| 0 <= i < s.len() ==> s[i].key() != k,
    ensures
        !plans_map(s).contains_key(k),
    decreases s.len(),
{
    if s.len() > 0 {
        let t = s.drop_last();
        assert forall|i: int| 0 <= i < t.len() implies t[i].key() != k by {
            assert(t[i] == s[i]);
        }
        lemma_plans_map_absent(t, k);
    }
}

proof fn lemma_plans_map_update(s: Seq<Plan>, i: int, p: Plan)
    requires
        keys_unique(s),
        0 <= i < s.len(),
        s[i].key() == p.key(),
    ensures
        plans_map(s.update(i, p)) == plans_map(s).insert(p.key(), p.hourly@),
        keys_unique(s.update(i, p)),
    decreases s.len(),
{
    let u = s.update(i, p);
    if i == s.len() - 1 {
        assert(u.drop_last() == s.drop_last());
        assert(plans_map(u) =~= plans_map(s).insert(p.key(), p.hourly@));
    } else {
        let t = s.drop_last();
        assert(keys_unique(t));
        assert(u.drop_last() == t.update(i, p));
        lemma_plans_map_update(t, i, p);
        assert(s.last().key() != p.key());
        assert(plans_map(u) =~= plans_map(s).insert(p.key(), p.hourly@));
    }
}

/// The latest plan of each plant and day.
#[derive(Clone, Debug)]
pub struct PlanStore {
    plans: Vec<Plan>,
}

impl View for PlanStore {
    type V = Map<PlanKey, Seq<i64>>;

    closed spec fn view(&self) -> Map<PlanKey, Seq<i64>> {
        plans_map(self.plans@)
    }
}

impl PlanStore {
    /// Every stored plan has 24 entries and no key is stored twice.
    pub closed spec fn wf(&self) -> bool {
        &&& keys_unique(self.plans@)
        &&& forall|i: int| 0 <= i < self.plans@.len() ==> (#[trigger] self.plans@[i]).wf()
    }

    pub fn new() -> (r: PlanStore)
        ensures
            r.wf(),
            r@ == Map::<PlanKey, Seq<i64>>::empty(),
    {
        PlanStore { plans: Vec::new() }
    }

    /// Stores `plan`, replacing whole any plan of the same plant and day.
    pub fn upsert(&mut self, plan: Plan)
        requires
            old(self).wf(),
            plan.wf(),
        ensures
            final(self).wf(),
            final(self)@ == old(self)@.insert(plan.key(), plan.hourly@),
    {
        let n = self.plans.len();
        let mut i: usize = 0;
        while i < n
            invariant
                n == self.plans@.len(),
                i <= n,
                self.wf(),
                plan.wf(),
                self@ == old(self)@,
                forall|j: int| 0 <= j < i ==> self.plans@[j].key() != plan.key(),
            decreases n - i,
        {
            if self.plans[i].plant == plan.plant && self.plans[i].day.n == plan.day.n {
                proof {
                    lemma_plans_map_update(self.plans@, i as int, plan);
                }
                let ghost before = self.plans@;
                self.plans.set(i, plan);
                assert(self.plans@ == before.update(i as int, plan));
                assert forall|j: int| 0 <= j < self.plans@.len() implies (
                #[trigger] self.plans@[j]).wf() by {
                    if j != i {
                        assert(self.plans@[j] == before[j]);
                    }
                }
                return;
            }
            i = i + 1;
        }
        let ghost before = self.plans@;
        proof {
            lemma_plans_map_absent(before, plan.key());
        }
        self.plans.push(plan);
        assert(self.plans@.drop_last() == before);
        assert forall|a: int, b: int|
            0 <= a < self.plans@.len() && 0 <= b < self.plans@.len() && a != b implies
            self.plans@[a].key() != self.plans@[b].key() by {
            if a < before.len() && b < before.len() {
                assert(self.plans@[a] == before[a]);
                assert(self.plans@[b] == before[b]);
            }
        }
        assert forall|j: int| 0 <= j < self.plans@.len() implies (
        #[trigger] self.plans@[j]).wf() by {
            if j < before.len() {
                assert(self.plans@[j] == before[j]);
            }
        }
    }

    /// The stored plan of `plant` for `day`.
    pub fn get(&self, plant: u128, day: Day) -> (r: Option<&Plan>)
        requires
            self.wf(),
        ensures
            self@.contains_key((plant, day.n)) <==> r is Some,
            r matches Some(p) ==> p.wf() && p.plant == plant && p.day == day && p.hourly@
                == self@[(plant, day.n)],
    {
        let n = self.plans.len();
        let mut i: usize = 0;
        while i < n
            invariant
                n == self.plans@.len(),
                i <= n,
                self.wf(),
                forall|j: int| 0 <= j < i ==> self.plans@[j].key() != (plant, day.n),
            decreases n - i,
        {
            if self.plans[i].plant == plant && self.plans[i].day.n == day.n {
                proof {
                    lemma_plans_map_lookup(self.plans@, i as int);
                    assert(self.plans@[i as int].wf());
                }
                return Some(&self.plans[i]);
            }
            i = i + 1;
        }
        proof {
            lemma_plans_map_absent(self.plans@, (plant, day.n));
        }
        None
    }

    /// The stored hourly values of `plant` for `day`.
    pub fn get_values(&self, plant: u128, day: Day) -> (r: Option<Vec<i64>>)
        requires
            self.wf(),
        ensures
            r matches Some(v) ==> self@.contains_key((plant, day.n)) && v@ == self@[(
            plant,
            day.n,
            )],
            r is None ==> !self@.contains_key((plant, day.n)),
    {
        match self.get(plant, day) {
            Some(p) => Some(p.hourly.clone()),
            None => None,
        }
    }
}

/// A plan stored and read back at once comes back exactly as written: the
/// last write for a plant and day wins.
pub proof fn law_upsert_then_get(m: Map<PlanKey, Seq<i64>>, plan: Plan)
    requires
        plan.wf(),
    ensures
        m.insert(plan.key(), plan.hourly@).contains_key(plan.key()),
        m.insert(plan.key(), plan.hourly@)[plan.key()] == plan.hourly@,
{
}

/// Of two writes for the same plant and day only the later one is kept.
pub proof fn law_last_write_wins(m: Map<PlanKey, Seq<i64>>, first: Plan, second: Plan)
    requires
        first.wf(),
        second.wf(),
        first.key() == second.key(),
    ensures
        m.insert(first.key(), first.hourly@).insert(second.key(), second.hourly@) == m.insert(
            second.key(),
            second.hourly@,
        ),
{
    assert(m.insert(first.key(), first.hourly@).insert(second.key(), second.hourly@) =~= m.insert(
        second.key(),
        second.hourly@,
    ));
}

} // verus!
