//! The three primary attributes and the resource maxima derived from them.

use vstd::prelude::*;

verus! {

/// The primary attributes of a combatant.
///
/// The derived maxima are never stored: they are computed from the current
/// attributes each time they are asked for.
#[derive(Clone, Copy, Debug, PartialEq, Eq, PartialOrd, Ord, Structural)]
pub struct Stats {
    pub physique: i32,
    pub technique: i32,
    pub mystique: i32,
}

impl Stats {
    /// No attribute is negative.
    pub open spec fn valid(&self) -> bool {
        &&& self.physique >= 0
        &&& self.technique >= 0
        &&& self.mystique >= 0
    }

    /// `5·physique + 3·technique + 4·mystique + 20`.
    pub open spec fn spec_max_health(&self) -> int {
        5 * self.physique + 3 * self.technique + 4 * self.mystique + 20
    }

    /// `4·physique + 5·technique + 3·mystique + 20`.
    pub open spec fn spec_max_stamina(&self) -> int {
        4 * self.physique + 5 * self.technique + 3 * self.mystique + 20
    }

    /// `3·physique + 4·technique + 5·mystique + 20`.
    pub open spec fn spec_max_mana(&self) -> int {
        3 * self.physique + 4 * self.technique + 5 * self.mystique + 20
    }

    /// `10 + 5·physique`.
    pub open spec fn spec_carry_capacity(&self) -> int {
        10 + 5 * self.physique
    }

    /// The three resource maxima and the carry capacity all fit the type
    /// they are returned in.
    pub open spec fn derived_in_range(&self) -> bool {
        &&& i32::MIN <= self.spec_max_health() <= i32::MAX
        &&& i32::MIN <= self.spec_max_stamina() <= i32::MAX
        &&& i32::MIN <= self.spec_max_mana() <= i32::MAX
        &&& i32::MIN <= self.spec_carry_capacity() <= i32::MAX
    }

    /// The attributes after one more point has gone where `selection` says:
    /// to physique for the first option, to technique for the second, and to
    /// mystique for any other.
    pub open spec fn spec_raised(self, selection: int) -> Stats {
        if selection == 0 {
            Stats { physique: (self.physique + 1) as i32, ..self }
        } else if selection == 1 {
            Stats { technique: (self.technique + 1) as i32, ..self }
        } else {
            Stats { mystique: (self.mystique + 1) as i32, ..self }
        }
    }

    /// The sum of the three attributes.
    pub open spec fn total(self) -> int {
        self.physique + self.technique + self.mystique
    }

    /// The attributes given, as they are.
    pub fn new(physique: i32, technique: i32, mystique: i32) -> (stats: Self)
        ensures
            stats == (Stats { physique, technique, mystique }),
    {
        Stats { physique, technique, mystique }
    }

    /// Spends one point of the creation budget on the attribute selected.
    pub fn raised(self, selection: i32) -> (stats: Self)
        requires
            selection == 0 ==> self.physique < i32::MAX,
            selection == 1 ==> self.technique < i32::MAX,
            selection != 0 && selection != 1 ==> self.mystique < i32::MAX,
        ensures
            stats == self.spec_raised(selection as int),
            stats.total() == self.total() + 1,
            self.valid() ==> stats.valid(),
    {
        let mut stats = self;
        if selection == 0 {
            stats.physique += 1;
        } else if selection == 1 {
            stats.technique += 1;
        } else {
            stats.mystique += 1;
        }
        stats
    }

    /// Whether the derived values of these attributes can all be computed:
    /// whether each fits the type it is returned in.
    pub fn in_range(&self) -> (fits: bool)
        ensures
            fits == self.derived_in_range(),
    {
        let p = self.physique as i64;
        let t = self.technique as i64;
        let m = self.mystique as i64;
        let low = i32::MIN as i64;
        let high = i32::MAX as i64;
        let health = 5 * p + 3 * t + 4 * m + 20;
        let stamina = 4 * p + 5 * t + 3 * m + 20;
        let mana = 3 * p + 4 * t + 5 * m + 20;
        let capacity = 10 + 5 * p;
        low <= health && health <= high && low <= stamina && stamina <= high && low <= mana
            && mana <= high && low <= capacity && capacity <= high
    }

    /// The most health these attributes allow. The result must fit its type.
    pub fn max_health(&self) -> (health: i32)
        requires
            i32::MIN <= self.spec_max_health() <= i32::MAX,
        ensures
            health == self.spec_max_health(),
    {
        let total: i64 = 5 * (self.physique as i64) + 3 * (self.technique as i64) + 4 * (
        self.mystique as i64) + 20;
        total as i32
    }

    /// The most stamina these attributes allow. The result must fit its type.
    pub fn max_stamina(&self) -> (stamina: i32)
        requires
            i32::MIN <= self.spec_max_stamina() <= i32::MAX,
        ensures
            stamina == self.spec_max_stamina(),
    {
        let total: i64 = 4 * (self.physique as i64) + 5 * (self.technique as i64) + 3 * (
        self.mystique as i64) + 20;
        total as i32
    }

    /// The most mana these attributes allow. The result must fit its type.
    pub fn max_mana(&self) -> (mana: i32)
        requires
            i32::MIN <= self.spec_max_mana() <= i32::MAX,
        ensures
            mana == self.spec_max_mana(),
    {
        let total: i64 = 3 * (self.physique as i64) + 4 * (self.technique as i64) + 5 * (
        self.mystique as i64) + 20;
        total as i32
    }

    /// The weight these attributes can carry. The result must fit its type.
    pub fn carry_capacity(&self) -> (capacity: i32)
        requires
            i32::MIN <= self.spec_carry_capacity() <= i32::MAX,
        ensures
            capacity == self.spec_carry_capacity(),
    {
        let total: i64 = 10 + 5 * (self.physique as i64);
        total as i32
    }
}

/// With no attribute below zero, no derived value is below its base: twenty
/// for health, stamina and mana, and ten for the carry capacity. Only their
/// upper ends can then leave the range of the type they are returned in.
pub proof fn lemma_valid_stats_reach_their_base(stats: Stats)
    requires
        stats.valid(),
    ensures
        stats.spec_max_health() >= 20,
        stats.spec_max_stamina() >= 20,
        stats.spec_max_mana() >= 20,
        stats.spec_carry_capacity() >= 10,
{
}

/// The attributes after a point has gone to each of `selections` in turn.
pub open spec fn allocated(stats: Stats, selections: Seq<i32>) -> Stats
    decreases selections.len(),
{
    if selections.len() == 0 {
        stats
    } else {
        allocated(stats, selections.drop_last()).spec_raised(selections.last() as int)
    }
}

/// Spending points only raises attributes: none falls, and together they
/// rise by exactly the number of points spent, as long as none leaves the
/// range of its type.
pub proof fn lemma_allocated_total(stats: Stats, selections: Seq<i32>)
    requires
        stats.physique + selections.len() <= i32::MAX,
        stats.technique + selections.len() <= i32::MAX,
        stats.mystique + selections.len() <= i32::MAX,
    ensures
        stats.valid() ==> allocated(stats, selections).valid(),
        allocated(stats, selections).total() == stats.total() + selections.len(),
        stats.physique <= allocated(stats, selections).physique <= stats.physique
            + selections.len(),
        stats.technique <= allocated(stats, selections).technique <= stats.technique
            + selections.len(),
        stats.mystique <= allocated(stats, selections).mystique <= stats.mystique
            + selections.len(),
    decreases selections.len(),
{
    if selections.len() > 0 {
        lemma_allocated_total(stats, selections.drop_last());
    }
}

impl Default for Stats {
    fn default() -> (stats: Self)
        ensures
            stats == (Stats { physique: 0, technique: 0, mystique: 0 }),
            stats.valid(),
    {
        Stats { physique: 0, technique: 0, mystique: 0 }
    }
}

} // verus!
