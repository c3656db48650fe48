//! Enemies: short-lived opponents built from a name for one encounter.

use vstd::prelude::*;
use crate::combat::{Attacker, Combatant, Defender};
use crate::dice::roll;
use crate::item::{slot_view, Item, ItemView, Weapon, WeaponView};
use crate::stats::Stats;

verus! {

/// The health an enemy has before its attributes are set.
pub const BASE_HEALTH: i32 = 100;

/// An opponent in a battle.
#[derive(Debug)]
pub struct Enemy {
    pub name: String,
    pub stats: Stats,
    pub health: i32,
    pub weapon: Option<Weapon>,
}

/// The mathematical content of an [`Enemy`].
pub struct EnemyView {
    pub name: Seq<char>,
    pub stats: Stats,
    pub health: int,
    pub weapon: Option<WeaponView>,
}

/// The defense a name gives: half the number of its characters, rounded
/// down, as a 32-bit integer.
pub open spec fn name_defense(name: Seq<char>) -> i32 {
    (name.len() / 2) as i32
}

/// The defense of a name is exactly half the number of its characters,
/// rounded down, for every name whose half fits the type of a defense. It is
/// then not negative.
pub proof fn lemma_name_defense_is_half(name: Seq<char>)
    requires
        name.len() / 2 <= i32::MAX,
    ensures
        name_defense(name) == name.len() / 2,
        name_defense(name) >= 0,
{
}

impl View for Enemy {
    type V = EnemyView;

    open spec fn view(&self) -> EnemyView {
        EnemyView {
            name: self.name@,
            stats: self.stats,
            health: self.health as int,
            weapon: slot_view(self.weapon),
        }
    }
}

impl EnemyView {
    /// An enemy as first built from its name: no attributes, no weapon, and
    /// the base health.
    pub open spec fn fresh(name: Seq<char>) -> EnemyView {
        EnemyView {
            name,
            stats: Stats { physique: 0, technique: 0, mystique: 0 },
            health: BASE_HEALTH as int,
            weapon: None,
        }
    }

    /// The strike of an enemy is its physique. A weapon it carries does not
    /// change it.
    pub open spec fn damage(self) -> int {
        self.stats.physique as int
    }

    /// The defense of an enemy comes from its name, not from its attributes:
    /// it is half the number of characters of the name.
    pub open spec fn defense(self) -> int {
        name_defense(self.name) as int
    }
}

impl Enemy {
    /// An enemy of that name, as the catalogue lists it: the attributes and
    /// the weapon come later.
    pub fn new(name: &str) -> (enemy: Self)
        ensures
            enemy@ == EnemyView::fresh(name@),
    {
        Enemy { name: name.to_owned(), stats: Stats::default(), health: BASE_HEALTH, weapon: None }
    }

    /// An enemy of the same name with the attributes given, at full health
    /// for them, and unarmed.
    pub fn with_stats(&self, p: i32, t: i32, m: i32) -> (enemy: Self)
        requires
            i32::MIN <= (Stats { physique: p, technique: t, mystique: m }).spec_max_health()
                <= i32::MAX,
        ensures
            enemy@ == (EnemyView {
                name: self@.name,
                stats: Stats { physique: p, technique: t, mystique: m },
                health: (Stats { physique: p, technique: t, mystique: m }).spec_max_health(),
                weapon: None,
            }),
    {
        let stats = Stats { physique: p, technique: t, mystique: m };
        Enemy { name: self.name.clone(), stats, health: stats.max_health(), weapon: None }
    }

    /// An enemy with the same name, attributes and health, carrying the
    /// weapon described. The scale factors and the weight are in thousandths.
    pub fn with_weapon(&self, weapon: &str, p: i32, t: i32, m: i32, weight: i32, value: i32) -> (enemy:
        Self)
        ensures
            enemy@ == (EnemyView {
                weapon: Some(
                    WeaponView {
                        item: ItemView { name: weapon@, weight: weight as int, value: value as int },
                        physique_scale: p as int,
                        technique_scale: t as int,
                        mystique_scale: m as int,
                    },
                ),
                ..self@
            }),
    {
        Enemy {
            name: self.name.clone(),
            stats: self.stats,
            health: self.health,
            weapon: Some(
                Weapon {
                    item: Item::new(weapon, weight, value),
                    physique_scale: p,
                    technique_scale: t,
                    mystique_scale: m,
                },
            ),
        }
    }

    /// Hands out the enemy that stands at `index` in `enemies`.
    pub fn pick(enemies: Vec<Enemy>, index: usize) -> (enemy: Self)
        requires
            index < enemies.len(),
        ensures
            enemy == enemies[index as int],
    {
        let mut enemies = enemies;
        enemies.remove(index)
    }

    /// Picks one of `enemies` by chance and hands it out. There must be one
    /// to pick.
    pub fn random(enemies: Vec<Enemy>) -> (enemy: Self)
        requires
            enemies.len() > 0,
        ensures
            exists|i: int| 0 <= i < enemies.len() && enemy == enemies[i],
    {
        let index = roll(0, enemies.len());
        Enemy::pick(enemies, index)
    }
}

impl Default for Enemy {
    fn default() -> (enemy: Self)
        ensures
            enemy@ == (EnemyView {
                name: Seq::empty(),
                stats: Stats { physique: 0, technique: 0, mystique: 0 },
                health: 0,
                weapon: None,
            }),
    {
        Enemy { name: String::new(), stats: Stats::default(), health: 0, weapon: None }
    }
}

impl Combatant for Enemy {
    open spec fn spec_stats(&self) -> Stats {
        self.stats
    }

    open spec fn spec_name(&self) -> Seq<char> {
        self.name@
    }

    fn get_stats(&self) -> (stats: Stats) {
        self.stats
    }

    fn name(&self) -> (name: &str) {
        self.name.as_str()
    }
}

impl Attacker for Enemy {
    open spec fn spec_damage(&self) -> i32 {
        self.stats.physique
    }

    fn damage(&self) -> (damage: i32)
        ensures
            damage == self@.damage(),
    {
        let stats = self.get_stats();
        stats.physique
    }
}

impl Defender for Enemy {
    open spec fn spec_defense(&self) -> i32 {
        name_defense(self.name@)
    }

    open spec fn spec_health(&self) -> i32 {
        self.health
    }

    open spec fn spec_struck(&self, damage: int) -> Enemy {
        Enemy { health: (self.health - damage) as i32, ..*self }
    }

    fn defense(&self) -> (defense: i32)
        ensures
            defense == self@.defense(),
    {
        #[verifier::truncate]
        ((self.name.as_str().unicode_len() / 2) as i32)
    }

    fn take_damage(&mut self, damage: i32)
        ensures
            final(self)@ == (EnemyView { health: old(self)@.health - damage, ..old(self)@ }),
    {
        self.health -= damage;
    }
}

} // verus!
