//! Building enemies and weapons from the rows of the content catalogue.
//!
//! The catalogue itself is kept by the caller, who reads its tables and hands
//! the rows over as plain values.

use vstd::prelude::*;
use crate::enemy::{Enemy, EnemyView};
use crate::item::{saturated, Item, ItemView, Weapon, WeaponView, UNIT};

verus! {

/// One row of the table of weapons.
#[derive(Debug)]
pub struct WeaponRow {
    pub name: String,
    /// In whole units of weight.
    pub weight: i64,
    pub value: i64,
    /// Damage per point of physique, in thousandths.
    pub physique_scale: i32,
    /// Damage per point of technique, in thousandths.
    pub technique_scale: i32,
    /// Damage per point of mystique, in thousandths.
    pub mystique_scale: i32,
}

/// The weapon a row describes. The weight is brought to thousandths and held
/// to what its field can take; of the value the low 32 bits are kept.
pub open spec fn weapon_of(row: WeaponRow) -> WeaponView {
    WeaponView {
        item: ItemView {
            name: row.name@,
            weight: saturated(row.weight * UNIT),
            value: (row.value as i32) as int,
        },
        physique_scale: row.physique_scale as int,
        technique_scale: row.technique_scale as int,
        mystique_scale: row.mystique_scale as int,
    }
}

/// The enemies of the catalogue, one for each name in the table of enemies
/// and in its order, each as [`Enemy::new`] builds it.
pub fn enemies_from_db(names: &Vec<String>) -> (enemies: Vec<Enemy>)
    ensures
        enemies.len() == names.len(),
        forall|i: int| 0 <= i < names.len() ==> (#[trigger] enemies[i])@ == EnemyView::fresh(names[i]@),
{
    let mut enemies: Vec<Enemy> = Vec::new();
    let mut i: usize = 0;
    while i < names.len()
        invariant
            i <= names.len(),
            enemies.len() == i,
            forall|j: int| 0 <= j < i ==> (#[trigger] enemies[j])@ == EnemyView::fresh(names[j]@),
        decreases names.len() - i,
    {
        enemies.push(Enemy::new(names[i].as_str()));
        i += 1;
    }
    enemies
}

/// The weapons of the catalogue, one for each row of the table of weapons and
/// in its order.
pub fn weapons_from_db(rows: &Vec<WeaponRow>) -> (weapons: Vec<Weapon>)
    ensures
        weapons.len() == rows.len(),
        forall|i: int| 0 <= i < rows.len() ==> (#[trigger] weapons[i])@ == weapon_of(rows[i]),
{
    let mut weapons: Vec<Weapon> = Vec::new();
    let mut i: usize = 0;
    while i < rows.len()
        invariant
            i <= rows.len(),
            weapons.len() == i,
            forall|j: int| 0 <= j < i ==> (#[trigger] weapons[j])@ == weapon_of(rows[j]),
        decreases rows.len() - i,
    {
        let row = &rows[i];
        let thousandths: i128 = 1000 * (row.weight as i128);
        let weight: i32 = if thousandths > i32::MAX as i128 {
            i32::MAX
        } else if thousandths < i32::MIN as i128 {
            i32::MIN
        } else {
            thousandths as i32
        };
        let value = #[verifier::truncate]
        (row.value as i32);
        weapons.push(
            Weapon {
                item: Item::new(row.name.as_str(), weight, value),
                physique_scale: row.physique_scale,
                technique_scale: row.technique_scale,
                mystique_scale: row.mystique_scale,
            },
        );
        i += 1;
    }
    weapons
}

} // verus!
