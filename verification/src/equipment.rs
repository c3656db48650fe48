//! Changing the equipped weapon.

use vstd::prelude::*;
use crate::item::{Contents, ContentsView, Weapon};
use crate::player::{Player, PlayerView};

verus! {

impl PlayerView {
    /// The inventory holds a weapon under the selection `index`.
    pub open spec fn holds_weapon_at(self, index: int) -> bool {
        &&& 0 <= index < self.inventory.len()
        &&& self.inventory[index] is Weapon
    }

    /// The player after swapping the equipped weapon for the one carried at
    /// `index`: that weapon leaves the inventory and is equipped with its
    /// scale factors reset to one, and the weapon that was equipped goes to
    /// the end of the inventory as it is.
    pub open spec fn equip(self, index: int) -> PlayerView
        recommends
            self.holds_weapon_at(index),
            self.equipped is Some,
    {
        PlayerView {
            inventory: self.inventory.remove(index).push(
                ContentsView::Weapon(self.equipped->Some_0),
            ),
            equipped: Some(self.inventory[index]->Weapon_0.normalized()),
            ..self
        }
    }
}

impl Player {
    /// The weapon carried under `selection`: there is none where the
    /// selection names no entry, or an entry that is no weapon.
    pub fn weapon_at(&self, selection: i32) -> (found: Option<&Weapon>)
        ensures
            found is Some <==> self@.holds_weapon_at(selection as int),
            found matches Some(weapon) ==> self.inventory[selection as int] == Contents::Weapon(
                *weapon,
            ),
    {
        if selection < 0 {
            return None;
        }
        let index = selection as usize;
        if index >= self.inventory.len() {
            return None;
        }
        match &self.inventory[index] {
            Contents::Weapon(weapon) => Some(weapon),
            Contents::Item(_) => None,
        }
    }
}

/// Equips the weapon carried under `selection`, if there is one.
///
/// A selection that names no entry, or an entry that is no weapon, changes
/// nothing. Otherwise the weapons are swapped as [`PlayerView::equip`] says:
/// one entry leaves the inventory and one joins it, so its length stays.
pub fn select_equipped(player: &mut Player, selection: i32) -> (swapped: bool)
    requires
        old(player)@.holds_weapon_at(selection as int) ==> old(player).equipped is Some,
    ensures
        swapped == old(player)@.holds_weapon_at(selection as int),
        swapped ==> final(player)@ == old(player)@.equip(selection as int),
        swapped ==> final(player)@.equipped is Some,
        swapped ==> final(player)@.inventory.len() == old(player)@.inventory.len(),
        !swapped ==> final(player)@ == old(player)@,
{
    if player.weapon_at(selection).is_none() {
        return false;
    }
    if let Contents::Weapon(chosen) = player.inventory.remove(selection as usize) {
        let weapon = Weapon::unit_scaled(chosen.item);
        let previous = player.equipped.take().unwrap();
        player.inventory.push(Contents::Weapon(previous));
        player.equipped = Some(weapon);
    }
    assert(player@.inventory =~= old(player)@.equip(selection as int).inventory);
    true
}

/// Equipping a carried weapon and then the one that was put away for it
/// brings the first weapon back, but for its scale factors, which are now
/// one. The weapon equipped in between is carried at the end of the
/// inventory, its scale factors one as well, and nothing else has changed.
pub proof fn lemma_equip_round_trip(player: PlayerView, index: int)
    requires
        player.holds_weapon_at(index),
        player.equipped is Some,
    ensures
        player.equip(index).holds_weapon_at(player.inventory.len() - 1),
        player.equip(index).equip(player.inventory.len() - 1) == (PlayerView {
            inventory: player.inventory.remove(index).push(
                ContentsView::Weapon(player.inventory[index]->Weapon_0.normalized()),
            ),
            equipped: Some(player.equipped->Some_0.normalized()),
            ..player
        }),
        player.equipped->Some_0.normalized() == player.equipped->Some_0 ==> player.equip(
            index,
        ).equip(player.inventory.len() - 1).equipped == player.equipped,
{
    let last = player.inventory.len() - 1;
    let once = player.equip(index);
    let twice = once.equip(last);
    assert(once.inventory.len() == player.inventory.len());
    assert(once.inventory[last] == ContentsView::Weapon(player.equipped->Some_0));
    assert(twice.inventory =~= player.inventory.remove(index).push(
        ContentsView::Weapon(player.inventory[index]->Weapon_0.normalized()),
    ));
}

} // verus!
