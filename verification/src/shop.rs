//! Buying and selling weapons.

use vstd::prelude::*;
use crate::item::{Contents, ContentsView, Weapon, WeaponView};
use crate::player::{Player, PlayerView};

verus! {

/// What the player came to the shop for.
#[derive(Clone, Copy, Debug, PartialEq, Eq, Structural)]
pub enum Counter {
    Buy,
    Sell,
    Leave,
}

/// How an attempt to buy ended.
#[derive(Clone, Copy, Debug, PartialEq, Eq, Structural)]
pub enum Purchase {
    /// The weapon was paid for and is in the inventory.
    Bought,
    /// The player cannot pay the price. Nothing has changed.
    InsufficientFunds,
    /// The selection names no weapon on offer. Nothing has changed.
    NothingSelected,
}

/// The weapons on offer include one under the selection `index`.
pub open spec fn on_offer(weapons: Seq<Weapon>, index: int) -> bool {
    0 <= index < weapons.len()
}

impl PlayerView {
    /// The player has the price of `weapon`.
    pub open spec fn can_afford(self, weapon: WeaponView) -> bool {
        self.money >= weapon.item.value
    }

    /// The player after paying for `weapon`: the price is gone from the
    /// money and the weapon is the last entry of the inventory.
    pub open spec fn bought(self, weapon: WeaponView) -> PlayerView {
        PlayerView {
            money: self.money - weapon.item.value,
            inventory: self.inventory.push(ContentsView::Weapon(weapon)),
            ..self
        }
    }

    /// The player after selling the weapon carried at `index`: its value is
    /// added to the money and the entry is gone, the others in their order.
    pub open spec fn sold(self, index: int) -> PlayerView
        recommends
            self.holds_weapon_at(index),
    {
        PlayerView {
            money: self.money + self.inventory[index]->Weapon_0.item.value,
            inventory: self.inventory.remove(index),
            ..self
        }
    }
}

/// What the player does at the counter: the first selection is to buy, the
/// second to sell, and anything else is to leave.
pub fn shop(selection: i32) -> (counter: Counter)
    ensures
        counter == (if selection == 0 {
            Counter::Buy
        } else if selection == 1 {
            Counter::Sell
        } else {
            Counter::Leave
        }),
{
    if selection == 0 {
        Counter::Buy
    } else if selection == 1 {
        Counter::Sell
    } else {
        Counter::Leave
    }
}

/// The weapon offered under `selection`, if the selection names one.
pub fn offer(weapons: &Vec<Weapon>, selection: i32) -> (found: Option<&Weapon>)
    ensures
        found is Some <==> on_offer(weapons@, selection as int),
        found matches Some(weapon) ==> *weapon == weapons[selection as int],
{
    if selection < 0 {
        return None;
    }
    let index = selection as usize;
    if index >= weapons.len() {
        return None;
    }
    Some(&weapons[index])
}

/// Buys the weapon offered under `selection`.
///
/// A player who has the price pays it and gets a copy of the weapon at the
/// end of the inventory. A player who has not is turned away, and keeps both
/// money and inventory as they were.
///
/// There must be something on offer: a shop whose catalogue holds no weapon
/// cannot open, and it is for the caller to say so and stop before it asks
/// the player anything.
pub fn buy(player: &mut Player, weapons: &Vec<Weapon>, selection: i32) -> (purchase: Purchase)
    requires
        weapons@.len() > 0,
        on_offer(weapons@, selection as int) && old(player)@.can_afford(weapons[selection as int]@)
            ==> old(player).money - weapons[selection as int].item.value <= i32::MAX,
    ensures
        purchase == (if !on_offer(weapons@, selection as int) {
            Purchase::NothingSelected
        } else if old(player)@.can_afford(weapons[selection as int]@) {
            Purchase::Bought
        } else {
            Purchase::InsufficientFunds
        }),
        purchase == Purchase::Bought ==> final(player)@ == old(player)@.bought(
            weapons[selection as int]@,
        ),
        purchase != Purchase::Bought ==> final(player)@ == old(player)@,
{
    let weapon = match offer(weapons, selection) {
        Some(weapon) => weapon,
        None => {
            return Purchase::NothingSelected;
        },
    };
    if player.money >= weapon.item.value {
        player.money -= weapon.item.value;
        player.inventory.push(Contents::Weapon(weapon.clone()));
        assert(player@.inventory =~= old(player)@.bought(weapon@).inventory);
        Purchase::Bought
    } else {
        Purchase::InsufficientFunds
    }
}

/// Sells the weapon carried under `selection`.
///
/// Only weapons can be sold. A selection that names no entry, or an entry
/// that is no weapon, changes nothing.
pub fn sell(player: &mut Player, selection: i32) -> (sold: bool)
    requires
        old(player)@.holds_weapon_at(selection as int) ==> i32::MIN <= old(player)@.sold(
            selection as int,
        ).money <= i32::MAX,
    ensures
        sold == old(player)@.holds_weapon_at(selection as int),
        sold ==> final(player)@ == old(player)@.sold(selection as int),
        !sold ==> final(player)@ == old(player)@,
{
    let price = match player.weapon_at(selection) {
        Some(weapon) => weapon.item.value,
        None => {
            return false;
        },
    };
    player.money += price;
    player.inventory.remove(selection as usize);
    assert(player@.inventory =~= old(player)@.sold(selection as int).inventory);
    true
}

} // verus!
