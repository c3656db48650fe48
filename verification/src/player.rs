//! The player: attributes, resources, money, inventory, the equipped weapon
//! and the story flags.

use vstd::prelude::*;
use crate::combat::{Attacker, Combatant, Defender};
use crate::item::{
    inventory_view, slot_view, Contents, ContentsView, Item, Weapon, WeaponView, UNIT,
};
use crate::stats::Stats;
use crate::triggers::{flags, names_distinct};

verus! {

/// The money a new player starts with.
pub const STARTING_MONEY: i32 = 100;

/// The names in their order, a comma and a space between each two.
pub open spec fn listed(names: Seq<Seq<char>>) -> Seq<char>
    decreases names.len(),
{
    if names.len() == 0 {
        Seq::empty()
    } else if names.len() == 1 {
        names[0]
    } else {
        listed(names.drop_last()) + ", "@ + names.last()
    }
}

/// The hero of the game.
#[derive(Debug)]
pub struct Player {
    pub name: String,
    pub location: String,
    pub quest: String,
    pub stats: Stats,
    pub health: i32,
    pub stamina: i32,
    pub mana: i32,
    pub money: i32,
    /// In the order in which the entries were added.
    pub inventory: Vec<Contents>,
    pub equipped: Option<Weapon>,
    /// One-shot story flags by name. See [`flags`] for what a list records.
    /// The functions of this library add no name twice.
    pub triggers: Vec<(String, bool)>,
}

/// The mathematical content of a [`Player`].
pub struct PlayerView {
    pub name: Seq<char>,
    pub location: Seq<char>,
    pub quest: Seq<char>,
    pub stats: Stats,
    pub health: int,
    pub stamina: int,
    pub mana: int,
    pub money: int,
    pub inventory: Seq<ContentsView>,
    pub equipped: Option<WeaponView>,
    pub triggers: Map<Seq<char>, bool>,
}

impl View for Player {
    type V = PlayerView;

    open spec fn view(&self) -> PlayerView {
        PlayerView {
            name: self.name@,
            location: self.location@,
            quest: self.quest@,
            stats: self.stats,
            health: self.health as int,
            stamina: self.stamina as int,
            mana: self.mana as int,
            money: self.money as int,
            inventory: inventory_view(self.inventory@),
            equipped: slot_view(self.equipped),
            triggers: flags(self.triggers@),
        }
    }
}

impl PlayerView {
    /// A player as first created: every resource at its maximum, the
    /// starting money, bare hands, nothing carried, nowhere yet, and no story
    /// behind them.
    pub open spec fn fresh(name: Seq<char>, stats: Stats) -> PlayerView {
        PlayerView {
            name,
            location: "None"@,
            quest: "None"@,
            stats,
            health: stats.spec_max_health(),
            stamina: stats.spec_max_stamina(),
            mana: stats.spec_max_mana(),
            money: STARTING_MONEY as int,
            inventory: Seq::empty(),
            equipped: Some(WeaponView::hands()),
            triggers: Map::empty(),
        }
    }

    /// The strike of a player is that of the equipped weapon in their hands,
    /// and one point for a player with nothing equipped.
    pub open spec fn damage(self) -> int {
        match self.equipped {
            Some(weapon) => weapon.damage(self.stats),
            None => 1,
        }
    }

    /// The names of the entries of the inventory, in its order.
    pub open spec fn item_names(self) -> Seq<Seq<char>> {
        self.inventory.map_values(|entry: ContentsView| entry.name())
    }

    /// What is carried, in words: the names of the entries, or `None` for an
    /// empty inventory.
    pub open spec fn items(self) -> Seq<char> {
        if self.inventory.len() == 0 {
            "None"@
        } else {
            listed(self.item_names())
        }
    }

    /// The defense of a player is their physique.
    pub open spec fn defense(self) -> int {
        self.stats.physique as int
    }
}

impl Player {
    /// A new player of that name and those attributes, every resource at the
    /// maximum the attributes allow. The three maxima must fit their type.
    pub fn new(name: &str, stats: Stats) -> (player: Self)
        requires
            i32::MIN <= stats.spec_max_health() <= i32::MAX,
            i32::MIN <= stats.spec_max_stamina() <= i32::MAX,
            i32::MIN <= stats.spec_max_mana() <= i32::MAX,
        ensures
            player@ == PlayerView::fresh(name@, stats),
            names_distinct(player.triggers@),
    {
        let player = Player {
            name: name.to_owned(),
            stats,
            health: stats.max_health(),
            stamina: stats.max_stamina(),
            mana: stats.max_mana(),
            inventory: Vec::new(),
            equipped: Some(
                Weapon {
                    item: Item::new("Hands", 0, 0),
                    physique_scale: UNIT,
                    technique_scale: UNIT,
                    mystique_scale: UNIT,
                },
            ),
            location: "None".to_owned(),
            quest: "None".to_owned(),
            money: STARTING_MONEY,
            triggers: Vec::new(),
        };
        assert(player@.inventory =~= Seq::empty());
        player
    }

    /// Lists what is carried: the names of the entries of the inventory in
    /// its order, separated by a comma and a space, or `None` for an empty
    /// inventory.
    pub fn get_items(&self) -> (items: String)
        ensures
            items@ == self@.items(),
    {
        if self.inventory.is_empty() {
            return "None".to_owned();
        }
        let ghost names = self@.item_names();
        let mut items = String::new();
        let mut i: usize = 0;
        while i < self.inventory.len()
            invariant
                i <= self.inventory.len(),
                names == self@.item_names(),
                items@ == listed(names.take(i as int)),
            decreases self.inventory.len() - i,
        {
            if i > 0 {
                items.append(", ");
            }
            let name = match &self.inventory[i] {
                Contents::Item(item) => item.name.as_str(),
                Contents::Weapon(weapon) => weapon.item.name.as_str(),
            };
            items.append(name);
            proof {
                let before = names.take(i as int);
                let after = names.take(i as int + 1);
                assert(after.drop_last() == before);
                assert(after.last() == names[i as int]);
                assert(names[i as int] == self.inventory[i as int]@.name());
                assert(Seq::<char>::empty() + names[i as int] == names[i as int]);
            }
            i += 1;
        }
        assert(names.take(self.inventory.len() as int) == names);
        items
    }

}

impl Clone for Player {
    fn clone(&self) -> (copy: Self)
        ensures
            copy@ == self@,
    {
        let mut inventory: Vec<Contents> = Vec::new();
        let mut i: usize = 0;
        while i < self.inventory.len()
            invariant
                i <= self.inventory.len(),
                inventory@ == self.inventory@.take(i as int),
            decreases self.inventory.len() - i,
        {
            inventory.push(self.inventory[i].clone());
            assert(inventory@ == self.inventory@.take(i as int + 1));
            i += 1;
        }
        assert(inventory@ == self.inventory@);
        let mut triggers: Vec<(String, bool)> = Vec::new();
        let mut j: usize = 0;
        while j < self.triggers.len()
            invariant
                j <= self.triggers.len(),
                triggers@ == self.triggers@.take(j as int),
            decreases self.triggers.len() - j,
        {
            triggers.push((self.triggers[j].0.clone(), self.triggers[j].1));
            assert(triggers@ == self.triggers@.take(j as int + 1));
            j += 1;
        }
        assert(triggers@ == self.triggers@);
        Player {
            name: self.name.clone(),
            location: self.location.clone(),
            quest: self.quest.clone(),
            stats: self.stats,
            health: self.health,
            stamina: self.stamina,
            mana: self.mana,
            money: self.money,
            inventory,
            equipped: match &self.equipped {
                Some(weapon) => Some(weapon.clone()),
                None => None,
            },
            triggers,
        }
    }
}

impl Default for Player {
    fn default() -> (player: Self)
        ensures
            player@ == (PlayerView {
                name: Seq::empty(),
                location: Seq::empty(),
                quest: Seq::empty(),
                stats: Stats { physique: 0, technique: 0, mystique: 0 },
                health: 0,
                stamina: 0,
                mana: 0,
                money: 0,
                inventory: Seq::empty(),
                equipped: None,
                triggers: Map::empty(),
            }),
    {
        let player = Player {
            name: String::new(),
            location: String::new(),
            quest: String::new(),
            stats: Stats::default(),
            health: 0,
            stamina: 0,
            mana: 0,
            money: 0,
            inventory: Vec::new(),
            equipped: None,
            triggers: Vec::new(),
        };
        assert(player@.inventory =~= Seq::empty());
        player
    }
}

impl Combatant for Player {
    open spec fn spec_stats(&self) -> Stats {
        self.stats
    }

    open spec fn spec_name(&self) -> Seq<char> {
        self.name@
    }

    fn get_stats(&self) -> (stats: Stats) {
        self.stats
    }

    fn name(&self) -> (name: &str) {
        self.name.as_str()
    }
}

impl Attacker for Player {
    open spec fn spec_damage(&self) -> i32 {
        self@.damage() as i32
    }

    fn damage(&self) -> (damage: i32)
        ensures
            damage == self@.damage(),
    {
        match &self.equipped {
            Some(weapon) => weapon.damage(self),
            None => 1,
        }
    }
}

impl Defender for Player {
    open spec fn spec_defense(&self) -> i32 {
        self.stats.physique
    }

    open spec fn spec_health(&self) -> i32 {
        self.health
    }

    open spec fn spec_struck(&self, damage: int) -> Player {
        Player { health: (self.health - damage) as i32, ..*self }
    }

    fn defense(&self) -> (defense: i32)
        ensures
            defense == self@.defense(),
    {
        self.get_stats().physique
    }

    fn take_damage(&mut self, damage: i32)
        ensures
            final(self)@ == (PlayerView { health: old(self)@.health - damage, ..old(self)@ }),
    {
        self.health -= damage;
    }
}

} // verus!
