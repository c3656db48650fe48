//! Rules engine of a turn-based text role-playing game: the stat model,
//! items and equipment, combat resolution, the battle and shop state
//! machines, and the decisions of character creation and of the story.
//!
//! Every function here is total on the inputs its `requires` admits and is
//! proved against a contract stated over the mathematical views of the data.
//! The one thing taken on trust is the draw of a random number. Reading keys,
//! drawing screens and touching storage are left to the caller.

pub mod battle;
pub mod catalog;
pub mod combat;
pub mod creation;
mod dice;
pub mod enemy;
pub mod equipment;
pub mod item;
pub mod menu;
pub mod player;
pub mod shop;
pub mod stats;
pub mod storage;
pub mod story;
pub mod text;
pub mod triggers;

pub use battle::{battle_state, blows_fit, script_battle, BattleState, Turn};
pub use catalog::{enemies_from_db, weapons_from_db, WeaponRow};
pub use combat::{combat, Attacker, BattleOutcome, Combatant, Defender};
pub use enemy::Enemy;
pub use equipment::select_equipped;
pub use item::{Contents, Item, Weapon};
pub use menu::{choice, menu, Choice, Key, MenuEntry};
pub use player::Player;
pub use shop::{buy, offer, sell, shop, Counter, Purchase};
pub use stats::Stats;
pub use storage::{slot_file, slot_path};
pub use story::{char_intro, end_intro, story};
