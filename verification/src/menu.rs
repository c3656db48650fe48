//! Choosing from a list of options with the keyboard, and the entries of the
//! main menu.
//!
//! The screen and the keyboard belong to the caller: it draws the options,
//! reads a key, hands the key to [`choice`], and goes on until a choice is
//! made.

use vstd::prelude::*;

verus! {

/// What [`choice`] reports when the player quits instead of choosing.
pub const QUIT: i32 = -1;

/// A key press, as far as choosing cares.
#[derive(Clone, Copy, Debug, PartialEq, Eq, Structural)]
pub enum Key {
    ArrowUp,
    ArrowDown,
    Enter,
    Char(char),
    Other,
}

/// Where choosing stands after a key press.
#[derive(Clone, Copy, Debug, PartialEq, Eq, Structural)]
pub enum Choice {
    /// Nothing is chosen yet, and the marker is on this option.
    Pending(i32),
    /// This option is chosen, or [`QUIT`].
    Made(i32),
}

/// The option a digit key jumps to: `1` to the first, `9` to the ninth, and
/// `0` to the one before the first.
pub open spec fn digit_target(c: char) -> Option<int> {
    if c == '1' {
        Some(0int)
    } else if c == '2' {
        Some(1int)
    } else if c == '3' {
        Some(2int)
    } else if c == '4' {
        Some(3int)
    } else if c == '5' {
        Some(4int)
    } else if c == '6' {
        Some(5int)
    } else if c == '7' {
        Some(6int)
    } else if c == '8' {
        Some(7int)
    } else if c == '9' {
        Some(8int)
    } else if c == '0' {
        Some(-1int)
    } else {
        None
    }
}

/// Where the marker goes on a key press, before it is held to the list.
pub open spec fn moved(selection: int, key: Key) -> int {
    match key {
        Key::ArrowUp => selection - 1,
        Key::ArrowDown => selection + 1,
        Key::Char(c) => match digit_target(c) {
            Some(target) => target,
            None => selection,
        },
        _ => selection,
    }
}

/// The marker held to a list of `options` entries: not before the first
/// entry, and then not after the last.
pub open spec fn held(selection: int, options: int) -> int {
    let lifted = if selection < 0 {
        0
    } else {
        selection
    };
    if lifted > options - 1 {
        options - 1
    } else {
        lifted
    }
}

/// What a key press does while the marker is on `selection`.
pub open spec fn choice_of(selection: int, key: Key, options: int, quit: bool) -> Choice {
    if quit && key == Key::Char('q') {
        Choice::Made(QUIT)
    } else if key == Key::Enter {
        Choice::Made(selection as i32)
    } else {
        Choice::Pending(held(moved(selection, key), options) as i32)
    }
}

/// Handles one key press while the player chooses among `options` entries
/// with the marker on `selection`.
///
/// Enter chooses the marked option. The arrows move the marker by one and a
/// digit key moves it to the option of that number; either way the marker is
/// then held to the list. Where quitting is offered, `q` quits. Any other key
/// leaves the marker where it is.
pub fn choice(selection: i32, key: Key, options: usize, quit: bool) -> (next: Choice)
    requires
        options <= i32::MAX,
    ensures
        next == choice_of(selection as int, key, options as int, quit),
        options > 0 ==> (next matches Choice::Pending(marker) ==> 0 <= marker < options),
{
    let mut marker: i64 = selection as i64;
    match key {
        Key::ArrowUp => {
            marker = marker - 1;
        },
        Key::ArrowDown => {
            marker = marker + 1;
        },
        Key::Enter => {
            return Choice::Made(selection);
        },
        Key::Char(c) => {
            if quit && c == 'q' {
                return Choice::Made(QUIT);
            }
            if c == '1' {
                marker = 0;
            } else if c == '2' {
                marker = 1;
            } else if c == '3' {
                marker = 2;
            } else if c == '4' {
                marker = 3;
            } else if c == '5' {
                marker = 4;
            } else if c == '6' {
                marker = 5;
            } else if c == '7' {
                marker = 6;
            } else if c == '8' {
                marker = 7;
            } else if c == '9' {
                marker = 8;
            } else if c == '0' {
                marker = -1;
            }
        },
        Key::Other => {},
    }
    if marker < 0 {
        marker = 0;
    }
    if marker > options as i64 - 1 {
        marker = options as i64 - 1;
    }
    Choice::Pending(marker as i32)
}

/// An entry of the main menu.
#[derive(Clone, Copy, Debug, PartialEq, Eq, Structural)]
pub enum MenuEntry {
    NewGame,
    LoadGame,
    ViewCharacter,
    Options,
    Exit,
}

/// The entry of the main menu under `selection`. Whatever is not one of the
/// first four entries leaves the game.
pub fn menu(selection: i32) -> (entry: MenuEntry)
    ensures
        entry == (if selection == 0 {
            MenuEntry::NewGame
        } else if selection == 1 {
            MenuEntry::LoadGame
        } else if selection == 2 {
            MenuEntry::ViewCharacter
        } else if selection == 3 {
            MenuEntry::Options
        } else {
            MenuEntry::Exit
        }),
{
    if selection == 0 {
        MenuEntry::NewGame
    } else if selection == 1 {
        MenuEntry::LoadGame
    } else if selection == 2 {
        MenuEntry::ViewCharacter
    } else if selection == 3 {
        MenuEntry::Options
    } else {
        MenuEntry::Exit
    }
}

} // verus!
