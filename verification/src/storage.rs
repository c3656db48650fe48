//! Where a player is kept between sessions: one slot for each name.
//!
//! Writing and reading the slots is the caller's business. What is decided
//! here is under which path the slot of a player lies.

use vstd::prelude::*;
use crate::player::Player;

verus! {

/// The directory that holds the slots.
pub const PLAYERS: &'static str = "Players/";

/// The name of the file that holds the player called `name`.
pub open spec fn file_of(name: Seq<char>) -> Seq<char> {
    name + ".txt"@
}

/// The path of the file `file` in the directory of slots.
pub open spec fn path_of(file: Seq<char>) -> Seq<char> {
    PLAYERS@ + file
}

/// The name of the file that holds the player called `name`.
pub fn slot_file(name: &str) -> (file: String)
    ensures
        file@ == file_of(name@),
{
    name.to_owned().concat(".txt")
}

/// The path under which the file `file` is read back.
pub fn slot_path(file: &str) -> (path: String)
    ensures
        path@ == path_of(file@),
{
    PLAYERS.to_owned().concat(file)
}

impl Player {
    /// The path under which this player is saved: the slot of their name. A
    /// second player of the same name is saved over the first.
    pub fn slot(&self) -> (path: String)
        ensures
            path@ == path_of(file_of(self@.name)),
    {
        let mut path = PLAYERS.to_owned();
        path.append(self.name.as_str());
        path.append(".txt");
        assert(path@ =~= path_of(file_of(self@.name)));
        path
    }
}

/// Players of different names are kept in different slots.
pub proof fn lemma_slots_differ(a: Seq<char>, b: Seq<char>)
    requires
        a != b,
    ensures
        path_of(file_of(a)) != path_of(file_of(b)),
{
    let pa = path_of(file_of(a));
    let pb = path_of(file_of(b));
    if pa == pb {
        let prefix = PLAYERS@;
        let suffix = ".txt"@;
        assert(pa.len() == prefix.len() + a.len() + suffix.len());
        assert(pb.len() == prefix.len() + b.len() + suffix.len());
        assert(a.len() == b.len());
        assert forall|i: int| 0 <= i < a.len() implies a[i] == b[i] by {
            assert(pa[prefix.len() + i] == a[i]);
            assert(pb[prefix.len() + i] == b[i]);
        }
        assert(a =~= b);
    }
}

} // verus!
