//! A profile and the mods that it tracks.

use crate::identifier::ModIdentifier;
use vstd::prelude::*;

verus! {

/// One mod that a profile tracks.
#[derive(Clone, Debug, PartialEq, Eq)]
pub struct Mod {
    /// The project's name on its platform when the mod was added.
    pub name: String,
    /// The project that the mod is.
    pub identifier: ModIdentifier,
    /// Whether to check for game version compatibility.
    pub check_game_version: Option<bool>,
    /// Whether to check for mod loader compatibility.
    pub check_mod_loader: Option<bool>,
}

/// The mods of one game installation.
#[derive(Clone, Debug, PartialEq, Eq)]
pub struct Profile {
    /// The directory that holds the installation's mod files.
    pub output_dir: String,
    /// The mods that the profile tracks, in the order in which they were
    /// added.
    pub mods: Vec<Mod>,
}

/// Whether one of `mods` is the project `identifier`.
pub open spec fn tracks(mods: Seq<Mod>, identifier: ModIdentifier) -> bool {
    exists|i: int| 0 <= i < mods.len() && (#[trigger] mods[i]).identifier.same_project(identifier)
}

/// How many of `mods` are the project `identifier`.
pub open spec fn times_tracked(mods: Seq<Mod>, identifier: ModIdentifier) -> nat
    decreases mods.len(),
{
    if mods.len() == 0 {
        0
    } else if mods.last().identifier.same_project(identifier) {
        times_tracked(mods.drop_last(), identifier) + 1
    } else {
        times_tracked(mods.drop_last(), identifier)
    }
}

/// Whether no two of `mods` are the same project.
pub open spec fn distinct(mods: Seq<Mod>) -> bool {
    forall|i: int, j: int|
        0 <= i < j < mods.len() ==> !(#[trigger] mods[i]).identifier.same_project(
            (#[trigger] mods[j]).identifier,
        )
}

/// The mod that is recorded for a project when it is added: under the
/// project's name, with both compatibility checks left unset.
pub open spec fn new_mod(identifier: ModIdentifier, name: String) -> Mod {
    Mod { name, identifier, check_game_version: None, check_mod_loader: None }
}

/// A project is tracked exactly if it is tracked at least once, and among
/// distinct mods a project is tracked at most once.
pub proof fn lemma_times_tracked(mods: Seq<Mod>, identifier: ModIdentifier)
    ensures
        tracks(mods, identifier) <==> times_tracked(mods, identifier) > 0,
        distinct(mods) ==> times_tracked(mods, identifier) <= 1,
    decreases mods.len(),
{
    if mods.len() > 0 {
        let front = mods.drop_last();
        let last = mods.len() - 1;
        lemma_times_tracked(front, identifier);
        if tracks(front, identifier) {
            let i = choose|i: int|
                0 <= i < front.len() && (#[trigger] front[i]).identifier.same_project(identifier);
            assert(mods[i].identifier.same_project(identifier));
            if distinct(mods) {
                // Two mods of the project would not be distinct.
                assert(!mods[i].identifier.same_project(mods[last].identifier));
            }
        }
        if tracks(mods, identifier) && !mods[last].identifier.same_project(identifier) {
            let i = choose|i: int|
                0 <= i < mods.len() && (#[trigger] mods[i]).identifier.same_project(identifier);
            assert(front[i].identifier.same_project(identifier));
        }
        if distinct(mods) {
            assert forall|i: int, j: int| 0 <= i < j < front.len() implies !(#[trigger] front[i]).identifier.same_project(
                (#[trigger] front[j]).identifier,
            ) by {
                assert(front[i] == mods[i] && front[j] == mods[j]);
            }
        }
    }
}

impl Profile {
    /// Whether the profile tracks the project `identifier`.
    pub fn tracks(&self, identifier: &ModIdentifier) -> (yes: bool)
        ensures
            yes == tracks(self.mods@, *identifier),
    {
        let mut at: usize = 0;
        while at < self.mods.len()
            invariant
                at <= self.mods.len(),
                forall|i: int|
                    0 <= i < at ==> !(#[trigger] self.mods@[i]).identifier.same_project(*identifier),
            decreases self.mods.len() - at,
        {
            if self.mods[at].identifier.is_same_project(identifier) {
                return true;
            }
            at += 1;
        }
        false
    }

    /// Starts to track the project `identifier` under `name`, unless the
    /// profile tracks that project already. Says whether the profile changed.
    pub fn track(&mut self, identifier: ModIdentifier, name: String) -> (added: bool)
        ensures
            added == !tracks(old(self).mods@, identifier),
            added ==> final(self).mods@ == old(self).mods@.push(new_mod(identifier, name)),
            !added ==> final(self).mods@ == old(self).mods@,
            final(self).output_dir == old(self).output_dir,
    {
        if self.tracks(&identifier) {
            false
        } else {
            self.mods.push(
                Mod { name, identifier, check_game_version: None, check_mod_loader: None },
            );
            true
        }
    }
}

} // verus!
