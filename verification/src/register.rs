//! Recording in a profile the project that a platform was asked to add.

use crate::identifier::{ModIdentifier, ModPlatform};
use crate::profile::{distinct, lemma_times_tracked, new_mod, times_tracked, tracks, Mod, Profile};
use vstd::prelude::*;

verus! {

/// What a platform answered when it was asked to add a project to a profile.
#[derive(Clone, Debug, PartialEq, Eq)]
pub enum Fetch {
    /// The project as the platform has it: its identifier there and its name.
    Project { identifier: ModIdentifier, name: String },
    /// The platform's add operation found the project in the profile.
    AlreadyAdded,
    /// The project could not be fetched or cannot be added; the payload is
    /// the platform's message.
    Failed(String),
}

/// How an attempt to record a project in a profile ended.
#[derive(Clone, Debug, PartialEq, Eq)]
pub enum Registration {
    /// The profile tracks the project from now on, under `name`.
    Added { name: String, platform: ModPlatform },
    /// The profile tracked the project before, and was left as it was.
    AlreadyTracked,
    /// The platform failed, and the profile was left as it was.
    Failed(String),
}

/// The mods of a profile after the answer `fetch` has been dealt with: a
/// fetched project that is not among `mods` yet is appended to them, and
/// nothing else changes them.
pub open spec fn mods_after(mods: Seq<Mod>, fetch: Fetch) -> Seq<Mod> {
    match fetch {
        Fetch::Project { identifier, name } => if tracks(mods, identifier) {
            mods
        } else {
            mods.push(new_mod(identifier, name))
        },
        _ => mods,
    }
}

/// How dealing with the answer `fetch` ends for a profile that holds `mods`.
pub open spec fn registration(mods: Seq<Mod>, fetch: Fetch) -> Registration {
    match fetch {
        Fetch::Project { identifier, name } => if tracks(mods, identifier) {
            Registration::AlreadyTracked
        } else {
            Registration::Added { name, platform: identifier.on() }
        },
        Fetch::AlreadyAdded => Registration::AlreadyTracked,
        Fetch::Failed(reason) => Registration::Failed(reason),
    }
}

/// Deals with a platform's answer to the request to add a project.
///
/// A fetched project is appended to the profile's mods under the name that
/// the platform gave, unless the profile tracks that project already. All
/// other answers leave the profile as it is.
pub fn register(profile: &mut Profile, fetch: &Fetch) -> (outcome: Registration)
    ensures
        final(profile).mods@ == mods_after(old(profile).mods@, *fetch),
        final(profile).output_dir == old(profile).output_dir,
        outcome == registration(old(profile).mods@, *fetch),
{
    match fetch {
        Fetch::Project { identifier, name } => {
            let platform = identifier.platform();
            if profile.track(identifier.clone(), name.clone()) {
                Registration::Added { name: name.clone(), platform }
            } else {
                Registration::AlreadyTracked
            }
        },
        Fetch::AlreadyAdded => Registration::AlreadyTracked,
        Fetch::Failed(reason) => Registration::Failed(reason.clone()),
    }
}

/// Registering is idempotent. When a platform hands over the same project
/// twice, under whatever names, the second attempt reports that the project
/// is tracked already and leaves the mods as the first attempt left them.
/// The project then stands among them exactly once, provided that it did not
/// stand there several times before.
pub proof fn lemma_register_twice(
    mods: Seq<Mod>,
    first: ModIdentifier,
    first_name: String,
    second: ModIdentifier,
    second_name: String,
)
    requires
        first.same_project(second),
    ensures
        ({
            let once = mods_after(mods, Fetch::Project { identifier: first, name: first_name });
            let again = Fetch::Project { identifier: second, name: second_name };
            &&& tracks(once, first)
            &&& registration(once, again) == Registration::AlreadyTracked
            &&& mods_after(once, again) == once
            &&& distinct(mods) || !tracks(mods, first) ==> times_tracked(once, first) == 1
        }),
{
    let fetch = Fetch::Project { identifier: first, name: first_name };
    let once = mods_after(mods, fetch);
    lemma_registering_tracks(mods, first, first_name);
    let i = choose|i: int| 0 <= i < once.len() && (#[trigger] once[i]).identifier.same_project(first);
    assert(once[i].identifier.same_project(second));
    lemma_times_tracked(once, first);
    if distinct(mods) {
        lemma_registering_keeps_distinct(mods, fetch);
    } else if !tracks(mods, first) {
        assert(once.drop_last() =~= mods);
        lemma_times_tracked(mods, first);
    }
}

/// After a project was handed over, the profile tracks it, and every mod
/// that it held before is still there at its old place.
pub proof fn lemma_registering_tracks(mods: Seq<Mod>, identifier: ModIdentifier, name: String)
    ensures
        tracks(mods_after(mods, Fetch::Project { identifier, name }), identifier),
        mods_after(mods, Fetch::Project { identifier, name }).len() >= mods.len(),
        mods_after(mods, Fetch::Project { identifier, name }).take(mods.len() as int) == mods,
{
    let after = mods_after(mods, Fetch::Project { identifier, name });
    if !tracks(mods, identifier) {
        assert(after[mods.len() as int].identifier.same_project(identifier));
    }
    assert(after.take(mods.len() as int) =~= mods);
}

/// Registering never makes two mods of one project: mods that were distinct
/// before an answer was dealt with are distinct after.
pub proof fn lemma_registering_keeps_distinct(mods: Seq<Mod>, fetch: Fetch)
    requires
        distinct(mods),
    ensures
        distinct(mods_after(mods, fetch)),
{
    let after = mods_after(mods, fetch);
    if let Fetch::Project { identifier, name } = fetch {
        if !tracks(mods, identifier) {
            assert forall|i: int, j: int| 0 <= i < j < after.len() implies !(#[trigger] after[i]).identifier.same_project(
                (#[trigger] after[j]).identifier,
            ) by {
                assert(after[i] == mods[i]);
                if j < mods.len() {
                    assert(after[j] == mods[j]);
                } else {
                    // The new mod is a project that none of the others is.
                    assert(after[j].identifier == identifier);
                }
            }
        }
    }
}

} // verus!
