//! Going through a directory's mod files and recording each in a profile.
//!
//! Each mod file is handled in two steps, with a question to the platforms
//! before each. First the platforms are asked what the file is, and
//! [`identified`] decides from their answer whether a project is to be added,
//! and which. Then that project's platform is asked to add it, and [`added`]
//! records the answer in the profile. A file that no platform knows and a
//! project that the profile tracks already are noted and passed over; a
//! platform that fails ends the scan at once, with the profile as the files
//! before have left it.
//!
//! [`scan`] does the same for a whole directory from a record of what the
//! platforms answered.

use crate::artifact::{is_artifact, is_jar};
use crate::identifier::{ModIdentifier, ModPlatform};
use crate::profile::{distinct, Mod, Profile};
use crate::register::{
    lemma_registering_keeps_distinct, lemma_registering_tracks, mods_after, register, registration,
    Fetch, Registration,
};
use crate::select::{choice, lemma_choice, offers, select};
use vstd::prelude::*;

verus! {

/// What the platforms answered when they were asked what a mod file is.
#[derive(Clone, Debug, PartialEq, Eq)]
pub enum Lookup {
    /// The projects that the file was identified as, in the order in which
    /// the platforms were asked. There is at least one.
    Matches(Vec<ModIdentifier>),
    /// No platform knows the file.
    DoesNotExist,
    /// A platform could not be asked; the payload is its message.
    Failed(String),
}

/// A line of the scan's account of what it did with a mod file.
#[derive(Clone, Debug, PartialEq, Eq)]
pub enum Notice {
    /// The file is the project `name` on `platform`, and the profile tracks
    /// it from now on.
    Found { name: String, platform: ModPlatform },
    /// The file at `path` is a project that the profile tracked before.
    AlreadyAdded { path: String },
    /// No platform knows the file at `path`.
    NotFound { path: String },
}

/// Why a scan ended before it had gone through all files.
#[derive(Clone, Debug, PartialEq, Eq)]
pub enum ScanError {
    /// The platforms could not be asked what a file is.
    Identification(String),
    /// A platform could not add the project that a file was identified as.
    Addition(String),
}

/// What is to be done with a mod file once the platforms have said what it is.
#[derive(Clone, Debug, PartialEq, Eq)]
pub enum Step {
    /// Ask the project's platform to add this project to the profile.
    Add(ModIdentifier),
    /// Nothing more is to be done with the file but to give this notice.
    Skip(Notice),
}

/// One entry of a directory together with what the platforms answer about it.
#[derive(Clone, Debug, PartialEq, Eq)]
pub struct ScannedFile {
    /// The entry's file name.
    pub file_name: String,
    /// What the platforms answer when asked what the file is.
    pub lookup: Lookup,
    /// What CurseForge answers when asked to add the file's project there.
    pub curseforge: Fetch,
    /// What Modrinth answers when asked to add the file's project there.
    pub modrinth: Fetch,
}

/// What a scan did: a notice for each mod file that it has dealt with, in
/// their order, and the failure that ended it, if one did.
#[derive(Clone, Debug, PartialEq, Eq)]
pub struct Report {
    /// The notices, one for each mod file that was dealt with.
    pub notices: Vec<Notice>,
    /// The failure that ended the scan early, if one did.
    pub error: Option<ScanError>,
}

/// The state in which a scan leaves things: the profile's mods, the notices
/// given and the failure that ended it, if one did.
pub struct Outcome {
    /// The mods that the profile tracks.
    pub mods: Seq<Mod>,
    /// The notices given so far.
    pub notices: Seq<Notice>,
    /// The failure that ended the scan, if one did.
    pub error: Option<ScanError>,
}

impl Lookup {
    /// Whether the answer is one that the platforms give: where it names
    /// projects, it names at least one.
    pub open spec fn well_formed(self) -> bool {
        self matches Lookup::Matches(candidates) ==> candidates@.len() > 0
    }
}

impl ScannedFile {
    /// What `platform` answers when asked to add the file's project there.
    pub open spec fn answer_on(self, platform: ModPlatform) -> Fetch {
        match platform {
            ModPlatform::Curseforge => self.curseforge,
            ModPlatform::Modrinth => self.modrinth,
        }
    }

    /// Whether the record can be scanned: a mod file that the platforms have
    /// identified was identified as at least one project.
    pub open spec fn well_formed(self) -> bool {
        is_jar(self.file_name@) ==> self.lookup.well_formed()
    }

    /// What `platform` answers when asked to add the file's project there.
    pub fn answer(&self, platform: ModPlatform) -> (fetch: &Fetch)
        ensures
            *fetch == self.answer_on(platform),
    {
        match platform {
            ModPlatform::Curseforge => &self.curseforge,
            ModPlatform::Modrinth => &self.modrinth,
        }
    }
}

/// What is to be done with the file `path` after the answer `lookup`.
pub open spec fn step_after(path: String, lookup: Lookup, preferred: ModPlatform) -> Result<
    Step,
    ScanError,
> {
    match lookup {
        Lookup::Matches(candidates) => Ok(Step::Add(candidates@[choice(candidates@, preferred)])),
        Lookup::DoesNotExist => Ok(Step::Skip(Notice::NotFound { path })),
        Lookup::Failed(reason) => Err(ScanError::Identification(reason)),
    }
}

/// The notice or the failure that the answer `fetch` brings for the file
/// `path`, in a profile that holds `mods`.
pub open spec fn notice_after(mods: Seq<Mod>, path: String, fetch: Fetch) -> Result<
    Notice,
    ScanError,
> {
    match registration(mods, fetch) {
        Registration::Added { name, platform } => Ok(Notice::Found { name, platform }),
        Registration::AlreadyTracked => Ok(Notice::AlreadyAdded { path }),
        Registration::Failed(reason) => Err(ScanError::Addition(reason)),
    }
}

/// Decides what is to be done with the mod file `path` once the platforms
/// have answered what it is.
///
/// Where the file was identified, the project to add is the first that is on
/// the preferred platform, or the first of all if none is on it. A file that
/// no platform knows is skipped with a notice. A failure of the platforms
/// ends the scan.
pub fn identified(path: &String, lookup: &Lookup, preferred: ModPlatform) -> (step: Result<
    Step,
    ScanError,
>)
    requires
        lookup.well_formed(),
    ensures
        step == step_after(*path, *lookup, preferred),
{
    match lookup {
        Lookup::Matches(candidates) => Ok(Step::Add(select(candidates, preferred).clone())),
        Lookup::DoesNotExist => Ok(Step::Skip(Notice::NotFound { path: path.clone() })),
        Lookup::Failed(reason) => Err(ScanError::Identification(reason.clone())),
    }
}

/// Records in the profile what a platform answered when it was asked to add
/// the project that the mod file `path` was identified as.
///
/// A fetched project that the profile does not track yet is appended to its
/// mods. One that it tracks, or that the platform found in it, is noted and
/// leaves the profile as it is. A failure of the platform ends the scan and
/// leaves the profile as it is.
pub fn added(profile: &mut Profile, path: &String, fetch: &Fetch) -> (notice: Result<
    Notice,
    ScanError,
>)
    ensures
        final(profile).mods@ == mods_after(old(profile).mods@, *fetch),
        final(profile).output_dir == old(profile).output_dir,
        notice == notice_after(old(profile).mods@, *path, *fetch),
{
    match register(profile, fetch) {
        Registration::Added { name, platform } => Ok(Notice::Found { name, platform }),
        Registration::AlreadyTracked => Ok(Notice::AlreadyAdded { path: path.clone() }),
        Registration::Failed(reason) => Err(ScanError::Addition(reason)),
    }
}

/// The state after one directory entry has been dealt with in a profile that
/// holds `mods`. An entry that is no mod file changes nothing and gets no
/// notice; nor does a file at which a platform fails get one. The platform
/// that is asked to add a file's project is that of the chosen project.
pub open spec fn turn(mods: Seq<Mod>, preferred: ModPlatform, file: ScannedFile) -> Outcome {
    if !is_jar(file.file_name@) {
        Outcome { mods, notices: seq![], error: None }
    } else {
        match step_after(file.file_name, file.lookup, preferred) {
            Err(error) => Outcome { mods, notices: seq![], error: Some(error) },
            Ok(Step::Skip(notice)) => Outcome { mods, notices: seq![notice], error: None },
            Ok(Step::Add(chosen)) => {
                let fetch = file.answer_on(chosen.on());
                match notice_after(mods, file.file_name, fetch) {
                    Err(error) => Outcome { mods, notices: seq![], error: Some(error) },
                    Ok(notice) => Outcome {
                        mods: mods_after(mods, fetch),
                        notices: seq![notice],
                        error: None,
                    },
                }
            },
        }
    }
}

/// `later`, carried out in the state that `earlier` has left. Where `earlier`
/// has failed, `later` is not to be carried out at all: see [`run`].
pub open spec fn then_came(earlier: Outcome, later: Outcome) -> Outcome {
    Outcome { mods: later.mods, notices: earlier.notices + later.notices, error: later.error }
}

/// The state after the entries `files` have been dealt with, one after the
/// other, in a profile that holds `mods`. The first failure ends the scan:
/// the entries after it are not looked at.
pub open spec fn run(mods: Seq<Mod>, preferred: ModPlatform, files: Seq<ScannedFile>) -> Outcome
    decreases files.len(),
{
    if files.len() == 0 {
        Outcome { mods, notices: seq![], error: None }
    } else {
        let first = turn(mods, preferred, files[0]);
        if first.error is Some {
            first
        } else {
            then_came(first, run(first.mods, preferred, files.drop_first()))
        }
    }
}

/// Scans a directory from a record of its entries and of what the platforms
/// answer about each.
///
/// The entries are dealt with in their order. Those that are no mod files
/// are passed over. Each mod file is identified and the chosen project added
/// as [`identified`] and [`added`] say, with the answer of the chosen
/// project's platform, and gets one notice. The first
/// failure of a platform ends the scan: the profile keeps what the files
/// before have added, and the files after are not dealt with.
pub fn scan(profile: &mut Profile, preferred: ModPlatform, files: &Vec<ScannedFile>) -> (report:
    Report)
    requires
        forall|i: int| 0 <= i < files@.len() ==> (#[trigger] files@[i]).well_formed(),
    ensures
        final(profile).output_dir == old(profile).output_dir,
        (Outcome {
            mods: final(profile).mods@,
            notices: report.notices@,
            error: report.error,
        }) == run(old(profile).mods@, preferred, files@),
{
    let mut notices: Vec<Notice> = Vec::new();
    let mut at: usize = 0;
    proof {
        let whole = run(profile.mods@, preferred, files@);
        assert(files@.skip(0) =~= files@);
        assert(Seq::<Notice>::empty() + whole.notices =~= whole.notices);
    }
    while at < files.len()
        invariant
            at <= files.len(),
            profile.output_dir == old(profile).output_dir,
            forall|i: int| 0 <= i < files@.len() ==> (#[trigger] files@[i]).well_formed(),
            run(old(profile).mods@, preferred, files@) == then_came(
                Outcome { mods: profile.mods@, notices: notices@, error: None },
                run(profile.mods@, preferred, files@.skip(at as int)),
            ),
        decreases files.len() - at,
    {
        let file = &files[at];
        let ghost rest = files@.skip(at as int);
        let ghost mods = profile.mods@;
        let ghost given = notices@;
        proof {
            assert(rest.drop_first() =~= files@.skip(at + 1));
        }
        if is_artifact(file.file_name.as_str()) {
            match identified(&file.file_name, &file.lookup, preferred) {
                Err(error) => {
                    proof {
                        assert(given + Seq::<Notice>::empty() =~= given);
                    }
                    return Report { notices, error: Some(error) };
                },
                Ok(Step::Skip(notice)) => {
                    notices.push(notice);
                },
                Ok(Step::Add(chosen)) => match added(
                    profile,
                    &file.file_name,
                    file.answer(chosen.platform()),
                ) {
                    Err(error) => {
                        proof {
                            assert(given + Seq::<Notice>::empty() =~= given);
                        }
                        return Report { notices, error: Some(error) };
                    },
                    Ok(notice) => {
                        notices.push(notice);
                    },
                },
            }
        }
        proof {
            let first = turn(mods, preferred, rest[0]);
            let later = run(first.mods, preferred, rest.drop_first());
            assert(notices@ =~= given + first.notices);
            assert(given + (first.notices + later.notices) =~= (given + first.notices)
                + later.notices);
        }
        at += 1;
    }
    proof {
        assert(notices@ + Seq::<Notice>::empty() =~= notices@);
    }
    Report { notices, error: None }
}

/// The mod files among the entries `files`, in their order.
pub open spec fn mod_files(files: Seq<ScannedFile>) -> Seq<ScannedFile> {
    files.filter(|file: ScannedFile| is_jar(file.file_name@))
}

/// A scan of `before` followed by `after` is a scan of `before` and then, in
/// the state that it has left, a scan of `after`. Where the scan of `before`
/// has failed, that is the whole scan: no entry of `after` is dealt with.
pub proof fn lemma_run_in_two(
    mods: Seq<Mod>,
    preferred: ModPlatform,
    before: Seq<ScannedFile>,
    after: Seq<ScannedFile>,
)
    ensures
        run(mods, preferred, before).error is Some ==> run(mods, preferred, before + after) == run(
            mods,
            preferred,
            before,
        ),
        run(mods, preferred, before).error is None ==> run(mods, preferred, before + after)
            == then_came(
            run(mods, preferred, before),
            run(run(mods, preferred, before).mods, preferred, after),
        ),
    decreases before.len(),
{
    if before.len() == 0 {
        let whole = run(mods, preferred, after);
        assert(before + after =~= after);
        assert(Seq::<Notice>::empty() + whole.notices =~= whole.notices);
    } else {
        let first = turn(mods, preferred, before[0]);
        assert((before + after)[0] == before[0]);
        assert((before + after).drop_first() =~= before.drop_first() + after);
        if first.error is None {
            lemma_run_in_two(first.mods, preferred, before.drop_first(), after);
            let rest = run(first.mods, preferred, before.drop_first());
            if rest.error is None {
                let last = run(rest.mods, preferred, after);
                assert(first.notices + (rest.notices + last.notices) =~= (first.notices
                    + rest.notices) + last.notices);
            }
        }
    }
}

/// A scan of a single entry is that entry's turn.
pub proof fn lemma_run_of_one(mods: Seq<Mod>, preferred: ModPlatform, file: ScannedFile)
    ensures
        run(mods, preferred, seq![file]) == turn(mods, preferred, file),
{
    let alone = seq![file];
    let first = turn(mods, preferred, alone[0]);
    let rest = run(first.mods, preferred, alone.drop_first());
    assert(alone.drop_first().len() == 0);
    assert(first.notices + rest.notices =~= first.notices);
}

/// A mod file that no platform knows is passed over: the scan goes on with
/// the files after it, and the profile gets no mod for it. The scan leaves
/// the profile, and ends, as it would if the file were not there. Where the
/// scan gets as far as the file, the file's notice stands between those of
/// the files before it and those of the files after it.
pub proof fn lemma_unknown_file_is_passed_over(
    mods: Seq<Mod>,
    preferred: ModPlatform,
    before: Seq<ScannedFile>,
    file: ScannedFile,
    after: Seq<ScannedFile>,
)
    requires
        is_jar(file.file_name@),
        file.lookup is DoesNotExist,
    ensures
        ({
            let earlier = run(mods, preferred, before);
            let later = run(earlier.mods, preferred, after);
            let with_file = run(mods, preferred, before.push(file) + after);
            let without = run(mods, preferred, before + after);
            &&& with_file.mods == without.mods
            &&& with_file.error == without.error
            &&& earlier.error is None ==> with_file.mods == later.mods
            &&& earlier.error is None ==> with_file.error == later.error
            &&& earlier.error is None ==> with_file.notices == earlier.notices.push(
                Notice::NotFound { path: file.file_name },
            ) + later.notices
        }),
{
    let earlier = run(mods, preferred, before);
    let alone = seq![file];
    lemma_run_of_one(earlier.mods, preferred, file);
    assert(before.push(file) =~= before + alone);
    lemma_run_in_two(mods, preferred, before, alone);
    lemma_run_in_two(mods, preferred, before.push(file), after);
    lemma_run_in_two(mods, preferred, before, after);
    assert(earlier.notices + seq![Notice::NotFound { path: file.file_name }]
        =~= earlier.notices.push(Notice::NotFound { path: file.file_name }));
}

/// A failure ends the scan. Where the platforms fail at a mod file, be it
/// when they are asked what the file is or when the chosen project's platform
/// is asked to add it, nothing that comes after the file makes a difference.
/// Where the scan gets as far as the file, it ends with that failure, in the
/// state that the files before have left: their mods stay in the profile,
/// their notices stand, and the failing file gets none.
pub proof fn lemma_failure_ends_scan(
    mods: Seq<Mod>,
    preferred: ModPlatform,
    before: Seq<ScannedFile>,
    file: ScannedFile,
    after: Seq<ScannedFile>,
    reason: String,
)
    requires
        is_jar(file.file_name@),
        file.lookup == Lookup::Failed(reason) || (file.lookup matches Lookup::Matches(candidates)
            && file.answer_on(candidates@[choice(candidates@, preferred)].on()) == Fetch::Failed(
            reason,
        )),
    ensures
        ({
            let earlier = run(mods, preferred, before);
            let ended = run(mods, preferred, before.push(file) + after);
            &&& ended == run(mods, preferred, before.push(file))
            &&& earlier.error is None ==> ended.mods == earlier.mods
            &&& earlier.error is None ==> ended.notices == earlier.notices
            &&& earlier.error is None && file.lookup is Failed ==> ended.error == Some(
                ScanError::Identification(reason),
            )
            &&& earlier.error is None && file.lookup is Matches ==> ended.error == Some(
                ScanError::Addition(reason),
            )
        }),
{
    let earlier = run(mods, preferred, before);
    let alone = seq![file];
    lemma_run_of_one(earlier.mods, preferred, file);
    assert(before.push(file) =~= before + alone);
    lemma_run_in_two(mods, preferred, before, alone);
    lemma_run_in_two(mods, preferred, before.push(file), after);
}

/// Where a mod file is known on the preferred platform, it is that platform
/// which is asked to add it: what the other platform would answer makes no
/// difference to what becomes of the file.
pub proof fn lemma_preferred_platform_is_asked(
    mods: Seq<Mod>,
    preferred: ModPlatform,
    file: ScannedFile,
)
    requires
        is_jar(file.file_name@),
        file.lookup matches Lookup::Matches(candidates) && offers(candidates@, preferred),
    ensures
        ({
            let fetch = file.answer_on(preferred);
            let after = turn(mods, preferred, file);
            &&& after.mods == mods_after(mods, fetch)
            &&& match notice_after(mods, file.file_name, fetch) {
                Ok(notice) => after.notices == seq![notice] && after.error is None,
                Err(error) => after.notices == Seq::<Notice>::empty() && after.error == Some(
                    error,
                ),
            }
        }),
{
    if let Lookup::Matches(candidates) = file.lookup {
        lemma_choice(candidates@, preferred);
    }
}

/// A scan only ever appends to the profile's mods: those that it held before
/// the scan are all still there, at their old places.
pub proof fn lemma_run_keeps_mods(mods: Seq<Mod>, preferred: ModPlatform, files: Seq<ScannedFile>)
    ensures
        run(mods, preferred, files).mods.len() >= mods.len(),
        run(mods, preferred, files).mods.take(mods.len() as int) == mods,
    decreases files.len(),
{
    if files.len() == 0 {
        assert(mods.take(mods.len() as int) =~= mods);
    } else {
        let first = turn(mods, preferred, files[0]);
        if let Fetch::Project { identifier, name } = files[0].curseforge {
            lemma_registering_tracks(mods, identifier, name);
        }
        if let Fetch::Project { identifier, name } = files[0].modrinth {
            lemma_registering_tracks(mods, identifier, name);
        }
        assert(first.mods.take(mods.len() as int) =~= mods);
        if first.error is None {
            lemma_run_keeps_mods(first.mods, preferred, files.drop_first());
            let last = run(first.mods, preferred, files.drop_first()).mods;
            assert(last.take(mods.len() as int) =~= last.take(first.mods.len() as int).take(
                mods.len() as int,
            ));
        }
    }
}

/// A scan never makes two mods of one project: mods that were distinct
/// before it are distinct after it.
pub proof fn lemma_run_keeps_distinct(
    mods: Seq<Mod>,
    preferred: ModPlatform,
    files: Seq<ScannedFile>,
)
    requires
        distinct(mods),
    ensures
        distinct(run(mods, preferred, files).mods),
    decreases files.len(),
{
    if files.len() > 0 {
        let first = turn(mods, preferred, files[0]);
        lemma_registering_keeps_distinct(mods, files[0].curseforge);
        lemma_registering_keeps_distinct(mods, files[0].modrinth);
        if first.error is None {
            lemma_run_keeps_distinct(first.mods, preferred, files.drop_first());
        }
    }
}

/// Entries that are no mod files make no difference to a scan, wherever they
/// stand among the others and however many they are. And a scan that did not
/// fail has given one notice for each mod file.
pub proof fn lemma_run_sees_mod_files_only(
    mods: Seq<Mod>,
    preferred: ModPlatform,
    files: Seq<ScannedFile>,
)
    ensures
        run(mods, preferred, files) == run(mods, preferred, mod_files(files)),
        run(mods, preferred, files).notices.len() <= mod_files(files).len(),
        run(mods, preferred, files).error is None ==> run(mods, preferred, files).notices.len()
            == mod_files(files).len(),
    decreases files.len(),
{
    let keep = |file: ScannedFile| is_jar(file.file_name@);
    if files.len() == 0 {
        reveal(Seq::filter);
    } else {
        let first = turn(mods, preferred, files[0]);
        let rest = files.drop_first();
        assert(files =~= seq![files[0]] + rest);
        rest.lemma_filter_prepend(files[0], keep);
        if keep(files[0]) {
            assert(mod_files(files)[0] == files[0]);
            assert(mod_files(files).drop_first() =~= mod_files(rest));
            if first.error is None {
                lemma_run_sees_mod_files_only(first.mods, preferred, rest);
            }
        } else {
            let later = run(mods, preferred, rest);
            lemma_run_sees_mod_files_only(mods, preferred, rest);
            assert(Seq::<Notice>::empty() + later.notices =~= later.notices);
        }
    }
}

} // verus!
