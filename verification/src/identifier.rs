//! Platforms and the projects on them.

use vstd::prelude::*;

verus! {

/// A platform that hosts mod projects and can identify a mod file by its
/// contents.
#[derive(Clone, Copy, Debug, PartialEq, Eq, Structural)]
pub enum ModPlatform {
    Curseforge,
    Modrinth,
}

/// A project on one platform: the platform is the variant, the payload is the
/// project's ID there.
#[derive(Debug, PartialEq, Eq)]
pub enum ModIdentifier {
    CurseForgeProject(i32),
    ModrinthProject(String),
}

/// What a [`ModIdentifier`] stands for: a platform and the project's ID on
/// it, the ID as a number or as its sequence of characters.
pub enum Project {
    CurseForge(int),
    Modrinth(Seq<char>),
}

impl View for ModIdentifier {
    type V = Project;

    open spec fn view(&self) -> Project {
        match self {
            ModIdentifier::CurseForgeProject(id) => Project::CurseForge(*id as int),
            ModIdentifier::ModrinthProject(id) => Project::Modrinth(id@),
        }
    }
}

impl ModIdentifier {
    /// The platform that the project is on.
    pub open spec fn on(self) -> ModPlatform {
        match self {
            ModIdentifier::CurseForgeProject(_) => ModPlatform::Curseforge,
            ModIdentifier::ModrinthProject(_) => ModPlatform::Modrinth,
        }
    }

    /// Whether two identifiers name the same project: the same platform and
    /// the same ID on it.
    pub open spec fn same_project(self, other: ModIdentifier) -> bool {
        self@ == other@
    }

    /// The platform that the project is on.
    pub fn platform(&self) -> (platform: ModPlatform)
        ensures
            platform == self.on(),
    {
        match self {
            ModIdentifier::CurseForgeProject(_) => ModPlatform::Curseforge,
            ModIdentifier::ModrinthProject(_) => ModPlatform::Modrinth,
        }
    }

    /// Whether the project is on `platform`.
    pub fn is_on(&self, platform: ModPlatform) -> (yes: bool)
        ensures
            yes == (self.on() == platform),
    {
        match (self, platform) {
            (ModIdentifier::CurseForgeProject(_), ModPlatform::Curseforge) => true,
            (ModIdentifier::ModrinthProject(_), ModPlatform::Modrinth) => true,
            _ => false,
        }
    }

    /// Whether `self` and `other` name the same project.
    pub fn is_same_project(&self, other: &ModIdentifier) -> (same: bool)
        ensures
            same == self.same_project(*other),
    {
        match (self, other) {
            (ModIdentifier::CurseForgeProject(a), ModIdentifier::CurseForgeProject(b)) => *a == *b,
            (ModIdentifier::ModrinthProject(a), ModIdentifier::ModrinthProject(b)) => *a == *b,
            _ => false,
        }
    }
}

impl Clone for ModIdentifier {
    fn clone(&self) -> (copy: ModIdentifier)
        ensures
            copy == *self,
    {
        match self {
            ModIdentifier::CurseForgeProject(id) => ModIdentifier::CurseForgeProject(*id),
            ModIdentifier::ModrinthProject(id) => ModIdentifier::ModrinthProject(id.clone()),
        }
    }
}

} // verus!
