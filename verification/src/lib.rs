//! Reconciliation of a directory of installed mod files with a profile.
//!
//! Every JAR file in a profile's output directory is identified by its
//! contents on the mod platforms, one of the projects it was identified as is
//! chosen according to a preferred platform, and that project is recorded in
//! the profile unless the profile already tracks it.
//!
//! The crate holds the decisions of that process and proves what they do.
//! Reading the directory and talking to the platforms is left to the caller,
//! who hands the answers in as plain values.

pub mod artifact;
pub mod identifier;
pub mod profile;
pub mod register;
pub mod scan;
pub mod select;

pub use crate::artifact::{is_artifact, jar_files};
pub use crate::identifier::{ModIdentifier, ModPlatform};
pub use crate::profile::{Mod, Profile};
pub use crate::register::{register, Fetch, Registration};
pub use crate::scan::{
    added, identified, scan, Lookup, Notice, Report, ScanError, ScannedFile, Step,
};
pub use crate::select::select;
