//! Failures of a run, each carrying the paths it concerns.
use vstd::prelude::*;

verus! {

#[derive(Clone, Debug, PartialEq, Eq)]
pub enum MakerError {
    /// The working directory could not be listed.
    Read,
    /// A foreign file could not be removed.
    RemoveFile { path: String },
    /// A foreign directory could not be removed (it is never removed recursively).
    RemoveDirectory { path: String },
    /// The working directory holds foreign entries and removal was not asked for.
    NotEmpty { entries: Vec<String> },
    CreateDirectory { path: String },
    CreateFile { path: String },
    CreateSymlink { original: String, link: String },
}

} // verus!
