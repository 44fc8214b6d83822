//! The stored settings: the folder that notes are opened from.
use vstd::prelude::*;

verus! {

/// The settings record kept in the per-application settings store.
#[derive(Debug, PartialEq, Eq)]
pub struct Settings {
    /// The base folder of the notes, once configured.
    pub folder_path: Option<String>,
}

impl Default for Settings {
    /// No folder configured.
    fn default() -> (r: Settings)
        ensures
            r.folder_path is None,
    {
        Settings { folder_path: None }
    }
}

impl Settings {
    /// Settings with `path` as the notes folder.
    pub fn new(path: String) -> (r: Settings)
        ensures
            r.folder_path == Some(path),
    {
        Settings { folder_path: Some(path) }
    }
}

} // verus!
