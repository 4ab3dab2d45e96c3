//! Reports handed to the presentation layer about the application's files.

use vstd::prelude::*;

verus! {

/// What the start-up routine reports once the character model is in place.
#[derive(Clone, Debug, PartialEq, Eq)]
pub struct InitStatus {
    pub ready: bool,
    pub message: String,
    pub models_path: String,
}

impl InitStatus {
    /// The report of a finished start-up, for models stored under `models_path`.
    pub fn ready_at(models_path: String) -> (r: InitStatus)
        ensures
            r.ready,
            r.message@ == "Ready"@,
            r.models_path == models_path,
    {
        InitStatus { ready: true, message: String::from_str("Ready"), models_path }
    }
}

/// A file's path together with whether the file is there.
#[derive(Clone, Debug, PartialEq, Eq)]
pub struct Probe {
    pub path: String,
    pub exists: bool,
}

impl Probe {
    /// The path, if the file is there.
    pub open spec fn found(self) -> Option<String> {
        if self.exists {
            Some(self.path)
        } else {
            None
        }
    }

    fn into_found(self) -> (r: Option<String>)
        ensures
            r == self.found(),
    {
        if self.exists {
            Some(self.path)
        } else {
            None
        }
    }
}

/// Where the character's two texture sheets are, in their current and their
/// original form. A path is reported only for a file that exists.
#[derive(Clone, Debug, PartialEq, Eq)]
pub struct TexturePaths {
    pub current_00: Option<String>,
    pub current_01: Option<String>,
    pub original_00: Option<String>,
    pub original_01: Option<String>,
    pub has_original: bool,
}

impl TexturePaths {
    /// Assembles the report from the four probed files. Originals count as
    /// present when the first original sheet is.
    pub fn from_probes(
        current_00: Probe,
        current_01: Probe,
        original_00: Probe,
        original_01: Probe,
    ) -> (r: TexturePaths)
        ensures
            r.current_00 == current_00.found(),
            r.current_01 == current_01.found(),
            r.original_00 == original_00.found(),
            r.original_01 == original_01.found(),
            r.has_original == original_00.exists,
    {
        let has_original = original_00.exists;
        TexturePaths {
            current_00: current_00.into_found(),
            current_01: current_01.into_found(),
            original_00: original_00.into_found(),
            original_01: original_01.into_found(),
            has_original,
        }
    }
}

} // verus!
