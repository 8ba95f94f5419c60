//! Asking for the project's manifest. The search itself is done outside this
//! crate; here it is decided where the search starts and what a failed
//! search means.

use vstd::prelude::*;
use crate::text::text_of;

verus! {

/// Where the manifest is looked for.
#[derive(Clone, Debug, PartialEq, Eq)]
pub enum Locate {
    /// At the path given on the command line, whatever the working directory.
    Given(String),
    /// Upward from the working directory, to the nearest manifest.
    FromWorkingDirectory,
}

pub ghost enum LocateView {
    Given(Seq<char>),
    FromWorkingDirectory,
}

impl View for Locate {
    type V = LocateView;

    open spec fn view(&self) -> LocateView {
        match *self {
            Locate::Given(path) => LocateView::Given(path@),
            Locate::FromWorkingDirectory => LocateView::FromWorkingDirectory,
        }
    }
}

/// The search that a `--manifest-path` option asks for: at the path if one
/// was given, from the working directory otherwise.
pub open spec fn locate_of(manifest_path: Option<Seq<char>>) -> LocateView {
    match manifest_path {
        Some(path) => LocateView::Given(path),
        None => LocateView::FromWorkingDirectory,
    }
}

/// What a search found: the project root, or the message of the failure.
pub open spec fn found_view(found: Result<String, String>) -> Result<Seq<char>, Seq<char>> {
    match found {
        Ok(root) => Ok(root@),
        Err(message) => Err(message@),
    }
}

impl Locate {
    /// Decides where to look for the manifest.
    pub fn new(manifest_path: &Option<String>) -> (locate: Locate)
        ensures
            locate@ == locate_of(text_of(*manifest_path)),
    {
        match manifest_path {
            Some(path) => Locate::Given(path.clone()),
            None => Locate::FromWorkingDirectory,
        }
    }
}

} // verus!
