//! The records that the installer reads from its manifest and from the
//! registry, as plain values.

use vstd::prelude::*;
use crate::text::holds_text;

verus! {

/// The mod pack manifest.
#[derive(Clone, Debug)]
pub struct ModPackDescriptor {
    pub name: String,
    pub version: String,
    pub loader: String,
    pub folder: String,
    pub target: String,
    pub fabric: String,
    pub mods: Vec<String>,
    pub external: Vec<External>,
}

/// A file of the pack that is fetched from a plain URL.
#[derive(Clone, Debug)]
pub struct External {
    pub url: String,
    pub file: String,
    pub extract: Option<String>,
}

/// Where artifacts go and which game version they must support.
#[derive(Clone, Debug)]
pub struct Target {
    pub file_path: String,
    pub target_version: String,
}

/// A project as the registry describes it.
#[derive(Clone, Debug)]
pub struct ModrinthModInfo {
    pub id: String,
    pub title: String,
    pub client_side: String,
    pub server_side: String,
    /// Release identifiers, oldest first.
    pub versions: Vec<String>,
}

/// One release of a project.
#[derive(Clone, Debug)]
pub struct ModrinthModVersion {
    pub project_id: Option<String>,
    pub files: Vec<ModrinthFile>,
    pub dependencies: Vec<ModrinthDependency>,
    pub game_versions: Vec<String>,
    pub loaders: Vec<String>,
}

/// A downloadable file of a release.
#[derive(Clone, Debug)]
pub struct ModrinthFile {
    pub url: String,
    pub filename: String,
}

/// A dependency edge of a release.
#[derive(Clone, Debug)]
pub struct ModrinthDependency {
    pub project_id: String,
    pub dependency_type: String,
}

/// The one loader that releases must declare.
pub open spec fn loader_spec() -> Seq<char> {
    "fabric"@
}

/// The release that stands for "nothing compatible".
pub open spec fn is_empty_release(v: ModrinthModVersion) -> bool {
    &&& v.project_id is None
    &&& v.files@.len() == 0
    &&& v.dependencies@.len() == 0
    &&& v.game_versions@.len() == 0
    &&& v.loaders@.len() == 0
}

/// A release is usable when it supports the game version and the loader.
pub open spec fn is_usable(v: ModrinthModVersion, game_version: Seq<char>) -> bool {
    holds_text(v.game_versions@, game_version) && holds_text(v.loaders@, loader_spec())
}

impl ModrinthModVersion {
    /// The sentinel release: no owner, no files, no dependencies, no support.
    pub fn empty() -> (r: Self)
        ensures
            is_empty_release(r),
    {
        ModrinthModVersion {
            project_id: None,
            files: Vec::new(),
            dependencies: Vec::new(),
            game_versions: Vec::new(),
            loaders: Vec::new(),
        }
    }
}

} // verus!
