//! The registry side of the installer: request locations, rate-limit
//! handling and the selection of a compatible release.

use vstd::prelude::*;
use vstd::string::*;
use crate::model::is_usable;
pub use crate::model::{ModrinthDependency, ModrinthFile, ModrinthModInfo, ModrinthModVersion};
use crate::text::contains_text;

verus! {

/// Base location of the registry's API.
pub open spec fn api_spec() -> Seq<char> {
    "https://api.modrinth.com/v2"@
}

/// Location of a project's description.
pub open spec fn mod_info_spec(project: Seq<char>) -> Seq<char> {
    api_spec() + "/project/"@ + project
}

/// Location of one release of a project.
pub open spec fn version_info_spec(project: Seq<char>, version: Seq<char>) -> Seq<char> {
    api_spec() + "/project/"@ + project + "/version/"@ + version
}

/// Constructs a URL for the Modrinth API.
/// Specifically targets the information about a mod.
pub fn mod_info(project: String) -> (r: String)
    ensures
        r@ == mod_info_spec(project@),
{
    let mut r = String::from_str("https://api.modrinth.com/v2");
    r.append("/project/");
    r.append(project.as_str());
    r
}

/// Constructs a URL for the Modrinth API.
/// Specifically targets the information about a mod's version.
pub fn version_info(info: ModrinthModInfo, version: String) -> (r: String)
    ensures
        r@ == version_info_spec(info.id@, version@),
{
    let mut r = String::from_str("https://api.modrinth.com/v2");
    r.append("/project/");
    r.append(info.id.as_str());
    r.append("/version/");
    r.append(version.as_str());
    r
}

/// Whether `version` supports `game_version` and the loader.
pub fn is_compatible(version: &ModrinthModVersion, game_version: &String) -> (r: bool)
    ensures
        r == is_usable(*version, game_version@),
{
    let loader = String::from_str("fabric");
    contains_text(&version.game_versions, game_version) && contains_text(&version.loaders, &loader)
}

} // verus!
