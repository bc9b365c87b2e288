//! Where a selected release's artifact goes, and whether it must be fetched.

use vstd::prelude::*;
use vstd::string::*;
use crate::model::{ModrinthModVersion, Target};

verus! {

/// What percent-decoding a file name gives: `None` when the decoded bytes are
/// not UTF-8.
pub uninterp spec fn percent_decoded(s: Seq<char>) -> Option<Seq<char>>;

/// Relies on `percent_encoding::percent_decode_str` followed by
/// `PercentDecode::decode_utf8`: each `%` with two hex digits becomes that byte,
/// and the bytes are read as UTF-8, which fails when they are not UTF-8. Input
/// without `%` passes through unchanged.
#[verifier::external_body]
fn percent_decode(s: &str) -> (r: Option<String>)
    ensures
        r is None <==> percent_decoded(s@) is None,
        r is Some ==> percent_decoded(s@) == Some(r->0@),
        !s@.contains('%') ==> (r is Some && r->0@ == s@),
{
    match percent_encoding::percent_decode_str(s).decode_utf8() {
        Ok(d) => Some(d.into_owned()),
        Err(_) => None,
    }
}

/// How a release is stored.
#[derive(Debug)]
pub enum SavePlan {
    /// The release has no file: nothing to store.
    Skip,
    /// The first file of the release goes from `url` to `path`.
    Download { url: String, path: String },
    /// The first file's name does not decode to text.
    BadName,
}

/// A plan in terms of character sequences.
pub enum PlanModel {
    Skip,
    Download(Seq<char>, Seq<char>),
    BadName,
}

impl SavePlan {
    pub open spec fn model(&self) -> PlanModel {
        match self {
            SavePlan::Skip => PlanModel::Skip,
            SavePlan::Download { url, path } => PlanModel::Download(url@, path@),
            SavePlan::BadName => PlanModel::BadName,
        }
    }
}

/// The place of an artifact named `name` under the pack directory `dir`.
pub open spec fn mod_path_spec(dir: Seq<char>, name: Seq<char>) -> Seq<char> {
    dir + "/mods/"@ + name
}

/// The plan for storing `v` under the pack directory `dir`.
pub open spec fn save_plan_spec(dir: Seq<char>, v: ModrinthModVersion) -> PlanModel {
    if v.files@.len() == 0 {
        PlanModel::Skip
    } else {
        match percent_decoded(v.files@[0].filename@) {
            Some(name) => PlanModel::Download(v.files@[0].url@, mod_path_spec(dir, name)),
            None => PlanModel::BadName,
        }
    }
}

/// The place of the artifact whose decoded file name is `file_name`.
pub fn artifact_path(target: &Target, file_name: &str) -> (r: String)
    ensures
        r@ == mod_path_spec(target.file_path@, file_name@),
{
    let mut r = target.file_path.clone();
    r.append("/mods/");
    r.append(file_name);
    r
}

/// Plans the storage of `version`: only its first file is used, under its
/// percent-decoded name in the `mods` directory of the target.
pub fn plan_save(target: &Target, version: &ModrinthModVersion) -> (r: SavePlan)
    ensures
        r.model() == save_plan_spec(target.file_path@, *version),
{
    if version.files.len() < 1 {
        return SavePlan::Skip;
    }
    let file = &version.files[0];
    match percent_decode(file.filename.as_str()) {
        Some(name) => {
            let path = artifact_path(target, name.as_str());
            SavePlan::Download { url: file.url.clone(), path }
        },
        None => SavePlan::BadName,
    }
}

/// Whether carrying out `plan` takes a download, given whether its
/// destination is already `present`.
pub fn needs_download(plan: &SavePlan, present: bool) -> (r: bool)
    ensures
        r == (plan.model() is Download && !present),
{
    match plan {
        SavePlan::Download { .. } => !present,
        _ => false,
    }
}

/// Carrying out a plan on a disk that holds the files `disk`: the files held
/// afterwards, and whether the network was used.
pub open spec fn save_effect(disk: Set<Seq<char>>, plan: PlanModel) -> (Set<Seq<char>>, bool) {
    match plan {
        PlanModel::Download(_url, path) => if disk.contains(path) {
            (disk, false)
        } else {
            (disk.insert(path), true)
        },
        _ => (disk, false),
    }
}

/// Storing a release twice is storing it once: the second time the file is
/// already there, nothing changes and the network is not used.
pub proof fn lemma_save_idempotent(disk: Set<Seq<char>>, dir: Seq<char>, v: ModrinthModVersion)
    ensures
        ({
            let plan = save_plan_spec(dir, v);
            let first = save_effect(disk, plan);
            save_effect(first.0, plan) == (first.0, false)
        }),
{
    let plan = save_plan_spec(dir, v);
    if let PlanModel::Download(_u, p) = plan {
        assert(save_effect(disk, plan).0.contains(p));
    }
}

/// A release without files is skipped without touching disk or network.
pub proof fn lemma_empty_release_skipped(disk: Set<Seq<char>>, dir: Seq<char>, v: ModrinthModVersion)
    requires
        v.files@.len() == 0,
    ensures
        save_plan_spec(dir, v) == PlanModel::Skip,
        save_effect(disk, save_plan_spec(dir, v)) == (disk, false),
{
}

} // verus!
