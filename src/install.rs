//! The installer's own decisions around the registry work: where the pack
//! goes, what each extra file needs, where a missing manifest can be fetched
//! from, and the launcher profile of the pack.

use vstd::prelude::*;
use vstd::string::*;
use crate::model::{External, ModPackDescriptor};
use crate::text::{
    after_last, before_first, contains_text, has_char, has_suffix, holds_text, is_suffix,
    prefix_before, suffix_after,
};

verus! {

/// `dir` followed by `/` and `name`.
pub open spec fn join_spec(dir: Seq<char>, name: Seq<char>) -> Seq<char> {
    dir + "/"@ + name
}

/// The path of `name` inside `dir`.
pub fn join_path(dir: &str, name: &str) -> (r: String)
    ensures
        r@ == join_spec(dir@, name@),
{
    let mut r = String::from_str(dir);
    r.append("/");
    r.append(name);
    r
}

/// Whether the command line asks for a server install.
pub fn server_requested(args: &Vec<String>) -> (r: bool)
    ensures
        r == holds_text(args@, "-server"@),
{
    let flag = String::from_str("-server");
    contains_text(args, &flag)
}

/// What to do for one extra file of the pack.
#[derive(Debug)]
pub struct ExternalPlan {
    /// A directory to create first, when the file lies below one.
    pub dir: Option<String>,
    /// Where the file is stored.
    pub path: String,
    /// Where to unpack it afterwards, for a `.zip` archive with a target.
    pub extract_to: Option<String>,
}

/// Plans the download of `external` into the pack directory `pack_dir`.
pub fn external_plan(pack_dir: &String, external: &External) -> (r: ExternalPlan)
    ensures
        r.path@ == join_spec(pack_dir@, external.file@),
        external.file@.contains('/') ==> (r.dir matches Some(d) && d@ == join_spec(
            pack_dir@,
            before_first(external.file@, '/'),
        )),
        !external.file@.contains('/') ==> r.dir is None,
        (is_suffix(".zip"@, external.file@) && external.extract is Some) ==> (r.extract_to matches Some(
            e,
        ) && e@ == join_spec(pack_dir@, external.extract->0@)),
        !(is_suffix(".zip"@, external.file@) && external.extract is Some) ==> r.extract_to is None,
{
    let file = external.file.as_str();
    let dir = if has_char(file, '/') {
        let first = prefix_before(file, '/');
        Some(join_path(pack_dir.as_str(), first.as_str()))
    } else {
        None
    };
    let path = join_path(pack_dir.as_str(), file);
    let extract_to = match &external.extract {
        Some(e) => if has_suffix(file, ".zip") {
            Some(join_path(pack_dir.as_str(), e.as_str()))
        } else {
            None
        },
        None => None,
    };
    ExternalPlan { dir, path, extract_to }
}

/// `s` with every `.exe` removed, scanning left to right.
pub open spec fn strip_exe(s: Seq<char>) -> Seq<char>
    decreases s.len(),
{
    if s.len() == 0 {
        s
    } else if s.len() >= 4 && s.take(4) == ".exe"@ {
        strip_exe(s.skip(4))
    } else {
        seq![s[0]] + strip_exe(s.skip(1))
    }
}

/// The character that stands for `c` in a location spelled as a file name:
/// `-` for `/` and `;` for `:`.
pub open spec fn unspell(c: char) -> char {
    if c == '-' {
        '/'
    } else if c == ';' {
        ':'
    } else {
        c
    }
}

/// The location that an executable's path spells: the file name (after the
/// last `\`) without `.exe`, with `-` read as `/` and `;` as `:`.
pub open spec fn location_from_exe(path: Seq<char>) -> Seq<char> {
    after_last(strip_exe(path), '\\').map_values(|c: char| unspell(c))
}

fn remove_exe(s: &str) -> (r: String)
    ensures
        r@ == strip_exe(s@),
{
    proof {
        reveal_strlit(".exe");
    }
    let n = s.unicode_len();
    let mut out = String::new();
    let mut i: usize = 0;
    assert(s@.skip(0) =~= s@);
    assert(out@ + strip_exe(s@.skip(0)) =~= strip_exe(s@));
    while i < n
        invariant
            n == s@.len(),
            i <= n,
            out@ + strip_exe(s@.skip(i as int)) == strip_exe(s@),
        decreases n - i,
    {
        let ghost rest = s@.skip(i as int);
        proof {
            reveal_strlit(".exe");
        }
        if n - i >= 4 && s.get_char(i) == '.' && s.get_char(i + 1) == 'e' && s.get_char(i + 2) == 'x'
            && s.get_char(i + 3) == 'e' {
            assert(rest.take(4) =~= ".exe"@);
            assert(rest.skip(4) =~= s@.skip(i + 4));
            i = i + 4;
        } else {
            assert(rest.take(4) != ".exe"@ || rest.len() < 4) by {
                if rest.len() >= 4 && rest.take(4) == ".exe"@ {
                    assert(rest.take(4)[0] == '.');
                    assert(rest.take(4)[1] == 'e');
                    assert(rest.take(4)[2] == 'x');
                    assert(rest.take(4)[3] == 'e');
                }
            }
            let ghost before = out@;
            out.append(s.substring_char(i, i + 1));
            assert(rest.skip(1) =~= s@.skip(i + 1));
            assert(s@.subrange(i as int, i + 1) =~= seq![rest[0]]);
            assert(out@ + strip_exe(s@.skip(i + 1)) =~= before + (seq![rest[0]] + strip_exe(rest.skip(1))));
            i = i + 1;
        }
    }
    assert(s@.skip(n as int) =~= Seq::<char>::empty());
    assert(out@ =~= out@ + strip_exe(s@.skip(n as int)));
    out
}

fn unspell_all(s: &str) -> (r: String)
    ensures
        r@ == s@.map_values(|c: char| unspell(c)),
{
    let n = s.unicode_len();
    let mut out = String::new();
    let mut i: usize = 0;
    while i < n
        invariant
            n == s@.len(),
            i <= n,
            out@ == s@.take(i as int).map_values(|c: char| unspell(c)),
        decreases n - i,
    {
        let c = s.get_char(i);
        let ghost before = out@;
        proof {
            reveal_strlit("/");
            reveal_strlit(":");
        }
        if c == '-' {
            out.append("/");
        } else if c == ';' {
            out.append(":");
        } else {
            out.append(s.substring_char(i, i + 1));
        }
        assert(s@.take(i + 1) =~= s@.take(i as int).push(c));
        assert(out@ =~= before.push(unspell(c)));
        assert(out@ =~= s@.take(i + 1).map_values(|c: char| unspell(c)));
        i = i + 1;
    }
    assert(s@.take(n as int) =~= s@);
    out
}

/// The location of the manifest that the executable's own path spells, for
/// an executable renamed after where its manifest lives.
pub fn location_from_exe_path(path: &str) -> (r: String)
    ensures
        r@ == location_from_exe(path@),
{
    let stripped = remove_exe(path);
    let name = suffix_after(stripped.as_str(), '\\');
    unspell_all(name.as_str())
}

/// The entry that the launcher lists for the pack.
#[derive(Clone, Debug)]
pub struct LauncherProfile {
    pub name: String,
    pub last_version_id: String,
    pub game_dir: String,
    pub icon: String,
    pub java_args: String,
}

/// The pack's icon, as a data URL.
pub open spec fn icon_spec() -> Seq<char> {
    "data:image/png;base64,iVBORw0KGgoAAAANSUhEUgAAAIAAAACABAMAAAAxEHz4AAAAGFBMVEUAAAA4NCrb0LTGvKW8spyAem2uppSakn5SsnMLAAAAAXRSTlMAQObYZgAAAJ5JREFUaIHt1MENgCAMRmFWYAVXcAVXcAVXcH3bhCYNkYjcKO8dSf7v1JASUWdZAlgb0PEmDSMAYYBdGkYApgf8ER3SbwRgesAf0BACMD1gB6S9IbkEEBfwY49oNj4lgLhA64C0o9R9RABTAvp4SX5kB2TA5y8EEAK4pRrxB9QcA4QBWkj3GCAMUCO/xwBhAI/kEsCagCHDY4AwAC3VA6t4zTAMj0OJAAAAAElFTkSuQmCC"@
}

/// The Java options the pack runs with.
pub open spec fn java_args_spec() -> Seq<char> {
    "-Xmx4G -XX:+UnlockExperimentalVMOptions -XX:+UseG1GC -XX:G1NewSizePercent=20 -XX:G1ReservePercent=20 -XX:MaxGCPauseMillis=50 -XX:G1HeapRegionSize=32M"@
}

/// The launcher entry for `modpack` installed in `pack_dir`: named after the
/// pack, starting its loader's version, playing in the pack directory.
pub fn launcher_profile(modpack: &ModPackDescriptor, pack_dir: &String) -> (r: LauncherProfile)
    ensures
        r.name@ == modpack.name@,
        r.last_version_id@ == modpack.loader@,
        r.game_dir@ == pack_dir@,
        r.icon@ == icon_spec(),
        r.java_args@ == java_args_spec(),
{
    LauncherProfile {
        name: modpack.name.clone(),
        last_version_id: modpack.loader.clone(),
        game_dir: pack_dir.clone(),
        icon: String::from_str(
            "data:image/png;base64,iVBORw0KGgoAAAANSUhEUgAAAIAAAACABAMAAAAxEHz4AAAAGFBMVEUAAAA4NCrb0LTGvKW8spyAem2uppSakn5SsnMLAAAAAXRSTlMAQObYZgAAAJ5JREFUaIHt1MENgCAMRmFWYAVXcAVXcAVXcH3bhCYNkYjcKO8dSf7v1JASUWdZAlgb0PEmDSMAYYBdGkYApgf8ER3SbwRgesAf0BACMD1gB6S9IbkEEBfwY49oNj4lgLhA64C0o9R9RABTAvp4SX5kB2TA5y8EEAK4pRrxB9QcA4QBWkj3GCAMUCO/xwBhAI/kEsCagCHDY4AwAC3VA6t4zTAMj0OJAAAAAElFTkSuQmCC",
        ),
        java_args: String::from_str(
            "-Xmx4G -XX:+UnlockExperimentalVMOptions -XX:+UseG1GC -XX:G1NewSizePercent=20 -XX:G1ReservePercent=20 -XX:MaxGCPauseMillis=50 -XX:G1HeapRegionSize=32M",
        ),
    }
}

} // verus!
