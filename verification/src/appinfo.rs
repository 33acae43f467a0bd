//! Small checks on paths and directories: how the program was installed,
//! whether a directory is a Scoop root, how many manifests a bucket holds.

use crate::text::{chars_of, contains, contains_text, has_prefix, matches_at, opt_str, opt_text, str_eq, string_of, to_lowercase, unicode_lower};
use crate::strings::{trim, trimmed};
use vstd::prelude::*;
use vstd::string::*;

verus! {

// ---------------------------------------------------------------------------
// How the program runs
// ---------------------------------------------------------------------------

/// Whether a path of the running program lies in a Scoop installation: its
/// lower-case form holds `scoop`, `apps` and `rscoop`.
pub open spec fn in_scoop_installation(exe_path: Option<Seq<char>>) -> bool {
    match exe_path {
        Some(path) => {
            let lower = unicode_lower(path);
            contains_text(lower, "scoop"@) && contains_text(lower, "apps"@) && contains_text(
                lower,
                "rscoop"@,
            )
        },
        None => false,
    }
}

/// Whether the program was installed by Scoop, judged by the path of its
/// executable; `None` stands for a path that could not be had.
pub fn is_scoop_installation(exe_path: Option<&str>) -> (r: bool)
    ensures
        r == in_scoop_installation(opt_str(exe_path)),
{
    match exe_path {
        Some(path) => {
            let lower = to_lowercase(path);
            contains(lower.as_str(), "scoop") && contains(lower.as_str(), "apps") && contains(
                lower.as_str(),
                "rscoop",
            )
        },
        None => false,
    }
}

/// The prefix that marks an extended-length path.
pub open spec fn long_path_prefix() -> Seq<char> {
    seq!['\\', '\\', '?', '\\']
}

/// A path without the prefix of extended-length paths.
pub open spec fn plain_path(path: Seq<char>) -> Seq<char> {
    if has_prefix(path, long_path_prefix()) {
        path.skip(4)
    } else {
        path
    }
}

/// Returns the path without the prefix of extended-length paths.
pub fn normalize_path(path: &str) -> (r: String)
    ensures
        r@ == plain_path(path@),
{
    let chars = chars_of(path);
    let mut prefix: Vec<char> = Vec::new();
    prefix.push('\\');
    prefix.push('\\');
    prefix.push('?');
    prefix.push('\\');
    assert(prefix@ =~= long_path_prefix());
    if matches_at(&chars, &prefix, 0) {
        let r = string_of(&chars, 4, chars.len());
        r
    } else {
        let r = string_of(&chars, 0, chars.len());
        r
    }
}

/// Whether the working directory is another than the directory of the
/// executable, compared without the prefix of extended-length paths and
/// without regard to case.
pub open spec fn cwd_mismatch(exe_dir: Option<Seq<char>>, cwd: Option<Seq<char>>) -> bool {
    match (exe_dir, cwd) {
        (Some(exe), Some(dir)) => unicode_lower(plain_path(exe)) != unicode_lower(plain_path(dir)),
        _ => false,
    }
}

/// Whether the program runs in another directory than the one it is
/// installed in. Where either directory is not known the answer is `false`.
pub fn is_cwd_mismatch(exe_dir: Option<&str>, cwd: Option<&str>) -> (r: bool)
    ensures
        r == cwd_mismatch(opt_str(exe_dir), opt_str(cwd)),
{
    match exe_dir {
        Some(exe) => match cwd {
            Some(dir) => {
                let a = to_lowercase(normalize_path(exe).as_str());
                let b = to_lowercase(normalize_path(dir).as_str());
                !str_eq(a.as_str(), b.as_str())
            },
            None => false,
        },
        None => false,
    }
}

// ---------------------------------------------------------------------------
// Directories
// ---------------------------------------------------------------------------

/// What was found of a directory that may be a Scoop root.
#[derive(Debug, Clone, Copy)]
pub struct ScoopDirectory {
    pub is_dir: bool,
    pub apps_is_dir: bool,
    pub buckets_is_dir: bool,
    pub cache_is_dir: bool,
}

/// Whether the directory is a complete Scoop root: a directory with the
/// subdirectories `apps`, `buckets` and `cache`.
pub fn validate_scoop_directory(directory: &ScoopDirectory) -> (r: bool)
    ensures
        r == (directory.is_dir && directory.apps_is_dir && directory.buckets_is_dir
            && directory.cache_is_dir),
{
    directory.is_dir && directory.apps_is_dir && directory.buckets_is_dir && directory.cache_is_dir
}

/// One entry of a bucket directory.
#[derive(Debug)]
pub struct FileEntry {
    /// The file name; `None` where it is not valid Unicode.
    pub file_name: Option<String>,
    /// The extension of the file name; `None` where there is none or it is
    /// not valid Unicode.
    pub extension: Option<String>,
    pub is_file: bool,
}

/// Whether the entry is a JSON file.
pub open spec fn is_json_file(entry: FileEntry) -> bool {
    entry.is_file && opt_text(entry.extension) == Some("json"@)
}

/// Whether an entry at the top of a bucket is a manifest: a JSON file with a
/// Unicode name that does not begin with a dot and is not `bucket.json`.
pub open spec fn is_root_manifest(entry: FileEntry) -> bool {
    is_json_file(entry) && (match entry.file_name {
        Some(name) => !has_prefix(name@, "."@) && name@ != "bucket.json"@,
        None => false,
    })
}

/// The number of entries that satisfy `counts`.
pub open spec fn count_of(entries: Seq<FileEntry>, counts: spec_fn(FileEntry) -> bool) -> nat
    decreases entries.len(),
{
    if entries.len() == 0 {
        0
    } else {
        count_of(entries.drop_last(), counts) + (if counts(entries.last()) {
            1nat
        } else {
            0nat
        })
    }
}

/// The number of manifests of a bucket: those at its top and all JSON files
/// under `bucket/`.
pub open spec fn manifest_count(root: Seq<FileEntry>, nested: Seq<FileEntry>) -> nat {
    count_of(root, |e: FileEntry| is_root_manifest(e)) + count_of(
        nested,
        |e: FileEntry| is_json_file(e),
    )
}

proof fn lemma_count_bound(entries: Seq<FileEntry>, counts: spec_fn(FileEntry) -> bool)
    ensures
        count_of(entries, counts) <= entries.len(),
    decreases entries.len(),
{
    if entries.len() > 0 {
        lemma_count_bound(entries.drop_last(), counts);
    }
}

fn json_file(entry: &FileEntry) -> (r: bool)
    ensures
        r == is_json_file(*entry),
{
    entry.is_file && (match &entry.extension {
        Some(ext) => str_eq(ext.as_str(), "json"),
        None => false,
    })
}

fn root_manifest(entry: &FileEntry) -> (r: bool)
    ensures
        r == is_root_manifest(*entry),
{
    if !json_file(entry) {
        return false;
    }
    match &entry.file_name {
        Some(name) => {
            let chars = chars_of(name.as_str());
            let dot = chars_of(".");
            !matches_at(&chars, &dot, 0) && !str_eq(name.as_str(), "bucket.json")
        },
        None => false,
    }
}

/// Counts the manifests of a bucket. `root` are the entries at the top of
/// the bucket and `nested` those under `bucket/`; either is empty where the
/// directory is missing or cannot be read. A count above `u32::MAX` is
/// given as `u32::MAX`.
pub fn count_manifests(root: &Vec<FileEntry>, nested: &Vec<FileEntry>) -> (r: u32)
    ensures
        r == (if manifest_count(root@, nested@) <= u32::MAX {
            manifest_count(root@, nested@)
        } else {
            u32::MAX as nat
        }),
{
    let ghost at_root = |e: FileEntry| is_root_manifest(e);
    let ghost below = |e: FileEntry| is_json_file(e);
    let mut count: u64 = 0;
    let mut k: usize = 0;
    while k < root.len()
        invariant
            k <= root.len(),
            at_root == (|e: FileEntry| is_root_manifest(e)),
            count == count_of(root@.take(k as int), at_root),
            count <= k,
        decreases root.len() - k,
    {
        proof {
            let now = root@.take(k + 1);
            assert(now.drop_last() =~= root@.take(k as int));
        }
        if root_manifest(&root[k]) {
            count += 1;
        }
        k += 1;
    }
    assert(root@.take(root.len() as int) =~= root@);
    let mut more: u64 = 0;
    let mut j: usize = 0;
    while j < nested.len()
        invariant
            j <= nested.len(),
            below == (|e: FileEntry| is_json_file(e)),
            more == count_of(nested@.take(j as int), below),
            more <= j,
        decreases nested.len() - j,
    {
        proof {
            let now = nested@.take(j + 1);
            assert(now.drop_last() =~= nested@.take(j as int));
        }
        if json_file(&nested[j]) {
            more += 1;
        }
        j += 1;
    }
    assert(nested@.take(nested.len() as int) =~= nested@);
    let total: u128 = (count as u128) + (more as u128);
    if total <= 0xffff_ffff {
        total as u32
    } else {
        0xffff_ffff
    }
}

// ---------------------------------------------------------------------------
// Launching an app
// ---------------------------------------------------------------------------

/// How an app is started.
#[derive(Debug, Clone, Copy, PartialEq, Eq, Structural)]
pub struct LaunchPlan {
    /// Whether the app is started in the working directory that was asked
    /// for, and not in that of the caller.
    pub use_working_directory: bool,
}

/// The message for a target that is not there.
pub open spec fn target_missing_message(target: Seq<char>) -> Seq<char> {
    "Target executable not found: "@ + target
}

/// Checks a request to start an app before anything is started. The target
/// must be named and exist; a working directory that is empty or missing is
/// passed over.
pub fn launch_scoop_app(
    target_path: &str,
    target_exists: bool,
    working_directory: &str,
    working_directory_exists: bool,
) -> (r: Result<LaunchPlan, String>)
    ensures
        match r {
            Ok(plan) => target_path@.len() > 0 && target_exists && plan.use_working_directory == (
            working_directory@.len() > 0 && working_directory_exists),
            Err(message) => if target_path@.len() == 0 {
                message@ == "No target path specified for app launch"@
            } else {
                !target_exists && message@ == target_missing_message(target_path@)
            },
        },
{
    if target_path.is_empty() {
        return Err("No target path specified for app launch".to_owned());
    }
    if !target_exists {
        let mut message = "Target executable not found: ".to_owned();
        message.append(target_path);
        return Err(message);
    }
    Ok(
        LaunchPlan {
            use_working_directory: !working_directory.is_empty() && working_directory_exists,
        },
    )
}

// ---------------------------------------------------------------------------
// The version that runs
// ---------------------------------------------------------------------------

/// Whether the version that runs is another than the recorded one. The
/// record is read without the white space around it; an empty record is
/// that of no version.
pub fn is_new_version(recorded: &str, current: &str) -> (r: bool)
    ensures
        r == (trimmed(recorded@) != current@),
{
    !str_eq(trim(recorded).as_str(), current)
}

} // verus!
