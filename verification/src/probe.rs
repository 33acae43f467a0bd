//! What a scan of the file system found, as plain values.
//!
//! The library never touches the disk. A host lists directories and queries
//! metadata, writes the answers into the types of this module, and every
//! decision is then taken here, on those values.

use crate::text::str_eq;
use vstd::prelude::*;
use vstd::string::*;

verus! {

/// A modification time: whole seconds since the Unix epoch, rounded down, and
/// the nanoseconds above them. Times before the epoch have negative `secs`.
#[derive(Debug, Clone, Copy)]
pub struct FileTime {
    pub secs: i64,
    pub nanos: u32,
}

/// The answer to a metadata query on an existing path.
#[derive(Debug, Clone, Copy)]
pub struct FileStat {
    pub is_dir: bool,
    /// `None` where the platform gave no modification time.
    pub modified: Option<FileTime>,
}

/// Milliseconds from the epoch to `t`; `0` for a time before the epoch.
pub open spec fn millis_of(t: FileTime) -> nat {
    if t.secs >= 0 {
        (t.secs * 1000 + t.nanos / 1_000_000) as nat
    } else {
        0
    }
}

/// The modification stamp of a path: its modification time in milliseconds,
/// `0` where the path is missing or has no usable time.
pub open spec fn stat_millis(stat: Option<FileStat>) -> nat {
    match stat {
        Some(s) => match s.modified {
            Some(t) => millis_of(t),
            None => 0,
        },
        None => 0,
    }
}

/// Whether the path exists and is a directory.
pub open spec fn stat_is_dir(stat: Option<FileStat>) -> bool {
    stat matches Some(s) && s.is_dir
}

/// Modification stamp of a path, in milliseconds.
pub fn get_path_modification_time(stat: &Option<FileStat>) -> (r: u128)
    ensures
        r == stat_millis(*stat),
{
    match stat {
        Some(s) => match s.modified {
            Some(t) => {
                if t.secs >= 0 {
                    (t.secs as u128) * 1000 + ((t.nanos / 1_000_000) as u128)
                } else {
                    0
                }
            },
            None => 0,
        },
        None => 0,
    }
}

/// The name of the marker that selects the active version.
pub open spec fn current_marker() -> Seq<char> {
    seq!['c', 'u', 'r', 'r', 'e', 'n', 't']
}

/// One entry of a package directory: a version directory, the `current`
/// marker, or anything else that lies there.
#[derive(Debug, Clone)]
pub struct VersionDir {
    /// The entry's file name.
    pub name: String,
    /// Metadata of the entry itself; `None` where it is missing.
    pub dir: Option<FileStat>,
    /// Metadata of `install.json` inside the entry.
    pub install_json: Option<FileStat>,
    /// Metadata of the package manifest inside the entry.
    pub manifest_json: Option<FileStat>,
}

impl VersionDir {
    /// Whether the entry is a directory.
    pub open spec fn is_dir(&self) -> bool {
        stat_is_dir(self.dir)
    }

    /// Whether the entry holds one of the two per-version metadata files.
    pub open spec fn has_metadata(&self) -> bool {
        self.install_json is Some || self.manifest_json is Some
    }

    /// Whether the entry bears the marker's name, letter for letter.
    pub open spec fn is_marker(&self) -> bool {
        self.name@ == current_marker()
    }

    /// Whether the entry can be chosen as the active version when the marker
    /// is absent.
    pub open spec fn is_candidate(&self) -> bool {
        self.is_dir() && !self.is_marker() && self.has_metadata()
    }

    /// When the entry itself was last modified, in milliseconds.
    pub open spec fn modified(&self) -> nat {
        stat_millis(self.dir)
    }

    /// The stamp by which the entry goes into a fingerprint: the time of
    /// `install.json`, else of the package manifest, else of the directory
    /// itself.
    pub open spec fn stamp(&self) -> nat {
        if self.install_json is Some {
            stat_millis(self.install_json)
        } else if self.manifest_json is Some {
            stat_millis(self.manifest_json)
        } else {
            stat_millis(self.dir)
        }
    }
}

/// Whether a directory looks like an installed version: it holds
/// the package manifest or `install.json`.
pub fn is_version_directory(entry: &VersionDir) -> (r: bool)
    ensures
        r == entry.has_metadata(),
{
    entry.manifest_json.is_some() || entry.install_json.is_some()
}

/// Modification stamp of an installation directory, in milliseconds.
pub fn get_install_modification_time(entry: &VersionDir) -> (r: u128)
    ensures
        r == entry.stamp(),
{
    if entry.install_json.is_some() {
        get_path_modification_time(&entry.install_json)
    } else if entry.manifest_json.is_some() {
        get_path_modification_time(&entry.manifest_json)
    } else {
        get_path_modification_time(&entry.dir)
    }
}

fn stat_dir(stat: &Option<FileStat>) -> (r: bool)
    ensures
        r == stat_is_dir(*stat),
{
    match stat {
        Some(s) => s.is_dir,
        None => false,
    }
}

/// Whether `entry` can stand in for a missing marker.
pub fn is_candidate_version(entry: &VersionDir) -> (r: bool)
    ensures
        r == entry.is_candidate(),
{
    if !stat_dir(&entry.dir) {
        return false;
    }
    proof {
        reveal_strlit("current");
        assert("current"@ =~= current_marker());
    }
    if str_eq(entry.name.as_str(), "current") {
        return false;
    }
    is_version_directory(entry)
}

/// One directory under the apps root, with what a metadata pass found in it.
#[derive(Debug, Clone)]
pub struct PackageDir {
    /// The directory's name; `None` where it is not valid Unicode.
    pub name: Option<String>,
    /// Metadata of the directory itself.
    pub dir: Option<FileStat>,
    /// The entry named `current`; all its fields are `None` where there is none.
    pub current: VersionDir,
    /// The entries of the directory, in the order in which they were listed.
    pub entries: Vec<VersionDir>,
}

/// Which directory holds the active version of a package.
#[derive(Debug, Clone, Copy, PartialEq, Eq, Structural)]
pub enum ActiveVersion {
    /// The `current` marker.
    Current,
    /// The marker is absent; the entry at this index was modified last.
    LatestVersion(usize),
    /// Neither the marker nor a usable version directory exists.
    Absent,
}

/// The index of the candidate entry that was modified last; among entries
/// modified at the same time the one listed first.
pub open spec fn latest_version(entries: Seq<VersionDir>) -> Option<int>
    decreases entries.len(),
{
    if entries.len() == 0 {
        None
    } else {
        let k = entries.len() - 1;
        let before = latest_version(entries.drop_last());
        if !entries[k].is_candidate() {
            before
        } else {
            match before {
                Some(i) => if entries[k].modified() > entries[i].modified() {
                    Some(k)
                } else {
                    before
                },
                None => Some(k),
            }
        }
    }
}

/// What `latest_version` selects: nothing where no entry is a candidate, else
/// a candidate than which none was modified later, and before which none was
/// modified at the same time.
pub proof fn lemma_latest_version(entries: Seq<VersionDir>)
    ensures
        match latest_version(entries) {
            Some(i) => {
                &&& 0 <= i < entries.len()
                &&& entries[i].is_candidate()
                &&& forall|j: int|
                    0 <= j < entries.len() && (#[trigger] entries[j]).is_candidate()
                        ==> entries[j].modified() <= entries[i].modified()
                &&& forall|j: int|
                    0 <= j < i && (#[trigger] entries[j]).is_candidate() ==> entries[j].modified()
                        < entries[i].modified()
            },
            None => forall|j: int| 0 <= j < entries.len() ==> !(#[trigger] entries[j]).is_candidate(),
        },
    decreases entries.len(),
{
    if entries.len() > 0 {
        let init = entries.drop_last();
        lemma_latest_version(init);
        assert(forall|j: int| 0 <= j < init.len() ==> init[j] == entries[j]);
    }
}

/// The active version of a package directory.
pub open spec fn active_version(p: PackageDir) -> ActiveVersion {
    if p.current.is_dir() {
        ActiveVersion::Current
    } else {
        match latest_version(p.entries@) {
            Some(i) => ActiveVersion::LatestVersion(i as usize),
            None => ActiveVersion::Absent,
        }
    }
}

/// Returns the most recently modified version directory of a package, for use
/// when the `current` marker is missing.
pub fn find_latest_version_dir(entries: &Vec<VersionDir>) -> (r: Option<usize>)
    ensures
        match r {
            Some(i) => latest_version(entries@) == Some(i as int),
            None => latest_version(entries@) is None,
        },
{
    let mut best: Option<usize> = None;
    let mut best_time: u128 = 0;
    let mut k: usize = 0;
    while k < entries.len()
        invariant
            k <= entries.len(),
            match best {
                Some(i) => latest_version(entries@.take(k as int)) == Some(i as int) && i < k
                    && best_time == entries@[i as int].modified(),
                None => latest_version(entries@.take(k as int)) is None,
            },
        decreases entries.len() - k,
    {
        proof {
            let now = entries@.take(k + 1);
            assert(now.drop_last() =~= entries@.take(k as int));
        }
        if is_candidate_version(&entries[k]) {
            let time = get_path_modification_time(&entries[k].dir);
            match best {
                Some(_) => {
                    if time > best_time {
                        best = Some(k);
                        best_time = time;
                    }
                },
                None => {
                    best = Some(k);
                    best_time = time;
                },
            }
        }
        k += 1;
    }
    assert(entries@.take(entries.len() as int) =~= entries@);
    best
}

/// Chooses the directory that holds the active version: the `current` marker
/// where it is a directory, else the latest version directory.
pub fn locate_install_dir(package: &PackageDir) -> (r: ActiveVersion)
    ensures
        r == active_version(*package),
{
    if stat_dir(&package.current.dir) {
        ActiveVersion::Current
    } else {
        match find_latest_version_dir(&package.entries) {
            Some(i) => ActiveVersion::LatestVersion(i),
            None => ActiveVersion::Absent,
        }
    }
}

/// The modification stamp that stands for a package in the fingerprint: that
/// of its active version, or of the package directory where it has none.
pub open spec fn package_stamp(p: PackageDir) -> nat {
    match active_version(p) {
        ActiveVersion::Current => p.current.stamp(),
        ActiveVersion::LatestVersion(i) => p.entries@[i as int].stamp(),
        ActiveVersion::Absent => stat_millis(p.dir),
    }
}

/// Computes `package_stamp`.
pub fn get_package_stamp(package: &PackageDir) -> (r: u128)
    ensures
        r == package_stamp(*package),
{
    proof {
        lemma_latest_version(package.entries@);
    }
    match locate_install_dir(package) {
        ActiveVersion::Current => get_install_modification_time(&package.current),
        ActiveVersion::LatestVersion(i) => get_install_modification_time(&package.entries[i]),
        ActiveVersion::Absent => get_path_modification_time(&package.dir),
    }
}

} // verus!
