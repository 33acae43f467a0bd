//! What is shown of an installed bucket.

use crate::appinfo::{count_manifests, manifest_count, FileEntry};
use crate::probe::FileStat;
use crate::text::{opt_text};
use vstd::prelude::*;
use vstd::string::*;

verus! {

/// An installed bucket.
#[derive(Debug)]
pub struct BucketInfo {
    pub name: String,
    pub path: String,
    pub manifest_count: u32,
    pub is_git_repo: bool,
    /// The address of the remote `origin`.
    pub git_url: Option<String>,
    /// The branch that is checked out.
    pub git_branch: Option<String>,
    /// The time at which the directory was last modified.
    pub last_updated: Option<String>,
}

/// The UTC time that lies `secs` seconds and `nanos` nanoseconds after the
/// Unix epoch, written as `YYYY-MM-DD hh:mm:ss UTC` by `chrono`; `None`
/// where `chrono` cannot represent that time.
pub uninterp spec fn utc_clock_text(secs: i64, nanos: u32) -> Option<Seq<char>>;

/// Writes a Unix time as date and time of day in UTC.
///
/// Trusted: calls `chrono::DateTime::<Utc>::from_timestamp`, which returns
/// `None` for a time out of its range and does not panic, and writes what it
/// returned with `DateTime::format` and the pattern `%Y-%m-%d %H:%M:%S UTC`,
/// which holds no item that can fail. Both depend on their arguments alone;
/// the contract only gives the text its name, `utc_clock_text`.
#[verifier::external_body]
fn clock_text(secs: i64, nanos: u32) -> (r: Option<String>)
    ensures
        opt_text(r) == utc_clock_text(secs, nanos),
{
    match chrono::DateTime::<chrono::Utc>::from_timestamp(secs, nanos) {
        Some(time) => Some(time.format("%Y-%m-%d %H:%M:%S UTC").to_string()),
        None => None,
    }
}

/// The text that records when a bucket was last modified; none where the
/// time is not known or cannot be written.
pub open spec fn last_updated_text(stat: Option<FileStat>) -> Option<Seq<char>> {
    match stat {
        Some(s) => match s.modified {
            Some(t) => utc_clock_text(t.secs, t.nanos),
            None => None,
        },
        None => None,
    }
}

/// Writes the time at which a directory was last modified.
pub fn get_last_updated(stat: &Option<FileStat>) -> (r: Option<String>)
    ensures
        opt_text(r) == last_updated_text(*stat),
{
    match stat {
        Some(s) => match s.modified {
            Some(t) => clock_text(t.secs, t.nanos),
            None => None,
        },
        None => None,
    }
}

/// What was found of a bucket directory.
#[derive(Debug)]
pub struct BucketProbe {
    /// The name of the directory; `None` where it is not valid Unicode.
    pub name: Option<String>,
    pub path: String,
    /// Metadata of the directory.
    pub stat: Option<FileStat>,
    /// The entries at the top of the bucket.
    pub root: Vec<FileEntry>,
    /// The entries under `bucket/`; empty where there is no such directory.
    pub nested: Vec<FileEntry>,
    /// Whether the directory holds `.git`.
    pub has_git_dir: bool,
    /// The address of the remote `origin`, where the repository gives one.
    pub git_url: Option<String>,
    /// The branch that is checked out, where the repository gives one.
    pub git_branch: Option<String>,
}

/// Why a directory is no bucket.
#[derive(Debug, Clone, Copy, PartialEq, Eq, Structural)]
pub enum BucketInfoError {
    /// The name of the directory is not valid Unicode.
    InvalidName,
    /// The path is no directory.
    NotADirectory,
}

impl BucketProbe {
    /// Whether the path is a directory.
    pub open spec fn is_dir(&self) -> bool {
        self.stat matches Some(s) && s.is_dir
    }

    /// The number of manifests, `u32::MAX` at most.
    pub open spec fn counted_manifests(&self) -> u32 {
        if manifest_count(self.root@, self.nested@) <= u32::MAX {
            manifest_count(self.root@, self.nested@) as u32
        } else {
            u32::MAX
        }
    }
}

/// Whether a directory is a Git repository.
pub fn is_git_repo(probe: &BucketProbe) -> (r: bool)
    ensures
        r == probe.has_git_dir,
{
    probe.has_git_dir
}

/// Describes a bucket from what was found of its directory. What the
/// repository says counts only where there is a `.git` directory.
pub fn load_bucket_info(probe: &BucketProbe) -> (r: Result<BucketInfo, BucketInfoError>)
    ensures
        match r {
            Ok(info) => {
                &&& probe.name is Some
                &&& probe.is_dir()
                &&& info.name@ == probe.name->0@
                &&& info.path@ == probe.path@
                &&& info.manifest_count == probe.counted_manifests()
                &&& info.is_git_repo == probe.has_git_dir
                &&& opt_text(info.git_url) == (if probe.has_git_dir {
                    opt_text(probe.git_url)
                } else {
                    None
                })
                &&& opt_text(info.git_branch) == (if probe.has_git_dir {
                    opt_text(probe.git_branch)
                } else {
                    None
                })
                &&& opt_text(info.last_updated) == last_updated_text(probe.stat)
            },
            Err(e) => if probe.name is None {
                e == BucketInfoError::InvalidName
            } else {
                !probe.is_dir() && e == BucketInfoError::NotADirectory
            },
        },
{
    let name = match &probe.name {
        Some(name) => name.clone(),
        None => {
            return Err(BucketInfoError::InvalidName);
        },
    };
    let is_dir = match probe.stat {
        Some(s) => s.is_dir,
        None => false,
    };
    if !is_dir {
        return Err(BucketInfoError::NotADirectory);
    }
    let manifest_count = count_manifests(&probe.root, &probe.nested);
    let is_git = is_git_repo(probe);
    let git_url = if is_git {
        match &probe.git_url {
            Some(url) => Some(url.clone()),
            None => None,
        }
    } else {
        None
    };
    let git_branch = if is_git {
        match &probe.git_branch {
            Some(branch) => Some(branch.clone()),
            None => None,
        }
    } else {
        None
    };
    Ok(
        BucketInfo {
            name,
            path: probe.path.clone(),
            manifest_count,
            is_git_repo: is_git,
            git_url,
            git_branch,
            last_updated: get_last_updated(&probe.stat),
        },
    )
}

} // verus!
