//! What the automatic cleanup removes.

use crate::models::{PackageView, ScoopPackage};
use crate::probe::current_marker;
use crate::text::{join_strings, join_texts, opt_text, sort_strings, sorted_texts, str_eq};
use vstd::prelude::*;
use vstd::string::*;

verus! {

/// The settings of the automatic cleanup.
#[derive(Debug, Clone, Copy)]
pub struct CleanupSettings {
    pub auto_cleanup_enabled: bool,
    pub cleanup_old_versions: bool,
    pub cleanup_cache: bool,
    /// The number of versions of a package that are kept.
    pub preserve_version_count: usize,
}

/// One entry of a package directory, as a listing gives it.
#[derive(Debug)]
pub struct DirEntry {
    pub name: String,
    /// Whether the entry itself is a directory; a link to one is none.
    pub is_dir: bool,
}

/// The name that an entry contributes to the versions of a package: none for
/// the `current` marker and for what is no directory.
pub open spec fn version_entry(entry: DirEntry) -> Seq<Seq<char>> {
    if entry.is_dir && entry.name@ != current_marker() {
        seq![entry.name@]
    } else {
        Seq::empty()
    }
}

/// The names of the directories of a package other than `current`, in
/// listing order.
pub open spec fn version_entries(entries: Seq<DirEntry>) -> Seq<Seq<char>>
    decreases entries.len(),
{
    if entries.len() == 0 {
        Seq::empty()
    } else {
        version_entries(entries.drop_last()) + version_entry(entries.last())
    }
}

/// The versions that are removed so that `keep` remain: of the sorted
/// names, all but the last `keep`.
pub open spec fn versions_to_remove(entries: Seq<DirEntry>, keep: nat) -> Seq<Seq<char>> {
    let names = version_entries(entries);
    if names.len() > keep {
        sorted_texts(names).take(names.len() - keep)
    } else {
        Seq::empty()
    }
}

/// Returns the version directories to remove so that at most `keep_count`
/// remain. The versions are compared as texts, and the smallest go first.
pub fn get_versions_to_remove(entries: &Vec<DirEntry>, keep_count: usize) -> (r: Vec<String>)
    ensures
        r.deep_view() == versions_to_remove(entries@, keep_count as nat),
{
    let mut names: Vec<String> = Vec::new();
    let mut k: usize = 0;
    while k < entries.len()
        invariant
            k <= entries.len(),
            names.deep_view() == version_entries(entries@.take(k as int)),
        decreases entries.len() - k,
    {
        proof {
            let now = entries@.take(k + 1);
            assert(now.drop_last() =~= entries@.take(k as int));
            reveal_strlit("current");
            assert("current"@ =~= current_marker());
        }
        if entries[k].is_dir && !str_eq(entries[k].name.as_str(), "current") {
            names.push(entries[k].name.clone());
        }
        k += 1;
    }
    assert(entries@.take(entries.len() as int) =~= entries@);
    let count = names.len();
    if count > keep_count {
        let ghost unsorted = names.deep_view();
        let mut sorted = sort_strings(names);
        proof {
            crate::text::lemma_sorted_texts(unsorted);
        }
        sorted.truncate(count - keep_count);
        sorted
    } else {
        let nothing: Vec<String> = Vec::new();
        nothing
    }
}

/// The name that a package contributes to the cleanup: none for a versioned
/// install, which is left alone.
pub open spec fn regular_name(package: PackageView) -> Seq<Seq<char>> {
    if package.is_versioned_install {
        Seq::empty()
    } else {
        seq![package.name]
    }
}

/// The names of the packages that are no versioned installs, in their order.
pub open spec fn regular_names(packages: Seq<PackageView>) -> Seq<Seq<char>>
    decreases packages.len(),
{
    if packages.len() == 0 {
        Seq::empty()
    } else {
        regular_names(packages.drop_last()) + regular_name(packages.last())
    }
}

/// Returns the names of the packages that the cleanup may touch: all but the
/// versioned installs.
pub fn regular_packages(packages: &Vec<ScoopPackage>) -> (r: Vec<String>)
    ensures
        r.deep_view() == regular_names(packages.deep_view()),
{
    let ghost all = packages.deep_view();
    let mut names: Vec<String> = Vec::new();
    let mut k: usize = 0;
    while k < packages.len()
        invariant
            k <= packages.len(),
            all == packages.deep_view(),
            names.deep_view() == regular_names(all.take(k as int)),
        decreases packages.len() - k,
    {
        proof {
            let now = all.take(k + 1);
            assert(now.drop_last() =~= all.take(k as int));
        }
        if !packages[k].is_versioned_install {
            names.push(packages[k].name.clone());
        }
        k += 1;
    }
    assert(all.take(packages.len() as int) =~= all);
    names
}

/// The command that cleans the download cache of the named packages.
pub open spec fn cache_cleanup_line(names: Seq<Seq<char>>) -> Seq<char> {
    "scoop cleanup "@ + join_texts(names, " "@) + " --cache"@
}

/// What an automatic cleanup does.
#[derive(Debug)]
pub struct CleanupPlan {
    /// The packages whose old versions are removed.
    pub version_cleanup: Vec<String>,
    /// The number of versions of each that are kept.
    pub keep_count: usize,
    /// The command that cleans the cache, where the cache is cleaned.
    pub cache_command: Option<String>,
}

/// Plans an automatic cleanup of the installed packages. Nothing is done
/// where the cleanup is switched off or only versioned installs are there.
pub fn run_auto_cleanup(settings: &CleanupSettings, installed: &Vec<ScoopPackage>) -> (r:
    CleanupPlan)
    ensures
        r.keep_count == settings.preserve_version_count,
        r.version_cleanup.deep_view() == (if settings.auto_cleanup_enabled
            && settings.cleanup_old_versions {
            regular_names(installed.deep_view())
        } else {
            Seq::empty()
        }),
        opt_text(r.cache_command) == (if settings.auto_cleanup_enabled && settings.cleanup_cache
            && regular_names(installed.deep_view()).len() > 0 {
            Some(cache_cleanup_line(regular_names(installed.deep_view())))
        } else {
            None
        }),
{
    let nothing: Vec<String> = Vec::new();
    if !settings.auto_cleanup_enabled {
        return CleanupPlan {
            version_cleanup: nothing,
            keep_count: settings.preserve_version_count,
            cache_command: None,
        };
    }
    let regular = regular_packages(installed);
    let cache_command = if settings.cleanup_cache && regular.len() > 0 {
        let mut command = "scoop cleanup ".to_owned();
        command.append(join_strings(&regular, " ").as_str());
        command.append(" --cache");
        Some(command)
    } else {
        None
    };
    let version_cleanup = if settings.cleanup_old_versions {
        regular
    } else {
        nothing
    };
    CleanupPlan { version_cleanup, keep_count: settings.preserve_version_count, cache_command }
}

} // verus!
