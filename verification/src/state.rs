//! The state that the package commands share: the resolved Scoop root, the
//! cache of installed packages, the cache of version listings that depends on
//! it, and the time of the last forced refresh.
//!
//! The state is a plain value with one owner. A host that shares it between
//! tasks puts it behind locks of its own.

use crate::models::{PackageView, ScoopPackage};
use crate::text::str_eq;
use vstd::prelude::*;
use vstd::string::*;

verus! {

// ---------------------------------------------------------------------------
// Installed packages
// ---------------------------------------------------------------------------

/// The result of the last scan, with the fingerprint it was made under.
#[derive(Debug)]
pub struct InstalledPackagesCache {
    pub packages: Vec<ScoopPackage>,
    pub fingerprint: String,
}

/// The mathematical value of an `InstalledPackagesCache`.
pub struct InstalledView {
    pub packages: Seq<PackageView>,
    pub fingerprint: Seq<char>,
}

impl View for InstalledPackagesCache {
    type V = InstalledView;

    open spec fn view(&self) -> InstalledView {
        InstalledView { packages: self.packages.deep_view(), fingerprint: self.fingerprint@ }
    }
}

/// Copies a list of packages.
pub fn clone_packages(packages: &Vec<ScoopPackage>) -> (r: Vec<ScoopPackage>)
    ensures
        r.deep_view() == packages.deep_view(),
{
    let mut out: Vec<ScoopPackage> = Vec::new();
    let mut k: usize = 0;
    while k < packages.len()
        invariant
            k <= packages.len(),
            out.len() == k,
            forall|i: int| 0 <= i < k ==> out@[i]@ == packages@[i]@,
        decreases packages.len() - k,
    {
        out.push(packages[k].clone());
        k += 1;
    }
    out
}

/// Copies a list of strings.
pub fn clone_strings(strings: &Vec<String>) -> (r: Vec<String>)
    ensures
        r.deep_view() == strings.deep_view(),
{
    let mut out: Vec<String> = Vec::new();
    let mut k: usize = 0;
    while k < strings.len()
        invariant
            k <= strings.len(),
            out.len() == k,
            forall|i: int| 0 <= i < k ==> out@[i]@ == strings@[i]@,
        decreases strings.len() - k,
    {
        out.push(strings[k].clone());
        k += 1;
    }
    out
}

impl Clone for InstalledPackagesCache {
    fn clone(&self) -> (r: Self)
        ensures
            r@ == self@,
    {
        InstalledPackagesCache {
            packages: clone_packages(&self.packages),
            fingerprint: self.fingerprint.clone(),
        }
    }
}

// ---------------------------------------------------------------------------
// Version listings
// ---------------------------------------------------------------------------

/// The version directories of one package.
#[derive(Debug)]
pub struct VersionsEntry {
    pub name: String,
    pub versions: Vec<String>,
}

/// The mathematical value of a `VersionsEntry`.
pub struct VersionsEntryView {
    pub name: Seq<char>,
    pub versions: Seq<Seq<char>>,
}

impl View for VersionsEntry {
    type V = VersionsEntryView;

    open spec fn view(&self) -> VersionsEntryView {
        VersionsEntryView { name: self.name@, versions: self.versions.deep_view() }
    }
}

impl DeepView for VersionsEntry {
    type V = VersionsEntryView;

    open spec fn deep_view(&self) -> VersionsEntryView {
        self@
    }
}

impl Clone for VersionsEntry {
    fn clone(&self) -> (r: Self)
        ensures
            r@ == self@,
    {
        VersionsEntry { name: self.name.clone(), versions: clone_strings(&self.versions) }
    }
}

/// The index of the first entry for `name`.
pub open spec fn entry_index(entries: Seq<VersionsEntryView>, name: Seq<char>) -> Option<int>
    decreases entries.len(),
{
    if entries.len() == 0 {
        None
    } else {
        match entry_index(entries.drop_last(), name) {
            Some(i) => Some(i),
            None => if entries.last().name == name {
                Some(entries.len() - 1)
            } else {
                None
            },
        }
    }
}

/// What `entry_index` selects: the entry for `name` that has none before it.
pub proof fn lemma_entry_index(entries: Seq<VersionsEntryView>, name: Seq<char>)
    ensures
        match entry_index(entries, name) {
            Some(i) => {
                &&& 0 <= i < entries.len()
                &&& entries[i].name == name
                &&& forall|j: int| 0 <= j < i ==> (#[trigger] entries[j]).name != name
            },
            None => forall|j: int| 0 <= j < entries.len() ==> (#[trigger] entries[j]).name != name,
        },
    decreases entries.len(),
{
    if entries.len() > 0 {
        let init = entries.drop_last();
        lemma_entry_index(init, name);
        assert(forall|j: int| 0 <= j < init.len() ==> init[j] == entries[j]);
    }
}

/// An entry index is the index of the first entry with that name, and
/// conversely.
pub proof fn lemma_entry_index_is(entries: Seq<VersionsEntryView>, name: Seq<char>, i: int)
    requires
        0 <= i < entries.len(),
        entries[i].name == name,
        forall|j: int| 0 <= j < i ==> (#[trigger] entries[j]).name != name,
    ensures
        entry_index(entries, name) == Some(i),
{
    lemma_entry_index(entries, name);
}

/// The versions stored for `name`.
pub open spec fn lookup_versions(entries: Seq<VersionsEntryView>, name: Seq<char>) -> Option<
    Seq<Seq<char>>,
> {
    match entry_index(entries, name) {
        Some(i) => Some(entries[i].versions),
        None => None,
    }
}

/// The entries after `versions` were stored for `name`: the entry for `name`
/// replaced where there is one, else a new entry at the end.
pub open spec fn with_versions(
    entries: Seq<VersionsEntryView>,
    name: Seq<char>,
    versions: Seq<Seq<char>>,
) -> Seq<VersionsEntryView> {
    match entry_index(entries, name) {
        Some(i) => entries.update(i, VersionsEntryView { name, versions }),
        None => entries.push(VersionsEntryView { name, versions }),
    }
}

/// Whether no two entries are for the same name.
pub open spec fn entries_distinct(entries: Seq<VersionsEntryView>) -> bool {
    forall|i: int, j: int|
        0 <= i < j < entries.len() ==> (#[trigger] entries[i]).name != (#[trigger] entries[j]).name
}

/// Storing versions makes them the versions of that name, leaves every other
/// name as it was, and keeps the names distinct.
pub proof fn lemma_with_versions(
    entries: Seq<VersionsEntryView>,
    name: Seq<char>,
    versions: Seq<Seq<char>>,
    other: Seq<char>,
)
    ensures
        lookup_versions(with_versions(entries, name, versions), name) == Some(versions),
        other != name ==> lookup_versions(with_versions(entries, name, versions), other)
            == lookup_versions(entries, other),
        entries_distinct(entries) ==> entries_distinct(with_versions(entries, name, versions)),
{
    let after = with_versions(entries, name, versions);
    lemma_entry_index(entries, name);
    lemma_entry_index(entries, other);
    match entry_index(entries, name) {
        Some(i) => {
            lemma_entry_index_is(after, name, i);
        },
        None => {
            lemma_entry_index_is(after, name, entries.len() as int);
        },
    }
    if other != name {
        match entry_index(entries, other) {
            Some(i) => {
                lemma_entry_index_is(after, other, i);
            },
            None => {
                lemma_entry_index(after, other);
            },
        }
    }
}

/// The version listings that were made under one fingerprint.
#[derive(Debug)]
pub struct PackageVersionsCache {
    /// The fingerprint of the installed-packages cache at the time.
    pub fingerprint: String,
    /// Package name to version directory names, one entry per name.
    pub versions_map: Vec<VersionsEntry>,
}

/// The mathematical value of a `PackageVersionsCache`.
pub struct VersionsView {
    pub fingerprint: Seq<char>,
    pub entries: Seq<VersionsEntryView>,
}

impl View for PackageVersionsCache {
    type V = VersionsView;

    open spec fn view(&self) -> VersionsView {
        VersionsView { fingerprint: self.fingerprint@, entries: self.versions_map.deep_view() }
    }
}

impl Clone for PackageVersionsCache {
    fn clone(&self) -> (r: Self)
        ensures
            r@ == self@,
    {
        let mut entries: Vec<VersionsEntry> = Vec::new();
        let mut k: usize = 0;
        while k < self.versions_map.len()
            invariant
                k <= self.versions_map.len(),
                entries.len() == k,
                forall|i: int| 0 <= i < k ==> entries@[i]@ == self.versions_map@[i]@,
            decreases self.versions_map.len() - k,
        {
            entries.push(self.versions_map[k].clone());
            k += 1;
        }
        assert(entries.deep_view() =~= self.versions_map.deep_view());
        PackageVersionsCache { fingerprint: self.fingerprint.clone(), versions_map: entries }
    }
}

/// Finds the versions stored for `name`.
pub fn find_versions<'a>(entries: &'a Vec<VersionsEntry>, name: &str) -> (r: Option<
    &'a Vec<String>,
>)
    ensures
        match r {
            Some(versions) => lookup_versions(entries.deep_view(), name@) == Some(
                versions.deep_view(),
            ),
            None => lookup_versions(entries.deep_view(), name@) is None,
        },
{
    match find_entry(entries, name) {
        Some(i) => Some(&entries[i].versions),
        None => None,
    }
}

fn find_entry(entries: &Vec<VersionsEntry>, name: &str) -> (r: Option<usize>)
    ensures
        match r {
            Some(i) => entry_index(entries.deep_view(), name@) == Some(i as int) && i
                < entries.len(),
            None => entry_index(entries.deep_view(), name@) is None,
        },
{
    let ghost all = entries.deep_view();
    let mut k: usize = 0;
    while k < entries.len()
        invariant
            k <= entries.len(),
            all == entries.deep_view(),
            forall|j: int| 0 <= j < k ==> (#[trigger] all[j]).name != name@,
        decreases entries.len() - k,
    {
        if str_eq(entries[k].name.as_str(), name) {
            proof {
                lemma_entry_index_is(all, name@, k as int);
            }
            return Some(k);
        }
        k += 1;
    }
    proof {
        lemma_entry_index(all, name@);
    }
    None
}

/// Stores `versions` as the versions of `name`. Entries that are for
/// distinct names stay so.
pub fn store_entry(entries: &mut Vec<VersionsEntry>, name: String, versions: Vec<String>)
    ensures
        final(entries).deep_view() == with_versions(
            old(entries).deep_view(),
            name@,
            versions.deep_view(),
        ),
        entries_distinct(old(entries).deep_view()) ==> entries_distinct(
            final(entries).deep_view(),
        ),
{
    let ghost before = entries.deep_view();
    let ghost after = with_versions(before, name@, versions.deep_view());
    proof {
        lemma_with_versions(before, name@, versions.deep_view(), name@);
    }
    match find_entry(entries, name.as_str()) {
        Some(i) => {
            entries.set(i, VersionsEntry { name, versions });
        },
        None => {
            entries.push(VersionsEntry { name, versions });
        },
    }
    assert(entries.deep_view() =~= after);
}

// ---------------------------------------------------------------------------
// The state
// ---------------------------------------------------------------------------

/// The shared state of the package commands.
#[derive(Debug)]
pub struct AppState {
    /// The resolved path of the Scoop root.
    pub scoop_path: String,
    /// The list of installed packages with its fingerprint; `None` until the
    /// first scan and after every invalidation.
    pub installed_packages: Option<InstalledPackagesCache>,
    /// The version listings; they count only while their fingerprint is that
    /// of `installed_packages`.
    pub package_versions: Option<PackageVersionsCache>,
    /// Time of the last forced refresh, in milliseconds since the Unix epoch;
    /// `None` before the first one.
    pub last_refresh_time: Option<u64>,
}

/// The mathematical value of an `AppState`.
pub struct AppStateView {
    pub scoop_path: Seq<char>,
    pub installed: Option<InstalledView>,
    pub versions: Option<VersionsView>,
    pub last_refresh_time: Option<u64>,
}

/// Whether the versions cache holds at most one listing for each package.
/// Every function of the library that changes the state keeps this.
pub open spec fn versions_distinct(s: AppStateView) -> bool {
    match s.versions {
        Some(cache) => entries_distinct(cache.entries),
        None => true,
    }
}

impl View for AppState {
    type V = AppStateView;

    open spec fn view(&self) -> AppStateView {
        AppStateView {
            scoop_path: self.scoop_path@,
            installed: match self.installed_packages {
                Some(cache) => Some(cache@),
                None => None,
            },
            versions: match self.package_versions {
                Some(cache) => Some(cache@),
                None => None,
            },
            last_refresh_time: self.last_refresh_time,
        }
    }
}

/// The length of the window, in milliseconds, in which a second forced
/// refresh is answered from the cache.
pub const DEBOUNCE_MS: u64 = 1000;

/// Whether a forced refresh at `now` falls into the window that the refresh
/// at `last` opened. No window is open before the first refresh.
pub open spec fn in_debounce_window(last: Option<u64>, now: u64) -> bool {
    match last {
        Some(then) => (if now >= then {
            now - then
        } else {
            0
        }) < DEBOUNCE_MS,
        None => false,
    }
}

impl AppState {
    /// Creates the state for a Scoop root, with both caches empty.
    pub fn new(initial_scoop_path: String) -> (r: Self)
        ensures
            r@ == (AppStateView {
                scoop_path: initial_scoop_path@,
                installed: None,
                versions: None,
                last_refresh_time: None,
            }),
    {
        AppState {
            scoop_path: initial_scoop_path,
            installed_packages: None,
            package_versions: None,
            last_refresh_time: None,
        }
    }

    /// Returns the current Scoop root.
    pub fn scoop_path(&self) -> (r: String)
        ensures
            r@ == self@.scoop_path,
    {
        self.scoop_path.clone()
    }

    /// Replaces the Scoop root and leaves the caches as they are.
    pub fn set_scoop_path(&mut self, new_path: String)
        ensures
            final(self)@ == (AppStateView { scoop_path: new_path@, ..old(self)@ }),
    {
        self.scoop_path = new_path;
    }

    /// Returns the time of the last forced refresh, in milliseconds; `None`
    /// where there was none yet.
    pub fn last_refresh_time(&self) -> (r: Option<u64>)
        ensures
            r == self@.last_refresh_time,
    {
        self.last_refresh_time
    }

    /// Records `now_ms` as the time of the last forced refresh.
    pub fn update_refresh_time(&mut self, now_ms: u64)
        ensures
            final(self)@ == (AppStateView { last_refresh_time: Some(now_ms), ..old(self)@ }),
    {
        self.last_refresh_time = Some(now_ms);
    }

    /// Whether a forced refresh at `now_ms` comes less than a second after
    /// the last one and is to be answered from the cache.
    pub fn should_debounce_refresh(&self, now_ms: u64) -> (r: bool)
        ensures
            r == in_debounce_window(self@.last_refresh_time, now_ms),
    {
        match self.last_refresh_time {
            Some(last_refresh) => now_ms.saturating_sub(last_refresh) < DEBOUNCE_MS,
            None => false,
        }
    }
}

} // verus!
