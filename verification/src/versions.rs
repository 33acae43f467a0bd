//! The installed versions of a package, and the cache of version listings.
//!
//! A listing is kept under the fingerprint of the installed-packages cache
//! and counts only while that cache still has the same fingerprint, so that
//! whatever invalidates the one invalidates the other.

use crate::probe::{current_marker, VersionDir};
use crate::sorting::{
    lemma_stable_sort_permutation, lemma_stable_sort_sorted, relation, sort_by, stable_sort, Order,
};
use crate::state::{
    clone_strings, find_versions, lemma_with_versions, lookup_versions,
    store_entry, versions_distinct, with_versions, AppState, AppStateView, PackageVersionsCache,
    VersionsEntry, VersionsEntryView, VersionsView,
};
use crate::text::{
    lemma_text_order_total, sort_strings, sorted_texts, str_eq, str_le, text_le, text_order,
};
use vstd::multiset::*;
use vstd::prelude::*;
use vstd::relations::*;
use vstd::seq_lib::*;
use vstd::string::*;

verus! {

// ---------------------------------------------------------------------------
// Reading the cache
// ---------------------------------------------------------------------------

/// The listings that count: those of a versions cache whose fingerprint is
/// that of the installed-packages cache.
pub open spec fn valid_listings(s: AppStateView) -> Option<Seq<VersionsEntryView>> {
    match (s.versions, s.installed) {
        (Some(versions), Some(installed)) => if versions.fingerprint == installed.fingerprint {
            Some(versions.entries)
        } else {
            None
        },
        _ => None,
    }
}

/// The cached versions of a package, where a listing of it counts.
pub open spec fn cached_versions_of(s: AppStateView, name: Seq<char>) -> Option<Seq<Seq<char>>> {
    match valid_listings(s) {
        Some(entries) => lookup_versions(entries, name),
        None => None,
    }
}

fn valid_cache(state: &AppState) -> (r: Option<&PackageVersionsCache>)
    ensures
        match r {
            Some(cache) => valid_listings(state@) == Some(cache@.entries)
                && state.package_versions == Some(*cache),
            None => valid_listings(state@) is None,
        },
{
    match &state.package_versions {
        Some(versions) => match &state.installed_packages {
            Some(installed) => {
                if str_eq(installed.fingerprint.as_str(), versions.fingerprint.as_str()) {
                    Some(versions)
                } else {
                    None
                }
            },
            None => None,
        },
        None => None,
    }
}

/// Returns the cached version directories of a package, if a listing of it
/// is cached under the fingerprint of the installed-packages cache.
pub fn cached_versions(state: &AppState, package_name: &str) -> (r: Option<Vec<String>>)
    ensures
        match r {
            Some(versions) => cached_versions_of(state@, package_name@) == Some(
                versions.deep_view(),
            ),
            None => cached_versions_of(state@, package_name@) is None,
        },
{
    match valid_cache(state) {
        Some(cache) => match find_versions(&cache.versions_map, package_name) {
            Some(versions) => Some(clone_strings(versions)),
            None => None,
        },
        None => None,
    }
}

// ---------------------------------------------------------------------------
// Listing a package directory
// ---------------------------------------------------------------------------

impl VersionDir {
    /// Whether the entry is a version directory: a directory other than the
    /// `current` marker that holds a metadata file.
    pub open spec fn is_version(&self) -> bool {
        self.is_candidate()
    }
}

/// The name that an entry contributes to a listing.
pub open spec fn version_name(entry: VersionDir) -> Seq<Seq<char>> {
    if entry.is_version() {
        seq![entry.name@]
    } else {
        Seq::empty()
    }
}

/// The names of the version directories among `entries`, in their order.
pub open spec fn version_dir_names(entries: Seq<VersionDir>) -> Seq<Seq<char>>
    decreases entries.len(),
{
    if entries.len() == 0 {
        Seq::empty()
    } else {
        version_dir_names(entries.drop_last()) + version_name(entries.last())
    }
}

/// Lists the version directories of a package: the directories that are not
/// the `current` marker and hold the package manifest or `install.json`.
pub fn list_version_dirs(entries: &Vec<VersionDir>) -> (r: Vec<String>)
    ensures
        r.deep_view() == version_dir_names(entries@),
{
    let mut out: Vec<String> = Vec::new();
    let mut k: usize = 0;
    while k < entries.len()
        invariant
            k <= entries.len(),
            out.deep_view() == version_dir_names(entries@.take(k as int)),
        decreases entries.len() - k,
    {
        proof {
            let now = entries@.take(k + 1);
            assert(now.drop_last() =~= entries@.take(k as int));
            reveal_strlit("current");
            assert("current"@ =~= current_marker());
        }
        let entry = &entries[k];
        let is_dir = match entry.dir {
            Some(stat) => stat.is_dir,
            None => false,
        };
        if is_dir && !str_eq(entry.name.as_str(), "current") && (entry.manifest_json.is_some()
            || entry.install_json.is_some()) {
            out.push(entry.name.clone());
        }
        k += 1;
    }
    assert(entries@.take(entries.len() as int) =~= entries@);
    out
}

// ---------------------------------------------------------------------------
// Writing the cache
// ---------------------------------------------------------------------------

/// The state after the versions of `name` were listed. Without an
/// installed-packages cache nothing is kept. A versions cache of another
/// fingerprint is replaced by one that holds this listing alone.
pub open spec fn with_stored_versions(s: AppStateView, name: Seq<char>, versions: Seq<Seq<char>>)
    -> AppStateView {
    match s.installed {
        Some(installed) => AppStateView {
            versions: Some(
                VersionsView {
                    fingerprint: installed.fingerprint,
                    entries: match valid_listings(s) {
                        Some(entries) => with_versions(entries, name, versions),
                        None => seq![VersionsEntryView { name, versions }],
                    },
                },
            ),
            ..s
        },
        None => s,
    }
}

/// Keeps a listing of the versions of a package under the fingerprint of the
/// installed-packages cache.
pub fn store_versions(state: &mut AppState, package_name: String, versions: Vec<String>)
    ensures
        final(state)@ == with_stored_versions(old(state)@, package_name@, versions.deep_view()),
        versions_distinct(old(state)@) ==> versions_distinct(final(state)@),
{
    proof {
        if versions_distinct(state@) {
            lemma_stored_versions_distinct(state@, package_name@, versions.deep_view());
        }
    }
    let fingerprint = match &state.installed_packages {
        Some(installed) => installed.fingerprint.clone(),
        None => {
            return ;
        },
    };
    let reuse = valid_cache(state).is_some();
    if reuse {
        match &mut state.package_versions {
            Some(cache) => {
                store_entry(&mut cache.versions_map, package_name, versions);
            },
            None => {},
        }
    } else {
        let mut entries: Vec<VersionsEntry> = Vec::new();
        let ghost entry = VersionsEntryView { name: package_name@, versions: versions.deep_view() };
        entries.push(VersionsEntry { name: package_name, versions });
        assert(entries.deep_view() =~= seq![entry]);
        state.package_versions = Some(PackageVersionsCache { fingerprint, versions_map: entries });
    }
}

// ---------------------------------------------------------------------------
// The versions of one package
// ---------------------------------------------------------------------------

/// What was found of one package directory.
#[derive(Debug)]
pub struct PackageVersionsProbe {
    /// Whether the package directory exists.
    pub exists: bool,
    /// The entries of the directory, in listing order; empty where it could
    /// not be read.
    pub entries: Vec<VersionDir>,
}

/// The message for a package that has no directory.
pub open spec fn not_installed_message(name: Seq<char>) -> Seq<char> {
    "Package '"@ + name + "' is not installed"@
}

/// The versions of a package and the state that the lookup leaves: the cached
/// listing where one counts, else the listing of the package directory, which
/// is then cached.
pub open spec fn versions_lookup(s: AppStateView, name: Seq<char>, probe: PackageVersionsProbe) -> (
    AppStateView,
    Result<Seq<Seq<char>>, Seq<char>>,
) {
    match cached_versions_of(s, name) {
        Some(versions) => (s, Ok(versions)),
        None => if !probe.exists {
            (s, Err(not_installed_message(name)))
        } else {
            (
                with_stored_versions(s, name, version_dir_names(probe.entries@)),
                Ok(version_dir_names(probe.entries@)),
            )
        },
    }
}

/// Returns the names of the version directories of a package. `probe` is
/// looked at only where the cache does not answer.
pub fn get_package_versions(state: &mut AppState, package_name: &str, probe: &PackageVersionsProbe)
    -> (r: Result<Vec<String>, String>)
    ensures
        final(state)@ == versions_lookup(old(state)@, package_name@, *probe).0,
        versions_distinct(old(state)@) ==> versions_distinct(final(state)@),
        match r {
            Ok(versions) => versions_lookup(old(state)@, package_name@, *probe).1 == Ok::<
                Seq<Seq<char>>,
                Seq<char>,
            >(versions.deep_view()),
            Err(message) => versions_lookup(old(state)@, package_name@, *probe).1 == Err::<
                Seq<Seq<char>>,
                Seq<char>,
            >(message@),
        },
{
    match cached_versions(state, package_name) {
        Some(versions) => {
            return Ok(versions);
        },
        None => {},
    }
    if !probe.exists {
        let mut message = "Package '".to_owned();
        message.append(package_name);
        message.append("' is not installed");
        return Err(message);
    }
    let versions = list_version_dirs(&probe.entries);
    store_versions(state, package_name.to_owned(), clone_strings(&versions));
    Ok(versions)
}

/// A listing that was stored while the installed-packages cache is in place
/// answers the next lookup of that package; once the fingerprint of the
/// installed-packages cache has changed, or the caches were invalidated, it is
/// ignored and the package directory is listed again.
pub proof fn lemma_versions_follow_fingerprint(
    s: AppStateView,
    name: Seq<char>,
    versions: Seq<Seq<char>>,
    new_fingerprint: Seq<char>,
    new_packages: Seq<crate::models::PackageView>,
)
    requires
        s.installed is Some,
    ensures
        cached_versions_of(with_stored_versions(s, name, versions), name) == Some(versions),
        new_fingerprint != s.installed->0.fingerprint ==> cached_versions_of(
            crate::installed::stored(
                with_stored_versions(s, name, versions),
                new_fingerprint,
                new_packages,
            ),
            name,
        ) is None,
        cached_versions_of(
            crate::installed::invalidated(with_stored_versions(s, name, versions)),
            name,
        ) is None,
{
    match valid_listings(s) {
        Some(entries) => {
            lemma_with_versions(entries, name, versions, name);
        },
        None => {
            let one = seq![VersionsEntryView { name, versions }];
            assert(crate::state::entry_index(one.drop_last(), name) is None);
        },
    }
}

/// Storing a listing keeps the package names of the versions cache distinct.
pub proof fn lemma_stored_versions_distinct(
    s: AppStateView,
    name: Seq<char>,
    versions: Seq<Seq<char>>,
)
    requires
        versions_distinct(s),
    ensures
        versions_distinct(with_stored_versions(s, name, versions)),
{
    match valid_listings(s) {
        Some(entries) => {
            lemma_with_versions(entries, name, versions, name);
        },
        None => {},
    }
}

// ---------------------------------------------------------------------------
// Presenting the versions
// ---------------------------------------------------------------------------

/// One installed version of a package.
#[derive(Debug)]
pub struct PackageVersion {
    /// The name of the version directory.
    pub version: String,
    /// Whether the `current` marker points at this version.
    pub is_current: bool,
    pub install_path: String,
}

/// The mathematical value of a `PackageVersion`.
pub struct PackageVersionView {
    pub version: Seq<char>,
    pub is_current: bool,
    pub install_path: Seq<char>,
}

impl View for PackageVersion {
    type V = PackageVersionView;

    open spec fn view(&self) -> PackageVersionView {
        PackageVersionView {
            version: self.version@,
            is_current: self.is_current,
            install_path: self.install_path@,
        }
    }
}

impl DeepView for PackageVersion {
    type V = PackageVersionView;

    open spec fn deep_view(&self) -> PackageVersionView {
        self@
    }
}

impl Clone for PackageVersion {
    fn clone(&self) -> (r: Self)
        ensures
            r == *self,
    {
        PackageVersion {
            version: self.version.clone(),
            is_current: self.is_current,
            install_path: self.install_path.clone(),
        }
    }
}

/// The versions of a package, the current one first.
#[derive(Debug, Clone)]
pub struct VersionedPackageInfo {
    pub name: String,
    /// The version that the `current` marker points at; empty where there is
    /// no marker or it cannot be read.
    pub current_version: String,
    pub available_versions: Vec<PackageVersion>,
}

/// A version directory with its path.
#[derive(Debug)]
pub struct VersionPath {
    pub name: String,
    pub install_path: String,
}

/// The version that a directory stands for.
pub open spec fn listed_version(dir: VersionPath, current: Seq<char>) -> PackageVersionView {
    PackageVersionView {
        version: dir.name@,
        is_current: dir.name@ == current,
        install_path: dir.install_path@,
    }
}

/// The versions that the directories stand for, in their order.
pub open spec fn listed_versions(dirs: Seq<VersionPath>, current: Seq<char>) -> Seq<
    PackageVersionView,
> {
    Seq::new(dirs.len(), |i: int| listed_version(dirs[i], current))
}

/// The order in which versions are shown: the current version first, the
/// others from the greatest version text down.
pub open spec fn shown_before(a: PackageVersionView, b: PackageVersionView) -> bool {
    a.is_current || (!b.is_current && text_le(b.version, a.version))
}

/// `shown_before` as a relation value.
pub open spec fn version_order() -> spec_fn(PackageVersionView, PackageVersionView) -> bool {
    |a: PackageVersionView, b: PackageVersionView| shown_before(a, b)
}

/// `shown_before` compares any two versions and is transitive.
pub proof fn lemma_version_order()
    ensures
        strongly_connected(version_order()),
        transitive(version_order()),
        reflexive(version_order()),
{
    lemma_text_order_total();
    let r = version_order();
    let t = text_order();
    assert forall|x: PackageVersionView, y: PackageVersionView| #[trigger]
        r(x, y) || #[trigger] r(y, x) by {
        assert(t(x.version, y.version) || t(y.version, x.version));
    }
    assert forall|x: PackageVersionView, y: PackageVersionView, z: PackageVersionView| #[trigger]
        r(x, y) && #[trigger] r(y, z) implies r(x, z) by {
        if !x.is_current {
            assert(t(z.version, y.version) && t(y.version, x.version));
        }
    }
    assert forall|x: PackageVersionView| #[trigger] r(x, x) by {}
}

/// The order in which versions are shown, for sorting.
pub struct VersionOrder;

impl Order<PackageVersion> for VersionOrder {
    open spec fn before(&self, a: PackageVersionView, b: PackageVersionView) -> bool {
        shown_before(a, b)
    }

    fn comes_before(&self, a: &PackageVersion, b: &PackageVersion) -> (r: bool) {
        a.is_current || (!b.is_current && str_le(b.version.as_str(), a.version.as_str()))
    }
}

/// The versions in the order in which they are shown; versions that the
/// order does not tell apart keep their order.
pub open spec fn shown_versions(versions: Seq<PackageVersionView>) -> Seq<PackageVersionView> {
    stable_sort(versions, version_order())
}

/// The shown versions are the given ones, each as often, with the current
/// version first and the others from the greatest version text down.
pub proof fn lemma_shown_versions(versions: Seq<PackageVersionView>)
    ensures
        sorted_by(shown_versions(versions), version_order()),
        shown_versions(versions).to_multiset() == versions.to_multiset(),
{
    lemma_version_order();
    lemma_stable_sort_sorted(versions, version_order());
    lemma_stable_sort_permutation(versions, version_order());
}

/// Sorts the versions into the order in which they are shown.
pub fn sort_versions(versions: Vec<PackageVersion>) -> (r: Vec<PackageVersion>)
    ensures
        r.deep_view() == shown_versions(versions.deep_view()),
{
    let sorted = sort_by(versions, &VersionOrder);
    proof {
        assert(relation(VersionOrder) =~= version_order());
    }
    sorted
}

/// Builds the description of a package's versions from its version
/// directories and the name of the version that `current` points at.
pub fn build_versioned_package_info(
    package_name: &str,
    current_version: String,
    version_dirs: Vec<VersionPath>,
) -> (r: VersionedPackageInfo)
    ensures
        r.name@ == package_name@,
        r.current_version@ == current_version@,
        r.available_versions.deep_view() == shown_versions(
            listed_versions(version_dirs@, current_version@),
        ),
{
    let mut versions: Vec<PackageVersion> = Vec::new();
    let mut k: usize = 0;
    while k < version_dirs.len()
        invariant
            k <= version_dirs.len(),
            versions.len() == k,
            forall|i: int|
                0 <= i < k ==> (#[trigger] versions@[i])@ == listed_version(
                    version_dirs@[i],
                    current_version@,
                ),
        decreases version_dirs.len() - k,
    {
        let dir = &version_dirs[k];
        let is_current = str_eq(dir.name.as_str(), current_version.as_str());
        versions.push(
            PackageVersion {
                version: dir.name.clone(),
                is_current,
                install_path: dir.install_path.clone(),
            },
        );
        k += 1;
    }
    assert(versions.deep_view() =~= listed_versions(version_dirs@, current_version@));
    let sorted = sort_versions(versions);
    VersionedPackageInfo {
        name: package_name.to_owned(),
        current_version,
        available_versions: sorted,
    }
}

// ---------------------------------------------------------------------------
// Packages with several versions
// ---------------------------------------------------------------------------

/// One directory under the apps root, listed for its versions.
#[derive(Debug)]
pub struct PackageVersionsDir {
    /// The directory's name.
    pub name: String,
    pub is_dir: bool,
    /// The entries of the directory, in listing order; empty where it could
    /// not be read.
    pub entries: Vec<VersionDir>,
}

impl PackageVersionsDir {
    /// Whether the package has more than one version directory.
    pub open spec fn has_several_versions(&self) -> bool {
        self.is_dir && version_dir_names(self.entries@).len() > 1
    }
}

/// The names of the packages with several versions, in listing order.
pub open spec fn several_versions_names(packages: Seq<PackageVersionsDir>) -> Seq<Seq<char>>
    decreases packages.len(),
{
    if packages.len() == 0 {
        Seq::empty()
    } else {
        several_versions_names(packages.drop_last()) + (if packages.last().has_several_versions() {
            seq![packages.last().name@]
        } else {
            Seq::empty()
        })
    }
}

/// The state after the listings of all packages with several versions were
/// stored, one after the other.
pub open spec fn with_all_stored(s: AppStateView, packages: Seq<PackageVersionsDir>) -> AppStateView
    decreases packages.len(),
{
    if packages.len() == 0 {
        s
    } else {
        let before = with_all_stored(s, packages.drop_last());
        if packages.last().has_several_versions() {
            with_stored_versions(
                before,
                packages.last().name@,
                version_dir_names(packages.last().entries@),
            )
        } else {
            before
        }
    }
}

/// Returns, sorted, the names of all packages that have more than one
/// version installed, whatever the versions cache holds; their listings are
/// cached.
pub fn get_versioned_packages(state: &mut AppState, packages: &Vec<PackageVersionsDir>) -> (r: Vec<
    String,
>)
    ensures
        r.deep_view() == sorted_texts(several_versions_names(packages@)),
        final(state)@ == with_all_stored(old(state)@, packages@),
        versions_distinct(old(state)@) ==> versions_distinct(final(state)@),
{
    let mut names: Vec<String> = Vec::new();
    let mut k: usize = 0;
    while k < packages.len()
        invariant
            k <= packages.len(),
            names.deep_view() == several_versions_names(packages@.take(k as int)),
            state@ == with_all_stored(old(state)@, packages@.take(k as int)),
            versions_distinct(old(state)@) ==> versions_distinct(state@),
        decreases packages.len() - k,
    {
        let ghost before = names.deep_view();
        proof {
            let now = packages@.take(k + 1);
            assert(now.drop_last() =~= packages@.take(k as int));
        }
        let package = &packages[k];
        if package.is_dir {
            let versions = list_version_dirs(&package.entries);
            if versions.len() > 1 {
                names.push(package.name.clone());
                store_versions(state, package.name.clone(), versions);
            }
        }
        assert(names.deep_view() =~= before + (if packages@[k as int].has_several_versions() {
            seq![packages@[k as int].name@]
        } else {
            Seq::empty()
        }));
        k += 1;
    }
    assert(packages@.take(packages.len() as int) =~= packages@);
    sort_strings(names)
}

} // verus!
