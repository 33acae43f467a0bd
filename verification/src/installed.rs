//! The cache of installed packages: when a query is answered from it, when
//! the apps directory is scanned again, and what invalidates it.
//!
//! A query runs in two steps, because only a miss is worth the reading of
//! every manifest. `scan_installed_packages_internal` takes the listing of
//! the apps directory and says whether the cache answers; `complete_scan`
//! takes what was then read and replaces the cache.

use crate::fingerprint::{apps_fingerprint, compute_apps_fingerprint};
use crate::loader::{scan_packages, scanned, PackageInput};
use crate::models::{PackageView, ScoopPackage};
use crate::probe::PackageDir;
use crate::state::{
    clone_packages, in_debounce_window, AppState, AppStateView, InstalledPackagesCache,
    DEBOUNCE_MS,
    InstalledView,
};
use crate::text::{opt_text, str_eq};
use vstd::prelude::*;
use vstd::string::*;

verus! {

// ---------------------------------------------------------------------------
// The cache slot
// ---------------------------------------------------------------------------

/// The cached list, where the cache was made under the fingerprint `fp`.
pub open spec fn cached_packages(s: AppStateView, fp: Seq<char>) -> Option<Seq<PackageView>> {
    match s.installed {
        Some(cache) => if cache.fingerprint == fp {
            Some(cache.packages)
        } else {
            None
        },
        None => None,
    }
}

/// The state after a scan under `fp` that found `packages`.
pub open spec fn stored(s: AppStateView, fp: Seq<char>, packages: Seq<PackageView>) -> AppStateView {
    AppStateView { installed: Some(InstalledView { packages, fingerprint: fp }), ..s }
}

/// The state with both caches dropped.
pub open spec fn invalidated(s: AppStateView) -> AppStateView {
    AppStateView { installed: None, versions: None, ..s }
}

/// Returns the cached packages where the cache was made under `fingerprint`.
pub fn check_cache(state: &AppState, fingerprint: &str) -> (r: Option<Vec<ScoopPackage>>)
    ensures
        match r {
            Some(packages) => cached_packages(state@, fingerprint@) == Some(packages.deep_view()),
            None => cached_packages(state@, fingerprint@) is None,
        },
{
    match &state.installed_packages {
        Some(cache) => {
            if str_eq(cache.fingerprint.as_str(), fingerprint) {
                Some(clone_packages(&cache.packages))
            } else {
                None
            }
        },
        None => None,
    }
}

/// Replaces the cache by the outcome of a scan.
pub fn update_cache(state: &mut AppState, packages: Vec<ScoopPackage>, fingerprint: String)
    ensures
        final(state)@ == stored(old(state)@, fingerprint@, packages.deep_view()),
{
    state.installed_packages = Some(InstalledPackagesCache { packages, fingerprint });
}

/// Drops the cache of installed packages and, with it, the cache of version
/// listings. To be called after every operation that installs, removes or
/// updates a package.
pub fn invalidate_installed_cache(state: &mut AppState)
    ensures
        final(state)@ == invalidated(old(state)@),
{
    state.installed_packages = None;
    state.package_versions = None;
}

/// The state after the Scoop root was resolved again: a root that differs
/// from the stored one replaces it and drops the cache of installed packages.
pub open spec fn with_resolved_root(s: AppStateView, resolved: Option<Seq<char>>) -> AppStateView {
    match resolved {
        Some(path) => if path != s.scoop_path {
            AppStateView { scoop_path: path, installed: None, ..s }
        } else {
            s
        },
        None => s,
    }
}

/// Takes in the outcome of a new resolution of the Scoop root. Returns the
/// root to go on with, or `None` where the resolution failed.
pub fn refresh_scoop_path_if_needed(state: &mut AppState, resolved: Option<String>) -> (r: Option<
    String,
>)
    ensures
        final(state)@ == with_resolved_root(old(state)@, opt_text(resolved)),
        match r {
            Some(path) => resolved is Some && path@ == resolved->0@,
            None => resolved is None,
        },
{
    match resolved {
        Some(new_path) => {
            if !str_eq(state.scoop_path.as_str(), new_path.as_str()) {
                state.scoop_path = new_path.clone();
                state.installed_packages = None;
            }
            Some(new_path)
        },
        None => None,
    }
}

/// What a second look for the apps directory found, after the Scoop root was
/// resolved again.
#[derive(Debug)]
pub struct RootRetry {
    /// The root that the resolution gave; `None` where it failed.
    pub resolved: Option<String>,
    /// Whether that root has an apps directory.
    pub apps_is_dir: bool,
}

/// The root whose apps directory a query lists: the stored root where it has
/// an apps directory; else the root that one new resolution gave, where that
/// one has; else none.
pub open spec fn apps_root(s: AppStateView, apps_is_dir: bool, retry: RootRetry) -> Option<
    Seq<char>,
> {
    if apps_is_dir {
        Some(s.scoop_path)
    } else {
        match retry.resolved {
            Some(path) => if retry.apps_is_dir {
                Some(path@)
            } else {
                None
            },
            None => None,
        }
    }
}

/// Makes sure that there is an apps directory to list. `apps_is_dir` says
/// whether the stored root has one. Where it has none, the root is resolved
/// once more, `retry` holds what came of it, and the state takes the new
/// root in. Returns the root to list under, or `None` where there is still no
/// apps directory.
pub fn ensure_apps_path(state: &mut AppState, apps_is_dir: bool, retry: RootRetry) -> (r: Option<
    String,
>)
    ensures
        opt_text(r) == apps_root(old(state)@, apps_is_dir, retry),
        final(state)@ == (if apps_is_dir {
            old(state)@
        } else {
            with_resolved_root(old(state)@, opt_text(retry.resolved))
        }),
{
    if apps_is_dir {
        return Some(state.scoop_path());
    }
    let still_dir = retry.apps_is_dir;
    match refresh_scoop_path_if_needed(state, retry.resolved) {
        Some(path) => {
            if still_dir {
                Some(path)
            } else {
                None
            }
        },
        None => None,
    }
}

// ---------------------------------------------------------------------------
// A query
// ---------------------------------------------------------------------------

/// What listing the apps directory gave.
#[derive(Debug)]
pub enum AppsListing {
    /// There is no apps directory, also after the root was resolved again.
    Missing,
    /// The apps directory exists and could not be read.
    Unreadable,
    /// The directories under the apps directory.
    Listed(Vec<PackageDir>),
}

/// Why a query has no answer.
#[derive(Debug, Clone, Copy, PartialEq, Eq, Structural)]
pub enum ScanError {
    /// The apps directory could not be read.
    DirectoryRead,
}

/// How a query goes on after the apps directory was listed.
#[derive(Debug)]
pub enum ScanPlan {
    /// The answer is known: the cached list, or the empty list where there
    /// is no apps directory.
    Done(Vec<ScoopPackage>),
    /// Every package has to be loaded; the scan is stored under this
    /// fingerprint.
    Rescan(String),
}

/// The mathematical value of a `ScanPlan`.
pub enum PlanView {
    Done(Seq<PackageView>),
    Rescan(Seq<char>),
}

impl View for ScanPlan {
    type V = PlanView;

    open spec fn view(&self) -> PlanView {
        match self {
            ScanPlan::Done(packages) => PlanView::Done(packages.deep_view()),
            ScanPlan::Rescan(fingerprint) => PlanView::Rescan(fingerprint@),
        }
    }
}

/// The plan for a query, from the state and the listing.
pub open spec fn scan_plan(s: AppStateView, listing: AppsListing) -> Result<PlanView, ScanError> {
    match listing {
        AppsListing::Missing => Ok(PlanView::Done(Seq::empty())),
        AppsListing::Unreadable => Err(ScanError::DirectoryRead),
        AppsListing::Listed(dirs) => match cached_packages(s, apps_fingerprint(dirs@)) {
            Some(packages) => Ok(PlanView::Done(packages)),
            None => Ok(PlanView::Rescan(apps_fingerprint(dirs@))),
        },
    }
}

/// First step of a query: computes the fingerprint of the listing and
/// compares it with that of the cache.
pub fn scan_installed_packages_internal(state: &AppState, listing: &AppsListing) -> (r: Result<
    ScanPlan,
    ScanError,
>)
    ensures
        match r {
            Ok(plan) => scan_plan(state@, *listing) == Ok::<PlanView, ScanError>(plan@),
            Err(e) => scan_plan(state@, *listing) == Err::<PlanView, ScanError>(e),
        },
{
    match listing {
        AppsListing::Missing => {
            let nothing: Vec<ScoopPackage> = Vec::new();
            assert(nothing.deep_view() =~= Seq::<PackageView>::empty());
            Ok(ScanPlan::Done(nothing))
        },
        AppsListing::Unreadable => Err(ScanError::DirectoryRead),
        AppsListing::Listed(dirs) => {
            let fingerprint = compute_apps_fingerprint(dirs);
            match check_cache(state, fingerprint.as_str()) {
                Some(packages) => Ok(ScanPlan::Done(packages)),
                None => Ok(ScanPlan::Rescan(fingerprint)),
            }
        },
    }
}

/// Second step of a query that misses the cache: loads every package, stores
/// the list under `fingerprint` and returns it.
pub fn complete_scan(state: &mut AppState, fingerprint: String, inputs: &Vec<PackageInput>) -> (r:
    Vec<ScoopPackage>)
    ensures
        r.deep_view() == scanned(inputs@),
        final(state)@ == stored(old(state)@, fingerprint@, scanned(inputs@)),
{
    let packages = scan_packages(inputs);
    let answer = clone_packages(&packages);
    update_cache(state, packages, fingerprint);
    answer
}

/// What a query leaves behind.
pub struct QueryOutcome {
    /// The state after the query.
    pub state: AppStateView,
    /// The answer.
    pub result: Result<Seq<PackageView>, ScanError>,
    /// Whether the packages were loaded from their directories.
    pub rescanned: bool,
}

/// A whole query: the cached list where the fingerprint of the listing is
/// that of the cache, else a scan of `inputs`, which replaces the cache.
pub open spec fn query(s: AppStateView, listing: AppsListing, inputs: Seq<PackageInput>)
    -> QueryOutcome {
    match scan_plan(s, listing) {
        Ok(PlanView::Done(packages)) => QueryOutcome {
            state: s,
            result: Ok(packages),
            rescanned: false,
        },
        Ok(PlanView::Rescan(fp)) => QueryOutcome {
            state: stored(s, fp, scanned(inputs)),
            result: Ok(scanned(inputs)),
            rescanned: true,
        },
        Err(e) => QueryOutcome { state: s, result: Err(e), rescanned: false },
    }
}

/// Answers a query for the installed packages from a listing of the apps
/// directory and from what was read in each package directory. `inputs` is
/// looked at only where the cache does not answer.
pub fn get_installed_packages_full(
    state: &mut AppState,
    listing: &AppsListing,
    inputs: &Vec<PackageInput>,
) -> (r: Result<Vec<ScoopPackage>, ScanError>)
    ensures
        final(state)@ == query(old(state)@, *listing, inputs@).state,
        match r {
            Ok(packages) => query(old(state)@, *listing, inputs@).result == Ok::<
                Seq<PackageView>,
                ScanError,
            >(packages.deep_view()),
            Err(e) => query(old(state)@, *listing, inputs@).result == Err::<
                Seq<PackageView>,
                ScanError,
            >(e),
        },
{
    match scan_installed_packages_internal(state, listing) {
        Ok(ScanPlan::Done(packages)) => Ok(packages),
        Ok(ScanPlan::Rescan(fingerprint)) => Ok(complete_scan(state, fingerprint, inputs)),
        Err(e) => Err(e),
    }
}

/// A query that follows a query on the same listing is answered from the
/// cache: it gives the same answer, loads no package and leaves the state as
/// it is, whatever the package directories hold by then.
pub proof fn lemma_second_query_hits_cache(
    s: AppStateView,
    listing: AppsListing,
    inputs: Seq<PackageInput>,
    later_inputs: Seq<PackageInput>,
)
    ensures
        ({
            let first = query(s, listing, inputs);
            let second = query(first.state, listing, later_inputs);
            &&& second.result == first.result
            &&& !second.rescanned
            &&& second.state == first.state
        }),
{
}

/// After an invalidation the next query on a readable apps directory loads
/// every package again, also where the fingerprint is the one that the cache
/// had.
pub proof fn lemma_invalidation_forces_rescan(
    s: AppStateView,
    dirs: Vec<PackageDir>,
    inputs: Seq<PackageInput>,
)
    ensures
        ({
            let next = query(invalidated(s), AppsListing::Listed(dirs), inputs);
            &&& next.rescanned
            &&& next.result == Ok::<Seq<PackageView>, ScanError>(scanned(inputs))
            &&& cached_packages(next.state, apps_fingerprint(dirs@)) == Some(scanned(inputs))
        }),
{
}

// ---------------------------------------------------------------------------
// Forced refresh
// ---------------------------------------------------------------------------

/// How a forced refresh goes on.
#[derive(Debug)]
pub enum RefreshPlan {
    /// The request came within a second of the last one: this is the cached
    /// list, and nothing is scanned.
    Debounced(Vec<ScoopPackage>),
    /// Both caches were dropped; the apps directory is to be queried anew.
    Rescan,
}

/// The list that answers a forced refresh at `now` without a scan, if any:
/// the cached list, within the window of the last refresh.
pub open spec fn debounced_answer(s: AppStateView, now: u64) -> Option<Seq<PackageView>> {
    if in_debounce_window(s.last_refresh_time, now) {
        match s.installed {
            Some(cache) => Some(cache.packages),
            None => None,
        }
    } else {
        None
    }
}

/// The state after a forced refresh at `now`: unchanged where the refresh is
/// answered from the cache; else both caches dropped and `now` recorded.
pub open spec fn after_refresh(s: AppStateView, now: u64) -> AppStateView {
    if debounced_answer(s, now) is Some {
        s
    } else {
        invalidated(AppStateView { last_refresh_time: Some(now), ..s })
    }
}

/// Begins a forced refresh at the time `now_ms`, in milliseconds since the
/// Unix epoch.
pub fn refresh_installed_packages(state: &mut AppState, now_ms: u64) -> (r: RefreshPlan)
    ensures
        final(state)@ == after_refresh(old(state)@, now_ms),
        match r {
            RefreshPlan::Debounced(packages) => debounced_answer(old(state)@, now_ms) == Some(
                packages.deep_view(),
            ),
            RefreshPlan::Rescan => debounced_answer(old(state)@, now_ms) is None,
        },
{
    if state.should_debounce_refresh(now_ms) {
        match &state.installed_packages {
            Some(cache) => {
                return RefreshPlan::Debounced(clone_packages(&cache.packages));
            },
            None => {},
        }
    }
    state.update_refresh_time(now_ms);
    invalidate_installed_cache(state);
    RefreshPlan::Rescan
}

/// A forced refresh that is not answered from the cache leaves a state in
/// which the next query scans.
pub proof fn lemma_refresh_forces_rescan(
    s: AppStateView,
    now: u64,
    dirs: Vec<PackageDir>,
    inputs: Seq<PackageInput>,
)
    requires
        debounced_answer(s, now) is None,
    ensures
        query(after_refresh(s, now), AppsListing::Listed(dirs), inputs).rescanned,
{
}

/// A second forced refresh within a second of the first is answered with the
/// list that the first one stored, and changes nothing; one that comes a
/// second or more later scans again.
pub proof fn lemma_refresh_debounce(
    s: AppStateView,
    first: u64,
    fp: Seq<char>,
    packages: Seq<PackageView>,
    second: u64,
)
    requires
        debounced_answer(s, first) is None,
        first <= second,
    ensures
        ({
            let scanned_state = stored(after_refresh(s, first), fp, packages);
            &&& scanned_state.last_refresh_time == Some(first)
            &&& second - first < DEBOUNCE_MS ==> debounced_answer(scanned_state, second) == Some(
                packages,
            ) && after_refresh(scanned_state, second) == scanned_state
            &&& second - first >= DEBOUNCE_MS ==> debounced_answer(scanned_state, second) is None
                && after_refresh(scanned_state, second).installed is None
        }),
{
}

} // verus!
