//! The status of Scoop and of the installed packages: what is out of date,
//! what is broken, and whether anything needs attention.

use crate::models::{PackageView, ScoopPackage};
use crate::text::{opt_text, str_eq};
use vstd::prelude::*;
use vstd::string::*;

verus! {

/// The status of one installed package that needs attention.
#[derive(Debug)]
pub struct AppStatusInfo {
    pub name: String,
    pub installed_version: String,
    /// The version of the manifest in the bucket, where it could be read.
    pub latest_version: Option<String>,
    pub missing_dependencies: Vec<String>,
    /// Remarks for display.
    pub info: Vec<String>,
    pub is_outdated: bool,
    pub is_failed: bool,
    pub is_held: bool,
    pub is_deprecated: bool,
    pub is_removed: bool,
}

/// The mathematical value of an `AppStatusInfo`.
pub struct AppStatusView {
    pub name: Seq<char>,
    pub installed_version: Seq<char>,
    pub latest_version: Option<Seq<char>>,
    pub missing_dependencies: Seq<Seq<char>>,
    pub info: Seq<Seq<char>>,
    pub is_outdated: bool,
    pub is_failed: bool,
    pub is_held: bool,
    pub is_deprecated: bool,
    pub is_removed: bool,
}

impl View for AppStatusInfo {
    type V = AppStatusView;

    open spec fn view(&self) -> AppStatusView {
        AppStatusView {
            name: self.name@,
            installed_version: self.installed_version@,
            latest_version: opt_text(self.latest_version),
            missing_dependencies: self.missing_dependencies.deep_view(),
            info: self.info.deep_view(),
            is_outdated: self.is_outdated,
            is_failed: self.is_failed,
            is_held: self.is_held,
            is_deprecated: self.is_deprecated,
            is_removed: self.is_removed,
        }
    }
}

impl DeepView for AppStatusInfo {
    type V = AppStatusView;

    open spec fn deep_view(&self) -> AppStatusView {
        self@
    }
}

/// What became of the look for a package's manifest in its bucket.
#[derive(Debug)]
pub enum ManifestCheck {
    /// The manifest is in no bucket any more.
    Removed,
    /// The manifest is there and could not be read or parsed.
    Unreadable,
    /// The manifest was read.
    Found { version: String, deprecated: bool },
}

/// What is known of one installed package.
#[derive(Debug)]
pub struct PackageCheck {
    pub package: ScoopPackage,
    /// Whether the package is in the list of held packages.
    pub is_held: bool,
    pub manifest: ManifestCheck,
    /// Whether the install record of the package says that it is held.
    pub install_hold: bool,
}

/// The remark about a held package, where there is one to make.
pub open spec fn held_remark(held: bool) -> Seq<Seq<char>> {
    if held {
        seq!["Held package"@]
    } else {
        Seq::empty()
    }
}

/// The remark that the manifest gives rise to.
pub open spec fn manifest_remark(manifest: ManifestCheck) -> Seq<Seq<char>> {
    match manifest {
        ManifestCheck::Removed => seq!["Manifest removed"@],
        ManifestCheck::Unreadable => seq!["Install failed"@],
        ManifestCheck::Found { version, deprecated } => if deprecated {
            seq!["Deprecated"@]
        } else {
            Seq::empty()
        },
    }
}

/// Whether the installed version is another than that of the manifest.
pub open spec fn outdated(package: PackageView, manifest: ManifestCheck) -> bool {
    match manifest {
        ManifestCheck::Found { version, deprecated } => package.version != version@,
        _ => false,
    }
}

/// Whether a package needs attention: it is out of date, deprecated, its
/// manifest is gone or cannot be read. A versioned install never does.
pub open spec fn has_issue(package: PackageView, manifest: ManifestCheck) -> bool {
    !package.is_versioned_install && (match manifest {
        ManifestCheck::Found { version, deprecated } => package.version != version@ || deprecated,
        _ => true,
    })
}

/// The status of a package that needs attention.
pub open spec fn issue_of(check: PackageCheck) -> AppStatusView {
    AppStatusView {
        name: check.package.name@,
        installed_version: check.package.version@,
        latest_version: match check.manifest {
            ManifestCheck::Found { version, deprecated } => Some(version@),
            _ => None,
        },
        missing_dependencies: Seq::empty(),
        info: held_remark(check.is_held) + manifest_remark(check.manifest) + held_remark(
            check.install_hold,
        ),
        is_outdated: outdated(check.package@, check.manifest),
        is_failed: check.manifest is Unreadable,
        is_held: check.is_held,
        is_deprecated: check.manifest matches ManifestCheck::Found { version, deprecated }
            && deprecated,
        is_removed: check.manifest is Removed,
    }
}

/// Returns the status of a package, or `None` where nothing is wrong with
/// it.
pub fn get_app_status(check: &PackageCheck) -> (r: Option<AppStatusInfo>)
    ensures
        match r {
            Some(status) => has_issue(check.package@, check.manifest) && status@ == issue_of(
                *check,
            ),
            None => !has_issue(check.package@, check.manifest),
        },
{
    let package = &check.package;
    if package.is_versioned_install {
        return None;
    }
    let mut info: Vec<String> = Vec::new();
    assert(info.deep_view() =~= Seq::<Seq<char>>::empty());
    let mut is_failed = false;
    let mut is_deprecated = false;
    let mut is_removed = false;
    let mut is_outdated = false;
    let mut latest_version: Option<String> = None;
    if check.is_held {
        info.push("Held package".to_owned());
    }
    match &check.manifest {
        ManifestCheck::Found { version, deprecated } => {
            latest_version = Some(version.clone());
            if !str_eq(package.version.as_str(), version.as_str()) {
                is_outdated = true;
            }
            if *deprecated {
                is_deprecated = true;
                info.push("Deprecated".to_owned());
            }
        },
        ManifestCheck::Unreadable => {
            is_failed = true;
            info.push("Install failed".to_owned());
        },
        ManifestCheck::Removed => {
            is_removed = true;
            info.push("Manifest removed".to_owned());
        },
    }
    if check.install_hold {
        info.push("Held package".to_owned());
    }
    assert(info.deep_view() =~= held_remark(check.is_held) + manifest_remark(check.manifest)
        + held_remark(check.install_hold));
    if !is_outdated && !is_failed && !is_deprecated && !is_removed {
        return None;
    }
    let missing_dependencies: Vec<String> = Vec::new();
    Some(
        AppStatusInfo {
            name: package.name.clone(),
            installed_version: package.version.clone(),
            latest_version,
            missing_dependencies,
            info,
            is_outdated,
            is_failed,
            is_held: check.is_held,
            is_deprecated,
            is_removed,
        },
    )
}

/// A package of which a newer version is available.
#[derive(Debug)]
pub struct UpdatablePackage {
    pub name: String,
    pub current: String,
    pub available: String,
}

/// Compares the installed version of a package with the version of its
/// manifest, and returns the update where they differ.
pub fn check_package_for_update(package: &ScoopPackage, manifest_version: &str) -> (r: Option<
    UpdatablePackage,
>)
    ensures
        match r {
            Some(update) => package.version@ != manifest_version@ && update.name@
                == package.name@ && update.current@ == package.version@ && update.available@
                == manifest_version@,
            None => package.version@ == manifest_version@,
        },
{
    if !str_eq(package.version.as_str(), manifest_version) {
        Some(
            UpdatablePackage {
                name: package.name.clone(),
                current: package.version.clone(),
                available: manifest_version.to_owned(),
            },
        )
    } else {
        None
    }
}

// ---------------------------------------------------------------------------
// The whole status
// ---------------------------------------------------------------------------

/// What came of comparing a repository with its remote.
#[derive(Debug, Clone, Copy, PartialEq, Eq, Structural)]
pub enum RepoCheck {
    UpToDate,
    NeedsUpdate,
    /// The remote could not be reached or the repository not read.
    Failed,
    /// The check did not come to an end.
    Aborted,
}

/// The status of Scoop as a whole.
#[derive(Debug)]
pub struct ScoopStatus {
    pub scoop_needs_update: bool,
    pub bucket_needs_update: bool,
    pub network_failure: bool,
    pub apps_with_issues: Vec<AppStatusInfo>,
    pub is_everything_ok: bool,
}

/// Whether one of the checks has the given outcome.
pub open spec fn any_check(checks: Seq<RepoCheck>, outcome: RepoCheck) -> bool {
    exists|i: int| 0 <= i < checks.len() && checks[i] == outcome
}

/// Whether the check of Scoop's own repository failed.
pub open spec fn scoop_check_failed(scoop: Option<RepoCheck>) -> bool {
    scoop == Some(RepoCheck::Failed) || scoop == Some(RepoCheck::Aborted)
}

/// The status that a package contributes: none for Scoop itself and for a
/// package without issue.
pub open spec fn issue_entry(check: PackageCheck) -> Seq<AppStatusView> {
    if check.package.name@ != "scoop"@ && has_issue(check.package@, check.manifest) {
        seq![issue_of(check)]
    } else {
        Seq::empty()
    }
}

/// The statuses of the packages that need attention, in their order.
pub open spec fn issues(checks: Seq<PackageCheck>) -> Seq<AppStatusView>
    decreases checks.len(),
{
    if checks.len() == 0 {
        Seq::empty()
    } else {
        issues(checks.drop_last()) + issue_entry(checks.last())
    }
}

fn has_outcome(checks: &Vec<RepoCheck>, outcome: RepoCheck) -> (r: bool)
    ensures
        r == any_check(checks@, outcome),
{
    let mut k: usize = 0;
    while k < checks.len()
        invariant
            k <= checks.len(),
            forall|i: int| 0 <= i < k ==> checks@[i] != outcome,
        decreases checks.len() - k,
    {
        if checks[k] == outcome {
            return true;
        }
        k += 1;
    }
    false
}

/// Puts the status together. `scoop` is the check of Scoop's own repository,
/// `None` where Scoop is not installed as an app; `buckets` are the checks of
/// the buckets, which count only where the check of Scoop did not fail.
pub fn check_scoop_status(
    scoop: Option<RepoCheck>,
    buckets: &Vec<RepoCheck>,
    packages: &Vec<PackageCheck>,
) -> (r: ScoopStatus)
    ensures
        r.scoop_needs_update == (scoop == Some(RepoCheck::NeedsUpdate)),
        r.bucket_needs_update == (!scoop_check_failed(scoop) && any_check(
            buckets@,
            RepoCheck::NeedsUpdate,
        )),
        r.network_failure == (scoop_check_failed(scoop) || any_check(buckets@, RepoCheck::Failed)),
        r.apps_with_issues.deep_view() == issues(packages@),
        r.is_everything_ok == (!r.scoop_needs_update && !r.bucket_needs_update
            && !r.network_failure && issues(packages@).len() == 0),
{
    let scoop_needs_update = match scoop {
        Some(RepoCheck::NeedsUpdate) => true,
        _ => false,
    };
    let mut network_failure = match scoop {
        Some(RepoCheck::Failed) => true,
        Some(RepoCheck::Aborted) => true,
        _ => false,
    };
    let mut bucket_needs_update = false;
    if !network_failure {
        bucket_needs_update = has_outcome(buckets, RepoCheck::NeedsUpdate);
        network_failure = has_outcome(buckets, RepoCheck::Failed);
    }
    let mut apps_with_issues: Vec<AppStatusInfo> = Vec::new();
    let mut k: usize = 0;
    while k < packages.len()
        invariant
            k <= packages.len(),
            apps_with_issues.deep_view() == issues(packages@.take(k as int)),
        decreases packages.len() - k,
    {
        proof {
            let now = packages@.take(k + 1);
            assert(now.drop_last() =~= packages@.take(k as int));
        }
        if !str_eq(packages[k].package.name.as_str(), "scoop") {
            match get_app_status(&packages[k]) {
                Some(status) => {
                    apps_with_issues.push(status);
                },
                None => {},
            }
        }
        k += 1;
    }
    assert(packages@.take(packages.len() as int) =~= packages@);
    let is_everything_ok = !scoop_needs_update && !bucket_needs_update && !network_failure
        && apps_with_issues.len() == 0;
    ScoopStatus {
        scoop_needs_update,
        bucket_needs_update,
        network_failure,
        apps_with_issues,
        is_everything_ok,
    }
}

} // verus!
