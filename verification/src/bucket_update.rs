//! Updating and removing a bucket: what is checked before Git is asked, and
//! what is reported of its answer.

use crate::bucket_install::{BucketInstallResult, InstallResultView};
use crate::text::{decimal, to_decimal};
use vstd::prelude::*;
use vstd::string::*;

verus! {

/// How the update of a bucket's repository went.
#[derive(Debug)]
pub enum GitUpdate {
    /// The directory could not be opened as a repository.
    OpenFailed(String),
    /// The repository has no remote `origin`.
    NoOrigin,
    /// Fetching from `origin` failed.
    FetchFailed(String),
    /// The repository has no head.
    NoHead,
    /// The head has no short name.
    NoBranchName,
    /// `origin` has no branch of the head's name.
    NoRemoteBranch,
    /// The head is at the commit of `origin` already; the bucket holds this
    /// many manifests.
    UpToDate(u32),
    /// The working tree could not be set to the commit of `origin`.
    ResetFailed(String),
    /// The working tree is at the commit of `origin` now; the bucket holds
    /// this many manifests.
    Updated(u32),
}

/// A report that names the bucket between two pieces of text.
pub open spec fn report(
    success: bool,
    head: Seq<char>,
    bucket: Seq<char>,
    tail: Seq<char>,
    path: Option<Seq<char>>,
    manifests: Option<u32>,
) -> InstallResultView {
    InstallResultView {
        success,
        message: head + bucket + tail,
        bucket_name: bucket,
        bucket_path: path,
        manifest_count: manifests,
    }
}

/// The report on a bucket whose directory is missing.
pub open spec fn missing_report(bucket: Seq<char>) -> InstallResultView {
    report(false, "Bucket '"@, bucket, "' does not exist"@, None, None)
}

/// The report on a bucket that is no Git repository.
pub open spec fn no_repository_report(bucket: Seq<char>, path: Seq<char>) -> InstallResultView {
    report(
        false,
        "Bucket '"@,
        bucket,
        "' is not a git repository and cannot be updated"@,
        Some(path),
        None,
    )
}

/// What is reported of an update before Git is asked: that the bucket is
/// missing, or that it is no Git repository; nothing where the update can
/// go on.
pub open spec fn update_refusal(bucket: Seq<char>, path: Seq<char>, exists: bool, has_git_dir: bool)
    -> Option<InstallResultView> {
    if !exists {
        Some(missing_report(bucket))
    } else if !has_git_dir {
        Some(no_repository_report(bucket, path))
    } else {
        None
    }
}

/// What is reported of an update; the message alone where the working tree
/// could not be set.
pub open spec fn update_report(bucket: Seq<char>, path: Seq<char>, outcome: GitUpdate) -> Result<
    InstallResultView,
    Seq<char>,
> {
    match outcome {
        GitUpdate::OpenFailed(reason) => Ok(
            report(
                false,
                "Failed to open bucket '"@,
                bucket,
                "' as git repository: "@ + reason@,
                Some(path),
                None,
            ),
        ),
        GitUpdate::NoOrigin => Ok(
            report(false, "Bucket '"@, bucket, "' has no origin remote"@, Some(path), None),
        ),
        GitUpdate::FetchFailed(reason) => Ok(
            report(
                false,
                "Failed to fetch updates for bucket '"@,
                bucket,
                "': "@ + reason@,
                Some(path),
                None,
            ),
        ),
        GitUpdate::NoHead => Ok(
            report(false, "Could not get current branch for bucket '"@, bucket, "'"@, Some(path), None),
        ),
        GitUpdate::NoBranchName => Ok(
            report(
                false,
                "Could not determine current branch for bucket '"@,
                bucket,
                "'"@,
                Some(path),
                None,
            ),
        ),
        GitUpdate::NoRemoteBranch => Ok(
            report(false, "Could not find remote branch for bucket '"@, bucket, "'"@, Some(path), None),
        ),
        GitUpdate::UpToDate(manifests) => Ok(
            report(true, "Bucket '"@, bucket, "' is already up to date"@, Some(path), Some(manifests)),
        ),
        GitUpdate::ResetFailed(reason) => Err("Failed to update bucket '"@ + bucket + "': "@ + reason@),
        GitUpdate::Updated(manifests) => Ok(
            report(
                true,
                "Successfully updated bucket '"@,
                bucket,
                "' with "@ + decimal(manifests as nat) + " manifests"@,
                Some(path),
                Some(manifests),
            ),
        ),
    }
}

fn make_report(
    success: bool,
    head: &str,
    bucket: &str,
    tail: &str,
    path: Option<&str>,
    manifests: Option<u32>,
) -> (r: BucketInstallResult)
    ensures
        r@ == report(
            success,
            head@,
            bucket@,
            tail@,
            match path {
                Some(p) => Some(p@),
                None => None,
            },
            manifests,
        ),
{
    let mut message = head.to_owned();
    message.append(bucket);
    message.append(tail);
    BucketInstallResult {
        success,
        message,
        bucket_name: bucket.to_owned(),
        bucket_path: match path {
            Some(p) => Some(p.to_owned()),
            None => None,
        },
        manifest_count: manifests,
    }
}

fn with_reason(tail: &str, reason: &str) -> (r: String)
    ensures
        r@ == tail@ + reason@,
{
    let mut out = tail.to_owned();
    out.append(reason);
    out
}

/// Checks whether a bucket can be updated: its directory must exist and
/// hold a `.git`. Returns the report where it cannot.
pub fn check_update(bucket_name: &str, bucket_path: &str, exists: bool, has_git_dir: bool) -> (r:
    Option<BucketInstallResult>)
    ensures
        match r {
            Some(refusal) => update_refusal(bucket_name@, bucket_path@, exists, has_git_dir)
                == Some(refusal@),
            None => update_refusal(bucket_name@, bucket_path@, exists, has_git_dir) is None,
        },
{
    if !exists {
        Some(make_report(false, "Bucket '", bucket_name, "' does not exist", None, None))
    } else if !has_git_dir {
        Some(
            make_report(
                false,
                "Bucket '",
                bucket_name,
                "' is not a git repository and cannot be updated",
                Some(bucket_path),
                None,
            ),
        )
    } else {
        None
    }
}

/// Reports how the update of a bucket went.
pub fn update_result(bucket_name: &str, bucket_path: &str, outcome: GitUpdate) -> (r: Result<
    BucketInstallResult,
    String,
>)
    ensures
        match r {
            Ok(result) => update_report(bucket_name@, bucket_path@, outcome) == Ok::<
                InstallResultView,
                Seq<char>,
            >(result@),
            Err(message) => update_report(bucket_name@, bucket_path@, outcome) == Err::<
                InstallResultView,
                Seq<char>,
            >(message@),
        },
{
    let path = Some(bucket_path);
    match outcome {
        GitUpdate::OpenFailed(reason) => Ok(
            make_report(
                false,
                "Failed to open bucket '",
                bucket_name,
                with_reason("' as git repository: ", reason.as_str()).as_str(),
                path,
                None,
            ),
        ),
        GitUpdate::NoOrigin => Ok(
            make_report(false, "Bucket '", bucket_name, "' has no origin remote", path, None),
        ),
        GitUpdate::FetchFailed(reason) => Ok(
            make_report(
                false,
                "Failed to fetch updates for bucket '",
                bucket_name,
                with_reason("': ", reason.as_str()).as_str(),
                path,
                None,
            ),
        ),
        GitUpdate::NoHead => Ok(
            make_report(false, "Could not get current branch for bucket '", bucket_name, "'", path, None),
        ),
        GitUpdate::NoBranchName => Ok(
            make_report(
                false,
                "Could not determine current branch for bucket '",
                bucket_name,
                "'",
                path,
                None,
            ),
        ),
        GitUpdate::NoRemoteBranch => Ok(
            make_report(false, "Could not find remote branch for bucket '", bucket_name, "'", path, None),
        ),
        GitUpdate::UpToDate(manifests) => Ok(
            make_report(true, "Bucket '", bucket_name, "' is already up to date", path, Some(manifests)),
        ),
        GitUpdate::ResetFailed(reason) => {
            let mut message = "Failed to update bucket '".to_owned();
            message.append(bucket_name);
            message.append("': ");
            message.append(reason.as_str());
            Err(message)
        },
        GitUpdate::Updated(manifests) => {
            let mut tail = "' with ".to_owned();
            tail.append(to_decimal(manifests as u128).as_str());
            tail.append(" manifests");
            Ok(
                make_report(
                    true,
                    "Successfully updated bucket '",
                    bucket_name,
                    tail.as_str(),
                    path,
                    Some(manifests),
                ),
            )
        },
    }
}

/// Reports the update of a bucket that ended with nothing but a message.
pub fn failed_update_result(bucket_name: &str, bucket_path: &str, message: String) -> (r:
    BucketInstallResult)
    ensures
        r@ == (InstallResultView {
            success: false,
            message: message@,
            bucket_name: bucket_name@,
            bucket_path: Some(bucket_path@),
            manifest_count: None,
        }),
{
    BucketInstallResult {
        success: false,
        message,
        bucket_name: bucket_name.to_owned(),
        bucket_path: Some(bucket_path.to_owned()),
        manifest_count: None,
    }
}

/// What is reported of the removal of a bucket. `removal` is what came of
/// removing its directory, and is not looked at where the directory is
/// missing.
pub open spec fn removal_report(
    bucket: Seq<char>,
    path: Seq<char>,
    exists: bool,
    removal: Result<(), String>,
) -> InstallResultView {
    if !exists {
        missing_report(bucket)
    } else {
        match removal {
            Ok(_) => report(true, "Successfully removed bucket '"@, bucket, "'"@, None, None),
            Err(reason) => report(
                false,
                "Failed to remove bucket '"@,
                bucket,
                "': "@ + reason@,
                Some(path),
                None,
            ),
        }
    }
}

/// Reports that a bucket cannot be removed because it does not exist.
pub fn missing_bucket_result(bucket_name: &str) -> (r: BucketInstallResult)
    ensures
        r@ == missing_report(bucket_name@),
{
    make_report(false, "Bucket '", bucket_name, "' does not exist", None, None)
}

/// Reports what came of removing the directory of a bucket that exists.
pub fn removal_result(bucket_name: &str, bucket_path: &str, removal: Result<(), String>) -> (r:
    BucketInstallResult)
    ensures
        r@ == removal_report(bucket_name@, bucket_path@, true, removal),
{
    match removal {
        Ok(_) => make_report(true, "Successfully removed bucket '", bucket_name, "'", None, None),
        Err(reason) => make_report(
            false,
            "Failed to remove bucket '",
            bucket_name,
            with_reason("': ", reason.as_str()).as_str(),
            Some(bucket_path),
            None,
        ),
    }
}

} // verus!
