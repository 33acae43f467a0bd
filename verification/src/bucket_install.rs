//! Installing a bucket: what is checked before a repository is cloned, and
//! what is reported afterwards.

use crate::text::{decimal, opt_text, to_decimal};
use crate::urls::{
    bucket_name_from, extract_bucket_name_from_url, normalized_url, validate_and_normalize_url,
};
use vstd::prelude::*;
use vstd::string::*;

verus! {

/// What is asked for when a bucket is installed.
#[derive(Debug)]
pub struct BucketInstallOptions {
    /// The name of the bucket; empty where it is to be taken from the
    /// address.
    pub name: String,
    pub url: String,
    /// Whether a bucket of that name is replaced.
    pub force: bool,
}

/// What came of installing, updating or removing a bucket.
#[derive(Debug)]
pub struct BucketInstallResult {
    pub success: bool,
    pub message: String,
    pub bucket_name: String,
    pub bucket_path: Option<String>,
    pub manifest_count: Option<u32>,
}

/// The mathematical value of a `BucketInstallResult`.
pub struct InstallResultView {
    pub success: bool,
    pub message: Seq<char>,
    pub bucket_name: Seq<char>,
    pub bucket_path: Option<Seq<char>>,
    pub manifest_count: Option<u32>,
}

impl View for BucketInstallResult {
    type V = InstallResultView;

    open spec fn view(&self) -> InstallResultView {
        InstallResultView {
            success: self.success,
            message: self.message@,
            bucket_name: self.bucket_name@,
            bucket_path: opt_text(self.bucket_path),
            manifest_count: self.manifest_count,
        }
    }
}

impl DeepView for BucketInstallResult {
    type V = InstallResultView;

    open spec fn deep_view(&self) -> InstallResultView {
        self@
    }
}

/// A bucket that is ready to be installed.
#[derive(Debug)]
pub struct BucketTarget {
    /// The name under which the bucket is installed.
    pub bucket_name: String,
    /// The address of its repository, in normal form.
    pub url: String,
}

/// The name that is handed on with an address: none where it is empty.
pub open spec fn given_name(name: Seq<char>) -> Option<Seq<char>> {
    if name.len() == 0 {
        None
    } else {
        Some(name)
    }
}

/// Name and address of the bucket that is asked for, or the message that
/// says what is wrong with them.
pub open spec fn bucket_target(name: Seq<char>, url: Seq<char>) -> Result<
    (Seq<char>, Seq<char>),
    Seq<char>,
> {
    match normalized_url(url) {
        Ok(address) => match bucket_name_from(address, given_name(name)) {
            Ok(bucket) => Ok((bucket, address)),
            Err(message) => Err(message),
        },
        Err(message) => Err(message),
    }
}

/// Works out under which name and from which address a bucket is
/// installed.
pub fn resolve_bucket(name: &str, url: &str) -> (r: Result<BucketTarget, String>)
    ensures
        match r {
            Ok(target) => bucket_target(name@, url@) == Ok::<(Seq<char>, Seq<char>), Seq<char>>(
                (target.bucket_name@, target.url@),
            ),
            Err(message) => bucket_target(name@, url@) == Err::<(Seq<char>, Seq<char>), Seq<char>>(
                message@,
            ),
        },
{
    let address = match validate_and_normalize_url(url) {
        Ok(address) => address,
        Err(message) => {
            return Err(message);
        },
    };
    let provided = if name.is_empty() {
        None
    } else {
        Some(name)
    };
    match extract_bucket_name_from_url(address.as_str(), provided) {
        Ok(bucket_name) => Ok(BucketTarget { bucket_name, url: address }),
        Err(message) => Err(message),
    }
}

/// How the check of an installation goes on.
#[derive(Debug)]
pub enum ValidationStep {
    /// Name or address are not in order; this is the report.
    Rejected(BucketInstallResult),
    /// Name and address are in order; it remains to be seen whether a
    /// bucket of that name is there already.
    Resolved(BucketTarget),
}

/// The report on an address that is not in order.
pub open spec fn invalid_url_report(name: Seq<char>, reason: Seq<char>) -> InstallResultView {
    InstallResultView {
        success: false,
        message: "Invalid URL: "@ + reason,
        bucket_name: name,
        bucket_path: None,
        manifest_count: None,
    }
}

/// The report on a name that is not in order.
pub open spec fn invalid_name_report(name: Seq<char>, reason: Seq<char>) -> InstallResultView {
    InstallResultView {
        success: false,
        message: "Invalid bucket name: "@ + reason,
        bucket_name: name,
        bucket_path: None,
        manifest_count: None,
    }
}

fn text_with(head: &str, tail: &str) -> (r: String)
    ensures
        r@ == head@ + tail@,
{
    let mut out = head.to_owned();
    out.append(tail);
    out
}

/// First step of the check whether a bucket can be installed: looks at the
/// address and the name.
pub fn validate_bucket_install(name: String, url: String) -> (r: ValidationStep)
    ensures
        match r {
            ValidationStep::Rejected(report) => match normalized_url(url@) {
                Err(reason) => report@ == invalid_url_report(name@, reason),
                Ok(address) => bucket_name_from(address, given_name(name@)) is Err && report@
                    == invalid_name_report(
                    name@,
                    bucket_name_from(address, given_name(name@))->Err_0,
                ),
            },
            ValidationStep::Resolved(target) => bucket_target(name@, url@) == Ok::<
                (Seq<char>, Seq<char>),
                Seq<char>,
            >((target.bucket_name@, target.url@)),
        },
{
    let address = match validate_and_normalize_url(url.as_str()) {
        Ok(address) => address,
        Err(reason) => {
            return ValidationStep::Rejected(
                BucketInstallResult {
                    success: false,
                    message: text_with("Invalid URL: ", reason.as_str()),
                    bucket_name: name,
                    bucket_path: None,
                    manifest_count: None,
                },
            );
        },
    };
    let provided = if name.as_str().is_empty() {
        None
    } else {
        Some(name.as_str())
    };
    match extract_bucket_name_from_url(address.as_str(), provided) {
        Ok(bucket_name) => ValidationStep::Resolved(BucketTarget { bucket_name, url: address }),
        Err(reason) => ValidationStep::Rejected(
            BucketInstallResult {
                success: false,
                message: text_with("Invalid bucket name: ", reason.as_str()),
                bucket_name: name,
                bucket_path: None,
                manifest_count: None,
            },
        ),
    }
}

/// The report of the check, once it is known whether the bucket is there:
/// it can be installed unless a bucket of its name exists.
pub open spec fn validation_report(
    bucket: Seq<char>,
    url: Seq<char>,
    existing_path: Option<Seq<char>>,
) -> InstallResultView {
    InstallResultView {
        success: existing_path is None,
        message: if existing_path is Some {
            "Bucket '"@ + bucket + "' already exists"@
        } else {
            "Bucket '"@ + bucket + "' can be installed from "@ + url
        },
        bucket_name: bucket,
        bucket_path: existing_path,
        manifest_count: None,
    }
}

/// Second step of the check: reports whether the bucket can be installed.
/// `existing_path` is the path of the bucket of that name, where there is
/// one.
pub fn validation_result(target: BucketTarget, existing_path: Option<String>) -> (r:
    BucketInstallResult)
    ensures
        r@ == validation_report(target.bucket_name@, target.url@, opt_text(existing_path)),
{
    let mut message = text_with("Bucket '", target.bucket_name.as_str());
    if existing_path.is_some() {
        message.append("' already exists");
    } else {
        message.append("' can be installed from ");
        message.append(target.url.as_str());
    }
    BucketInstallResult {
        success: existing_path.is_none(),
        message,
        bucket_name: target.bucket_name,
        bucket_path: existing_path,
        manifest_count: None,
    }
}

/// The report on a bucket that is there already and is not replaced.
pub open spec fn exists_report(bucket: Seq<char>, path: Seq<char>) -> InstallResultView {
    InstallResultView {
        success: false,
        message: "Bucket '"@ + bucket + "' already exists. Use force=true to reinstall."@,
        bucket_name: bucket,
        bucket_path: Some(path),
        manifest_count: None,
    }
}

/// How the installation of a bucket goes on, once it is known whether a
/// bucket of its name is there.
#[derive(Debug)]
pub enum InstallStep {
    /// The bucket exists and is kept; this is the report.
    Refused(BucketInstallResult),
    /// The repository is cloned, after the existing bucket was removed
    /// where `remove_existing` says so.
    Clone { remove_existing: bool },
}

/// Decides whether a bucket is installed. An existing bucket is kept unless
/// `force` is set; then it is removed first.
pub fn plan_install(bucket_name: &str, bucket_path: &str, exists: bool, force: bool) -> (r:
    InstallStep)
    ensures
        match r {
            InstallStep::Refused(report) => exists && !force && report@ == exists_report(
                bucket_name@,
                bucket_path@,
            ),
            InstallStep::Clone { remove_existing } => !(exists && !force) && remove_existing == (
            force && exists),
        },
{
    if exists && !force {
        let mut message = text_with("Bucket '", bucket_name);
        message.append("' already exists. Use force=true to reinstall.");
        return InstallStep::Refused(
            BucketInstallResult {
                success: false,
                message,
                bucket_name: bucket_name.to_owned(),
                bucket_path: Some(bucket_path.to_owned()),
                manifest_count: None,
            },
        );
    }
    InstallStep::Clone { remove_existing: force && exists }
}

/// The report on a bucket that was installed.
pub open spec fn installed_report(bucket: Seq<char>, path: Seq<char>, manifests: u32)
    -> InstallResultView {
    InstallResultView {
        success: true,
        message: "Successfully installed bucket '"@ + bucket + "' with "@ + decimal(
            manifests as nat,
        ) + " manifests"@,
        bucket_name: bucket,
        bucket_path: Some(path),
        manifest_count: Some(manifests),
    }
}

/// Reports that a bucket was installed.
pub fn installed_result(bucket_name: &str, bucket_path: &str, manifest_count: u32) -> (r:
    BucketInstallResult)
    ensures
        r@ == installed_report(bucket_name@, bucket_path@, manifest_count),
{
    let mut message = text_with("Successfully installed bucket '", bucket_name);
    message.append("' with ");
    message.append(to_decimal(manifest_count as u128).as_str());
    message.append(" manifests");
    BucketInstallResult {
        success: true,
        message,
        bucket_name: bucket_name.to_owned(),
        bucket_path: Some(bucket_path.to_owned()),
        manifest_count: Some(manifest_count),
    }
}

/// The message for a bucket whose repository could not be cloned.
pub fn install_failed_message(bucket_name: &str, reason: &str) -> (r: String)
    ensures
        r@ == "Failed to install bucket '"@ + bucket_name@ + "': "@ + reason@,
{
    let mut message = text_with("Failed to install bucket '", bucket_name);
    message.append("': ");
    message.append(reason);
    message
}

} // verus!
