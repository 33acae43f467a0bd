//! Loading one installed package from what was read of its directory, and
//! scanning a whole apps directory package by package.

use crate::models::{InstallManifest, MatchSource, PackageManifest, PackageView, ScoopPackage};
use crate::probe::{
    active_version, locate_install_dir, ActiveVersion, FileStat, PackageDir,
};
use crate::text::{opt_text};
use vstd::prelude::*;
use vstd::string::*;

verus! {

// ---------------------------------------------------------------------------
// Time stamps as text
// ---------------------------------------------------------------------------

/// The RFC 3339 text of the UTC time that lies `secs` seconds and `nanos`
/// nanoseconds after the Unix epoch, as `chrono` writes it; `None` where
/// `chrono` cannot represent that time.
pub uninterp spec fn rfc3339_utc(secs: i64, nanos: u32) -> Option<Seq<char>>;

/// Formats a Unix time as RFC 3339 text.
///
/// Trusted: calls `chrono::DateTime::<Utc>::from_timestamp`, which returns
/// `None` for a time out of its range and does not panic, and
/// `DateTime::to_rfc3339` on what it returned. The contract only gives that
/// text its name, `rfc3339_utc`; both calls depend on their arguments alone.
#[verifier::external_body]
fn rfc3339_from_timestamp(secs: i64, nanos: u32) -> (r: Option<String>)
    ensures
        match r {
            Some(text) => rfc3339_utc(secs, nanos) == Some(text@),
            None => rfc3339_utc(secs, nanos) is None,
        },
{
    match chrono::DateTime::<chrono::Utc>::from_timestamp(secs, nanos) {
        Some(time) => Some(time.to_rfc3339()),
        None => None,
    }
}

/// The text that records when a directory was last modified: empty where the
/// directory is missing, has no modification time, or has one that cannot be
/// written as a date.
pub open spec fn updated_text(stat: Option<FileStat>) -> Seq<char> {
    match stat {
        Some(s) => match s.modified {
            Some(t) => match rfc3339_utc(t.secs, t.nanos) {
                Some(text) => text,
                None => Seq::empty(),
            },
            None => Seq::empty(),
        },
        None => Seq::empty(),
    }
}

/// Writes the modification time of a directory as RFC 3339 text.
pub fn format_updated(stat: &Option<FileStat>) -> (r: String)
    ensures
        r@ == updated_text(*stat),
{
    match stat {
        Some(s) => match s.modified {
            Some(t) => match rfc3339_from_timestamp(t.secs, t.nanos) {
                Some(text) => text,
                None => String::new(),
            },
            None => String::new(),
        },
        None => String::new(),
    }
}

// ---------------------------------------------------------------------------
// Bucket lookup
// ---------------------------------------------------------------------------

/// One entry of the buckets directory, probed for the manifest of one
/// package.
#[derive(Debug, Clone)]
pub struct BucketDir {
    /// The entry's file name.
    pub name: String,
    pub is_dir: bool,
    /// Path of `{package}.json` at the top of the bucket, where it exists.
    pub root_manifest: Option<String>,
    /// Path of `bucket/{package}.json` in the bucket, where it exists.
    pub nested_manifest: Option<String>,
}

impl BucketDir {
    /// Whether the entry is a bucket that lists the package under `bucket/`.
    pub open spec fn lists_package(&self) -> bool {
        self.is_dir && self.nested_manifest is Some
    }
}

/// The index of the first bucket that lists the package.
pub open spec fn first_listing_bucket(buckets: Seq<BucketDir>) -> Option<int>
    decreases buckets.len(),
{
    if buckets.len() == 0 {
        None
    } else {
        match first_listing_bucket(buckets.drop_last()) {
            Some(i) => Some(i),
            None => if buckets.last().lists_package() {
                Some(buckets.len() - 1)
            } else {
                None
            },
        }
    }
}

/// What `first_listing_bucket` selects: the bucket that lists the package and
/// has no such bucket before it.
pub proof fn lemma_first_listing_bucket(buckets: Seq<BucketDir>)
    ensures
        match first_listing_bucket(buckets) {
            Some(i) => {
                &&& 0 <= i < buckets.len()
                &&& buckets[i].lists_package()
                &&& forall|j: int| 0 <= j < i ==> !(#[trigger] buckets[j]).lists_package()
            },
            None => forall|j: int| 0 <= j < buckets.len() ==> !(#[trigger] buckets[j]).lists_package(),
        },
    decreases buckets.len(),
{
    if buckets.len() > 0 {
        let init = buckets.drop_last();
        lemma_first_listing_bucket(init);
        assert(forall|j: int| 0 <= j < init.len() ==> init[j] == buckets[j]);
    }
}

/// The name of the first bucket that lists the package.
pub open spec fn package_bucket(buckets: Seq<BucketDir>) -> Option<Seq<char>> {
    match first_listing_bucket(buckets) {
        Some(i) => Some(buckets[i].name@),
        None => None,
    }
}

/// Searches the buckets for the manifest of a package and returns the name of
/// the first bucket that has it.
pub fn find_package_bucket(buckets: &Vec<BucketDir>) -> (r: Option<String>)
    ensures
        match r {
            Some(name) => package_bucket(buckets@) == Some(name@),
            None => package_bucket(buckets@) is None,
        },
{
    let mut k: usize = 0;
    while k < buckets.len()
        invariant
            k <= buckets.len(),
            first_listing_bucket(buckets@.take(k as int)) is None,
        decreases buckets.len() - k,
    {
        proof {
            let now = buckets@.take(k + 1);
            assert(now.drop_last() =~= buckets@.take(k as int));
        }
        if buckets[k].is_dir && buckets[k].nested_manifest.is_some() {
            proof {
                lemma_listing_bucket_extends(buckets@, k + 1);
            }
            return Some(buckets[k].name.clone());
        }
        k += 1;
    }
    assert(buckets@.take(buckets.len() as int) =~= buckets@);
    None
}

proof fn lemma_listing_bucket_extends(buckets: Seq<BucketDir>, n: int)
    requires
        0 <= n <= buckets.len(),
        first_listing_bucket(buckets.take(n)) is Some,
    ensures
        first_listing_bucket(buckets) == first_listing_bucket(buckets.take(n)),
    decreases buckets.len() - n,
{
    if n < buckets.len() {
        let next = buckets.take(n + 1);
        assert(next.drop_last() =~= buckets.take(n));
        lemma_listing_bucket_extends(buckets, n + 1);
    } else {
        assert(buckets.take(n) =~= buckets);
    }
}

// ---------------------------------------------------------------------------
// One package
// ---------------------------------------------------------------------------

/// What came of reading and parsing one metadata file.
#[derive(Debug, Clone)]
pub enum FileRead<T> {
    /// The file is missing or could not be read.
    Unreadable,
    /// The file was read and is not valid.
    Malformed,
    /// The file was read and parsed.
    Parsed(T),
}

/// The two metadata files of the active version directory.
#[derive(Debug, Clone)]
pub struct ActiveFiles {
    /// The package manifest.
    pub manifest: FileRead<PackageManifest>,
    /// `install.json`.
    pub install: FileRead<InstallManifest>,
}

/// Why a package directory yields no record.
#[derive(Debug, Clone, Copy, PartialEq, Eq, Structural)]
pub enum LoadError {
    /// The directory name is not valid Unicode.
    InvalidName,
    /// Neither the `current` marker nor a version directory exists.
    NoActiveVersion,
    /// The package manifest is missing or unreadable.
    MissingManifest,
    /// The package manifest does not parse.
    InvalidManifest,
    /// `install.json` is missing or unreadable.
    MissingInstallRecord,
    /// `install.json` does not parse.
    InvalidInstallRecord,
}

/// The source given to a package that names no bucket and is found in none:
/// the empty text, which no bucket can bear as its name.
pub open spec fn unknown_source() -> Seq<char> {
    Seq::empty()
}

/// The record of an installed package, from its name, its two metadata files,
/// the bucket found for it by search and the time text of its directory.
pub open spec fn package_record(
    name: Seq<char>,
    manifest: PackageManifest,
    install: InstallManifest,
    found_bucket: Option<Seq<char>>,
    updated: Seq<char>,
) -> PackageView {
    PackageView {
        name,
        version: manifest.version@,
        source: match install.bucket {
            Some(bucket) => bucket@,
            None => match found_bucket {
                Some(bucket) => bucket,
                None => unknown_source(),
            },
        },
        updated,
        is_installed: true,
        info: match manifest.description {
            Some(text) => text@,
            None => Seq::empty(),
        },
        match_source: MatchSource::NoMatch,
        is_versioned_install: install.bucket is None && found_bucket is None,
    }
}

/// Builds the record of an installed package.
///
/// The source is the bucket that the install record names; without one, the
/// bucket in which a search found the package; without that it is left
/// empty, and the package then counts as a versioned install.
pub fn build_package_record(
    name: &str,
    manifest: &PackageManifest,
    install: &InstallManifest,
    found_bucket: Option<String>,
    updated: String,
) -> (r: ScoopPackage)
    ensures
        r@ == package_record(name@, *manifest, *install, opt_text(found_bucket), updated@),
{
    let is_versioned_install = install.bucket.is_none() && found_bucket.is_none();
    let source = match &install.bucket {
        Some(bucket) => bucket.clone(),
        None => match found_bucket {
            Some(bucket) => bucket,
            None => String::new(),
        },
    };
    let info = match &manifest.description {
        Some(text) => text.clone(),
        None => String::new(),
    };
    ScoopPackage {
        name: name.to_owned(),
        version: manifest.version.clone(),
        source,
        updated,
        is_installed: true,
        info,
        match_source: MatchSource::NoMatch,
        is_versioned_install,
    }
}

/// Metadata of the directory that holds the active version.
pub open spec fn active_stat(package: PackageDir) -> Option<FileStat> {
    match active_version(package) {
        ActiveVersion::Current => package.current.dir,
        ActiveVersion::LatestVersion(i) => package.entries@[i as int].dir,
        ActiveVersion::Absent => None,
    }
}

/// What loading a package yields: the first failure in the order name, active
/// version, manifest, install record, or else the record.
pub open spec fn load_outcome(
    package: PackageDir,
    files: ActiveFiles,
    buckets: Seq<BucketDir>,
) -> Result<PackageView, LoadError> {
    match package.name {
        None => Err(LoadError::InvalidName),
        Some(name) => if active_version(package) == ActiveVersion::Absent {
            Err(LoadError::NoActiveVersion)
        } else {
            match files.manifest {
                FileRead::Unreadable => Err(LoadError::MissingManifest),
                FileRead::Malformed => Err(LoadError::InvalidManifest),
                FileRead::Parsed(manifest) => match files.install {
                    FileRead::Unreadable => Err(LoadError::MissingInstallRecord),
                    FileRead::Malformed => Err(LoadError::InvalidInstallRecord),
                    FileRead::Parsed(install) => Ok(
                        package_record(
                            name@,
                            manifest,
                            install,
                            package_bucket(buckets),
                            updated_text(active_stat(package)),
                        ),
                    ),
                },
            }
        },
    }
}

/// Loads the details of one installed package.
///
/// `files` holds what was read in the directory that `locate_install_dir`
/// selects for `package`, and `buckets` the buckets directory probed for the
/// package's manifest. The buckets are consulted only where the install
/// record names no bucket.
pub fn load_package_details(
    package: &PackageDir,
    files: &ActiveFiles,
    buckets: &Vec<BucketDir>,
) -> (r: Result<ScoopPackage, LoadError>)
    ensures
        match r {
            Ok(record) => load_outcome(*package, *files, buckets@) == Ok::<PackageView, LoadError>(
                record@,
            ),
            Err(e) => load_outcome(*package, *files, buckets@) == Err::<PackageView, LoadError>(e),
        },
{
    let name = match &package.name {
        Some(name) => name,
        None => {
            return Err(LoadError::InvalidName);
        },
    };
    let active = locate_install_dir(package);
    let stat = match active {
        ActiveVersion::Current => package.current.dir,
        ActiveVersion::LatestVersion(i) => {
            proof {
                crate::probe::lemma_latest_version(package.entries@);
            }
            package.entries[i].dir
        },
        ActiveVersion::Absent => {
            return Err(LoadError::NoActiveVersion);
        },
    };
    let manifest = match &files.manifest {
        FileRead::Unreadable => {
            return Err(LoadError::MissingManifest);
        },
        FileRead::Malformed => {
            return Err(LoadError::InvalidManifest);
        },
        FileRead::Parsed(manifest) => manifest,
    };
    let install = match &files.install {
        FileRead::Unreadable => {
            return Err(LoadError::MissingInstallRecord);
        },
        FileRead::Malformed => {
            return Err(LoadError::InvalidInstallRecord);
        },
        FileRead::Parsed(install) => install,
    };
    let found_bucket = find_package_bucket(buckets);
    let updated = format_updated(&stat);
    Ok(build_package_record(name.as_str(), manifest, install, found_bucket, updated))
}

// ---------------------------------------------------------------------------
// All packages
// ---------------------------------------------------------------------------

/// Everything that was read for one package directory.
#[derive(Debug, Clone)]
pub struct PackageInput {
    pub dir: PackageDir,
    pub files: ActiveFiles,
    pub buckets: Vec<BucketDir>,
}

/// The record that one input contributes to a scan: none where loading fails.
pub open spec fn loaded(input: PackageInput) -> Seq<PackageView> {
    match load_outcome(input.dir, input.files, input.buckets@) {
        Ok(record) => seq![record],
        Err(_) => Seq::empty(),
    }
}

/// The records of all inputs that load, in the order of the inputs.
pub open spec fn scanned(inputs: Seq<PackageInput>) -> Seq<PackageView>
    decreases inputs.len(),
{
    if inputs.len() == 0 {
        Seq::empty()
    } else {
        scanned(inputs.drop_last()) + loaded(inputs.last())
    }
}

/// Loads every package and keeps the records of those that load. A package
/// that fails is left out; it never ends the scan.
pub fn scan_packages(inputs: &Vec<PackageInput>) -> (r: Vec<ScoopPackage>)
    ensures
        r.deep_view() == scanned(inputs@),
{
    let mut out: Vec<ScoopPackage> = Vec::new();
    let mut k: usize = 0;
    while k < inputs.len()
        invariant
            k <= inputs.len(),
            out.deep_view() == scanned(inputs@.take(k as int)),
        decreases inputs.len() - k,
    {
        proof {
            let now = inputs@.take(k + 1);
            assert(now.drop_last() =~= inputs@.take(k as int));
        }
        let input = &inputs[k];
        match load_package_details(&input.dir, &input.files, &input.buckets) {
            Ok(record) => {
                out.push(record);
            },
            Err(_) => {},
        }
        k += 1;
    }
    assert(inputs@.take(inputs.len() as int) =~= inputs@);
    out
}

/// A package that a scan left out, for the log.
#[derive(Debug)]
pub struct SkippedPackage {
    /// The name of the package directory; `None` where it is not valid
    /// Unicode.
    pub name: Option<String>,
    /// Why it yields no record.
    pub reason: LoadError,
}

impl View for SkippedPackage {
    type V = (Option<Seq<char>>, LoadError);

    /// The name and the reason.
    open spec fn view(&self) -> (Option<Seq<char>>, LoadError) {
        (opt_text(self.name), self.reason)
    }
}

impl DeepView for SkippedPackage {
    type V = (Option<Seq<char>>, LoadError);

    open spec fn deep_view(&self) -> (Option<Seq<char>>, LoadError) {
        self@
    }
}

/// What one input contributes to the list of skipped packages: its name and
/// the reason where loading fails.
pub open spec fn failed(input: PackageInput) -> Seq<(Option<Seq<char>>, LoadError)> {
    match load_outcome(input.dir, input.files, input.buckets@) {
        Ok(_) => Seq::empty(),
        Err(reason) => seq![(opt_text(input.dir.name), reason)],
    }
}

/// The inputs that do not load, each with the reason, in the order of the
/// inputs.
pub open spec fn skipped(inputs: Seq<PackageInput>) -> Seq<(Option<Seq<char>>, LoadError)>
    decreases inputs.len(),
{
    if inputs.len() == 0 {
        Seq::empty()
    } else {
        skipped(inputs.drop_last()) + failed(inputs.last())
    }
}

/// Lists the packages that a scan of the inputs leaves out, each with the
/// reason, for the host to log.
pub fn skipped_packages(inputs: &Vec<PackageInput>) -> (r: Vec<SkippedPackage>)
    ensures
        r.deep_view() == skipped(inputs@),
{
    let mut out: Vec<SkippedPackage> = Vec::new();
    let mut k: usize = 0;
    assert(inputs@.take(0) =~= Seq::<PackageInput>::empty());
    while k < inputs.len()
        invariant
            k <= inputs.len(),
            out.deep_view() == skipped(inputs@.take(k as int)),
        decreases inputs.len() - k,
    {
        let ghost before = out.deep_view();
        proof {
            let now = inputs@.take(k + 1);
            assert(now.drop_last() =~= inputs@.take(k as int));
        }
        let input = &inputs[k];
        match load_package_details(&input.dir, &input.files, &input.buckets) {
            Ok(_) => {},
            Err(reason) => {
                let name = match &input.dir.name {
                    Some(text) => Some(text.clone()),
                    None => None,
                };
                out.push(SkippedPackage { name, reason });
                assert(out.deep_view() =~= before + failed(inputs@[k as int]));
            },
        }
        k += 1;
    }
    assert(inputs@.take(inputs.len() as int) =~= inputs@);
    out
}

/// Every input is accounted for: it has a record in the scan or stands in
/// the list of skipped packages.
pub proof fn lemma_loaded_or_skipped(inputs: Seq<PackageInput>)
    ensures
        scanned(inputs).len() + skipped(inputs).len() == inputs.len(),
    decreases inputs.len(),
{
    if inputs.len() > 0 {
        lemma_loaded_or_skipped(inputs.drop_last());
    }
}

/// Scanning two runs of inputs gives the records of the first run, then
/// those of the second.
pub proof fn lemma_scanned_concat(x: Seq<PackageInput>, y: Seq<PackageInput>)
    ensures
        scanned(x + y) == scanned(x) + scanned(y),
    decreases y.len(),
{
    if y.len() > 0 {
        lemma_scanned_concat(x, y.drop_last());
        assert((x + y).drop_last() =~= x + y.drop_last());
    }
}

/// A package that fails to load is skipped and costs no other package its
/// record: the scan gives what it gives without that package.
pub proof fn lemma_failure_is_skipped(inputs: Seq<PackageInput>, k: int)
    requires
        0 <= k < inputs.len(),
        load_outcome(inputs[k].dir, inputs[k].files, inputs[k].buckets@) is Err,
    ensures
        scanned(inputs) == scanned(inputs.remove(k)),
{
    let x = inputs.take(k);
    let y = inputs.skip(k + 1);
    let one = seq![inputs[k]];
    assert(inputs =~= x + one + y);
    lemma_scanned_concat(x, one);
    lemma_scanned_concat(x + one, y);
    lemma_scanned_concat(x, y);
    assert(scanned(one.drop_last()) =~= Seq::<PackageView>::empty());
}

/// A package without a readable install record fails to load, whatever else
/// is found of it.
pub proof fn lemma_missing_install_record_fails(input: PackageInput)
    requires
        input.files.install is Unreadable,
    ensures
        load_outcome(input.dir, input.files, input.buckets@) is Err,
        input.dir.name is Some && active_version(input.dir) != ActiveVersion::Absent
            && input.files.manifest is Parsed ==> load_outcome(
            input.dir,
            input.files,
            input.buckets@,
        ) == Err::<PackageView, LoadError>(LoadError::MissingInstallRecord),
{
}

/// Whether no two inputs have the same directory name.
pub open spec fn names_distinct(inputs: Seq<PackageInput>) -> bool {
    forall|i: int, j: int|
        0 <= i < j < inputs.len() && (#[trigger] inputs[i]).dir.name is Some && (
        #[trigger] inputs[j]).dir.name is Some ==> inputs[i].dir.name->0@ != inputs[j].dir.name->0@
}

/// Every record of a scan bears the name of one of the scanned directories.
pub proof fn lemma_scanned_names(inputs: Seq<PackageInput>)
    ensures
        forall|i: int|
            0 <= i < scanned(inputs).len() ==> exists|j: int|
                0 <= j < inputs.len() && (#[trigger] inputs[j]).dir.name == Some(
                    inputs[j].dir.name->0,
                ) && inputs[j].dir.name->0@ == (#[trigger] scanned(inputs)[i]).name,
    decreases inputs.len(),
{
    if inputs.len() > 0 {
        let init = inputs.drop_last();
        let last = inputs.last();
        lemma_scanned_names(init);
        let all = scanned(inputs);
        assert forall|i: int| 0 <= i < all.len() implies exists|j: int|
            0 <= j < inputs.len() && (#[trigger] inputs[j]).dir.name == Some(inputs[j].dir.name->0)
                && inputs[j].dir.name->0@ == (#[trigger] all[i]).name by {
            if i < scanned(init).len() {
                let j = choose|j: int|
                    0 <= j < init.len() && (#[trigger] init[j]).dir.name == Some(
                        init[j].dir.name->0,
                    ) && init[j].dir.name->0@ == scanned(init)[i].name;
            }
        }
    }
}

/// Two records of one scan never share a name, where no two scanned
/// directories do.
pub proof fn lemma_scanned_names_unique(inputs: Seq<PackageInput>)
    requires
        names_distinct(inputs),
    ensures
        forall|i: int, j: int|
            0 <= i < j < scanned(inputs).len() ==> (#[trigger] scanned(inputs)[i]).name != (
            #[trigger] scanned(inputs)[j]).name,
    decreases inputs.len(),
{
    if inputs.len() > 0 {
        let init = inputs.drop_last();
        let last = inputs.last();
        lemma_scanned_names_unique(init);
        lemma_scanned_names(init);
        let all = scanned(inputs);
        assert forall|i: int, j: int| 0 <= i < j < all.len() implies (#[trigger] all[i]).name != (
        #[trigger] all[j]).name by {
            if j >= scanned(init).len() {
                let m = choose|m: int|
                    0 <= m < init.len() && (#[trigger] init[m]).dir.name == Some(
                        init[m].dir.name->0,
                    ) && init[m].dir.name->0@ == scanned(init)[i].name;
            }
        }
    }
}

} // verus!
