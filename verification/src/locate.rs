//! Locating the manifest of a package: in the bucket that is named, in any
//! bucket, or among the installed packages.

use crate::json::{flag_member, json_document, member_flag, member_text, parse_json, text_member};
use crate::loader::{BucketDir};
use crate::text::{opt_text, str_eq};
use vstd::prelude::*;
use vstd::string::*;

verus! {

// ---------------------------------------------------------------------------
// The install record
// ---------------------------------------------------------------------------

/// Whether an install record says that its package is held: it is a JSON
/// object whose member `hold` is `true`.
pub open spec fn record_holds(install_record: Seq<char>) -> bool {
    flag_member(json_document(install_record), "hold"@) == Some(true)
}

/// Whether an install record says that its package is held.
pub fn is_package_held(install_record: &str) -> (r: bool)
    ensures
        r == record_holds(install_record@),
{
    match member_flag(&parse_json(install_record), "hold") {
        Some(hold) => hold,
        None => false,
    }
}

// ---------------------------------------------------------------------------
// The search
// ---------------------------------------------------------------------------

/// What was found of the places where the manifest of one package may lie.
#[derive(Debug)]
pub struct ManifestSearch {
    /// Whether the buckets directory exists.
    pub buckets_is_dir: bool,
    /// The bucket directory that bears the name of the package's source;
    /// `None` where no source was given.
    pub named_bucket: Option<BucketDir>,
    /// The entries of the buckets directory, in listing order; empty where it
    /// could not be read.
    pub buckets: Vec<BucketDir>,
    /// The path of the manifest under the installed package's `current`
    /// directory, where that file exists.
    pub installed_manifest: Option<String>,
    /// The text of `install.json` in that directory, where it could be read.
    pub install_record: Option<String>,
}

/// A manifest that was found: its path and the bucket it belongs to.
pub struct Located {
    pub path: Seq<char>,
    pub bucket: Seq<char>,
}

/// The manifest that a bucket directory holds for the package: the one at
/// its top, else the one under `bucket/`.
pub open spec fn bucket_hit(bucket: BucketDir) -> Option<Located> {
    if !bucket.is_dir {
        None
    } else {
        match bucket.root_manifest {
            Some(path) => Some(Located { path: path@, bucket: bucket.name@ }),
            None => match bucket.nested_manifest {
                Some(path) => Some(Located { path: path@, bucket: bucket.name@ }),
                None => None,
            },
        }
    }
}

/// The manifest of the first bucket, in listing order, that holds one.
pub open spec fn first_hit(buckets: Seq<BucketDir>) -> Option<Located>
    decreases buckets.len(),
{
    if buckets.len() == 0 {
        None
    } else {
        match first_hit(buckets.drop_last()) {
            Some(found) => Some(found),
            None => bucket_hit(buckets.last()),
        }
    }
}

/// What `first_hit` selects: the manifest of a bucket that holds one and has
/// no such bucket before it.
pub proof fn lemma_first_hit(buckets: Seq<BucketDir>)
    ensures
        match first_hit(buckets) {
            Some(found) => exists|i: int|
                0 <= i < buckets.len() && bucket_hit(#[trigger] buckets[i]) == Some(found)
                    && forall|j: int| 0 <= j < i ==> bucket_hit(#[trigger] buckets[j]) is None,
            None => forall|j: int| 0 <= j < buckets.len() ==> bucket_hit(#[trigger] buckets[j]) is None,
        },
    decreases buckets.len(),
{
    if buckets.len() > 0 {
        let init = buckets.drop_last();
        lemma_first_hit(init);
        assert(forall|j: int| 0 <= j < init.len() ==> init[j] == buckets[j]);
        match first_hit(init) {
            Some(found) => {
                let i = choose|i: int|
                    0 <= i < init.len() && bucket_hit(#[trigger] init[i]) == Some(found)
                        && forall|j: int| 0 <= j < i ==> bucket_hit(#[trigger] init[j]) is None;
            },
            None => {},
        }
    }
}

/// The text `None`, which stands for a source that is not known.
pub open spec fn no_source() -> Seq<char> {
    seq!['N', 'o', 'n', 'e']
}

/// Whether a source names a bucket: it is given, not empty and not `None`.
pub open spec fn names_bucket(source: Option<Seq<char>>) -> bool {
    match source {
        Some(text) => text.len() > 0 && text != no_source(),
        None => false,
    }
}

/// The bucket name reported for a manifest that was found only among the
/// installed packages.
pub open spec fn installed_bucket_name(install_record: Option<Seq<char>>) -> Seq<char> {
    match install_record {
        Some(content) => match text_member(json_document(content), "bucket"@) {
            Some(bucket) => bucket + " (missing)"@,
            None => "Installed (Bucket missing)"@,
        },
        None => "Installed (Bucket missing)"@,
    }
}

/// The message for a manifest that was found nowhere.
pub open spec fn not_found_message(name: Seq<char>, source: Option<Seq<char>>) -> Seq<char> {
    if names_bucket(source) {
        "Package '"@ + name + "' not found in bucket '"@ + source->0 + "'."@
    } else {
        "Package '"@ + name + "' not found in any bucket."@
    }
}

/// Where the manifest of a package is: in the named bucket, else in the first
/// bucket that holds it, else under the installed package; or the message
/// that says that it is nowhere.
pub open spec fn located(search: ManifestSearch, name: Seq<char>, source: Option<Seq<char>>)
    -> Result<Located, Seq<char>> {
    let named = if names_bucket(source) && search.buckets_is_dir {
        match search.named_bucket {
            Some(bucket) => bucket_hit(bucket),
            None => None,
        }
    } else {
        None
    };
    let listed = if search.buckets_is_dir {
        first_hit(search.buckets@)
    } else {
        None
    };
    match named {
        Some(found) => Ok(found),
        None => match listed {
            Some(found) => Ok(found),
            None => match search.installed_manifest {
                Some(path) => Ok(
                    Located {
                        path: path@,
                        bucket: installed_bucket_name(opt_text(search.install_record)),
                    },
                ),
                None => Err(not_found_message(name, source)),
            },
        },
    }
}

fn search_bucket(bucket: &BucketDir) -> (r: Option<(String, String)>)
    ensures
        match r {
            Some(found) => bucket_hit(*bucket) == Some(
                Located { path: found.0@, bucket: found.1@ },
            ),
            None => bucket_hit(*bucket) is None,
        },
{
    if !bucket.is_dir {
        return None;
    }
    match &bucket.root_manifest {
        Some(path) => Some((path.clone(), bucket.name.clone())),
        None => match &bucket.nested_manifest {
            Some(path) => Some((path.clone(), bucket.name.clone())),
            None => None,
        },
    }
}

fn search_all_buckets(buckets: &Vec<BucketDir>) -> (r: Option<(String, String)>)
    ensures
        match r {
            Some(found) => first_hit(buckets@) == Some(Located { path: found.0@, bucket: found.1@ }),
            None => first_hit(buckets@) is None,
        },
{
    let mut k: usize = 0;
    while k < buckets.len()
        invariant
            k <= buckets.len(),
            first_hit(buckets@.take(k as int)) is None,
        decreases buckets.len() - k,
    {
        proof {
            let now = buckets@.take(k + 1);
            assert(now.drop_last() =~= buckets@.take(k as int));
        }
        match search_bucket(&buckets[k]) {
            Some(found) => {
                proof {
                    lemma_first_hit_extends(buckets@, k + 1);
                }
                return Some(found);
            },
            None => {},
        }
        k += 1;
    }
    assert(buckets@.take(buckets.len() as int) =~= buckets@);
    None
}

proof fn lemma_first_hit_extends(buckets: Seq<BucketDir>, n: int)
    requires
        0 <= n <= buckets.len(),
        first_hit(buckets.take(n)) is Some,
    ensures
        first_hit(buckets) == first_hit(buckets.take(n)),
    decreases buckets.len() - n,
{
    if n < buckets.len() {
        assert(buckets.take(n + 1).drop_last() =~= buckets.take(n));
        lemma_first_hit_extends(buckets, n + 1);
    } else {
        assert(buckets.take(n) =~= buckets);
    }
}

fn source_names_bucket(source: &Option<String>) -> (r: bool)
    ensures
        r == names_bucket(opt_text(*source)),
{
    match source {
        Some(text) => {
            proof {
                reveal_strlit("None");
                assert("None"@ =~= no_source());
            }
            text.as_str().unicode_len() > 0 && !str_eq(text.as_str(), "None")
        },
        None => false,
    }
}

/// Names the bucket of a manifest that lies only under the installed
/// package, from the text of its install record.
pub fn name_installed_bucket(install_record: &Option<String>) -> (r: String)
    ensures
        r@ == installed_bucket_name(opt_text(*install_record)),
{
    match install_record {
        Some(content) => match member_text(&parse_json(content.as_str()), "bucket") {
            Some(bucket) => {
                let mut name = bucket;
                name.append(" (missing)");
                name
            },
            None => "Installed (Bucket missing)".to_owned(),
        },
        None => "Installed (Bucket missing)".to_owned(),
    }
}

/// Locates the manifest of `package_name`. Where `package_source` names a
/// bucket, that bucket is tried first; then all buckets in listing order;
/// then the manifest of the installed package. Returns the path of the
/// manifest and the name of its bucket.
pub fn locate_package_manifest(
    search: &ManifestSearch,
    package_name: &str,
    package_source: Option<String>,
) -> (r: Result<(String, String), String>)
    ensures
        match r {
            Ok(found) => located(*search, package_name@, opt_text(package_source)) == Ok::<
                Located,
                Seq<char>,
            >(Located { path: found.0@, bucket: found.1@ }),
            Err(message) => located(*search, package_name@, opt_text(package_source)) == Err::<
                Located,
                Seq<char>,
            >(message@),
        },
{
    let by_name = source_names_bucket(&package_source);
    if by_name && search.buckets_is_dir {
        match &search.named_bucket {
            Some(bucket) => match search_bucket(bucket) {
                Some(found) => {
                    return Ok(found);
                },
                None => {},
            },
            None => {},
        }
    }
    if search.buckets_is_dir {
        match search_all_buckets(&search.buckets) {
            Some(found) => {
                return Ok(found);
            },
            None => {},
        }
    }
    match &search.installed_manifest {
        Some(path) => {
            return Ok((path.clone(), name_installed_bucket(&search.install_record)));
        },
        None => {},
    }
    let mut message = "Package '".to_owned();
    message.append(package_name);
    match &package_source {
        Some(source) => {
            if by_name {
                message.append("' not found in bucket '");
                message.append(source.as_str());
                message.append("'.");
                return Err(message);
            }
        },
        None => {},
    }
    message.append("' not found in any bucket.");
    Err(message)
}

} // verus!
