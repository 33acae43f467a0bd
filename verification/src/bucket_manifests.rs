//! The manifests of a bucket, by name.

use crate::text::{has_prefix, sort_strings, sorted_texts, starts_with, str_eq};
use vstd::prelude::*;
use vstd::string::*;

verus! {

/// One entry of a bucket directory.
#[derive(Debug)]
pub struct BucketFile {
    /// The file name without its extension; `None` where it is not valid
    /// Unicode.
    pub stem: Option<String>,
    /// The extension of the file name; `None` where there is none or it is
    /// not valid Unicode.
    pub extension: Option<String>,
    pub is_file: bool,
}

/// The name of the JSON file that the entry is; none where it is no file,
/// no JSON, or has no Unicode name.
pub open spec fn json_stem(entry: BucketFile) -> Option<Seq<char>> {
    match (entry.extension, entry.stem) {
        (Some(extension), Some(stem)) => if entry.is_file && extension@ == "json"@ {
            Some(stem@)
        } else {
            None
        },
        _ => None,
    }
}

/// What the entry at the top of a bucket is listed as: its name, marked as
/// standing at the root. Files whose name begins with a dot, and the file
/// `bucket`, are no manifests.
pub open spec fn root_listing(entry: BucketFile) -> Option<Seq<char>> {
    match json_stem(entry) {
        Some(stem) => if !has_prefix(stem, "."@) && stem != "bucket"@ {
            Some(stem + " (root)"@)
        } else {
            None
        },
        None => None,
    }
}

/// The listings of the entries at the top of a bucket, in their order.
pub open spec fn root_listings(entries: Seq<BucketFile>) -> Seq<Seq<char>>
    decreases entries.len(),
{
    if entries.len() == 0 {
        Seq::empty()
    } else {
        match root_listing(entries.last()) {
            Some(name) => root_listings(entries.drop_last()).push(name),
            None => root_listings(entries.drop_last()),
        }
    }
}

/// The names of the JSON files under `bucket/`, in their order.
pub open spec fn nested_listings(entries: Seq<BucketFile>) -> Seq<Seq<char>>
    decreases entries.len(),
{
    if entries.len() == 0 {
        Seq::empty()
    } else {
        match json_stem(entries.last()) {
            Some(name) => nested_listings(entries.drop_last()).push(name),
            None => nested_listings(entries.drop_last()),
        }
    }
}

fn stem_of(entry: &BucketFile) -> (r: Option<&str>)
    ensures
        match r {
            Some(stem) => json_stem(*entry) == Some(stem@),
            None => json_stem(*entry) is None,
        },
{
    match (&entry.extension, &entry.stem) {
        (Some(extension), Some(stem)) => if entry.is_file && str_eq(extension.as_str(), "json") {
            Some(stem.as_str())
        } else {
            None
        },
        _ => None,
    }
}

/// Lists the manifests of a bucket in ascending order. `root` are the
/// entries at the top of the bucket and `nested` those under `bucket/`;
/// either is empty where the directory is missing or cannot be read.
pub fn list_bucket_manifests(root: &Vec<BucketFile>, nested: &Vec<BucketFile>) -> (r: Vec<String>)
    ensures
        r.deep_view() == sorted_texts(root_listings(root@) + nested_listings(nested@)),
{
    let mut names: Vec<String> = Vec::new();
    let mut k: usize = 0;
    while k < root.len()
        invariant
            k <= root.len(),
            names.deep_view() == root_listings(root@.take(k as int)),
        decreases root.len() - k,
    {
        let ghost so_far = names.deep_view();
        proof {
            let now = root@.take(k + 1);
            assert(now.drop_last() =~= root@.take(k as int));
        }
        match stem_of(&root[k]) {
            Some(stem) => {
                if !starts_with(stem, ".") && !str_eq(stem, "bucket") {
                    let mut name = stem.to_owned();
                    name.append(" (root)");
                    names.push(name);
                }
            },
            None => {},
        }
        k += 1;
    }
    assert(root@.take(root.len() as int) =~= root@);
    let ghost first = names.deep_view();
    let mut j: usize = 0;
    while j < nested.len()
        invariant
            j <= nested.len(),
            names.deep_view() == first + nested_listings(nested@.take(j as int)),
        decreases nested.len() - j,
    {
        let ghost so_far = names.deep_view();
        proof {
            let now = nested@.take(j + 1);
            assert(now.drop_last() =~= nested@.take(j as int));
        }
        match stem_of(&nested[j]) {
            Some(stem) => {
                names.push(stem.to_owned());
                assert(names.deep_view() =~= so_far.push(stem@));
            },
            None => {},
        }
        j += 1;
    }
    assert(nested@.take(nested.len() as int) =~= nested@);
    sort_strings(names)
}

/// The message for a bucket that is not there.
pub fn missing_bucket_message(bucket_name: &str) -> (r: String)
    ensures
        r@ == "Bucket '"@ + bucket_name@ + "' does not exist"@,
{
    let mut message = "Bucket '".to_owned();
    message.append(bucket_name);
    message.append("' does not exist");
    message
}

} // verus!
