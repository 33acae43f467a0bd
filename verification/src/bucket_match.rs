//! How well a bucket answers a query.

use crate::buckets::{BucketView, SearchableBucket};
use crate::strings::{replace, replaced, split, split_on};
use crate::text::{
    contains, contains_text, has_prefix, starts_with, str_eq, to_lowercase, unicode_lower,
};
use vstd::prelude::*;
use vstd::string::*;

verus! {

/// The repository of a full name: what stands between its first and its
/// second `/`; empty where it holds no `/`.
pub open spec fn repo_part(full_name: Seq<char>) -> Seq<char> {
    let pieces = split(full_name, '/');
    if pieces.len() > 1 {
        pieces[1]
    } else {
        Seq::empty()
    }
}

/// The repository of a full name in lower case, without `scoop-` and
/// `scoop_`.
pub open spec fn clean_repo_name(full_name: Seq<char>) -> Seq<char> {
    replaced(
        replaced(unicode_lower(repo_part(full_name)), "scoop-"@, Seq::empty()),
        "scoop_"@,
        Seq::empty(),
    )
}

/// The rank of a text against a query: `exact` where they are equal, `head`
/// where the text begins with the query, `inside` where it holds it, else
/// nothing.
pub open spec fn text_rank(text: Seq<char>, query: Seq<char>, exact: nat, head: nat, inside: nat)
    -> nat {
    if text == query {
        exact
    } else if has_prefix(text, query) {
        head
    } else if contains_text(text, query) {
        inside
    } else {
        0
    }
}

/// The rank of a bucket against a query in lower case. The name counts
/// most, then the repository, then the full name, last the description;
/// nothing where none of them holds the query.
pub open spec fn match_rank(bucket: BucketView, query: Seq<char>) -> nat {
    let by_name = text_rank(unicode_lower(bucket.name), query, 1000, 500, 250);
    let by_repo = text_rank(clean_repo_name(bucket.full_name), query, 100, 50, 25);
    if by_name > 0 {
        by_name
    } else if by_repo > 0 {
        by_repo
    } else if contains_text(unicode_lower(bucket.full_name), query) {
        10
    } else if contains_text(unicode_lower(bucket.description), query) {
        1
    } else {
        0
    }
}

fn rank_text(text: &str, query: &str, exact: u32, head: u32, inside: u32) -> (r: u32)
    ensures
        r == text_rank(text@, query@, exact as nat, head as nat, inside as nat),
{
    if str_eq(text, query) {
        exact
    } else if starts_with(text, query) {
        head
    } else if contains(text, query) {
        inside
    } else {
        0
    }
}

/// Returns the repository of a full name in lower case, without `scoop-`
/// and `scoop_`.
pub fn repo_name(full_name: &str) -> (r: String)
    ensures
        r@ == clean_repo_name(full_name@),
{
    let pieces = split_on(full_name, '/');
    let repo = if pieces.len() > 1 {
        to_lowercase(pieces[1].as_str())
    } else {
        to_lowercase("")
    };
    proof {
        reveal_strlit("");
        assert(""@ =~= Seq::<char>::empty());
    }
    let first = replace(repo.as_str(), "scoop-", "");
    replace(first.as_str(), "scoop_", "")
}

/// Ranks a bucket against a query in lower case.
pub fn bucket_match_rank(bucket: &SearchableBucket, query_lower: &str) -> (r: u32)
    ensures
        r == match_rank(bucket@, query_lower@),
{
    let name = to_lowercase(bucket.name.as_str());
    let by_name = rank_text(name.as_str(), query_lower, 1000, 500, 250);
    if by_name > 0 {
        return by_name;
    }
    let repo = repo_name(bucket.full_name.as_str());
    let by_repo = rank_text(repo.as_str(), query_lower, 100, 50, 25);
    if by_repo > 0 {
        return by_repo;
    }
    if contains(to_lowercase(bucket.full_name.as_str()).as_str(), query_lower) {
        10
    } else if contains(to_lowercase(bucket.description.as_str()).as_str(), query_lower) {
        1
    } else {
        0
    }
}

} // verus!
