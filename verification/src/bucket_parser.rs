//! Reading the community directory of buckets: a Markdown table with one
//! bucket to a line, in one of three layouts.

use crate::buckets::{BucketView, SearchableBucket};
use crate::schedule::{parse_u64, parsed_u64};
use crate::strings::{
    lines_of, replace, replaced, split, split_on, text_lines, trim, trimmed,
};
use crate::text::{contains, contains_text, digit_char, opt_text, push_char, to_lowercase, unicode_lower};
use vstd::prelude::*;
use vstd::string::*;

verus! {

// ---------------------------------------------------------------------------
// Patterns
// ---------------------------------------------------------------------------

/// A line of the table as the directory writes it: rank, owner and
/// repository, description, and the numbers of apps, stars and forks.
pub const COMPLEX_PATTERN: &'static str =
    r#"\|\s*<a[^>]*>.*?</a>\[\d+\.\]\([^)]*\)\|\s*\[__([^/]+)/([^_]+)__\]\(([^)]+)\):\s*\*([^*]*)\*\|\s*\[(\d+)\]\([^)]*\)\|\s*\[(\d+)\]\([^)]*\)\|\s*\[(\d+)\]\([^)]*\)\|\s*\[([^\]]*)\]\([^)]*"#;

/// A line that names a package and the bucket file it lies in.
pub const SIMPLE_PATTERN: &'static str =
    r#"\|\s*\[([^\]]+)\]\(([^)]*)\)\s*\|\s*\[([^\]]*)\]\([^)]*(?:bucket/)?([^./\s)]+)(?:\.json)?[^)]*\)\s*\|\s*([^|]*?)\s*\|\s*(?:\[([^\]]*)\]\([^)]*\)|([^|]*?))\s*\|"#;

/// A line that names a package with a link, and little else.
pub const BASIC_PATTERN: &'static str =
    r#"\|\s*\[([^\]]+)\]\(([^)]*)\)\s*\|\s*(?:\[([^\]]*)\]\([^)]*\)|([^|]*?))\s*\|\s*([^|]*?)\s*\|\s*(?:\[([^\]]*)\]\([^)]*\)|([^|]*?))\s*\|"#;

/// A date of two digits for the year and one or two for month and day.
pub const DATE_PATTERN: &'static str = r"^(\d{2})-(\d{1,2})-(\d{1,2})$";

/// The capture groups of the first match of the regular expression
/// `pattern` in `text`, the whole match first; a group that took no part in
/// the match is `None`. `None` where nothing matches or the pattern does not
/// compile.
pub uninterp spec fn regex_groups(pattern: Seq<char>, text: Seq<char>) -> Option<
    Seq<Option<Seq<char>>>,
>;

/// The view of the groups of a match.
pub open spec fn groups_view(groups: Vec<Option<String>>) -> Seq<Option<Seq<char>>> {
    Seq::new(groups.len() as nat, |i: int| opt_text(groups@[i]))
}

/// The view of what matching gave.
pub open spec fn match_view(found: Option<Vec<Option<String>>>) -> Option<Seq<Option<Seq<char>>>> {
    match found {
        Some(groups) => Some(groups_view(groups)),
        None => None,
    }
}

/// Matches a regular expression against each of the texts.
///
/// Trusted: compiles the pattern once with `regex::Regex::new` and calls
/// `Regex::captures` on every text; the groups are read with
/// `Captures::iter` and `Match::as_str`. None of them panics, and what they
/// return depends on the pattern and the text alone; the contract only gives
/// that result its name, `regex_groups`.
#[verifier::external_body]
fn match_each(pattern: &str, texts: &Vec<String>) -> (r: Vec<Option<Vec<Option<String>>>>)
    ensures
        r.len() == texts.len(),
        forall|i: int|
            0 <= i < texts.len() ==> match_view(#[trigger] r@[i]) == regex_groups(
                pattern@,
                texts@[i]@,
            ),
{
    let compiled = match regex::Regex::new(pattern) {
        Ok(compiled) => compiled,
        Err(_) => return texts.iter().map(|_| None).collect(),
    };
    texts.iter().map(
        |text|
            compiled.captures(text).map(
                |found| found.iter().map(|group| group.map(|m| m.as_str().to_owned())).collect(),
            ),
    ).collect()
}

pub(crate) fn match_one(pattern: &str, text: &str) -> (r: Option<Vec<Option<String>>>)
    ensures
        match_view(r) == regex_groups(pattern@, text@),
{
    let mut texts: Vec<String> = Vec::new();
    texts.push(text.to_owned());
    let mut found = match_each(pattern, &texts);
    found.pop().unwrap()
}

// ---------------------------------------------------------------------------
// Reading groups
// ---------------------------------------------------------------------------

/// The text of group `i`, or `default` where the group is missing or took
/// no part in the match.
pub open spec fn group_or(groups: Seq<Option<Seq<char>>>, i: int, default: Seq<char>) -> Seq<
    char,
> {
    if 0 <= i < groups.len() {
        match groups[i] {
            Some(text) => text,
            None => default,
        }
    } else {
        default
    }
}

pub(crate) fn group<'a>(groups: &'a Vec<Option<String>>, i: usize, default: &'a str) -> (r:
    &'a str)
    ensures
        r@ == group_or(groups_view(*groups), i as int, default@),
{
    if i < groups.len() {
        match &groups[i] {
            Some(text) => text.as_str(),
            None => default,
        }
    } else {
        default
    }
}

/// The number that a text writes, as the standard library reads an unsigned
/// 32-bit number; `None` where it writes none.
pub open spec fn parsed_u32(s: Seq<char>) -> Option<u32> {
    match parsed_u64(s) {
        Some(value) => if value <= u32::MAX {
            Some(value as u32)
        } else {
            None
        },
        None => None,
    }
}

/// The number that a text writes, or `default` where it writes none.
pub open spec fn number_or(s: Seq<char>, default: u32) -> u32 {
    match parsed_u32(s) {
        Some(value) => value,
        None => default,
    }
}

/// Reads a text as an unsigned 32-bit number.
pub fn parse_u32(s: &str) -> (r: Option<u32>)
    ensures
        r == parsed_u32(s@),
{
    match parse_u64(s) {
        Some(value) => {
            if value <= 0xffff_ffff {
                Some(value as u32)
            } else {
                None
            }
        },
        None => None,
    }
}

fn number(s: &str, default: u32) -> (r: u32)
    ensures
        r == number_or(s@, default),
{
    match parse_u32(s) {
        Some(value) => value,
        None => default,
    }
}

// ---------------------------------------------------------------------------
// Names and dates
// ---------------------------------------------------------------------------

/// The name of the bucket that a repository holds: the repository's name
/// without `scoop-`, `Scoop-` and `scoop_`, in lower case.
pub open spec fn bucket_name_of(repo: Seq<char>) -> Seq<char> {
    unicode_lower(
        replaced(
            replaced(replaced(repo, "scoop-"@, ""@), "Scoop-"@, ""@),
            "scoop_"@,
            ""@,
        ),
    )
}

/// Derives the name of a bucket from the name of its repository.
pub fn extract_bucket_name(repo: &str) -> (r: String)
    ensures
        r@ == bucket_name_of(repo@),
{
    let a = replace(repo, "scoop-", "");
    let b = replace(a.as_str(), "Scoop-", "");
    let c = replace(b.as_str(), "scoop_", "");
    to_lowercase(c.as_str())
}

/// Whether the year is a leap year.
pub open spec fn is_leap_year(year: int) -> bool {
    year % 4 == 0 && (year % 100 != 0 || year % 400 == 0)
}

/// The number of days of a month; `0` where there is no such month.
pub open spec fn days_in_month(year: int, month: int) -> int {
    if month == 1 || month == 3 || month == 5 || month == 7 || month == 8 || month == 10 || month
        == 12 {
        31
    } else if month == 4 || month == 6 || month == 9 || month == 11 {
        30
    } else if month == 2 {
        if is_leap_year(year) {
            29
        } else {
            28
        }
    } else {
        0
    }
}

/// Whether the three numbers are a date of the years 0 to 9999.
pub open spec fn is_date(year: int, month: int, day: int) -> bool {
    0 <= year <= 9999 && 1 <= day <= days_in_month(year, month)
}

/// A number below 100 in two digits.
pub open spec fn two_digits(n: int) -> Seq<char> {
    seq![digit_char((n / 10) as nat), digit_char((n % 10) as nat)]
}

/// A date as `YYYY-MM-DD`.
pub open spec fn date_text(year: int, month: int, day: int) -> Seq<char> {
    two_digits(year / 100) + two_digits(year % 100) + seq!['-'] + two_digits(month) + seq!['-']
        + two_digits(day)
}

/// The text `Unknown`.
pub open spec fn unknown() -> Seq<char> {
    seq!['U', 'n', 'k', 'n', 'o', 'w', 'n']
}

/// A date as `YYYY-MM-DD`, or `Unknown` where the numbers are no date.
pub open spec fn date_or_unknown(year: int, month: int, day: int) -> Seq<char> {
    if is_date(year, month, day) {
        date_text(year, month, day)
    } else {
        unknown()
    }
}

fn push_two_digits(out: &mut String, n: u32)
    requires
        n < 100,
    ensures
        final(out)@ == old(out)@ + two_digits(n as int),
{
    push_char(out, (48u8 + (n / 10) as u8) as char);
    push_char(out, (48u8 + (n % 10) as u8) as char);
}

fn unknown_text() -> (r: String)
    ensures
        r@ == unknown(),
{
    proof {
        reveal_strlit("Unknown");
    }
    "Unknown".to_owned()
}

/// Writes a date as `YYYY-MM-DD`, or `Unknown` where the numbers are no
/// date.
pub fn format_date(year: u32, month: u32, day: u32) -> (r: String)
    ensures
        r@ == date_or_unknown(year as int, month as int, day as int),
{
    if year > 9999 || month < 1 || month > 12 || day < 1 {
        return unknown_text();
    }
    let leap = year % 4 == 0 && (year % 100 != 0 || year % 400 == 0);
    let days: u32 = if month == 2 {
        if leap {
            29
        } else {
            28
        }
    } else if month == 4 || month == 6 || month == 9 || month == 11 {
        30
    } else {
        31
    };
    if day > days {
        return unknown_text();
    }
    let mut out = String::new();
    push_two_digits(&mut out, year / 100);
    push_two_digits(&mut out, year % 100);
    push_char(&mut out, '-');
    push_two_digits(&mut out, month);
    push_char(&mut out, '-');
    push_two_digits(&mut out, day);
    out
}

/// The date text without the dashes that are written as HTML entities.
pub open spec fn plain_dashes(date: Seq<char>) -> Seq<char> {
    replaced(
        replaced(replaced(date, "&#x2011;"@, "-"@), "&#x2013;"@, "-"@),
        "&#x2014;"@,
        "-"@,
    )
}

/// The date that the groups of a matched date stand for, in the years from
/// 2000 on.
pub open spec fn date_of_groups(groups: Seq<Option<Seq<char>>>) -> Seq<char> {
    date_or_unknown(
        2000 + number_or(group_or(groups, 1, ""@), 0),
        number_or(group_or(groups, 2, ""@), 1) as int,
        number_or(group_or(groups, 3, ""@), 1) as int,
    )
}

/// The date that the directory gives for a bucket, as `YYYY-MM-DD`, or
/// `Unknown`.
pub open spec fn encoded_date(date: Seq<char>) -> Seq<char> {
    match regex_groups(DATE_PATTERN@, plain_dashes(date)) {
        Some(groups) => date_of_groups(groups),
        None => unknown(),
    }
}

/// Writes the date that the groups of a matched date stand for.
pub fn date_from_groups(groups: &Vec<Option<String>>) -> (r: String)
    ensures
        r@ == date_of_groups(groups_view(*groups)),
{
    let year_2digit = number(group(groups, 1, ""), 0);
    let month = number(group(groups, 2, ""), 1);
    let day = number(group(groups, 3, ""), 1);
    if year_2digit > 7999 {
        return unknown_text();
    }
    format_date(2000 + year_2digit, month, day)
}

/// Reads a date of the directory, `YY-MM-DD` with plain or encoded dashes,
/// and writes it as `YYYY-MM-DD`; anything else gives `Unknown`.
pub fn parse_encoded_date(date_str: &str) -> (r: String)
    ensures
        r@ == encoded_date(date_str@),
{
    let a = replace(date_str, "&#x2011;", "-");
    let b = replace(a.as_str(), "&#x2013;", "-");
    let cleaned = replace(b.as_str(), "&#x2014;", "-");
    match match_one(DATE_PATTERN, cleaned.as_str()) {
        Some(groups) => date_from_groups(&groups),
        None => unknown_text(),
    }
}

// ---------------------------------------------------------------------------
// The three layouts
// ---------------------------------------------------------------------------

/// The bucket that a line of the first layout stands for; none where owner
/// or repository are empty.
pub open spec fn complex_bucket(groups: Seq<Option<Seq<char>>>) -> Option<BucketView> {
    let owner = trimmed(group_or(groups, 1, ""@));
    let repo = trimmed(group_or(groups, 2, ""@));
    if owner.len() > 0 && repo.len() > 0 {
        Some(
            BucketView {
                name: bucket_name_of(repo),
                full_name: owner + seq!['/'] + repo,
                description: trimmed(group_or(groups, 4, ""@)),
                url: trimmed(group_or(groups, 3, ""@)),
                stars: number_or(group_or(groups, 6, "0"@), 0),
                forks: number_or(group_or(groups, 7, "0"@), 0),
                apps: number_or(group_or(groups, 5, "0"@), 0),
                last_updated: encoded_date(trimmed(group_or(groups, 8, "Unknown"@))),
                is_verified: false,
            },
        )
    } else {
        None
    }
}

fn two_names(owner: &str, repo: &str) -> (r: String)
    ensures
        r@ == owner@ + seq!['/'] + repo@,
{
    let mut out = owner.to_owned();
    push_char(&mut out, '/');
    out.append(repo);
    out
}

/// Builds the bucket of a line of the first layout from its groups.
pub fn bucket_from_complex(groups: &Vec<Option<String>>) -> (r: Option<SearchableBucket>)
    ensures
        match r {
            Some(bucket) => complex_bucket(groups_view(*groups)) == Some(bucket@),
            None => complex_bucket(groups_view(*groups)) is None,
        },
{
    let owner = trim(group(groups, 1, ""));
    let repo = trim(group(groups, 2, ""));
    if owner.as_str().is_empty() || repo.as_str().is_empty() {
        return None;
    }
    let url = trim(group(groups, 3, ""));
    let description = trim(group(groups, 4, ""));
    let apps = number(group(groups, 5, "0"), 0);
    let stars = number(group(groups, 6, "0"), 0);
    let forks = number(group(groups, 7, "0"), 0);
    let date = trim(group(groups, 8, "Unknown"));
    Some(
        SearchableBucket {
            name: extract_bucket_name(repo.as_str()),
            full_name: two_names(owner.as_str(), repo.as_str()),
            description,
            url,
            stars,
            forks,
            apps,
            last_updated: parse_encoded_date(date.as_str()),
            is_verified: false,
        },
    )
}

/// Owner and repository of a package's address: the fourth and fifth piece
/// of an address on `github.com` that has them, else `unknown` and the name
/// given.
pub open spec fn owner_and_repo(url: Seq<char>, fallback: Seq<char>) -> (Seq<char>, Seq<char>) {
    let parts = split(url, '/');
    if contains_text(url, "github.com"@) && parts.len() >= 5 {
        (parts[3], parts[4])
    } else {
        ("unknown"@, fallback)
    }
}

fn repository(url: &str, fallback: &str) -> (r: (String, String))
    ensures
        (r.0@, r.1@) == owner_and_repo(url@, fallback@),
{
    if contains(url, "github.com") {
        let parts = split_on(url, '/');
        if parts.len() >= 5 {
            return (parts[3].clone(), parts[4].clone());
        }
    }
    ("unknown".to_owned(), fallback.to_owned())
}

/// The bucket that a line of the second layout stands for; none where the
/// name of the package or of the bucket is empty.
pub open spec fn simple_bucket(groups: Seq<Option<Seq<char>>>) -> Option<BucketView> {
    let package = trimmed(group_or(groups, 1, ""@));
    let url = trimmed(group_or(groups, 2, ""@));
    let bucket = trimmed(group_or(groups, 4, ""@));
    if bucket.len() > 0 && package.len() > 0 {
        Some(
            BucketView {
                name: bucket_name_of(bucket),
                full_name: owner_and_repo(url, bucket).0 + seq!['/'] + owner_and_repo(
                    url,
                    bucket,
                ).1,
                description: trimmed(group_or(groups, 5, ""@)),
                url,
                stars: 0,
                forks: 0,
                apps: 1,
                last_updated: unknown(),
                is_verified: false,
            },
        )
    } else {
        None
    }
}

/// Builds the bucket of a line of the second layout from its groups.
pub fn bucket_from_simple(groups: &Vec<Option<String>>) -> (r: Option<SearchableBucket>)
    ensures
        match r {
            Some(bucket) => simple_bucket(groups_view(*groups)) == Some(bucket@),
            None => simple_bucket(groups_view(*groups)) is None,
        },
{
    let package = trim(group(groups, 1, ""));
    let url = trim(group(groups, 2, ""));
    let bucket = trim(group(groups, 4, ""));
    if bucket.as_str().is_empty() || package.as_str().is_empty() {
        return None;
    }
    let description = trim(group(groups, 5, ""));
    let (owner, repo) = repository(url.as_str(), bucket.as_str());
    Some(
        SearchableBucket {
            name: extract_bucket_name(bucket.as_str()),
            full_name: two_names(owner.as_str(), repo.as_str()),
            description,
            url,
            stars: 0,
            forks: 0,
            apps: 1,
            last_updated: unknown_text(),
            is_verified: false,
        },
    )
}

/// The bucket that a line of the third layout stands for; none where the
/// name of the package is empty.
pub open spec fn basic_bucket(groups: Seq<Option<Seq<char>>>) -> Option<BucketView> {
    let package = trimmed(group_or(groups, 1, ""@));
    let url = trimmed(group_or(groups, 2, ""@));
    if package.len() > 0 {
        Some(
            BucketView {
                name: bucket_name_of(owner_and_repo(url, package).1),
                full_name: owner_and_repo(url, package).0 + seq!['/'] + owner_and_repo(
                    url,
                    package,
                ).1,
                description: trimmed(group_or(groups, 5, ""@)),
                url,
                stars: 0,
                forks: 0,
                apps: 1,
                last_updated: unknown(),
                is_verified: false,
            },
        )
    } else {
        None
    }
}

/// Builds the bucket of a line of the third layout from its groups.
pub fn bucket_from_basic(groups: &Vec<Option<String>>) -> (r: Option<SearchableBucket>)
    ensures
        match r {
            Some(bucket) => basic_bucket(groups_view(*groups)) == Some(bucket@),
            None => basic_bucket(groups_view(*groups)) is None,
        },
{
    let package = trim(group(groups, 1, ""));
    let url = trim(group(groups, 2, ""));
    if package.as_str().is_empty() {
        return None;
    }
    let description = trim(group(groups, 5, ""));
    let (owner, repo) = repository(url.as_str(), package.as_str());
    Some(
        SearchableBucket {
            name: extract_bucket_name(repo.as_str()),
            full_name: two_names(owner.as_str(), repo.as_str()),
            description,
            url,
            stars: 0,
            forks: 0,
            apps: 1,
            last_updated: unknown_text(),
            is_verified: false,
        },
    )
}

/// The bucket of a line, from what each of the three patterns found in it:
/// that of the first layout that yields one.
pub open spec fn bucket_of_matches(
    complex: Option<Seq<Option<Seq<char>>>>,
    simple: Option<Seq<Option<Seq<char>>>>,
    basic: Option<Seq<Option<Seq<char>>>>,
) -> Option<BucketView> {
    let first = match complex {
        Some(groups) => complex_bucket(groups),
        None => None,
    };
    let second = match simple {
        Some(groups) => simple_bucket(groups),
        None => None,
    };
    let third = match basic {
        Some(groups) => basic_bucket(groups),
        None => None,
    };
    if first is Some {
        first
    } else if second is Some {
        second
    } else {
        third
    }
}

/// The bucket that a line of the table stands for.
pub open spec fn line_bucket(line: Seq<char>) -> Option<BucketView> {
    bucket_of_matches(
        regex_groups(COMPLEX_PATTERN@, line),
        regex_groups(SIMPLE_PATTERN@, line),
        regex_groups(BASIC_PATTERN@, line),
    )
}

/// Reads a line of the first layout.
pub fn try_parse_complex(line: &str) -> (r: Option<SearchableBucket>)
    ensures
        match r {
            Some(bucket) => regex_groups(COMPLEX_PATTERN@, line@) is Some && complex_bucket(
                regex_groups(COMPLEX_PATTERN@, line@)->0,
            ) == Some(bucket@),
            None => regex_groups(COMPLEX_PATTERN@, line@) is None || complex_bucket(
                regex_groups(COMPLEX_PATTERN@, line@)->0,
            ) is None,
        },
{
    match match_one(COMPLEX_PATTERN, line) {
        Some(groups) => bucket_from_complex(&groups),
        None => None,
    }
}

/// Reads a line of the second layout.
pub fn try_parse_simple(line: &str) -> (r: Option<SearchableBucket>)
    ensures
        match r {
            Some(bucket) => regex_groups(SIMPLE_PATTERN@, line@) is Some && simple_bucket(
                regex_groups(SIMPLE_PATTERN@, line@)->0,
            ) == Some(bucket@),
            None => regex_groups(SIMPLE_PATTERN@, line@) is None || simple_bucket(
                regex_groups(SIMPLE_PATTERN@, line@)->0,
            ) is None,
        },
{
    match match_one(SIMPLE_PATTERN, line) {
        Some(groups) => bucket_from_simple(&groups),
        None => None,
    }
}

/// Reads a line of the third layout.
pub fn try_parse_basic(line: &str) -> (r: Option<SearchableBucket>)
    ensures
        match r {
            Some(bucket) => regex_groups(BASIC_PATTERN@, line@) is Some && basic_bucket(
                regex_groups(BASIC_PATTERN@, line@)->0,
            ) == Some(bucket@),
            None => regex_groups(BASIC_PATTERN@, line@) is None || basic_bucket(
                regex_groups(BASIC_PATTERN@, line@)->0,
            ) is None,
        },
{
    match match_one(BASIC_PATTERN, line) {
        Some(groups) => bucket_from_basic(&groups),
        None => None,
    }
}

/// The bucket that a line contributes to the directory.
pub open spec fn line_entry(line: Seq<char>) -> Seq<BucketView> {
    match line_bucket(line) {
        Some(bucket) => seq![bucket],
        None => Seq::empty(),
    }
}

/// The buckets of the lines, in the order of the lines.
pub open spec fn buckets_of_lines(lines: Seq<Seq<char>>) -> Seq<BucketView>
    decreases lines.len(),
{
    if lines.len() == 0 {
        Seq::empty()
    } else {
        buckets_of_lines(lines.drop_last()) + line_entry(lines.last())
    }
}

fn bucket_of(
    complex: &Option<Vec<Option<String>>>,
    simple: &Option<Vec<Option<String>>>,
    basic: &Option<Vec<Option<String>>>,
) -> (r: Option<SearchableBucket>)
    ensures
        match r {
            Some(bucket) => bucket_of_matches(
                match_view(*complex),
                match_view(*simple),
                match_view(*basic),
            ) == Some(bucket@),
            None => bucket_of_matches(match_view(*complex), match_view(*simple), match_view(*basic))
                is None,
        },
{
    match complex {
        Some(groups) => match bucket_from_complex(groups) {
            Some(bucket) => {
                return Some(bucket);
            },
            None => {},
        },
        None => {},
    }
    match simple {
        Some(groups) => match bucket_from_simple(groups) {
            Some(bucket) => {
                return Some(bucket);
            },
            None => {},
        },
        None => {},
    }
    match basic {
        Some(groups) => bucket_from_basic(groups),
        None => None,
    }
}

/// Reads the directory of buckets: every line that has one of the three
/// layouts gives a bucket, every other line is passed over.
pub fn parse_markdown_to_buckets(content: &str) -> (r: Vec<SearchableBucket>)
    ensures
        r.deep_view() == buckets_of_lines(text_lines(content@)),
{
    let lines = lines_of(content);
    let complex = match_each(COMPLEX_PATTERN, &lines);
    let simple = match_each(SIMPLE_PATTERN, &lines);
    let basic = match_each(BASIC_PATTERN, &lines);
    let ghost all = lines.deep_view();
    let mut buckets: Vec<SearchableBucket> = Vec::new();
    let mut k: usize = 0;
    while k < lines.len()
        invariant
            k <= lines.len(),
            all == lines.deep_view(),
            complex.len() == lines.len(),
            simple.len() == lines.len(),
            basic.len() == lines.len(),
            forall|i: int|
                0 <= i < lines.len() ==> match_view(#[trigger] complex@[i]) == regex_groups(
                    COMPLEX_PATTERN@,
                    lines@[i]@,
                ),
            forall|i: int|
                0 <= i < lines.len() ==> match_view(#[trigger] simple@[i]) == regex_groups(
                    SIMPLE_PATTERN@,
                    lines@[i]@,
                ),
            forall|i: int|
                0 <= i < lines.len() ==> match_view(#[trigger] basic@[i]) == regex_groups(
                    BASIC_PATTERN@,
                    lines@[i]@,
                ),
            buckets.deep_view() == buckets_of_lines(all.take(k as int)),
        decreases lines.len() - k,
    {
        proof {
            let now = all.take(k + 1);
            assert(now.drop_last() =~= all.take(k as int));
        }
        match bucket_of(&complex[k], &simple[k], &basic[k]) {
            Some(bucket) => {
                buckets.push(bucket);
            },
            None => {},
        }
        k += 1;
    }
    assert(all.take(lines.len() as int) =~= all);
    buckets
}

} // verus!
