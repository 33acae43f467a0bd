//! The directory of known buckets: which buckets are shown, and in what
//! order.

use crate::sorting::{
    lemma_stable_sort_permutation, lemma_stable_sort_sorted, relation, stable_sort, Order,
};
use crate::text::{chars_of, lemma_text_order_total, str_eq, str_le, text_le, text_order};
use vstd::multiset::*;
use vstd::prelude::*;
use vstd::relations::*;
use vstd::seq_lib::*;
use vstd::string::*;

verus! {

/// A bucket that can be searched for.
#[derive(Debug)]
pub struct SearchableBucket {
    pub name: String,
    /// Owner and repository, as `owner/repo`.
    pub full_name: String,
    pub description: String,
    pub url: String,
    pub stars: u32,
    pub forks: u32,
    pub apps: u32,
    pub last_updated: String,
    pub is_verified: bool,
}

/// The mathematical value of a `SearchableBucket`.
pub struct BucketView {
    pub name: Seq<char>,
    pub full_name: Seq<char>,
    pub description: Seq<char>,
    pub url: Seq<char>,
    pub stars: u32,
    pub forks: u32,
    pub apps: u32,
    pub last_updated: Seq<char>,
    pub is_verified: bool,
}

impl View for SearchableBucket {
    type V = BucketView;

    open spec fn view(&self) -> BucketView {
        BucketView {
            name: self.name@,
            full_name: self.full_name@,
            description: self.description@,
            url: self.url@,
            stars: self.stars,
            forks: self.forks,
            apps: self.apps,
            last_updated: self.last_updated@,
            is_verified: self.is_verified,
        }
    }
}

impl DeepView for SearchableBucket {
    type V = BucketView;

    open spec fn deep_view(&self) -> BucketView {
        self@
    }
}

impl Clone for SearchableBucket {
    fn clone(&self) -> (r: Self)
        ensures
            r == *self,
    {
        SearchableBucket {
            name: self.name.clone(),
            full_name: self.full_name.clone(),
            description: self.description.clone(),
            url: self.url.clone(),
            stars: self.stars,
            forks: self.forks,
            apps: self.apps,
            last_updated: self.last_updated.clone(),
            is_verified: self.is_verified,
        }
    }
}

// ---------------------------------------------------------------------------
// Filters
// ---------------------------------------------------------------------------

/// Which buckets of the community directory are left out.
#[derive(Debug, Clone, Copy)]
pub struct BucketFilterOptions {
    /// Leave out the buckets that are described in Chinese.
    pub disable_chinese_buckets: bool,
    /// Leave out the buckets with fewer stars.
    pub minimum_stars: u32,
}

impl Default for BucketFilterOptions {
    fn default() -> (r: Self)
        ensures
            !r.disable_chinese_buckets,
            r.minimum_stars == 2,
    {
        BucketFilterOptions { disable_chinese_buckets: false, minimum_stars: 2 }
    }
}

/// Whether the character is a Chinese ideograph: one of the unified
/// ideographs, their extensions A to E, or the compatibility ideographs.
pub open spec fn is_chinese_char(c: char) -> bool {
    let u = c as u32;
    ||| 0x4E00 <= u <= 0x9FFF
    ||| 0x3400 <= u <= 0x4DBF
    ||| 0x20000 <= u <= 0x2A6DF
    ||| 0x2A700 <= u <= 0x2B73F
    ||| 0x2B740 <= u <= 0x2B81F
    ||| 0x2B820 <= u <= 0x2CEAF
    ||| 0xF900 <= u <= 0xFAFF
    ||| 0x2F800 <= u <= 0x2FA1F
}

/// Whether the text holds a Chinese ideograph.
pub open spec fn has_chinese(s: Seq<char>) -> bool {
    exists|i: int| 0 <= i < s.len() && is_chinese_char(s[i])
}

fn chinese_char(c: char) -> (r: bool)
    ensures
        r == is_chinese_char(c),
{
    let u = c as u32;
    (0x4E00 <= u && u <= 0x9FFF) || (0x3400 <= u && u <= 0x4DBF) || (0x20000 <= u && u <= 0x2A6DF)
        || (0x2A700 <= u && u <= 0x2B73F) || (0x2B740 <= u && u <= 0x2B81F) || (0x2B820 <= u && u
        <= 0x2CEAF) || (0xF900 <= u && u <= 0xFAFF) || (0x2F800 <= u && u <= 0x2FA1F)
}

/// Whether the text holds a Chinese ideograph.
pub fn contains_chinese_characters(text: &str) -> (r: bool)
    ensures
        r == has_chinese(text@),
{
    let chars = chars_of(text);
    let mut i: usize = 0;
    while i < chars.len()
        invariant
            i <= chars.len(),
            chars@ == text@,
            forall|j: int| 0 <= j < i ==> !is_chinese_char(text@[j]),
        decreases chars.len() - i,
    {
        if chinese_char(chars[i]) {
            return true;
        }
        i += 1;
    }
    false
}

/// Whether a bucket passes the filters: it has the stars asked for and,
/// where Chinese buckets are left out, no Chinese ideograph in its name, its
/// description or its full name.
pub open spec fn passes_filters(bucket: BucketView, filters: BucketFilterOptions) -> bool {
    bucket.stars >= filters.minimum_stars && (filters.disable_chinese_buckets ==> !has_chinese(
        bucket.name,
    ) && !has_chinese(bucket.description) && !has_chinese(bucket.full_name))
}

/// Whether a bucket passes the filters.
pub fn apply_bucket_filters(bucket: &SearchableBucket, filters: &BucketFilterOptions) -> (r: bool)
    ensures
        r == passes_filters(bucket@, *filters),
{
    if bucket.stars < filters.minimum_stars {
        return false;
    }
    if filters.disable_chinese_buckets {
        if contains_chinese_characters(bucket.name.as_str()) || contains_chinese_characters(
            bucket.description.as_str(),
        ) || contains_chinese_characters(bucket.full_name.as_str()) {
            return false;
        }
    }
    true
}

/// What a search of the bucket directory asks for.
#[derive(Debug)]
pub struct BucketSearchRequest {
    pub query: Option<String>,
    /// Whether the community directory is searched, beyond the verified
    /// buckets.
    pub include_expanded: bool,
    pub max_results: Option<usize>,
    /// `stars`, `apps`, `name`, `forks` or `relevance`.
    pub sort_by: Option<String>,
    pub disable_chinese_buckets: Option<bool>,
    pub minimum_stars: Option<u32>,
}

/// The filters that a request asks for: none unless it leaves out Chinese
/// buckets or asks for stars; the stars default to 2.
pub open spec fn requested_filters(request: BucketSearchRequest) -> Option<BucketFilterOptions> {
    let no_chinese = match request.disable_chinese_buckets {
        Some(flag) => flag,
        None => false,
    };
    let asks_stars = match request.minimum_stars {
        Some(stars) => stars > 0,
        None => false,
    };
    if no_chinese || asks_stars {
        Some(
            BucketFilterOptions {
                disable_chinese_buckets: no_chinese,
                minimum_stars: match request.minimum_stars {
                    Some(stars) => stars,
                    None => 2,
                },
            },
        )
    } else {
        None
    }
}

/// Returns the filters that a request asks for.
pub fn request_filters(request: &BucketSearchRequest) -> (r: Option<BucketFilterOptions>)
    ensures
        r == requested_filters(*request),
{
    let no_chinese = match request.disable_chinese_buckets {
        Some(flag) => flag,
        None => false,
    };
    let asks_stars = match request.minimum_stars {
        Some(stars) => stars > 0,
        None => false,
    };
    if no_chinese || asks_stars {
        Some(
            BucketFilterOptions {
                disable_chinese_buckets: no_chinese,
                minimum_stars: match request.minimum_stars {
                    Some(stars) => stars,
                    None => 2,
                },
            },
        )
    } else {
        None
    }
}

// ---------------------------------------------------------------------------
// Order
// ---------------------------------------------------------------------------

/// Whether `a` may stand before `b` in the order named `sort_by`: more stars,
/// apps or forks first, names ascending; any other order leaves the buckets
/// as they are.
pub open spec fn bucket_before(sort_by: Seq<char>, a: BucketView, b: BucketView) -> bool {
    if sort_by == "stars"@ {
        a.stars >= b.stars
    } else if sort_by == "apps"@ {
        a.apps >= b.apps
    } else if sort_by == "name"@ {
        text_le(a.name, b.name)
    } else if sort_by == "forks"@ {
        a.forks >= b.forks
    } else {
        true
    }
}

/// `bucket_before` as a relation value.
pub open spec fn bucket_order(sort_by: Seq<char>) -> spec_fn(BucketView, BucketView) -> bool {
    |a: BucketView, b: BucketView| bucket_before(sort_by, a, b)
}

/// Whether `sort_by` names an order.
pub open spec fn names_order(sort_by: Seq<char>) -> bool {
    sort_by == "stars"@ || sort_by == "apps"@ || sort_by == "name"@ || sort_by == "forks"@
}

/// The keys by which buckets are sorted.
#[derive(Debug, Clone, Copy, PartialEq, Eq, Structural)]
pub enum SortKey {
    Stars,
    Apps,
    Name,
    Forks,
}

impl SortKey {
    /// The name of the key.
    pub open spec fn text(self) -> Seq<char> {
        match self {
            SortKey::Stars => "stars"@,
            SortKey::Apps => "apps"@,
            SortKey::Name => "name"@,
            SortKey::Forks => "forks"@,
        }
    }
}

proof fn lemma_order_names_differ()
    ensures
        "stars"@ != "apps"@,
        "stars"@ != "name"@,
        "stars"@ != "forks"@,
        "apps"@ != "name"@,
        "apps"@ != "forks"@,
        "name"@ != "forks"@,
{
    reveal_strlit("stars");
    reveal_strlit("apps");
    reveal_strlit("name");
    reveal_strlit("forks");
    assert("stars"@[0] == 's' && "apps"@[0] == 'a' && "name"@[0] == 'n' && "forks"@[0] == 'f');
}

fn sort_key(sort_by: &str) -> (r: Option<SortKey>)
    ensures
        match r {
            Some(key) => key.text() == sort_by@,
            None => !names_order(sort_by@),
        },
{
    if str_eq(sort_by, "stars") {
        Some(SortKey::Stars)
    } else if str_eq(sort_by, "apps") {
        Some(SortKey::Apps)
    } else if str_eq(sort_by, "name") {
        Some(SortKey::Name)
    } else if str_eq(sort_by, "forks") {
        Some(SortKey::Forks)
    } else {
        None
    }
}

/// The order of buckets by a key, for sorting.
pub struct BucketOrder {
    pub key: SortKey,
}

impl Order<SearchableBucket> for BucketOrder {
    open spec fn before(&self, a: BucketView, b: BucketView) -> bool {
        bucket_before(self.key.text(), a, b)
    }

    fn comes_before(&self, a: &SearchableBucket, b: &SearchableBucket) -> (r: bool) {
        proof {
            lemma_order_names_differ();
        }
        match self.key {
            SortKey::Stars => a.stars >= b.stars,
            SortKey::Apps => a.apps >= b.apps,
            SortKey::Name => str_le(a.name.as_str(), b.name.as_str()),
            SortKey::Forks => a.forks >= b.forks,
        }
    }
}

proof fn lemma_bucket_order(sort_by: Seq<char>)
    ensures
        strongly_connected(bucket_order(sort_by)),
        transitive(bucket_order(sort_by)),
{
    lemma_text_order_total();
    lemma_order_names_differ();
    let r = bucket_order(sort_by);
    let t = text_order();
    assert forall|x: BucketView, y: BucketView| #[trigger] r(x, y) || #[trigger] r(y, x) by {
        assert(t(x.name, y.name) || t(y.name, x.name));
    }
    assert forall|x: BucketView, y: BucketView, z: BucketView| #[trigger] r(x, y) && #[trigger] r(
        y,
        z,
    ) implies r(x, z) by {
        if sort_by == "name"@ {
            assert(t(x.name, y.name) && t(y.name, z.name));
        }
    }
}

/// The buckets in the order named `sort_by`; buckets that the order does not
/// tell apart keep their order, and so do all where `sort_by` names none.
pub open spec fn sorted_buckets(buckets: Seq<BucketView>, sort_by: Seq<char>) -> Seq<BucketView> {
    if names_order(sort_by) {
        stable_sort(buckets, bucket_order(sort_by))
    } else {
        buckets
    }
}

/// The sorted buckets are the given ones, each as often, and in order.
pub proof fn lemma_sorted_buckets(buckets: Seq<BucketView>, sort_by: Seq<char>)
    ensures
        sorted_by(sorted_buckets(buckets, sort_by), bucket_order(sort_by)),
        sorted_buckets(buckets, sort_by).to_multiset() == buckets.to_multiset(),
        sorted_buckets(buckets, sort_by).len() == buckets.len(),
{
    if names_order(sort_by) {
        lemma_bucket_order(sort_by);
        lemma_stable_sort_sorted(buckets, bucket_order(sort_by));
        lemma_stable_sort_permutation(buckets, bucket_order(sort_by));
    }
}

/// Sorts the buckets by stars, apps or forks, greatest first, or by name.
/// Buckets that the order does not tell apart keep their order. Any other
/// value of `sort_by` leaves the list as it is.
pub fn sort_buckets(buckets: &mut Vec<SearchableBucket>, sort_by: &str)
    ensures
        final(buckets).deep_view() == sorted_buckets(old(buckets).deep_view(), sort_by@),
{
    let key = match sort_key(sort_by) {
        Some(key) => key,
        None => {
            return ;
        },
    };
    let mut taken: Vec<SearchableBucket> = Vec::new();
    core::mem::swap(buckets, &mut taken);
    let order = BucketOrder { key };
    let sorted = crate::sorting::sort_by(taken, &order);
    proof {
        assert(relation(order) =~= bucket_order(sort_by@));
    }
    *buckets = sorted;
}

// ---------------------------------------------------------------------------
// The verified buckets
// ---------------------------------------------------------------------------

fn verified(
    name: &str,
    full_name: &str,
    description: &str,
    url: &str,
    stars: u32,
    forks: u32,
    apps: u32,
    last_updated: &str,
) -> (r: SearchableBucket)
    ensures
        r@ == (BucketView {
            name: name@,
            full_name: full_name@,
            description: description@,
            url: url@,
            stars,
            forks,
            apps,
            last_updated: last_updated@,
            is_verified: true,
        }),
{
    SearchableBucket {
        name: name.to_owned(),
        full_name: full_name.to_owned(),
        description: description.to_owned(),
        url: url.to_owned(),
        stars,
        forks,
        apps,
        last_updated: last_updated.to_owned(),
        is_verified: true,
    }
}

/// The view of a verified bucket.
pub open spec fn verified_bucket(
    name: Seq<char>,
    full_name: Seq<char>,
    description: Seq<char>,
    url: Seq<char>,
    stars: u32,
    forks: u32,
    apps: u32,
    last_updated: Seq<char>,
) -> BucketView {
    BucketView {
        name,
        full_name,
        description,
        url,
        stars,
        forks,
        apps,
        last_updated,
        is_verified: true,
    }
}

/// The buckets that are shown without a search: the ten buckets that Scoop
/// knows by name, with what was known of them when the list was drawn up.
pub open spec fn verified_buckets() -> Seq<BucketView> {
    seq![
        verified_bucket(
            "main"@,
            "ScoopInstaller/Main"@,
            "\u{f0}\u{178}\u{201c}\u{a6} The default bucket for Scoop. (scoop's built-in bucket 'main')"@,
            "https://github.com/ScoopInstaller/Main"@,
            1733,
            1069,
            1402,
            "2025-09-16"@,
        ),
        verified_bucket(
            "extras"@,
            "ScoopInstaller/Extras"@,
            "\u{f0}\u{178}\u{201c}\u{a6} The Extras bucket for Scoop. (scoop's built-in bucket 'extras')"@,
            "https://github.com/ScoopInstaller/Extras"@,
            1958,
            1511,
            2183,
            "2025-09-16"@,
        ),
        verified_bucket(
            "games"@,
            "Calinou/scoop-games"@,
            "Scoop bucket for open source/freeware games and game-related tools (scoop's built-in bucket 'games')"@,
            "https://github.com/Calinou/scoop-games"@,
            321,
            172,
            360,
            "2025-09-16"@,
        ),
        verified_bucket(
            "nerd-fonts"@,
            "matthewjberger/scoop-nerd-fonts"@,
            "A scoop bucket for installing nerd fonts (scoop's built-in bucket 'nerd-fonts')"@,
            "https://github.com/matthewjberger/scoop-nerd-fonts"@,
            418,
            45,
            367,
            "2025-09-16"@,
        ),
        verified_bucket(
            "sysinternals"@,
            "niheaven/scoop-sysinternals"@,
            "A Scoop bucket for Windows Sysinternals utilities"@,
            "https://github.com/niheaven/scoop-sysinternals"@,
            80,
            15,
            70,
            "2025-09-10"@,
        ),
        verified_bucket(
            "java"@,
            "ScoopInstaller/Java"@,
            "\u{f0}\u{178}\u{201c}\u{a6} A bucket for Scoop, for Oracle Java, OpenJDK, Eclipse Temurin, IBM Semeru, Zulu, ojdkbuild, Amazon Corretto, BellSoft Liberica, SapMachine and Microsoft JDK. (scoop's built-in bucket 'java')"@,
            "https://github.com/ScoopInstaller/Java"@,
            288,
            100,
            299,
            "2025-09-16"@,
        ),
        verified_bucket(
            "nirsoft"@,
            "ScoopInstaller/Nirsoft"@,
            "A Scoop bucket of useful NirSoft utilities (scoop's built-in bucket 'nirsoft')"@,
            "https://github.com/ScoopInstaller/Nirsoft"@,
            143,
            43,
            276,
            "2025-09-15"@,
        ),
        verified_bucket(
            "nonportable"@,
            "ScoopInstaller/Nonportable"@,
            "A bucket for Scoop containing non-portable applications"@,
            "https://github.com/ScoopInstaller/Nonportable"@,
            120,
            80,
            200,
            "2025-09-15"@,
        ),
        verified_bucket(
            "php"@,
            "ScoopInstaller/PHP"@,
            "A bucket for PHP versions for Scoop"@,
            "https://github.com/ScoopInstaller/PHP"@,
            85,
            30,
            25,
            "2025-09-12"@,
        ),
        verified_bucket(
            "versions"@,
            "ScoopInstaller/Versions"@,
            "\u{f0}\u{178}\u{201c}\u{a6} A Scoop bucket for alternative versions of apps. (scoop's built-in bucket 'versions')"@,
            "https://github.com/ScoopInstaller/Versions"@,
            240,
            234,
            510,
            "2025-09-16"@,
        ),
    ]
}

/// Returns the buckets that are shown without a search.
pub fn get_verified_buckets() -> (r: Vec<SearchableBucket>)
    ensures
        r.deep_view() == verified_buckets(),
{
    let mut out: Vec<SearchableBucket> = Vec::new();
    out.push(
        verified(
            "main",
            "ScoopInstaller/Main",
            "\u{f0}\u{178}\u{201c}\u{a6} The default bucket for Scoop. (scoop's built-in bucket 'main')",
            "https://github.com/ScoopInstaller/Main",
            1733,
            1069,
            1402,
            "2025-09-16",
        ),
    );
    out.push(
        verified(
            "extras",
            "ScoopInstaller/Extras",
            "\u{f0}\u{178}\u{201c}\u{a6} The Extras bucket for Scoop. (scoop's built-in bucket 'extras')",
            "https://github.com/ScoopInstaller/Extras",
            1958,
            1511,
            2183,
            "2025-09-16",
        ),
    );
    out.push(
        verified(
            "games",
            "Calinou/scoop-games",
            "Scoop bucket for open source/freeware games and game-related tools (scoop's built-in bucket 'games')",
            "https://github.com/Calinou/scoop-games",
            321,
            172,
            360,
            "2025-09-16",
        ),
    );
    out.push(
        verified(
            "nerd-fonts",
            "matthewjberger/scoop-nerd-fonts",
            "A scoop bucket for installing nerd fonts (scoop's built-in bucket 'nerd-fonts')",
            "https://github.com/matthewjberger/scoop-nerd-fonts",
            418,
            45,
            367,
            "2025-09-16",
        ),
    );
    out.push(
        verified(
            "sysinternals",
            "niheaven/scoop-sysinternals",
            "A Scoop bucket for Windows Sysinternals utilities",
            "https://github.com/niheaven/scoop-sysinternals",
            80,
            15,
            70,
            "2025-09-10",
        ),
    );
    out.push(
        verified(
            "java",
            "ScoopInstaller/Java",
            "\u{f0}\u{178}\u{201c}\u{a6} A bucket for Scoop, for Oracle Java, OpenJDK, Eclipse Temurin, IBM Semeru, Zulu, ojdkbuild, Amazon Corretto, BellSoft Liberica, SapMachine and Microsoft JDK. (scoop's built-in bucket 'java')",
            "https://github.com/ScoopInstaller/Java",
            288,
            100,
            299,
            "2025-09-16",
        ),
    );
    out.push(
        verified(
            "nirsoft",
            "ScoopInstaller/Nirsoft",
            "A Scoop bucket of useful NirSoft utilities (scoop's built-in bucket 'nirsoft')",
            "https://github.com/ScoopInstaller/Nirsoft",
            143,
            43,
            276,
            "2025-09-15",
        ),
    );
    out.push(
        verified(
            "nonportable",
            "ScoopInstaller/Nonportable",
            "A bucket for Scoop containing non-portable applications",
            "https://github.com/ScoopInstaller/Nonportable",
            120,
            80,
            200,
            "2025-09-15",
        ),
    );
    out.push(
        verified(
            "php",
            "ScoopInstaller/PHP",
            "A bucket for PHP versions for Scoop",
            "https://github.com/ScoopInstaller/PHP",
            85,
            30,
            25,
            "2025-09-12",
        ),
    );
    out.push(
        verified(
            "versions",
            "ScoopInstaller/Versions",
            "\u{f0}\u{178}\u{201c}\u{a6} A Scoop bucket for alternative versions of apps. (scoop's built-in bucket 'versions')",
            "https://github.com/ScoopInstaller/Versions",
            240,
            234,
            510,
            "2025-09-16",
        ),
    );
    assert(out.deep_view() =~= verified_buckets());
    out
}

/// Returns the verified buckets, those with the most stars first.
pub fn get_default_buckets() -> (r: Vec<SearchableBucket>)
    ensures
        r.deep_view() == sorted_buckets(verified_buckets(), "stars"@),
{
    let mut buckets = get_verified_buckets();
    sort_buckets(&mut buckets, "stars");
    buckets
}

// ---------------------------------------------------------------------------
// Combining the verified buckets with the community directory
// ---------------------------------------------------------------------------

/// Whether one of the buckets bears the name.
pub open spec fn has_name(buckets: Seq<BucketView>, name: Seq<char>) -> bool {
    exists|i: int| 0 <= i < buckets.len() && buckets[i].name == name
}

/// The buckets of the community directory that are no verified buckets, in
/// their order.
pub open spec fn unverified(verified: Seq<BucketView>, expanded: Seq<BucketView>) -> Seq<BucketView>
    decreases expanded.len(),
{
    if expanded.len() == 0 {
        Seq::empty()
    } else {
        unverified(verified, expanded.drop_last()) + (if has_name(verified, expanded.last().name) {
            Seq::empty()
        } else {
            seq![expanded.last()]
        })
    }
}

fn name_among(buckets: &Vec<SearchableBucket>, name: &str) -> (r: bool)
    ensures
        r == has_name(buckets.deep_view(), name@),
{
    let ghost all = buckets.deep_view();
    let mut k: usize = 0;
    while k < buckets.len()
        invariant
            k <= buckets.len(),
            all == buckets.deep_view(),
            forall|i: int| 0 <= i < k ==> (#[trigger] all[i]).name != name@,
        decreases buckets.len() - k,
    {
        if str_eq(buckets[k].name.as_str(), name) {
            assert(all[k as int].name == name@);
            return true;
        }
        k += 1;
    }
    false
}

/// Puts the verified buckets before the buckets of the community directory
/// and leaves out of the latter those that bear the name of a verified
/// bucket.
pub fn combine_buckets(verified: Vec<SearchableBucket>, expanded: &Vec<SearchableBucket>) -> (r:
    Vec<SearchableBucket>)
    ensures
        r.deep_view() == verified.deep_view() + unverified(
            verified.deep_view(),
            expanded.deep_view(),
        ),
{
    let ghost first = verified.deep_view();
    let ghost all = expanded.deep_view();
    let mut extra: Vec<SearchableBucket> = Vec::new();
    let mut k: usize = 0;
    while k < expanded.len()
        invariant
            k <= expanded.len(),
            first == verified.deep_view(),
            all == expanded.deep_view(),
            extra.deep_view() == unverified(first, all.take(k as int)),
        decreases expanded.len() - k,
    {
        let ghost before = extra.deep_view();
        proof {
            let now = all.take(k + 1);
            assert(now.drop_last() =~= all.take(k as int));
        }
        if !name_among(&verified, expanded[k].name.as_str()) {
            extra.push(expanded[k].clone());
        }
        assert(extra.deep_view() =~= before + (if has_name(first, all[k as int].name) {
            Seq::empty()
        } else {
            seq![all[k as int]]
        }));
        k += 1;
    }
    assert(all.take(expanded.len() as int) =~= all);
    let mut out = verified;
    out.append(&mut extra);
    out
}

} // verus!
