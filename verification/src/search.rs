//! Searching the manifests of the buckets for a term.

use crate::bucket_parser::{match_one, regex_groups};
use crate::json::{
    as_text, json_document, lemma_node_view, member, member_of, member_text, parse_json,
    text_member, text_of, JsonField, JsonKind, JsonKindView, JsonNode, JsonView,
};
use crate::models::{MatchSource, PackageView, ScoopPackage};
use crate::strings::{replace, replaced, trim, trimmed};
use crate::text::{chars_of, opt_str, str_eq, string_of, to_lowercase, unicode_lower};
use vstd::prelude::*;
use vstd::string::*;

verus! {

/// What a search found.
#[derive(Debug)]
pub struct SearchResult {
    pub packages: Vec<ScoopPackage>,
    /// Whether the manifests had to be listed for this search.
    pub is_cold: bool,
}

impl Default for SearchResult {
    fn default() -> (r: Self)
        ensures
            r.packages@.len() == 0,
            !r.is_cold,
    {
        SearchResult { packages: Vec::new(), is_cold: false }
    }
}

// ---------------------------------------------------------------------------
// The pattern
// ---------------------------------------------------------------------------

/// Whether a character has a meaning in a regular expression.
pub open spec fn is_meta_character(c: char) -> bool {
    ||| c == '\\'
    ||| c == '.'
    ||| c == '+'
    ||| c == '*'
    ||| c == '?'
    ||| c == '('
    ||| c == ')'
    ||| c == '|'
    ||| c == '['
    ||| c == ']'
    ||| c == '{'
    ||| c == '}'
    ||| c == '^'
    ||| c == '$'
    ||| c == '#'
    ||| c == '&'
    ||| c == '-'
    ||| c == '~'
}

/// A character as it stands in an escaped text: behind a backslash where it
/// has a meaning in a regular expression.
pub open spec fn escaped_char(c: char) -> Seq<char> {
    if is_meta_character(c) {
        seq!['\\', c]
    } else {
        seq![c]
    }
}

/// The text with every character that has a meaning in a regular expression
/// escaped.
pub open spec fn regex_escaped(text: Seq<char>) -> Seq<char>
    decreases text.len(),
{
    if text.len() == 0 {
        Seq::empty()
    } else {
        regex_escaped(text.drop_last()) + escaped_char(text.last())
    }
}

/// Escapes a text for use in a regular expression.
///
/// Trusted: wraps `regex::escape`, which copies the text and puts a
/// backslash before each character of the fixed list that
/// `regex_syntax::is_meta_character` holds.
#[verifier::external_body]
fn escape(text: &str) -> (r: String)
    ensures
        r@ == regex_escaped(text@),
{
    regex::escape(text)
}

/// Whether the term asks for an exact match: it stands in double quotes.
pub open spec fn is_quoted(term: Seq<char>) -> bool {
    term.len() > 1 && term[0] == '"' && term.last() == '"'
}

/// A name as the search compares it: with dashes for spaces.
pub open spec fn dashed(text: Seq<char>) -> Seq<char> {
    replaced(text, " "@, "-"@)
}

/// The regular expression that a search term stands for: a term in double
/// quotes matches a name as a whole, any other term matches a part of it;
/// either without regard to case.
pub open spec fn search_pattern_of(term: Seq<char>) -> Seq<char> {
    let t = trimmed(term);
    if is_quoted(t) {
        "(?i)^"@ + regex_escaped(dashed(trimmed(t.subrange(1, t.len() - 1)))) + "$"@
    } else {
        "(?i)"@ + regex_escaped(dashed(t))
    }
}

/// Builds the regular expression for a search term.
pub fn search_pattern(term: &str) -> (r: String)
    ensures
        r@ == search_pattern_of(term@),
{
    let trimmed_term = trim(term);
    let chars = chars_of(trimmed_term.as_str());
    let n = chars.len();
    if n > 1 && chars[0] == '"' && chars[n - 1] == '"' {
        let inner = string_of(&chars, 1, n - 1);
        let normalized = replace(trim(inner.as_str()).as_str(), " ", "-");
        let mut pattern = "(?i)^".to_owned();
        pattern.append(escape(normalized.as_str()).as_str());
        pattern.append("$");
        pattern
    } else {
        let normalized = replace(trimmed_term.as_str(), " ", "-");
        let mut pattern = "(?i)".to_owned();
        pattern.append(escape(normalized.as_str()).as_str());
        pattern
    }
}

// ---------------------------------------------------------------------------
// Matching
// ---------------------------------------------------------------------------

/// Whether the regular expression matches somewhere in the text.
pub open spec fn pattern_matches(pattern: Seq<char>, text: Seq<char>) -> bool {
    regex_groups(pattern, text) is Some
}

/// Whether the regular expression matches somewhere in the text.
pub fn is_match(pattern: &str, text: &str) -> (r: bool)
    ensures
        r == pattern_matches(pattern@, text@),
{
    match_one(pattern, text).is_some()
}

/// Whether the pattern matches one of the texts.
pub open spec fn matches_any(pattern: Seq<char>, texts: Seq<Seq<char>>) -> bool {
    exists|i: int| 0 <= i < texts.len() && pattern_matches(pattern, texts[i])
}

/// Whether the pattern matches one of the texts.
pub fn any_match(pattern: &str, texts: &Vec<String>) -> (r: bool)
    ensures
        r == matches_any(pattern@, texts.deep_view()),
{
    let ghost all = texts.deep_view();
    let mut k: usize = 0;
    while k < texts.len()
        invariant
            k <= texts.len(),
            all == texts.deep_view(),
            forall|i: int| 0 <= i < k ==> !pattern_matches(pattern@, all[i]),
        decreases texts.len() - k,
    {
        if is_match(pattern, texts[k].as_str()) {
            assert(pattern_matches(pattern@, all[k as int]));
            return true;
        }
        k += 1;
    }
    false
}

/// How a manifest matches a search: by the name of its package, else by one
/// of the names of its binaries, else not at all.
pub open spec fn match_source_of(pattern: Seq<char>, name: Seq<char>, binaries: Seq<Seq<char>>)
    -> MatchSource {
    if pattern_matches(pattern, name) {
        MatchSource::Name
    } else if matches_any(pattern, binaries) {
        MatchSource::Binary
    } else {
        MatchSource::NoMatch
    }
}

/// Says how a manifest matches a search. `binaries` are the names and paths
/// that the manifest gives for its binaries; they are looked at only where
/// the name of the package does not match.
pub fn find_match_source(pattern: &str, name: &str, binaries: &Vec<String>) -> (r: MatchSource)
    ensures
        r == match_source_of(pattern@, name@, binaries.deep_view()),
{
    if is_match(pattern, name) {
        MatchSource::Name
    } else if any_match(pattern, binaries) {
        MatchSource::Binary
    } else {
        MatchSource::NoMatch
    }
}

/// The record of a package that a search found in a bucket.
pub open spec fn found_record(name: Seq<char>, version: Seq<char>, bucket: Seq<char>, source:
    MatchSource) -> PackageView {
    PackageView {
        name,
        version,
        source: bucket,
        updated: Seq::empty(),
        is_installed: false,
        info: Seq::empty(),
        match_source: source,
        is_versioned_install: false,
    }
}

/// Builds the record of a package that a search found in a bucket.
pub fn parse_package_from_manifest(
    name: &str,
    version: &str,
    bucket: &str,
    match_source: MatchSource,
) -> (r: ScoopPackage)
    ensures
        r@ == found_record(name@, version@, bucket@, match_source),
{
    ScoopPackage {
        name: name.to_owned(),
        version: version.to_owned(),
        source: bucket.to_owned(),
        updated: String::new(),
        is_installed: false,
        info: String::new(),
        match_source,
        is_versioned_install: false,
    }
}

// ---------------------------------------------------------------------------
// Marking what is installed
// ---------------------------------------------------------------------------

/// Whether one of the packages bears the name, without regard to case.
pub open spec fn is_installed_name(installed: Seq<PackageView>, name: Seq<char>) -> bool {
    exists|i: int|
        0 <= i < installed.len() && unicode_lower(installed[i].name) == unicode_lower(name)
}

/// The package as the search shows it: marked as installed where an
/// installed package bears its name.
pub open spec fn marked(package: PackageView, installed: Seq<PackageView>) -> PackageView {
    if is_installed_name(installed, package.name) {
        PackageView { is_installed: true, ..package }
    } else {
        package
    }
}

fn lower_names(installed: &Vec<ScoopPackage>) -> (r: Vec<String>)
    ensures
        r.len() == installed.len(),
        forall|i: int| 0 <= i < r.len() ==> (#[trigger] r@[i])@ == unicode_lower(installed@[i].name@),
{
    let mut out: Vec<String> = Vec::new();
    let mut k: usize = 0;
    while k < installed.len()
        invariant
            k <= installed.len(),
            out.len() == k,
            forall|i: int| 0 <= i < k ==> (#[trigger] out@[i])@ == unicode_lower(
                installed@[i].name@,
            ),
        decreases installed.len() - k,
    {
        out.push(to_lowercase(installed[k].name.as_str()));
        k += 1;
    }
    out
}

fn among(names: &Vec<String>, name: &str) -> (r: bool)
    ensures
        r == exists|i: int| 0 <= i < names.len() && (#[trigger] names@[i])@ == name@,
{
    let mut k: usize = 0;
    while k < names.len()
        invariant
            k <= names.len(),
            forall|i: int| 0 <= i < k ==> (#[trigger] names@[i])@ != name@,
        decreases names.len() - k,
    {
        if str_eq(names[k].as_str(), name) {
            return true;
        }
        k += 1;
    }
    false
}

/// Marks the packages that a search found as installed where an installed
/// package bears their name, without regard to case.
pub fn mark_installed(packages: &mut Vec<ScoopPackage>, installed: &Vec<ScoopPackage>)
    ensures
        final(packages).len() == old(packages).len(),
        forall|i: int|
            0 <= i < old(packages).len() ==> (#[trigger] final(packages)@[i])@ == marked(
                old(packages)@[i]@,
                installed.deep_view(),
            ),
{
    let names = lower_names(installed);
    let ghost before = packages@;
    let mut k: usize = 0;
    while k < packages.len()
        invariant
            k <= packages.len(),
            packages.len() == before.len(),
            names.len() == installed.len(),
            forall|i: int|
                0 <= i < names.len() ==> (#[trigger] names@[i])@ == unicode_lower(
                    installed@[i].name@,
                ),
            forall|i: int|
                0 <= i < k ==> (#[trigger] packages@[i])@ == marked(
                    before[i]@,
                    installed.deep_view(),
                ),
            forall|i: int| k <= i < packages.len() ==> packages@[i] == before[i],
        decreases packages.len() - k,
    {
        let lower = to_lowercase(packages[k].name.as_str());
        let found = among(&names, lower.as_str());
        proof {
            let all = installed.deep_view();
            let name = before[k as int]@.name;
            if found {
                let i = choose|i: int| 0 <= i < names.len() && (#[trigger] names@[i])@ == lower@;
                assert(all[i].name == installed@[i].name@);
            } else {
                assert forall|i: int| 0 <= i < all.len() implies unicode_lower(all[i].name)
                    != unicode_lower(name) by {
                    assert(names@[i]@ == unicode_lower(installed@[i].name@));
                }
            }
        }
        if found {
            let mut package = packages[k].clone();
            package.is_installed = true;
            packages.set(k, package);
        }
        k += 1;
    }
}

// ---------------------------------------------------------------------------
// Searching a manifest
// ---------------------------------------------------------------------------

/// The keys of the members, in their order.
pub open spec fn field_keys(fields: Seq<(Seq<char>, JsonView)>) -> Seq<Seq<char>> {
    Seq::new(fields.len(), |i: int| fields[i].0)
}

/// The text that a member holds, where it holds a string.
pub open spec fn field_text(field: (Seq<char>, JsonView)) -> Seq<Seq<char>> {
    match text_of(field.1) {
        Some(t) => seq![t],
        None => Seq::empty(),
    }
}

/// The texts that the members hold as strings, in their order.
pub open spec fn field_texts(fields: Seq<(Seq<char>, JsonView)>) -> Seq<Seq<char>>
    decreases fields.len(),
{
    if fields.len() == 0 {
        Seq::empty()
    } else {
        field_texts(fields.drop_last()) + field_text(fields.last())
    }
}

/// The texts of an object that a search looks at: its keys, then the
/// strings it holds.
pub open spec fn object_texts(fields: Seq<(Seq<char>, JsonView)>) -> Seq<Seq<char>> {
    field_keys(fields) + field_texts(fields)
}

/// The texts of an entry of `bin` that a search looks at.
pub open spec fn entry_texts(item: JsonView) -> Seq<Seq<char>> {
    match item.kind {
        JsonKindView::Text(t) => seq![t],
        JsonKindView::Object(fields) => object_texts(fields),
        _ => Seq::empty(),
    }
}

/// The texts of the entries, entry by entry.
pub open spec fn entries_texts(items: Seq<JsonView>) -> Seq<Seq<char>>
    decreases items.len(),
{
    if items.len() == 0 {
        Seq::empty()
    } else {
        entries_texts(items.drop_last()) + entry_texts(items.last())
    }
}

/// The names and paths of the binaries of a manifest, as far as a search
/// looks at them.
pub open spec fn binary_texts(manifest: JsonView) -> Seq<Seq<char>> {
    match member_of(manifest, "bin"@) {
        Some(bin) => match bin.kind {
            JsonKindView::Text(t) => seq![t],
            JsonKindView::Array(items) => entries_texts(items),
            JsonKindView::Object(fields) => object_texts(fields),
            _ => Seq::empty(),
        },
        None => Seq::empty(),
    }
}

fn texts_of_object(fields: &Vec<JsonField>, Ghost(views): Ghost<Seq<(Seq<char>, JsonView)>>) -> (r:
    Vec<String>)
    requires
        views.len() == fields@.len(),
        forall|i: int|
            0 <= i < fields@.len() ==> #[trigger] views[i] == (fields@[i].key@, fields@[i].value@),
    ensures
        r.deep_view() == object_texts(views),
{
    let mut keys: Vec<String> = Vec::new();
    let mut texts: Vec<String> = Vec::new();
    let mut k: usize = 0;
    while k < fields.len()
        invariant
            k <= fields.len(),
            views.len() == fields@.len(),
            forall|i: int|
                0 <= i < fields@.len() ==> #[trigger] views[i] == (
                    fields@[i].key@,
                    fields@[i].value@,
                ),
            keys.len() == k,
            forall|i: int| 0 <= i < k ==> (#[trigger] keys@[i])@ == views[i].0,
            texts.deep_view() == field_texts(views.take(k as int)),
        decreases fields.len() - k,
    {
        proof {
            let now = views.take(k + 1);
            assert(now.drop_last() =~= views.take(k as int));
        }
        keys.push(fields[k].key.clone());
        match as_text(&fields[k].value) {
            Some(text) => {
                texts.push(text.to_owned());
            },
            None => {},
        }
        k += 1;
    }
    assert(views.take(fields.len() as int) =~= views);
    keys.append(&mut texts);
    keys
}

fn texts_of_entry(item: &JsonNode) -> (r: Vec<String>)
    ensures
        r.deep_view() == entry_texts(item@),
{
    proof {
        lemma_node_view(*item);
    }
    match &item.kind {
        JsonKind::Text(text) => {
            let mut out: Vec<String> = Vec::new();
            out.push(text.clone());
            out
        },
        JsonKind::Object(fields) => texts_of_object(fields, Ghost(item@.kind->Object_0)),
        _ => {
            let out: Vec<String> = Vec::new();
            out
        },
    }
}

/// Lists the names and paths of the binaries of a manifest, as far as a
/// search looks at them.
pub fn binary_names(manifest: &JsonNode) -> (r: Vec<String>)
    ensures
        r.deep_view() == binary_texts(manifest@),
{
    let bin = match member(manifest, "bin") {
        Some(bin) => bin,
        None => {
            let out: Vec<String> = Vec::new();
            return out;
        },
    };
    proof {
        lemma_node_view(*bin);
    }
    match &bin.kind {
        JsonKind::Array(items) => {
            let ghost views = bin@.kind->Array_0;
            let mut out: Vec<String> = Vec::new();
            let mut k: usize = 0;
            while k < items.len()
                invariant
                    k <= items.len(),
                    views.len() == items@.len(),
                    forall|i: int| 0 <= i < items@.len() ==> #[trigger] views[i] == items@[i]@,
                    out.deep_view() == entries_texts(views.take(k as int)),
                decreases items.len() - k,
            {
                proof {
                    let now = views.take(k + 1);
                    assert(now.drop_last() =~= views.take(k as int));
                }
                let mut more = texts_of_entry(&items[k]);
                out.append(&mut more);
                k += 1;
            }
            assert(views.take(items.len() as int) =~= views);
            out
        },
        _ => texts_of_entry(bin),
    }
}

/// What a search finds in one manifest: the record of its package where the
/// pattern matches the name of the package or one of its binaries, and the
/// manifest gives a version. Nothing is found in a manifest without a name
/// or a bucket, nor in one that cannot be read or is no JSON document.
pub open spec fn found_in_manifest(
    pattern: Seq<char>,
    name: Option<Seq<char>>,
    bucket: Option<Seq<char>>,
    content: Option<Seq<char>>,
) -> Option<PackageView> {
    if name is None || content is None {
        None
    } else {
        match json_document(content->0) {
            None => None,
            Some(manifest) => {
                let source = match_source_of(pattern, name->0, binary_texts(manifest));
                let version = text_member(Some(manifest), "version"@);
                if source != MatchSource::NoMatch && version is Some && bucket is Some {
                    Some(found_record(name->0, version->0, bucket->0, source))
                } else {
                    None
                }
            },
        }
    }
}

/// Searches one manifest. `name` is the name of its file without the
/// extension, `bucket` the name of the bucket it lies in, and `content` its
/// text; each is `None` where it could not be had.
pub fn search_manifest(
    pattern: &str,
    name: Option<&str>,
    bucket: Option<&str>,
    content: Option<&str>,
) -> (r: Option<ScoopPackage>)
    ensures
        match r {
            Some(package) => found_in_manifest(
                pattern@,
                opt_str(name),
                opt_str(bucket),
                opt_str(content),
            ) == Some(package@),
            None => found_in_manifest(pattern@, opt_str(name), opt_str(bucket), opt_str(content))
                is None,
        },
{
    let name = match name {
        Some(name) => name,
        None => {
            return None;
        },
    };
    let content = match content {
        Some(content) => content,
        None => {
            return None;
        },
    };
    let document = parse_json(content);
    let manifest = match &document {
        Some(manifest) => manifest,
        None => {
            return None;
        },
    };
    let source = if is_match(pattern, name) {
        MatchSource::Name
    } else if any_match(pattern, &binary_names(manifest)) {
        MatchSource::Binary
    } else {
        return None;
    };
    let version = match member_text(&document, "version") {
        Some(version) => version,
        None => {
            return None;
        },
    };
    match bucket {
        Some(bucket) => Some(parse_package_from_manifest(name, version.as_str(), bucket, source)),
        None => None,
    }
}

} // verus!
