//! The details of a package as they are shown: keys made readable, entries
//! put in order.

use crate::json::{
    as_text, format_json_value, json_document, lemma_node_view, member, member_of, member_text,
    parse_json, shown_value, text_member, text_of, trim_quotes, unquoted, JsonKind, JsonKindView,
    JsonNode, JsonView,
};
use crate::sorting::{
    lemma_stable_sort_permutation, lemma_stable_sort_sorted, relation, sort_by, stable_sort, Order,
};
use crate::text::{chars_of, join_strings, join_texts, lemma_text_order_total, opt_text, str_eq, str_le, string_of, text_le, text_order};
use vstd::prelude::*;
use vstd::relations::*;
use vstd::string::*;

verus! {

/// The details of a package, for display.
#[derive(Debug)]
pub struct ScoopInfo {
    /// Pairs of a key and its value.
    pub details: Vec<(String, String)>,
    /// The notes of the manifest, where it has any.
    pub notes: Option<String>,
}

impl Default for ScoopInfo {
    fn default() -> (r: Self)
        ensures
            r.details@.len() == 0,
            r.notes is None,
    {
        ScoopInfo { details: Vec::new(), notes: None }
    }
}

/// A pair of a key and its value, as texts.
pub type Detail = (Seq<char>, Seq<char>);

// ---------------------------------------------------------------------------
// Keys
// ---------------------------------------------------------------------------

/// The upper-case form of a character as the standard library's
/// `char::to_uppercase` gives it; it may be more than one character.
pub uninterp spec fn unicode_upper(c: char) -> Seq<char>;

/// Returns the upper-case form of a character.
///
/// Trusted: wraps `char::to_uppercase`, whose result depends on the
/// character alone. The contract only gives that result its name,
/// `unicode_upper`.
#[verifier::external_body]
fn to_uppercase(c: char) -> (r: String)
    ensures
        r@ == unicode_upper(c),
{
    c.to_uppercase().collect()
}

/// The key as it is shown: `Includes` for `bin`, else the key with its first
/// character in upper case.
pub open spec fn field_key(key: Seq<char>) -> Seq<char> {
    if key == "bin"@ {
        "Includes"@
    } else if key.len() == 0 {
        key
    } else {
        unicode_upper(key[0]) + key.skip(1)
    }
}

/// Formats a key of the manifest for display.
pub fn format_field_key(key: &str) -> (r: String)
    ensures
        r@ == field_key(key@),
{
    if str_eq(key, "bin") {
        return "Includes".to_owned();
    }
    let chars = chars_of(key);
    if chars.len() == 0 {
        let r = String::new();
        return r;
    }
    let mut out = to_uppercase(chars[0]);
    let rest = string_of(&chars, 1, chars.len());
    out.append(rest.as_str());
    out
}

// ---------------------------------------------------------------------------
// Putting the details in order
// ---------------------------------------------------------------------------

/// The order of details by their keys, for sorting.
pub struct KeyOrder;

impl Order<(String, String)> for KeyOrder {
    open spec fn before(&self, a: Detail, b: Detail) -> bool {
        text_le(a.0, b.0)
    }

    fn comes_before(&self, a: &(String, String), b: &(String, String)) -> (r: bool) {
        str_le(a.0.as_str(), b.0.as_str())
    }
}

/// The order of details by their keys, as a relation value.
pub open spec fn key_order() -> spec_fn(Detail, Detail) -> bool {
    |a: Detail, b: Detail| text_le(a.0, b.0)
}

/// The order by keys compares any two details and is transitive.
pub proof fn lemma_key_order()
    ensures
        strongly_connected(key_order()),
        transitive(key_order()),
{
    lemma_text_order_total();
    let r = key_order();
    let t = text_order();
    assert forall|x: Detail, y: Detail| #[trigger] r(x, y) || #[trigger] r(y, x) by {
        assert(t(x.0, y.0) || t(y.0, x.0));
    }
    assert forall|x: Detail, y: Detail, z: Detail| #[trigger] r(x, y) && #[trigger] r(
        y,
        z,
    ) implies r(x, z) by {
        assert(t(x.0, y.0) && t(y.0, z.0));
    }
}

/// The index of the first detail with the key.
pub open spec fn key_position(details: Seq<Detail>, key: Seq<char>) -> Option<int>
    decreases details.len(),
{
    if details.len() == 0 {
        None
    } else {
        match key_position(details.drop_last(), key) {
            Some(i) => Some(i),
            None => if details.last().0 == key {
                Some(details.len() - 1)
            } else {
                None
            },
        }
    }
}

proof fn lemma_key_position_extends(details: Seq<Detail>, key: Seq<char>, n: int)
    requires
        0 <= n <= details.len(),
        key_position(details.take(n), key) is Some,
    ensures
        key_position(details, key) == key_position(details.take(n), key),
    decreases details.len() - n,
{
    if n < details.len() {
        assert(details.take(n + 1).drop_last() =~= details.take(n));
        lemma_key_position_extends(details, key, n + 1);
    } else {
        assert(details.take(n) =~= details);
    }
}

fn find_key(details: &Vec<(String, String)>, key: &str) -> (r: Option<usize>)
    ensures
        match r {
            Some(i) => key_position(details.deep_view(), key@) == Some(i as int) && i
                < details.len(),
            None => key_position(details.deep_view(), key@) is None,
        },
{
    let ghost all = details.deep_view();
    let mut k: usize = 0;
    while k < details.len()
        invariant
            k <= details.len(),
            all == details.deep_view(),
            key_position(all.take(k as int), key@) is None,
        decreases details.len() - k,
    {
        proof {
            let now = all.take(k + 1);
            assert(now.drop_last() =~= all.take(k as int));
        }
        if str_eq(details[k].0.as_str(), key) {
            proof {
                lemma_key_position_extends(all, key@, k + 1);
            }
            return Some(k);
        }
        k += 1;
    }
    assert(all.take(details.len() as int) =~= all);
    None
}

/// What is known of the installed copy of a package.
#[derive(Debug)]
pub struct InstalledCopy {
    /// The path of its `current` directory.
    pub path: String,
    /// The version in its manifest, where it could be read.
    pub version: Option<String>,
}

/// The details with the installed version taken in: it takes the place of
/// the first `Version`, and the version of the bucket follows as `Latest
/// Version` where it is another; without a `Version` it is appended.
pub open spec fn with_installed_version(
    details: Seq<Detail>,
    installed: Seq<char>,
    latest: Option<Seq<char>>,
) -> Seq<Detail> {
    match key_position(details, "Version"@) {
        Some(pos) => {
            let replaced = details.update(pos, ("Installed Version"@, installed));
            if latest is Some && latest->0 != installed {
                replaced.push(("Latest Version"@, latest->0))
            } else {
                replaced
            }
        },
        None => details.push(("Installed Version"@, installed)),
    }
}

/// The details before they are sorted: those of the manifest, the bucket,
/// and what is known of the installed copy.
pub open spec fn gathered_details(
    details: Seq<Detail>,
    bucket: Seq<char>,
    installed: Option<InstalledCopy>,
    latest: Option<Seq<char>>,
) -> Seq<Detail> {
    let with_bucket = details.push(("Bucket"@, bucket));
    match installed {
        Some(copy) => {
            let with_path = with_bucket.push(("Installed"@, copy.path@));
            match copy.version {
                Some(version) => with_installed_version(with_path, version@, latest),
                None => with_path,
            }
        },
        None => with_bucket,
    }
}

/// The details as they are shown: the name first, then all others sorted by
/// their keys.
pub open spec fn shown_details(
    name: Seq<char>,
    details: Seq<Detail>,
    bucket: Seq<char>,
    installed: Option<InstalledCopy>,
    latest: Option<Seq<char>>,
) -> Seq<Detail> {
    seq![("Name"@, name)] + stable_sort(
        gathered_details(details, bucket, installed, latest),
        key_order(),
    )
}

fn pair(key: &str, value: String) -> (r: (String, String))
    ensures
        r.deep_view() == (key@, value@),
{
    (key.to_owned(), value)
}

/// Puts the details of a package together for display. `details` and
/// `notes` come from the manifest of the bucket `bucket_name`,
/// `latest_version` is the version that this manifest gives, and `installed`
/// describes the installed copy, where there is one.
pub fn get_package_info(
    package_name: &str,
    details: Vec<(String, String)>,
    notes: Option<String>,
    bucket_name: String,
    installed: Option<InstalledCopy>,
    latest_version: Option<String>,
) -> (r: ScoopInfo)
    ensures
        r.details.deep_view() == shown_details(
            package_name@,
            details.deep_view(),
            bucket_name@,
            installed,
            opt_text(latest_version),
        ),
        r.notes == notes,
{
    let ghost given = details.deep_view();
    let mut all = details;
    all.push(pair("Bucket", bucket_name));
    assert(all.deep_view() =~= given.push(("Bucket"@, bucket_name@)));
    match &installed {
        Some(copy) => {
            let ghost with_bucket = all.deep_view();
            all.push(pair("Installed", copy.path.clone()));
            assert(all.deep_view() =~= with_bucket.push(("Installed"@, copy.path@)));
            match &copy.version {
                Some(version) => {
                    let ghost with_path = all.deep_view();
                    match find_key(&all, "Version") {
                        Some(pos) => {
                            all.set(pos, pair("Installed Version", version.clone()));
                            assert(all.deep_view() =~= with_path.update(
                                pos as int,
                                ("Installed Version"@, version@),
                            ));
                            match &latest_version {
                                Some(latest) => {
                                    if !str_eq(version.as_str(), latest.as_str()) {
                                        let ghost replaced = all.deep_view();
                                        all.push(pair("Latest Version", latest.clone()));
                                        assert(all.deep_view() =~= replaced.push(
                                            ("Latest Version"@, latest@),
                                        ));
                                    }
                                },
                                None => {},
                            }
                        },
                        None => {
                            all.push(pair("Installed Version", version.clone()));
                            assert(all.deep_view() =~= with_path.push(
                                ("Installed Version"@, version@),
                            ));
                        },
                    }
                },
                None => {},
            }
        },
        None => {},
    }
    let mut sorted = sort_by(all, &KeyOrder);
    proof {
        assert(relation(KeyOrder) =~= key_order());
    }
    let mut ordered: Vec<(String, String)> = Vec::new();
    ordered.push(pair("Name", package_name.to_owned()));
    ordered.append(&mut sorted);
    ScoopInfo { details: ordered, notes }
}

/// The details behind the name are sorted by their keys and are the
/// gathered ones, each as often.
pub proof fn lemma_shown_details(
    name: Seq<char>,
    details: Seq<Detail>,
    bucket: Seq<char>,
    installed: Option<InstalledCopy>,
    latest: Option<Seq<char>>,
)
    ensures
        ({
            let shown = shown_details(name, details, bucket, installed, latest);
            let gathered = gathered_details(details, bucket, installed, latest);
            &&& shown[0] == ("Name"@, name)
            &&& sorted_by(shown.skip(1), key_order())
            &&& shown.skip(1).to_multiset() == gathered.to_multiset()
        }),
{
    let gathered = gathered_details(details, bucket, installed, latest);
    let shown = shown_details(name, details, bucket, installed, latest);
    lemma_key_order();
    lemma_stable_sort_sorted(gathered, key_order());
    lemma_stable_sort_permutation(gathered, key_order());
    assert(shown.skip(1) =~= stable_sort(gathered, key_order()));
}

// ---------------------------------------------------------------------------
// The details of a manifest
// ---------------------------------------------------------------------------

/// The name that an entry of `bin` gives: the entry where it is a string,
/// the alias (or else the path) of a pair, the first key of an object.
pub open spec fn bin_name(item: JsonView) -> Seq<Seq<char>> {
    match item.kind {
        JsonKindView::Text(t) => seq![t],
        JsonKindView::Array(sub) => if sub.len() > 1 {
            match text_of(sub[1]) {
                Some(t) => seq![t],
                None => Seq::empty(),
            }
        } else if sub.len() == 1 {
            match text_of(sub[0]) {
                Some(t) => seq![t],
                None => Seq::empty(),
            }
        } else {
            Seq::empty()
        },
        JsonKindView::Object(fields) => if fields.len() > 0 {
            seq![fields[0].0]
        } else {
            Seq::empty()
        },
        _ => Seq::empty(),
    }
}

/// The names that the entries of `bin` give, in their order.
pub open spec fn bin_names(items: Seq<JsonView>) -> Seq<Seq<char>>
    decreases items.len(),
{
    if items.len() == 0 {
        Seq::empty()
    } else {
        bin_names(items.drop_last()) + bin_name(items.last())
    }
}

/// The value of `bin` as it is shown: the names of its entries with commas
/// between them; a value that is no array as any other value.
pub open spec fn shown_bin(v: JsonView) -> Seq<char> {
    match v.kind {
        JsonKindView::Array(items) => join_texts(bin_names(items), ", "@),
        _ => shown_value(v),
    }
}

fn name_of_bin(item: &JsonNode) -> (r: Option<String>)
    ensures
        match r {
            Some(name) => bin_name(item@) == seq![name@],
            None => bin_name(item@) == Seq::<Seq<char>>::empty(),
        },
{
    proof {
        lemma_node_view(*item);
    }
    match &item.kind {
        JsonKind::Text(text) => Some(text.clone()),
        JsonKind::Array(sub) => {
            let chosen = if sub.len() > 1 {
                &sub[1]
            } else if sub.len() == 1 {
                &sub[0]
            } else {
                return None;
            };
            match as_text(chosen) {
                Some(text) => Some(text.to_owned()),
                None => None,
            }
        },
        JsonKind::Object(fields) => {
            if fields.len() > 0 {
                Some(fields[0].key.clone())
            } else {
                None
            }
        },
        _ => None,
    }
}

/// Formats the value of `bin` for display.
pub fn format_bin_value(value: &JsonNode) -> (r: String)
    ensures
        r@ == shown_bin(value@),
{
    proof {
        lemma_node_view(*value);
    }
    match &value.kind {
        JsonKind::Array(items) => {
            let ghost views = value@.kind->Array_0;
            let mut names: Vec<String> = Vec::new();
            let mut k: usize = 0;
            while k < items.len()
                invariant
                    k <= items.len(),
                    views.len() == items@.len(),
                    forall|i: int| 0 <= i < items@.len() ==> #[trigger] views[i] == items@[i]@,
                    names.deep_view() == bin_names(views.take(k as int)),
                decreases items.len() - k,
            {
                proof {
                    let now = views.take(k + 1);
                    assert(now.drop_last() =~= views.take(k as int));
                }
                match name_of_bin(&items[k]) {
                    Some(name) => {
                        names.push(name);
                    },
                    None => {},
                }
                k += 1;
            }
            assert(views.take(items.len() as int) =~= views);
            join_strings(&names, ", ")
        },
        _ => format_json_value(value),
    }
}

/// An item of `notes` as it is shown: a string as it is, anything else as
/// JSON without the quotes at head and end.
pub open spec fn note_line(item: JsonView) -> Seq<char> {
    match text_of(item) {
        Some(t) => t,
        None => unquoted(item.json),
    }
}

/// The notes as they are shown: the items of an array line by line, any
/// other value as it is shown elsewhere.
pub open spec fn shown_notes(v: JsonView) -> Seq<char> {
    match v.kind {
        JsonKindView::Array(items) => join_texts(
            Seq::new(items.len(), |i: int| note_line(items[i])),
            "\n"@,
        ),
        _ => shown_value(v),
    }
}

fn format_notes(value: &JsonNode) -> (r: String)
    ensures
        r@ == shown_notes(value@),
{
    proof {
        lemma_node_view(*value);
    }
    match &value.kind {
        JsonKind::Array(items) => {
            let ghost views = value@.kind->Array_0;
            let mut lines: Vec<String> = Vec::new();
            let mut k: usize = 0;
            while k < items.len()
                invariant
                    k <= items.len(),
                    lines.len() == k,
                    views.len() == items@.len(),
                    forall|i: int| 0 <= i < items@.len() ==> #[trigger] views[i] == items@[i]@,
                    forall|i: int| 0 <= i < k ==> (#[trigger] lines@[i])@ == note_line(views[i]),
                decreases items.len() - k,
            {
                proof {
                    lemma_node_view(items@[k as int]);
                }
                let line = match as_text(&items[k]) {
                    Some(text) => text.to_owned(),
                    None => trim_quotes(items[k].json.as_str()),
                };
                lines.push(line);
                k += 1;
            }
            assert(lines.deep_view() =~= Seq::new(views.len(), |i: int| note_line(views[i])));
            join_strings(&lines, "\n")
        },
        _ => format_json_value(value),
    }
}

/// The detail that a member of a manifest gives: none for `notes`.
pub open spec fn member_detail(key: Seq<char>, value: JsonView) -> Seq<Detail> {
    if key == "notes"@ {
        Seq::empty()
    } else if key == "bin"@ {
        seq![("Includes"@, shown_bin(value))]
    } else {
        seq![(field_key(key), shown_value(value))]
    }
}

/// The details that the members give, in their order.
pub open spec fn member_details(fields: Seq<(Seq<char>, JsonView)>) -> Seq<Detail>
    decreases fields.len(),
{
    if fields.len() == 0 {
        Seq::empty()
    } else {
        member_details(fields.drop_last()) + member_detail(fields.last().0, fields.last().1)
    }
}

/// The details of a manifest: one for each member but `notes`; none for
/// what is no object.
pub open spec fn manifest_details(v: JsonView) -> Seq<Detail> {
    match v.kind {
        JsonKindView::Object(fields) => member_details(fields),
        _ => Seq::empty(),
    }
}

/// The notes of a manifest, where it has the member `notes`.
pub open spec fn manifest_notes(v: JsonView) -> Option<Seq<char>> {
    match member_of(v, "notes"@) {
        Some(value) => Some(shown_notes(value)),
        None => None,
    }
}

/// Reads the details and the notes out of a manifest.
pub fn parse_manifest_details(manifest: &JsonNode) -> (r: (Vec<(String, String)>, Option<String>))
    ensures
        r.0.deep_view() == manifest_details(manifest@),
        opt_text(r.1) == manifest_notes(manifest@),
{
    proof {
        lemma_node_view(*manifest);
    }
    let mut details: Vec<(String, String)> = Vec::new();
    match &manifest.kind {
        JsonKind::Object(fields) => {
            let ghost views = manifest@.kind->Object_0;
            let mut k: usize = 0;
            while k < fields.len()
                invariant
                    k <= fields.len(),
                    views.len() == fields@.len(),
                    forall|i: int|
                        0 <= i < fields@.len() ==> #[trigger] views[i] == (
                            fields@[i].key@,
                            fields@[i].value@,
                        ),
                    details.deep_view() == member_details(views.take(k as int)),
                decreases fields.len() - k,
            {
                let ghost before = details.deep_view();
                proof {
                    let now = views.take(k + 1);
                    assert(now.drop_last() =~= views.take(k as int));
                }
                let key = fields[k].key.as_str();
                if str_eq(key, "notes") {
                } else if str_eq(key, "bin") {
                    details.push(pair("Includes", format_bin_value(&fields[k].value)));
                } else {
                    details.push((format_field_key(key), format_json_value(&fields[k].value)));
                }
                assert(details.deep_view() =~= before + member_detail(
                    views[k as int].0,
                    views[k as int].1,
                ));
                k += 1;
            }
            assert(views.take(fields.len() as int) =~= views);
        },
        _ => {},
    }
    let notes = match member(manifest, "notes") {
        Some(value) => Some(format_notes(value)),
        None => None,
    };
    (details, notes)
}

/// What a manifest says, for display.
#[derive(Debug)]
pub struct ManifestDetails {
    pub details: Vec<(String, String)>,
    pub notes: Option<String>,
    /// The version that the manifest gives, where it gives one as a string.
    pub version: Option<String>,
}

/// Reads a manifest for display; `None` where the text is no JSON
/// document.
pub fn read_manifest_details(content: &str) -> (r: Option<ManifestDetails>)
    ensures
        match r {
            Some(read) => json_document(content@) is Some && read.details.deep_view()
                == manifest_details(json_document(content@)->0) && opt_text(read.notes)
                == manifest_notes(json_document(content@)->0) && opt_text(read.version)
                == text_member(json_document(content@), "version"@),
            None => json_document(content@) is None,
        },
{
    let document = parse_json(content);
    let version = member_text(&document, "version");
    match &document {
        Some(manifest) => {
            let (details, notes) = parse_manifest_details(manifest);
            Some(ManifestDetails { details, notes, version })
        },
        None => None,
    }
}

/// Reads the version of an installed package out of its manifest.
pub fn get_installed_version(manifest_content: &str) -> (r: Option<String>)
    ensures
        opt_text(r) == text_member(json_document(manifest_content@), "version"@),
{
    member_text(&parse_json(manifest_content), "version")
}

} // verus!
