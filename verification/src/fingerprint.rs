//! The fingerprint of the apps directory: one string that changes whenever a
//! package appears, disappears or has its active version touched.
//!
//! The string is `"{count}|{entries}"`, where `count` is the number of
//! package directories and `entries` are the texts `"{name}:{stamp}"`, one for
//! each directory whose name is valid Unicode, with the name in ASCII lower
//! case, sorted and joined by `;`.
//!
//! Two listings with the same directories have the same fingerprint, in
//! whatever order they were listed. A fingerprint tells the number of
//! directories and every stamp; it tells the names too, as long as none of
//! them holds a semicolon.

use crate::probe::{get_package_stamp, package_stamp, PackageDir};
use crate::strings::{lemma_split_len, split};
use crate::text::{
    ascii_lower, decimal, free_of, join_strings, join_texts, lemma_decimal_digits,
    lemma_decimal_injective, lemma_join_injective, lemma_sorted_texts,
    lemma_sorted_texts_of_permutation, lemma_split_at_marker, push_char, sort_strings,
    sorted_texts, to_ascii_lowercase, to_decimal,
};
use vstd::multiset::*;
use vstd::prelude::*;
use vstd::seq_lib::*;
use vstd::string::*;

verus! {

/// The text that stands for one package: its lower-cased name, a colon and
/// its stamp in decimal.
pub open spec fn entry_text(name: Seq<char>, stamp: nat) -> Seq<char> {
    ascii_lower(name) + seq![':'] + decimal(stamp)
}

/// The entry that a directory contributes: none where its name is not valid
/// Unicode.
pub open spec fn entry_of(dir: PackageDir) -> Seq<Seq<char>> {
    match dir.name {
        Some(name) => seq![entry_text(name@, package_stamp(dir))],
        None => Seq::empty(),
    }
}

/// The entries of all directories, in the order of the directories.
pub open spec fn entries_of(dirs: Seq<PackageDir>) -> Seq<Seq<char>>
    decreases dirs.len(),
{
    if dirs.len() == 0 {
        Seq::empty()
    } else {
        entries_of(dirs.drop_last()) + entry_of(dirs.last())
    }
}

/// The fingerprint made of a directory count and the entries.
pub open spec fn fingerprint_text(count: nat, entries: Seq<Seq<char>>) -> Seq<char> {
    decimal(count) + seq!['|'] + join_texts(sorted_texts(entries), seq![';'])
}

/// The fingerprint of a listing of the apps directory.
pub open spec fn apps_fingerprint(dirs: Seq<PackageDir>) -> Seq<char> {
    fingerprint_text(dirs.len(), entries_of(dirs))
}

/// Computes the fingerprint of the listed package directories.
pub fn compute_apps_fingerprint(app_dirs: &Vec<PackageDir>) -> (r: String)
    ensures
        r@ == apps_fingerprint(app_dirs@),
{
    let mut entries: Vec<String> = Vec::new();
    let mut k: usize = 0;
    while k < app_dirs.len()
        invariant
            k <= app_dirs.len(),
            entries.deep_view() == entries_of(app_dirs@.take(k as int)),
        decreases app_dirs.len() - k,
    {
        proof {
            let now = app_dirs@.take(k + 1);
            assert(now.drop_last() =~= app_dirs@.take(k as int));
        }
        match &app_dirs[k].name {
            Some(name) => {
                let mut entry = to_ascii_lowercase(name.as_str());
                push_char(&mut entry, ':');
                let stamp = to_decimal(get_package_stamp(&app_dirs[k]));
                entry.append(stamp.as_str());
                assert(entry@ =~= entry_text(name@, package_stamp(app_dirs@[k as int])));
                entries.push(entry);
            },
            None => {},
        }
        k += 1;
    }
    assert(app_dirs@.take(app_dirs.len() as int) =~= app_dirs@);
    let sorted = sort_strings(entries);
    proof {
        reveal_strlit(";");
        assert(";"@ =~= seq![';']);
    }
    let joined = join_strings(&sorted, ";");
    let mut out = to_decimal(app_dirs.len() as u128);
    push_char(&mut out, '|');
    out.append(joined.as_str());
    out
}

// ---------------------------------------------------------------------------
// Order independence
// ---------------------------------------------------------------------------

proof fn lemma_entries_concat(x: Seq<PackageDir>, y: Seq<PackageDir>)
    ensures
        entries_of(x + y) == entries_of(x) + entries_of(y),
    decreases y.len(),
{
    if y.len() > 0 {
        lemma_entries_concat(x, y.drop_last());
        assert((x + y).drop_last() =~= x + y.drop_last());
    }
}

proof fn lemma_entries_single(d: PackageDir)
    ensures
        entries_of(seq![d]) == entry_of(d),
{
    let one = seq![d];
    assert(entries_of(one.drop_last()) =~= Seq::<Seq<char>>::empty());
}

proof fn lemma_entries_remove(s: Seq<PackageDir>, k: int)
    requires
        0 <= k < s.len(),
    ensures
        entries_of(s).to_multiset() == entries_of(s.remove(k)).to_multiset().add(
            entry_of(s[k]).to_multiset(),
        ),
{
    broadcast use group_multiset_axioms;

    let x = s.take(k);
    let y = s.skip(k + 1);
    assert(s =~= x + seq![s[k]] + y);
    lemma_entries_concat(x, seq![s[k]]);
    lemma_entries_concat(x + seq![s[k]], y);
    lemma_entries_concat(x, y);
    lemma_entries_single(s[k]);
    let ex = entries_of(x);
    let ey = entries_of(y);
    let ek = entry_of(s[k]);
    lemma_multiset_commutative(ex, ek);
    lemma_multiset_commutative(ex + ek, ey);
    lemma_multiset_commutative(ex, ey);
    assert(entries_of(s).to_multiset() =~= entries_of(s.remove(k)).to_multiset().add(
        ek.to_multiset(),
    ));
}

/// Listings that hold the same directories, in whatever order, have the same
/// entries, each as often.
pub proof fn lemma_entries_of_permutation(a: Seq<PackageDir>, b: Seq<PackageDir>)
    requires
        a.to_multiset() == b.to_multiset(),
    ensures
        entries_of(a).to_multiset() == entries_of(b).to_multiset(),
    decreases a.len(),
{
    broadcast use group_multiset_axioms;

    to_multiset_len(a);
    to_multiset_len(b);
    if a.len() > 0 {
        let last = a.last();
        let k = a.len() - 1;
        to_multiset_contains(a, last);
        to_multiset_contains(b, last);
        let j = choose|j: int| 0 <= j < b.len() && b[j] == last;
        to_multiset_remove(a, k);
        to_multiset_remove(b, j);
        lemma_entries_of_permutation(a.drop_last(), b.remove(j));
        lemma_entries_remove(a, k);
        lemma_entries_remove(b, j);
    }
}

/// The fingerprint does not depend on the order in which the package
/// directories were listed.
pub proof fn lemma_fingerprint_order_independent(a: Seq<PackageDir>, b: Seq<PackageDir>)
    requires
        a.to_multiset() == b.to_multiset(),
    ensures
        apps_fingerprint(a) == apps_fingerprint(b),
{
    to_multiset_len(a);
    to_multiset_len(b);
    lemma_entries_of_permutation(a, b);
    lemma_sorted_texts_of_permutation(entries_of(a), entries_of(b));
}

// ---------------------------------------------------------------------------
// Sensitivity
// ---------------------------------------------------------------------------

/// Listings of different length have different fingerprints: adding or
/// removing a package directory always shows.
pub proof fn lemma_fingerprint_detects_count(a: Seq<PackageDir>, b: Seq<PackageDir>)
    requires
        a.len() != b.len(),
    ensures
        apps_fingerprint(a) != apps_fingerprint(b),
{
    if apps_fingerprint(a) == apps_fingerprint(b) {
        lemma_decimal_digits(a.len());
        lemma_decimal_digits(b.len());
        lemma_split_at_marker(
            decimal(a.len()),
            join_texts(sorted_texts(entries_of(a)), seq![';']),
            decimal(b.len()),
            join_texts(sorted_texts(entries_of(b)), seq![';']),
            '|',
        );
        lemma_decimal_injective(a.len(), b.len());
    }
}

/// Whether no directory name of the listing holds a semicolon, the character
/// that separates the entries of a fingerprint.
pub open spec fn names_plain(dirs: Seq<PackageDir>) -> bool {
    forall|i: int|
        0 <= i < dirs.len() ==> match (#[trigger] dirs[i]).name {
            Some(name) => free_of(name@, ';'),
            None => true,
        }
}

/// Whether every text is non-empty and holds no semicolon.
pub open spec fn entries_plain(entries: Seq<Seq<char>>) -> bool {
    forall|i: int|
        0 <= i < entries.len() ==> (#[trigger] entries[i]).len() > 0 && free_of(entries[i], ';')
}

proof fn lemma_entry_text_plain(name: Seq<char>, stamp: nat)
    requires
        free_of(name, ';'),
    ensures
        entry_text(name, stamp).len() > 0,
        free_of(entry_text(name, stamp), ';'),
{
    lemma_decimal_digits(stamp);
    let e = entry_text(name, stamp);
    assert forall|i: int| 0 <= i < e.len() implies e[i] != ';' by {}
}

proof fn lemma_entries_plain(dirs: Seq<PackageDir>)
    requires
        names_plain(dirs),
    ensures
        entries_plain(entries_of(dirs)),
    decreases dirs.len(),
{
    if dirs.len() > 0 {
        let init = dirs.drop_last();
        lemma_entries_plain(init);
        let last = dirs.last();
        match last.name {
            Some(name) => {
                lemma_entry_text_plain(name@, package_stamp(last));
            },
            None => {},
        }
        let e = entries_of(dirs);
        assert forall|i: int| 0 <= i < e.len() implies (#[trigger] e[i]).len() > 0 && free_of(
            e[i],
            ';',
        ) by {}
    }
}

/// A fingerprint determines the directory count and, where the entries hold
/// no semicolon, the entries themselves, each with its multiplicity.
pub proof fn lemma_fingerprint_text_injective(
    n1: nat,
    e1: Seq<Seq<char>>,
    n2: nat,
    e2: Seq<Seq<char>>,
)
    requires
        entries_plain(e1),
        entries_plain(e2),
        fingerprint_text(n1, e1) == fingerprint_text(n2, e2),
    ensures
        n1 == n2,
        e1.to_multiset() == e2.to_multiset(),
{
    broadcast use group_multiset_axioms;

    let s1 = sorted_texts(e1);
    let s2 = sorted_texts(e2);
    lemma_decimal_digits(n1);
    lemma_decimal_digits(n2);
    lemma_split_at_marker(
        decimal(n1),
        join_texts(s1, seq![';']),
        decimal(n2),
        join_texts(s2, seq![';']),
        '|',
    );
    lemma_decimal_injective(n1, n2);
    lemma_sorted_texts(e1);
    lemma_sorted_texts(e2);
    assert forall|i: int| 0 <= i < s1.len() implies (#[trigger] s1[i]).len() > 0 && free_of(
        s1[i],
        ';',
    ) by {
        to_multiset_contains(s1, s1[i]);
        to_multiset_contains(e1, s1[i]);
        let j = choose|j: int| 0 <= j < e1.len() && e1[j] == s1[i];
    }
    assert forall|i: int| 0 <= i < s2.len() implies (#[trigger] s2[i]).len() > 0 && free_of(
        s2[i],
        ';',
    ) by {
        to_multiset_contains(s2, s2[i]);
        to_multiset_contains(e2, s2[i]);
        let j = choose|j: int| 0 <= j < e2.len() && e2[j] == s2[i];
    }
    lemma_join_injective(s1, s2, ';');
}

/// Two listings whose directory names hold no semicolon have the same
/// fingerprint only if they have as many directories and the same entries.
pub proof fn lemma_fingerprint_injective(a: Seq<PackageDir>, b: Seq<PackageDir>)
    requires
        names_plain(a),
        names_plain(b),
        apps_fingerprint(a) == apps_fingerprint(b),
    ensures
        a.len() == b.len(),
        entries_of(a).to_multiset() == entries_of(b).to_multiset(),
{
    lemma_entries_plain(a);
    lemma_entries_plain(b);
    lemma_fingerprint_text_injective(a.len(), entries_of(a), b.len(), entries_of(b));
}

proof fn lemma_entries_pointwise(x: Seq<PackageDir>, y: Seq<PackageDir>)
    requires
        x.len() == y.len(),
        forall|i: int| 0 <= i < x.len() ==> entry_of(#[trigger] x[i]) == entry_of(y[i]),
    ensures
        entries_of(x) == entries_of(y),
    decreases x.len(),
{
    if x.len() > 0 {
        let xi = x.drop_last();
        let yi = y.drop_last();
        assert forall|i: int| 0 <= i < xi.len() implies entry_of(#[trigger] xi[i]) == entry_of(
            yi[i],
        ) by {}
        lemma_entries_pointwise(xi, yi);
    }
}

// ---------------------------------------------------------------------------
// The pieces of a fingerprint
// ---------------------------------------------------------------------------

/// The pieces between the semicolons of all texts, text by text.
pub open spec fn pieces_of(texts: Seq<Seq<char>>) -> Seq<Seq<char>>
    decreases texts.len(),
{
    if texts.len() == 0 {
        Seq::empty()
    } else {
        pieces_of(texts.drop_last()) + split(texts.last(), ';')
    }
}

proof fn lemma_split_concat(a: Seq<char>, b: Seq<char>)
    ensures
        split(a + seq![';'] + b, ';') == split(a, ';') + split(b, ';'),
    decreases b.len(),
{
    lemma_split_len(a, ';');
    if b.len() == 0 {
        let whole = a + seq![';'] + b;
        assert(whole.drop_last() =~= a);
    } else {
        let whole = a + seq![';'] + b;
        let init = b.drop_last();
        lemma_split_concat(a, init);
        lemma_split_len(init, ';');
        assert(whole.drop_last() =~= a + seq![';'] + init);
        let x = split(a, ';') + split(init, ';');
        if b.last() == ';' {
            assert(x.push(Seq::<char>::empty()) =~= split(a, ';') + split(init, ';').push(
                Seq::<char>::empty(),
            ));
        } else {
            assert(x.drop_last().push(x.last().push(b.last())) =~= split(a, ';') + split(
                init,
                ';',
            ).drop_last().push(split(init, ';').last().push(b.last())));
        }
    }
}

proof fn lemma_split_join(texts: Seq<Seq<char>>)
    requires
        texts.len() >= 1,
    ensures
        split(join_texts(texts, seq![';']), ';') == pieces_of(texts),
    decreases texts.len(),
{
    if texts.len() == 1 {
        assert(pieces_of(texts.drop_last()) =~= Seq::<Seq<char>>::empty());
    } else {
        lemma_split_join(texts.drop_last());
        lemma_split_concat(join_texts(texts.drop_last(), seq![';']), texts.last());
    }
}

proof fn lemma_pieces_concat(x: Seq<Seq<char>>, y: Seq<Seq<char>>)
    ensures
        pieces_of(x + y) == pieces_of(x) + pieces_of(y),
    decreases y.len(),
{
    if y.len() > 0 {
        lemma_pieces_concat(x, y.drop_last());
        assert((x + y).drop_last() =~= x + y.drop_last());
    }
}

proof fn lemma_pieces_single(text: Seq<char>)
    ensures
        pieces_of(seq![text]) == split(text, ';'),
{
    let one = seq![text];
    assert(pieces_of(one.drop_last()) =~= Seq::<Seq<char>>::empty());
}

proof fn lemma_pieces_remove(s: Seq<Seq<char>>, k: int)
    requires
        0 <= k < s.len(),
    ensures
        pieces_of(s).to_multiset() == pieces_of(s.remove(k)).to_multiset().add(
            split(s[k], ';').to_multiset(),
        ),
{
    broadcast use group_multiset_axioms;

    let x = s.take(k);
    let y = s.skip(k + 1);
    assert(s =~= x + seq![s[k]] + y);
    lemma_pieces_concat(x, seq![s[k]]);
    lemma_pieces_concat(x + seq![s[k]], y);
    lemma_pieces_concat(x, y);
    lemma_pieces_single(s[k]);
    let px = pieces_of(x);
    let py = pieces_of(y);
    let pk = split(s[k], ';');
    lemma_multiset_commutative(px, pk);
    lemma_multiset_commutative(px + pk, py);
    lemma_multiset_commutative(px, py);
    assert(pieces_of(s).to_multiset() =~= pieces_of(s.remove(k)).to_multiset().add(
        pk.to_multiset(),
    ));
}

proof fn lemma_pieces_permutation(a: Seq<Seq<char>>, b: Seq<Seq<char>>)
    requires
        a.to_multiset() == b.to_multiset(),
    ensures
        pieces_of(a).to_multiset() == pieces_of(b).to_multiset(),
    decreases a.len(),
{
    broadcast use group_multiset_axioms;

    to_multiset_len(a);
    to_multiset_len(b);
    if a.len() > 0 {
        let last = a.last();
        let k = a.len() - 1;
        to_multiset_contains(a, last);
        to_multiset_contains(b, last);
        let j = choose|j: int| 0 <= j < b.len() && b[j] == last;
        to_multiset_remove(a, k);
        to_multiset_remove(b, j);
        lemma_pieces_permutation(a.drop_last(), b.remove(j));
        lemma_pieces_remove(a, k);
        lemma_pieces_remove(b, j);
    }
}

proof fn lemma_split_append_plain(h: Seq<char>, d: Seq<char>)
    requires
        free_of(d, ';'),
    ensures
        split(h + d, ';') == split(h, ';').drop_last().push(split(h, ';').last() + d),
    decreases d.len(),
{
    lemma_split_len(h, ';');
    if d.len() > 0 {
        let init = d.drop_last();
        lemma_split_append_plain(h, init);
        let whole = h + d;
        assert(whole.drop_last() =~= h + init);
        assert(init.push(d.last()) =~= d);
    }
}

/// A change of one package's stamp changes the fingerprint: where two
/// listings agree in every entry but one, whose name is the same and whose
/// stamp differs, their fingerprints differ.
pub proof fn lemma_fingerprint_detects_stamp(a: Seq<PackageDir>, b: Seq<PackageDir>, k: int)
    requires
        a.len() == b.len(),
        0 <= k < a.len(),
        forall|i: int| 0 <= i < a.len() && i != k ==> entry_of(#[trigger] a[i]) == entry_of(b[i]),
        a[k].name is Some,
        b[k].name is Some,
        a[k].name->0@ == b[k].name->0@,
        package_stamp(a[k]) != package_stamp(b[k]),
    ensures
        apps_fingerprint(a) != apps_fingerprint(b),
{
    broadcast use group_multiset_axioms;

    let name = a[k].name->0@;
    let sa = package_stamp(a[k]);
    let sb = package_stamp(b[k]);
    let head = ascii_lower(name) + seq![':'];
    let ea = entry_text(name, sa);
    let eb = entry_text(name, sb);
    let xa = a.take(k);
    let ya = a.skip(k + 1);
    let xb = b.take(k);
    let yb = b.skip(k + 1);
    assert(a =~= xa + seq![a[k]] + ya);
    assert(b =~= xb + seq![b[k]] + yb);
    assert forall|i: int| 0 <= i < xa.len() implies entry_of(#[trigger] xa[i]) == entry_of(
        xb[i],
    ) by {}
    assert forall|i: int| 0 <= i < ya.len() implies entry_of(#[trigger] ya[i]) == entry_of(
        yb[i],
    ) by {}
    lemma_entries_pointwise(xa, xb);
    lemma_entries_pointwise(ya, yb);
    lemma_entries_concat(xa, seq![a[k]]);
    lemma_entries_concat(xa + seq![a[k]], ya);
    lemma_entries_concat(xb, seq![b[k]]);
    lemma_entries_concat(xb + seq![b[k]], yb);
    lemma_entries_single(a[k]);
    lemma_entries_single(b[k]);
    let x = entries_of(xa);
    let y = entries_of(ya);
    let all_a = entries_of(a);
    let all_b = entries_of(b);
    if apps_fingerprint(a) == apps_fingerprint(b) {
        let sorted_a = sorted_texts(all_a);
        let sorted_b = sorted_texts(all_b);
        lemma_decimal_digits(a.len());
        lemma_decimal_digits(b.len());
        lemma_split_at_marker(
            decimal(a.len()),
            join_texts(sorted_a, seq![';']),
            decimal(b.len()),
            join_texts(sorted_b, seq![';']),
            '|',
        );
        lemma_sorted_texts(all_a);
        lemma_sorted_texts(all_b);
        lemma_split_join(sorted_a);
        lemma_split_join(sorted_b);
        lemma_pieces_permutation(sorted_a, all_a);
        lemma_pieces_permutation(sorted_b, all_b);
        // the pieces of both listings, each as often
        lemma_pieces_concat(x, seq![ea]);
        lemma_pieces_concat(x + seq![ea], y);
        lemma_pieces_concat(x, seq![eb]);
        lemma_pieces_concat(x + seq![eb], y);
        lemma_pieces_single(ea);
        lemma_pieces_single(eb);
        let px = pieces_of(x);
        let py = pieces_of(y);
        let pa = split(ea, ';');
        let pb = split(eb, ';');
        lemma_multiset_commutative(px, pa);
        lemma_multiset_commutative(px + pa, py);
        lemma_multiset_commutative(px, pb);
        lemma_multiset_commutative(px + pb, py);
        assert(pieces_of(all_a).to_multiset() == px.to_multiset().add(pa.to_multiset()).add(
            py.to_multiset(),
        ));
        assert(pieces_of(all_b).to_multiset() == px.to_multiset().add(pb.to_multiset()).add(
            py.to_multiset(),
        ));
        // the pieces of the two entries that differ
        lemma_decimal_digits(sa);
        lemma_decimal_digits(sb);
        lemma_split_append_plain(head, decimal(sa));
        lemma_split_append_plain(head, decimal(sb));
        lemma_split_len(head, ';');
        let init = split(head, ';').drop_last();
        let q = split(head, ';').last();
        let last_a = q + decimal(sa);
        let last_b = q + decimal(sb);
        to_multiset_build(init, last_a);
        to_multiset_build(init, last_b);
        assert(pa.to_multiset().count(last_a) == pb.to_multiset().count(last_a)) by {
            assert(pieces_of(all_a).to_multiset().count(last_a) == pieces_of(
                all_b,
            ).to_multiset().count(last_a));
        }
        assert(last_a.skip(q.len() as int) =~= decimal(sa));
        assert(last_b.skip(q.len() as int) =~= decimal(sb));
        lemma_decimal_injective(sa, sb);
    }
}

} // verus!
