//! Finding the Scoop root: which directories are looked at, how each is
//! scored, and which one wins.

use crate::text::{chars_of, opt_str, push_char, str_eq, string_of, to_lowercase, unicode_lower};
use vstd::prelude::*;
use vstd::string::*;

verus! {

// ---------------------------------------------------------------------------
// The candidate list
// ---------------------------------------------------------------------------

/// Whether `key` is one of `seen`.
pub open spec fn has_key(seen: Seq<Seq<char>>, key: Seq<char>) -> bool {
    exists|i: int| 0 <= i < seen.len() && seen[i] == key
}

/// Whether a path joins the candidates: it is not empty and its lower-case
/// form is not among the keys seen so far.
pub open spec fn is_new_candidate(seen: Seq<Seq<char>>, path: Seq<char>) -> bool {
    path.len() > 0 && !has_key(seen, unicode_lower(path))
}

fn contains_key(seen: &Vec<String>, key: &str) -> (r: bool)
    ensures
        r == has_key(seen.deep_view(), key@),
{
    let ghost all = seen.deep_view();
    let mut k: usize = 0;
    while k < seen.len()
        invariant
            k <= seen.len(),
            all == seen.deep_view(),
            forall|i: int| 0 <= i < k ==> all[i] != key@,
        decreases seen.len() - k,
    {
        if str_eq(seen[k].as_str(), key) {
            assert(all[k as int] == key@);
            return true;
        }
        k += 1;
    }
    false
}

/// Adds `path` to the candidates unless it is empty or a path with the same
/// lower-case form was added before.
pub fn push_candidate(seen: &mut Vec<String>, candidates: &mut Vec<String>, path: String)
    ensures
        is_new_candidate(old(seen).deep_view(), path@) ==> final(seen).deep_view() == old(
            seen,
        ).deep_view().push(unicode_lower(path@)) && final(candidates).deep_view() == old(
            candidates,
        ).deep_view().push(path@),
        !is_new_candidate(old(seen).deep_view(), path@) ==> final(seen).deep_view() == old(
            seen,
        ).deep_view() && final(candidates).deep_view() == old(candidates).deep_view(),
{
    if path.as_str().unicode_len() == 0 {
        return ;
    }
    let key = to_lowercase(path.as_str());
    if !contains_key(seen, key.as_str()) {
        seen.push(key);
        candidates.push(path);
    }
}

/// The keys and the candidates after the paths were offered one by one.
pub open spec fn offered(seen: Seq<Seq<char>>, candidates: Seq<Seq<char>>, paths: Seq<Seq<char>>)
    -> (Seq<Seq<char>>, Seq<Seq<char>>)
    decreases paths.len(),
{
    if paths.len() == 0 {
        (seen, candidates)
    } else {
        let (s, c) = offered(seen, candidates, paths.drop_last());
        if is_new_candidate(s, paths.last()) {
            (s.push(unicode_lower(paths.last())), c.push(paths.last()))
        } else {
            (s, c)
        }
    }
}

/// Offering two runs of paths, one after the other, is offering them all.
pub proof fn lemma_offered_concat(
    seen: Seq<Seq<char>>,
    candidates: Seq<Seq<char>>,
    first: Seq<Seq<char>>,
    second: Seq<Seq<char>>,
)
    ensures
        offered(seen, candidates, first + second) == offered(
            offered(seen, candidates, first).0,
            offered(seen, candidates, first).1,
            second,
        ),
    decreases second.len(),
{
    if second.len() > 0 {
        lemma_offered_concat(seen, candidates, first, second.drop_last());
        assert((first + second).drop_last() =~= first + second.drop_last());
    }
}

/// What the environment says about where Scoop may be.
#[derive(Debug)]
pub struct RootHints {
    /// The value of `SCOOP`.
    pub scoop: Option<String>,
    /// The value of `SCOOP_GLOBAL`.
    pub scoop_global: Option<String>,
    /// The root that the `scoop` command reports, where it runs and names an
    /// existing path.
    pub command_root: Option<String>,
    /// `scoop` under the user's profile directory.
    pub user_profile_scoop: Option<String>,
    /// `scoop` under the program data directory.
    pub program_data_scoop: Option<String>,
    /// The value of `SystemDrive`.
    pub system_drive: Option<String>,
}

/// `s` without the characters `c` at its end.
pub open spec fn trim_end(s: Seq<char>, c: char) -> Seq<char>
    decreases s.len(),
{
    if s.len() > 0 && s.last() == c {
        trim_end(s.drop_last(), c)
    } else {
        s
    }
}

/// The text `\scoop`.
pub open spec fn scoop_suffix() -> Seq<char> {
    seq!['\\', 's', 'c', 'o', 'o', 'p']
}

/// The Scoop directory at the top of a drive: the drive without trailing
/// backslashes, followed by `\scoop`.
pub open spec fn drive_scoop(drive: Seq<char>) -> Seq<char> {
    trim_end(drive, '\\') + scoop_suffix()
}

/// Returns `\scoop` on the given drive.
pub fn drive_scoop_path(drive: &str) -> (r: String)
    ensures
        r@ == drive_scoop(drive@),
{
    let chars = chars_of(drive);
    let mut end: usize = chars.len();
    assert(drive@.take(end as int) =~= drive@);
    while end > 0 && chars[end - 1] == '\\'
        invariant
            end <= chars.len(),
            chars@ == drive@,
            trim_end(drive@, '\\') == trim_end(drive@.take(end as int), '\\'),
        decreases end,
    {
        proof {
            let now = drive@.take(end as int);
            assert(now.drop_last() =~= drive@.take(end - 1));
        }
        end -= 1;
    }
    let mut out = string_of(&chars, 0, end);
    push_char(&mut out, '\\');
    push_char(&mut out, 's');
    push_char(&mut out, 'c');
    push_char(&mut out, 'o');
    push_char(&mut out, 'o');
    push_char(&mut out, 'p');
    out
}

/// The text of an optional string as a sequence of at most one path.
pub open spec fn opt_path(path: Option<String>) -> Seq<Seq<char>> {
    match path {
        Some(p) => seq![p@],
        None => Seq::empty(),
    }
}

/// The text `C:\scoop`.
pub open spec fn default_root() -> Seq<char> {
    seq!['C', ':', '\\', 's', 'c', 'o', 'o', 'p']
}

/// The text `D:\scoop`.
pub open spec fn second_default_root() -> Seq<char> {
    seq!['D', ':', '\\', 's', 'c', 'o', 'o', 'p']
}

/// The places that are looked at when the command reports no root.
pub open spec fn fallback_paths(hints: RootHints) -> Seq<Seq<char>> {
    opt_path(hints.user_profile_scoop) + opt_path(hints.program_data_scoop) + (
    match hints.system_drive {
        Some(drive) => seq![drive_scoop(drive@)],
        None => Seq::empty(),
    }) + seq![default_root(), second_default_root()]
}

/// The usual places, in the order in which they are offered: the two
/// environment variables, then the root that the command reports or, without
/// one, the fallback places.
pub open spec fn common_paths(hints: RootHints) -> Seq<Seq<char>> {
    opt_path(hints.scoop) + opt_path(hints.scoop_global) + (match hints.command_root {
        Some(root) => seq![root@],
        None => fallback_paths(hints),
    })
}

fn offer(
    seen: &mut Vec<String>,
    candidates: &mut Vec<String>,
    path: String,
    Ghost(done): Ghost<Seq<Seq<char>>>,
    Ghost(seen0): Ghost<Seq<Seq<char>>>,
    Ghost(candidates0): Ghost<Seq<Seq<char>>>,
)
    requires
        (old(seen).deep_view(), old(candidates).deep_view()) == offered(seen0, candidates0, done),
    ensures
        (final(seen).deep_view(), final(candidates).deep_view()) == offered(
            seen0,
            candidates0,
            done.push(path@),
        ),
{
    assert(done.push(path@).drop_last() =~= done);
    push_candidate(seen, candidates, path);
}

fn offer_opt(
    seen: &mut Vec<String>,
    candidates: &mut Vec<String>,
    path: &Option<String>,
    Ghost(done): Ghost<Seq<Seq<char>>>,
    Ghost(seen0): Ghost<Seq<Seq<char>>>,
    Ghost(candidates0): Ghost<Seq<Seq<char>>>,
)
    requires
        (old(seen).deep_view(), old(candidates).deep_view()) == offered(seen0, candidates0, done),
    ensures
        (final(seen).deep_view(), final(candidates).deep_view()) == offered(
            seen0,
            candidates0,
            done + opt_path(*path),
        ),
{
    match path {
        Some(p) => {
            assert(done + opt_path(*path) =~= done.push(p@));
            offer(seen, candidates, p.clone(), Ghost(done), Ghost(seen0), Ghost(candidates0));
        },
        None => {},
    }
}

/// Offers the usual places as candidates.
pub fn collect_common_candidates(
    seen: &mut Vec<String>,
    candidates: &mut Vec<String>,
    hints: &RootHints,
)
    ensures
        (final(seen).deep_view(), final(candidates).deep_view()) == offered(
            old(seen).deep_view(),
            old(candidates).deep_view(),
            common_paths(*hints),
        ),
{
    let ghost seen0 = seen.deep_view();
    let ghost candidates0 = candidates.deep_view();
    let ghost mut done: Seq<Seq<char>> = Seq::empty();
    offer_opt(seen, candidates, &hints.scoop, Ghost(done), Ghost(seen0), Ghost(candidates0));
    proof {
        done = done + opt_path(hints.scoop);
    }
    offer_opt(seen, candidates, &hints.scoop_global, Ghost(done), Ghost(seen0), Ghost(candidates0));
    proof {
        done = done + opt_path(hints.scoop_global);
    }
    match &hints.command_root {
        Some(root) => {
            offer(seen, candidates, root.clone(), Ghost(done), Ghost(seen0), Ghost(candidates0));
            proof {
                done = done.push(root@);
            }
        },
        None => {
            offer_opt(
                seen,
                candidates,
                &hints.user_profile_scoop,
                Ghost(done),
                Ghost(seen0),
                Ghost(candidates0),
            );
            proof {
                done = done + opt_path(hints.user_profile_scoop);
            }
            offer_opt(
                seen,
                candidates,
                &hints.program_data_scoop,
                Ghost(done),
                Ghost(seen0),
                Ghost(candidates0),
            );
            proof {
                done = done + opt_path(hints.program_data_scoop);
            }
            match &hints.system_drive {
                Some(drive) => {
                    let path = drive_scoop_path(drive.as_str());
                    offer(seen, candidates, path, Ghost(done), Ghost(seen0), Ghost(candidates0));
                    proof {
                        done = done.push(drive_scoop(drive@));
                    }
                },
                None => {},
            }
            proof {
                reveal_strlit("C:\\scoop");
                reveal_strlit("D:\\scoop");
                assert("C:\\scoop"@ =~= default_root());
                assert("D:\\scoop"@ =~= second_default_root());
            }
            offer(
                seen,
                candidates,
                "C:\\scoop".to_owned(),
                Ghost(done),
                Ghost(seen0),
                Ghost(candidates0),
            );
            proof {
                done = done.push(default_root());
            }
            offer(
                seen,
                candidates,
                "D:\\scoop".to_owned(),
                Ghost(done),
                Ghost(seen0),
                Ghost(candidates0),
            );
            proof {
                done = done.push(second_default_root());
            }
        },
    }
    assert(done =~= common_paths(*hints));
}

/// The candidates for the Scoop root: `extras` and then the usual places,
/// without empty paths and without a path whose lower-case form came before.
pub open spec fn candidate_list(extras: Seq<Seq<char>>, hints: RootHints) -> Seq<Seq<char>> {
    offered(Seq::empty(), Seq::empty(), extras + common_paths(hints)).1
}

/// Builds the list of candidates for the Scoop root, `extras` first.
pub fn build_candidate_list(extras: Vec<String>, hints: &RootHints) -> (r: Vec<String>)
    ensures
        r.deep_view() == candidate_list(extras.deep_view(), *hints),
{
    let mut seen: Vec<String> = Vec::new();
    let mut candidates: Vec<String> = Vec::new();
    let ghost all = extras.deep_view();
    let ghost empty = Seq::<Seq<char>>::empty();
    let mut k: usize = 0;
    while k < extras.len()
        invariant
            k <= extras.len(),
            all == extras.deep_view(),
            (seen.deep_view(), candidates.deep_view()) == offered(empty, empty, all.take(k as int)),
        decreases extras.len() - k,
    {
        proof {
            assert(all.take(k + 1) =~= all.take(k as int).push(extras@[k as int]@));
        }
        offer(
            &mut seen,
            &mut candidates,
            extras[k].clone(),
            Ghost(all.take(k as int)),
            Ghost(empty),
            Ghost(empty),
        );
        k += 1;
    }
    assert(all.take(extras.len() as int) =~= all);
    collect_common_candidates(&mut seen, &mut candidates, hints);
    proof {
        lemma_offered_concat(empty, empty, all, common_paths(*hints));
    }
    candidates
}

/// The candidates hold no empty path and no two paths with the same
/// lower-case form, and there are as many keys as candidates.
pub proof fn lemma_offered_distinct(paths: Seq<Seq<char>>)
    ensures
        ({
            let (seen, candidates) = offered(Seq::empty(), Seq::empty(), paths);
            &&& seen.len() == candidates.len()
            &&& forall|i: int|
                0 <= i < candidates.len() ==> (#[trigger] candidates[i]).len() > 0 && seen[i]
                    == unicode_lower(candidates[i])
            &&& forall|i: int, j: int|
                0 <= i < j < candidates.len() ==> unicode_lower(#[trigger] candidates[i])
                    != unicode_lower(#[trigger] candidates[j])
        }),
    decreases paths.len(),
{
    if paths.len() > 0 {
        lemma_offered_distinct(paths.drop_last());
        let (s, c) = offered(Seq::empty(), Seq::empty(), paths.drop_last());
        if is_new_candidate(s, paths.last()) {
            let key = unicode_lower(paths.last());
            assert forall|i: int| 0 <= i < c.len() implies unicode_lower(#[trigger] c[i])
                != key by {}
        }
    }
}

// ---------------------------------------------------------------------------
// Scoring
// ---------------------------------------------------------------------------

/// What was found at one candidate path.
#[derive(Debug)]
pub struct RootProbe {
    pub path: String,
    /// Whether the path is a directory.
    pub is_dir: bool,
    /// Whether it has a subdirectory `apps`.
    pub has_apps_dir: bool,
    /// Whether it has a subdirectory `buckets`.
    pub has_buckets_dir: bool,
    /// The number of directories under `apps`; `0` where there is no `apps`
    /// or it could not be read.
    pub installed_count: usize,
}

/// A candidate with its score.
#[derive(Debug)]
pub struct ScoopRootCandidateInfo {
    pub path: String,
    pub score: u32,
    pub installed_count: usize,
    pub has_apps_dir: bool,
    pub has_buckets_dir: bool,
}

/// The mathematical value of a `ScoopRootCandidateInfo`.
pub struct CandidateView {
    pub path: Seq<char>,
    pub score: u32,
    pub installed_count: usize,
    pub has_apps_dir: bool,
    pub has_buckets_dir: bool,
}

impl View for ScoopRootCandidateInfo {
    type V = CandidateView;

    open spec fn view(&self) -> CandidateView {
        CandidateView {
            path: self.path@,
            score: self.score,
            installed_count: self.installed_count,
            has_apps_dir: self.has_apps_dir,
            has_buckets_dir: self.has_buckets_dir,
        }
    }
}

/// Points for the `apps` directory.
pub const APPS_DIR_POINTS: u32 = 30;

/// Points for the `buckets` directory.
pub const BUCKETS_DIR_POINTS: u32 = 10;

/// The most points that installed packages can add.
pub const INSTALLED_POINTS_CAP: usize = 50;

/// Points for the path that the user chose before.
pub const PREFERRED_POINTS: u32 = 5;

/// Whether a probe shows a Scoop root: a directory with `apps` or `buckets`.
pub open spec fn is_valid_root(probe: RootProbe) -> bool {
    probe.is_dir && (probe.has_apps_dir || probe.has_buckets_dir)
}

/// The smaller of two numbers.
pub open spec fn min_of(a: int, b: int) -> int {
    if a <= b {
        a
    } else {
        b
    }
}

/// The score of a valid candidate before the bonus: 30 for `apps`, 10 for
/// `buckets`, and one for each installed package up to 50.
pub open spec fn base_score(probe: RootProbe) -> int {
    (if probe.has_buckets_dir {
        BUCKETS_DIR_POINTS as int
    } else {
        0
    }) + (if probe.has_apps_dir {
        APPS_DIR_POINTS as int
    } else {
        0
    }) + (if probe.has_apps_dir {
        min_of(probe.installed_count as int, INSTALLED_POINTS_CAP as int)
    } else {
        0
    })
}

/// The number of installed packages that is recorded for a candidate: all
/// of them, and none without `apps`.
pub open spec fn counted_installed(probe: RootProbe) -> int {
    if probe.has_apps_dir {
        probe.installed_count as int
    } else {
        0
    }
}

/// The evaluation of a candidate; `None` where it is no Scoop root.
pub open spec fn evaluated(probe: RootProbe) -> Option<CandidateView> {
    if is_valid_root(probe) {
        Some(
            CandidateView {
                path: probe.path@,
                score: base_score(probe) as u32,
                installed_count: counted_installed(probe) as usize,
                has_apps_dir: probe.has_apps_dir,
                has_buckets_dir: probe.has_buckets_dir,
            },
        )
    } else {
        None
    }
}

/// Whether the path is a Scoop root: a directory that has `apps` or
/// `buckets`.
pub fn is_valid_scoop_candidate(probe: &RootProbe) -> (r: bool)
    ensures
        r == is_valid_root(*probe),
{
    probe.is_dir && (probe.has_apps_dir || probe.has_buckets_dir)
}

/// Scores one candidate; `None` where it is no Scoop root.
pub fn evaluate_scoop_candidate(probe: &RootProbe) -> (r: Option<ScoopRootCandidateInfo>)
    ensures
        match r {
            Some(info) => evaluated(*probe) == Some(info@),
            None => evaluated(*probe) is None,
        },
{
    if !is_valid_scoop_candidate(probe) {
        return None;
    }
    let installed_count: usize = if probe.has_apps_dir {
        probe.installed_count
    } else {
        0
    };
    let mut score: u32 = 0;
    if probe.has_buckets_dir {
        score += BUCKETS_DIR_POINTS;
    }
    if probe.has_apps_dir {
        score += APPS_DIR_POINTS;
    }
    let installed_points: usize = if installed_count < INSTALLED_POINTS_CAP {
        installed_count
    } else {
        INSTALLED_POINTS_CAP
    };
    score += installed_points as u32;
    Some(
        ScoopRootCandidateInfo {
            path: probe.path.clone(),
            score,
            installed_count,
            has_apps_dir: probe.has_apps_dir,
            has_buckets_dir: probe.has_buckets_dir,
        },
    )
}

// ---------------------------------------------------------------------------
// Selection
// ---------------------------------------------------------------------------

/// The evaluation of a candidate with the bonus for the preferred path.
pub open spec fn scored(probe: RootProbe, preferred: Option<Seq<char>>) -> Option<CandidateView> {
    match evaluated(probe) {
        Some(info) => if preferred == Some(info.path) {
            Some(CandidateView { score: (info.score + PREFERRED_POINTS) as u32, ..info })
        } else {
            Some(info)
        },
        None => None,
    }
}

/// Whether `a` beats `b`: a higher score, or the same score with more
/// installed packages.
pub open spec fn beats(a: CandidateView, b: CandidateView) -> bool {
    a.score > b.score || (a.score == b.score && a.installed_count > b.installed_count)
}

/// The index of the winning candidate: the valid candidate that no other
/// beats; among several, the first.
pub open spec fn best_index(probes: Seq<RootProbe>, preferred: Option<Seq<char>>) -> Option<int>
    decreases probes.len(),
{
    if probes.len() == 0 {
        None
    } else {
        let k = probes.len() - 1;
        let before = best_index(probes.drop_last(), preferred);
        match scored(probes[k], preferred) {
            None => before,
            Some(info) => match before {
                None => Some(k),
                Some(i) => if beats(info, scored(probes[i], preferred)->0) {
                    Some(k)
                } else {
                    before
                },
            },
        }
    }
}

/// What `best_index` selects: nothing where no candidate is valid, else a
/// valid candidate that none beats and that beats every valid one before it.
pub proof fn lemma_best_index(probes: Seq<RootProbe>, preferred: Option<Seq<char>>)
    ensures
        match best_index(probes, preferred) {
            Some(i) => {
                &&& 0 <= i < probes.len()
                &&& scored(probes[i], preferred) is Some
                &&& forall|j: int|
                    0 <= j < probes.len() && scored(#[trigger] probes[j], preferred) is Some
                        ==> !beats(scored(probes[j], preferred)->0, scored(probes[i], preferred)->0)
                &&& forall|j: int|
                    0 <= j < i && scored(#[trigger] probes[j], preferred) is Some ==> beats(
                        scored(probes[i], preferred)->0,
                        scored(probes[j], preferred)->0,
                    )
            },
            None => forall|j: int|
                0 <= j < probes.len() ==> scored(#[trigger] probes[j], preferred) is None,
        },
    decreases probes.len(),
{
    if probes.len() > 0 {
        let init = probes.drop_last();
        lemma_best_index(init, preferred);
        assert(forall|j: int| 0 <= j < init.len() ==> init[j] == probes[j]);
    }
}

/// The winning candidate.
pub open spec fn best_candidate(probes: Seq<RootProbe>, preferred: Option<Seq<char>>) -> Option<
    CandidateView,
> {
    match best_index(probes, preferred) {
        Some(i) => scored(probes[i], preferred),
        None => None,
    }
}

fn score_candidate(probe: &RootProbe, preferred: Option<&str>) -> (r: Option<
    ScoopRootCandidateInfo,
>)
    ensures
        match r {
            Some(info) => scored(*probe, opt_str(preferred)) == Some(info@),
            None => scored(*probe, opt_str(preferred)) is None,
        },
{
    match evaluate_scoop_candidate(probe) {
        Some(info) => {
            let is_preferred = match preferred {
                Some(path) => str_eq(path, info.path.as_str()),
                None => false,
            };
            if is_preferred {
                let mut info = info;
                info.score = info.score + PREFERRED_POINTS;
                Some(info)
            } else {
                Some(info)
            }
        },
        None => None,
    }
}

/// Picks the best Scoop root among the candidates: the highest score wins,
/// then the greater number of installed packages, then the earlier place in
/// the list. The preferred path gets five points more.
pub fn select_best_scoop_root(candidates: &Vec<RootProbe>, preferred: Option<&str>) -> (r: Option<
    ScoopRootCandidateInfo,
>)
    ensures
        match r {
            Some(info) => best_candidate(candidates@, opt_str(preferred)) == Some(info@),
            None => best_candidate(candidates@, opt_str(preferred)) is None,
        },
{
    let ghost pref = opt_str(preferred);
    let mut best: Option<ScoopRootCandidateInfo> = None;
    let ghost mut best_at: int = 0;
    let mut k: usize = 0;
    while k < candidates.len()
        invariant
            k <= candidates.len(),
            pref == opt_str(preferred),
            match best {
                Some(info) => best_index(candidates@.take(k as int), pref) == Some(best_at) && 0
                    <= best_at < k && scored(candidates@[best_at], pref) == Some(info@),
                None => best_index(candidates@.take(k as int), pref) is None,
            },
        decreases candidates.len() - k,
    {
        proof {
            let now = candidates@.take(k + 1);
            assert(now.drop_last() =~= candidates@.take(k as int));
        }
        match score_candidate(&candidates[k], preferred) {
            Some(info) => {
                let replace = match &best {
                    Some(current) => info.score > current.score || (info.score == current.score
                        && info.installed_count > current.installed_count),
                    None => true,
                };
                if replace {
                    best = Some(info);
                    proof {
                        best_at = k as int;
                    }
                }
            },
            None => {},
        }
        k += 1;
    }
    assert(candidates@.take(candidates.len() as int) =~= candidates@);
    best
}

// ---------------------------------------------------------------------------
// Resolution
// ---------------------------------------------------------------------------

/// The outcome of a resolution.
#[derive(Debug)]
pub struct RootResolution {
    /// The Scoop root.
    pub path: String,
    /// Whether the root differs from the stored choice and is to be stored.
    pub should_persist: bool,
}

/// Why no root was resolved.
#[derive(Debug, Clone, Copy, PartialEq, Eq, Structural)]
pub enum ResolveError {
    /// No candidate is a directory with `apps` or `buckets`.
    RootNotFound,
}

impl ResolveError {
    /// The message shown to the user.
    pub fn message(&self) -> (r: String)
        ensures
            r@ == "Unable to determine Scoop root directory. Please configure it explicitly in Settings."@,
    {
        "Unable to determine Scoop root directory. Please configure it explicitly in Settings.".to_owned()
    }
}

/// Resolves the Scoop root from the probed candidates and the stored choice.
/// Fails where no candidate is valid.
pub fn resolve_scoop_root(candidates: &Vec<RootProbe>, stored: Option<&str>) -> (r: Result<
    RootResolution,
    ResolveError,
>)
    ensures
        match r {
            Ok(found) => {
                &&& best_candidate(candidates@, opt_str(stored)) is Some
                &&& found.path@ == best_candidate(candidates@, opt_str(stored))->0.path
                &&& found.should_persist == (opt_str(stored) != Some(found.path@))
            },
            Err(e) => best_candidate(candidates@, opt_str(stored)) is None,
        },
{
    match select_best_scoop_root(candidates, stored) {
        Some(best) => {
            let stored_matches = match stored {
                Some(path) => str_eq(path, best.path.as_str()),
                None => false,
            };
            Ok(RootResolution { path: best.path, should_persist: !stored_matches })
        },
        None => Err(ResolveError::RootNotFound),
    }
}

/// The first candidate that is a Scoop root.
pub open spec fn first_valid(probes: Seq<RootProbe>) -> Option<int>
    decreases probes.len(),
{
    if probes.len() == 0 {
        None
    } else {
        match first_valid(probes.drop_last()) {
            Some(i) => Some(i),
            None => if is_valid_root(probes.last()) {
                Some(probes.len() - 1)
            } else {
                None
            },
        }
    }
}

proof fn lemma_first_valid_extends(probes: Seq<RootProbe>, n: int)
    requires
        0 <= n <= probes.len(),
        first_valid(probes.take(n)) is Some,
    ensures
        first_valid(probes) == first_valid(probes.take(n)),
    decreases probes.len() - n,
{
    if n < probes.len() {
        assert(probes.take(n + 1).drop_last() =~= probes.take(n));
        lemma_first_valid_extends(probes, n + 1);
    } else {
        assert(probes.take(n) =~= probes);
    }
}

/// Detects the Scoop root without scoring: the first candidate that is a
/// directory with `apps` or `buckets`.
pub fn detect_scoop_path(candidates: &Vec<RootProbe>) -> (r: Option<String>)
    ensures
        match r {
            Some(path) => first_valid(candidates@) is Some && path@ == candidates@[first_valid(
                candidates@,
            )->0].path@,
            None => first_valid(candidates@) is None,
        },
{
    let mut k: usize = 0;
    while k < candidates.len()
        invariant
            k <= candidates.len(),
            first_valid(candidates@.take(k as int)) is None,
        decreases candidates.len() - k,
    {
        proof {
            let now = candidates@.take(k + 1);
            assert(now.drop_last() =~= candidates@.take(k as int));
        }
        if is_valid_scoop_candidate(&candidates[k]) {
            proof {
                lemma_first_valid_extends(candidates@, k + 1);
            }
            return Some(candidates[k].path.clone());
        }
        k += 1;
    }
    assert(candidates@.take(candidates.len() as int) =~= candidates@);
    None
}

// ---------------------------------------------------------------------------
// The remembered root
// ---------------------------------------------------------------------------

/// The root that was detected last, kept until it is cleared.
#[derive(Debug)]
pub struct RootCache {
    pub cached: Option<String>,
}

impl RootCache {
    /// An empty cache.
    pub fn new() -> (r: Self)
        ensures
            r.cached is None,
    {
        RootCache { cached: None }
    }
}

/// The root that detection yields without a stored choice: the best
/// candidate, or `C:\scoop` where none is valid.
pub open spec fn detected_root(probes: Seq<RootProbe>) -> Seq<char> {
    match best_candidate(probes, None) {
        Some(best) => best.path,
        None => default_root(),
    }
}

/// Returns the Scoop root for callers that have no state: the remembered
/// root, or else the one detected among `candidates`, which is then
/// remembered. `candidates` is looked at only where nothing is remembered.
pub fn get_scoop_root_fallback(cache: &mut RootCache, candidates: &Vec<RootProbe>) -> (r: String)
    ensures
        r@ == (match old(cache).cached {
            Some(path) => path@,
            None => detected_root(candidates@),
        }),
        final(cache).cached is Some,
        final(cache).cached->0@ == r@,
{
    match &cache.cached {
        Some(path) => {
            return path.clone();
        },
        None => {},
    }
    let root = match select_best_scoop_root(candidates, None) {
        Some(best) => best.path,
        None => {
            proof {
                reveal_strlit("C:\\scoop");
            }
            "C:\\scoop".to_owned()
        },
    };
    cache.cached = Some(root.clone());
    root
}

/// Forgets the remembered root, so that the next caller detects it again.
pub fn clear_scoop_root_cache(cache: &mut RootCache)
    ensures
        final(cache).cached is None,
{
    cache.cached = None;
}

} // verus!
