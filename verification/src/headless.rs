//! Updating every package without a window: what is made of the output of
//! `scoop update *`.

use crate::strings::{lines_of, text_lines, trim, trimmed};
use crate::text::{contains, contains_text, join_strings, join_texts};
use vstd::prelude::*;
use vstd::string::*;

verus! {

/// Whether a line holds nothing but white space.
pub open spec fn is_blank(line: Seq<char>) -> bool {
    trimmed(line).len() == 0
}

/// The lines that hold more than white space, in their order.
pub open spec fn non_blank(lines: Seq<Seq<char>>) -> Seq<Seq<char>>
    decreases lines.len(),
{
    if lines.len() == 0 {
        Seq::empty()
    } else if is_blank(lines.last()) {
        non_blank(lines.drop_last())
    } else {
        non_blank(lines.drop_last()).push(lines.last())
    }
}

/// The first `n` of the lines, or all where there are fewer.
pub open spec fn first_lines(lines: Seq<Seq<char>>, n: nat) -> Seq<Seq<char>> {
    if lines.len() <= n {
        lines
    } else {
        lines.take(n as int)
    }
}

/// Whether a line tells of the progress of an update.
pub open spec fn tells_progress(line: Seq<char>) -> bool {
    ||| contains_text(line, "Updating"@)
    ||| contains_text(line, "Updated"@)
    ||| contains_text(line, "up to date"@)
    ||| contains_text(line, "Installing"@)
    ||| contains_text(line, "Downloading"@)
    ||| contains_text(line, "Extracting"@)
    ||| contains_text(line, "Linking"@)
    ||| contains_text(line, "WARN"@)
    ||| contains_text(line, "ERROR"@)
}

/// The lines that tell of progress, each without the white space around it,
/// in their order.
pub open spec fn progress_lines(lines: Seq<Seq<char>>) -> Seq<Seq<char>>
    decreases lines.len(),
{
    if lines.len() == 0 {
        Seq::empty()
    } else if !is_blank(lines.last()) && tells_progress(trimmed(lines.last())) {
        progress_lines(lines.drop_last()).push(trimmed(lines.last()))
    } else {
        progress_lines(lines.drop_last())
    }
}

/// The message of an update that failed: up to ten lines of its output that
/// are not blank, those of the error stream first.
pub open spec fn failure_message(stdout: Seq<Seq<char>>, stderr: Seq<Seq<char>>) -> Seq<char> {
    "Headless package update failed: "@ + join_texts(
        first_lines(non_blank(stderr + stdout), 10),
        "; "@,
    )
}

/// What an update reports: after a failure the message; else the lines of
/// progress, or one line that says that nothing was to do.
pub open spec fn update_summary(success: bool, stdout: Seq<Seq<char>>, stderr: Seq<Seq<char>>)
    -> Result<Seq<Seq<char>>, Seq<char>> {
    if !success {
        Err(failure_message(stdout, stderr))
    } else if progress_lines(stdout).len() == 0 {
        Ok(seq!["All packages are up to date."@])
    } else {
        Ok(progress_lines(stdout))
    }
}

/// The lines that are not blank of two lists are those of the first, then
/// those of the second.
pub proof fn lemma_non_blank_concat(a: Seq<Seq<char>>, b: Seq<Seq<char>>)
    ensures
        non_blank(a + b) == non_blank(a) + non_blank(b),
    decreases b.len(),
{
    if b.len() > 0 {
        lemma_non_blank_concat(a, b.drop_last());
        assert((a + b).drop_last() =~= a + b.drop_last());
        if !is_blank(b.last()) {
            assert(non_blank(a) + non_blank(b.drop_last()).push(b.last()) =~= (non_blank(a)
                + non_blank(b.drop_last())).push(b.last()));
        }
    }
}

fn push_non_blank(out: &mut Vec<String>, lines: &Vec<String>)
    ensures
        final(out).deep_view() == old(out).deep_view() + non_blank(lines.deep_view()),
{
    let ghost before = out.deep_view();
    let ghost all = lines.deep_view();
    let mut k: usize = 0;
    while k < lines.len()
        invariant
            k <= lines.len(),
            all == lines.deep_view(),
            out.deep_view() == before + non_blank(all.take(k as int)),
        decreases lines.len() - k,
    {
        let ghost so_far = out.deep_view();
        proof {
            let now = all.take(k + 1);
            assert(now.drop_last() =~= all.take(k as int));
        }
        if !trim(lines[k].as_str()).as_str().is_empty() {
            out.push(lines[k].clone());
            assert(out.deep_view() =~= so_far.push(lines@[k as int]@));
        }
        k += 1;
    }
    assert(all.take(lines.len() as int) =~= all);
}

fn is_progress(line: &str) -> (r: bool)
    ensures
        r == tells_progress(line@),
{
    contains(line, "Updating") || contains(line, "Updated") || contains(line, "up to date")
        || contains(line, "Installing") || contains(line, "Downloading") || contains(
        line,
        "Extracting",
    ) || contains(line, "Linking") || contains(line, "WARN") || contains(line, "ERROR")
}

fn progress_of(lines: &Vec<String>) -> (r: Vec<String>)
    ensures
        r.deep_view() == progress_lines(lines.deep_view()),
{
    let ghost all = lines.deep_view();
    let mut out: Vec<String> = Vec::new();
    let mut k: usize = 0;
    while k < lines.len()
        invariant
            k <= lines.len(),
            all == lines.deep_view(),
            out.deep_view() == progress_lines(all.take(k as int)),
        decreases lines.len() - k,
    {
        proof {
            let now = all.take(k + 1);
            assert(now.drop_last() =~= all.take(k as int));
        }
        let line = trim(lines[k].as_str());
        if !line.as_str().is_empty() && is_progress(line.as_str()) {
            out.push(line);
        }
        k += 1;
    }
    assert(all.take(lines.len() as int) =~= all);
    out
}

/// Makes the report of an update out of the lines of its output.
/// `success` says whether the process ended well.
pub fn summarize_update(success: bool, stdout: &Vec<String>, stderr: &Vec<String>) -> (r: Result<
    Vec<String>,
    String,
>)
    ensures
        match r {
            Ok(lines) => update_summary(success, stdout.deep_view(), stderr.deep_view()) == Ok::<
                Seq<Seq<char>>,
                Seq<char>,
            >(lines.deep_view()),
            Err(message) => update_summary(success, stdout.deep_view(), stderr.deep_view())
                == Err::<Seq<Seq<char>>, Seq<char>>(message@),
        },
{
    if !success {
        let mut kept: Vec<String> = Vec::new();
        push_non_blank(&mut kept, stderr);
        push_non_blank(&mut kept, stdout);
        proof {
            lemma_non_blank_concat(stderr.deep_view(), stdout.deep_view());
        }
        let ghost all = kept.deep_view();
        if kept.len() > 10 {
            kept.truncate(10);
            assert(kept.deep_view() =~= all.take(10));
        }
        let mut message = "Headless package update failed: ".to_owned();
        message.append(join_strings(&kept, "; ").as_str());
        return Err(message);
    }
    let lines = progress_of(stdout);
    if lines.len() == 0 {
        let mut only: Vec<String> = Vec::new();
        only.push("All packages are up to date.".to_owned());
        assert(only.deep_view() =~= seq!["All packages are up to date."@]);
        Ok(only)
    } else {
        Ok(lines)
    }
}

/// Makes the report of an update out of what the process wrote to its
/// output and to its error stream.
pub fn headless_update_result(success: bool, stdout: &str, stderr: &str) -> (r: Result<
    Vec<String>,
    String,
>)
    ensures
        match r {
            Ok(lines) => update_summary(success, text_lines(stdout@), text_lines(stderr@)) == Ok::<
                Seq<Seq<char>>,
                Seq<char>,
            >(lines.deep_view()),
            Err(message) => update_summary(success, text_lines(stdout@), text_lines(stderr@))
                == Err::<Seq<Seq<char>>, Seq<char>>(message@),
        },
{
    let out_lines = lines_of(stdout);
    let err_lines = lines_of(stderr);
    summarize_update(success, &out_lines, &err_lines)
}

} // verus!
