//! The automatic update: what is shown of the update of the buckets and of
//! the packages.

use crate::bucket_install::{BucketInstallResult, InstallResultView};
use crate::operations::{CommandResult, StreamOutput};
use crate::text::{decimal, to_decimal};
use vstd::prelude::*;
use vstd::string::*;

verus! {

/// What is shown of an update: the lines of output, each with its source,
/// and how it ended.
#[derive(Debug)]
pub struct UpdateEvents {
    pub lines: Vec<StreamOutput>,
    pub finished: CommandResult,
}

/// The mathematical value of `UpdateEvents`.
pub struct EventsView {
    pub lines: Seq<(Seq<char>, Seq<char>)>,
    pub finished: (bool, Seq<char>),
}

impl View for UpdateEvents {
    type V = EventsView;

    open spec fn view(&self) -> EventsView {
        EventsView { lines: self.lines.deep_view(), finished: self.finished@ }
    }
}

/// The line that is shown of the update of one bucket.
pub open spec fn bucket_line(result: InstallResultView) -> (Seq<char>, Seq<char>) {
    if result.success {
        ("✓ Updated bucket: "@ + result.bucket_name, "stdout"@)
    } else {
        ("✗ Failed to update "@ + result.bucket_name + ": "@ + result.message, "stderr"@)
    }
}

/// The number of the updates that succeeded.
pub open spec fn successes(results: Seq<InstallResultView>) -> nat
    decreases results.len(),
{
    if results.len() == 0 {
        0
    } else {
        successes(results.drop_last()) + (if results.last().success {
            1nat
        } else {
            0nat
        })
    }
}

/// What is shown of the update of the buckets: a line for each bucket, and
/// at the end how many succeeded. The update succeeded where all did.
pub open spec fn bucket_events(results: Seq<InstallResultView>) -> EventsView {
    EventsView {
        lines: Seq::new(results.len(), |i: int| bucket_line(results[i])),
        finished: (
            successes(results) == results.len(),
            "Bucket update completed: "@ + decimal(successes(results)) + " of "@ + decimal(
                results.len(),
            ) + " succeeded"@,
        ),
    }
}

/// What is shown of an update that failed as a whole. `what` names the
/// update in the message at the end.
pub open spec fn failure_events(what: Seq<char>, reason: Seq<char>) -> EventsView {
    EventsView {
        lines: seq![("Error: "@ + reason, "stderr"@)],
        finished: (false, what + reason),
    }
}

/// What is shown of the update of the packages: its lines, or its failure.
pub open spec fn package_events(outcome: Result<Seq<Seq<char>>, Seq<char>>) -> EventsView {
    match outcome {
        Ok(lines) => EventsView {
            lines: Seq::new(lines.len(), |i: int| (lines[i], "stdout"@)),
            finished: (true, "Automatic package update completed successfully"@),
        },
        Err(reason) => failure_events("Automatic package update failed: "@, reason),
    }
}

fn failed(what: &str, reason: &str) -> (r: UpdateEvents)
    ensures
        r@ == failure_events(what@, reason@),
{
    let mut line = "Error: ".to_owned();
    line.append(reason);
    let mut message = what.to_owned();
    message.append(reason);
    let mut lines: Vec<StreamOutput> = Vec::new();
    lines.push(StreamOutput { line, source: "stderr".to_owned() });
    assert(lines.deep_view() =~= seq![("Error: "@ + reason@, "stderr"@)]);
    UpdateEvents { lines, finished: CommandResult { success: false, message } }
}

fn line_of(result: &BucketInstallResult) -> (r: StreamOutput)
    ensures
        r@ == bucket_line(result@),
{
    if result.success {
        let mut line = "✓ Updated bucket: ".to_owned();
        line.append(result.bucket_name.as_str());
        StreamOutput { line, source: "stdout".to_owned() }
    } else {
        let mut line = "✗ Failed to update ".to_owned();
        line.append(result.bucket_name.as_str());
        line.append(": ");
        line.append(result.message.as_str());
        StreamOutput { line, source: "stderr".to_owned() }
    }
}

/// Says what is shown of the update of the buckets.
pub fn bucket_update_events(results: &Vec<BucketInstallResult>) -> (r: UpdateEvents)
    ensures
        r@ == bucket_events(results.deep_view()),
{
    let ghost all = results.deep_view();
    let mut lines: Vec<StreamOutput> = Vec::new();
    let mut done: usize = 0;
    let mut k: usize = 0;
    while k < results.len()
        invariant
            k <= results.len(),
            all == results.deep_view(),
            done == successes(all.take(k as int)),
            done <= k,
            lines.len() == k,
            forall|i: int| 0 <= i < k ==> (#[trigger] lines@[i])@ == bucket_line(all[i]),
        decreases results.len() - k,
    {
        proof {
            let now = all.take(k + 1);
            assert(now.drop_last() =~= all.take(k as int));
        }
        lines.push(line_of(&results[k]));
        if results[k].success {
            done += 1;
        }
        k += 1;
    }
    assert(all.take(results.len() as int) =~= all);
    assert(lines.deep_view() =~= bucket_events(all).lines);
    let mut message = "Bucket update completed: ".to_owned();
    message.append(to_decimal(done as u128).as_str());
    message.append(" of ");
    message.append(to_decimal(results.len() as u128).as_str());
    message.append(" succeeded");
    UpdateEvents { lines, finished: CommandResult { success: done == results.len(), message } }
}

/// Says what is shown where the buckets could not be updated at all.
pub fn bucket_update_failed(reason: &str) -> (r: UpdateEvents)
    ensures
        r@ == failure_events("Bucket update failed: "@, reason@),
{
    failed("Bucket update failed: ", reason)
}

/// The view of the outcome of the update of the packages.
pub open spec fn outcome_view(outcome: Result<Vec<String>, String>) -> Result<
    Seq<Seq<char>>,
    Seq<char>,
> {
    match outcome {
        Ok(lines) => Ok(lines.deep_view()),
        Err(reason) => Err(reason@),
    }
}

/// Says what is shown of the update of the packages.
pub fn package_update_events(outcome: Result<Vec<String>, String>) -> (r: UpdateEvents)
    ensures
        r@ == package_events(outcome_view(outcome)),
{
    match outcome {
        Ok(details) => {
            let ghost all = details.deep_view();
            let mut lines: Vec<StreamOutput> = Vec::new();
            let mut k: usize = 0;
            while k < details.len()
                invariant
                    k <= details.len(),
                    all == details.deep_view(),
                    lines.len() == k,
                    forall|i: int| 0 <= i < k ==> (#[trigger] lines@[i])@ == (all[i], "stdout"@),
                decreases details.len() - k,
            {
                lines.push(StreamOutput { line: details[k].clone(), source: "stdout".to_owned() });
                k += 1;
            }
            assert(lines.deep_view() =~= package_events(Ok(all)).lines);
            UpdateEvents {
                lines,
                finished: CommandResult {
                    success: true,
                    message: "Automatic package update completed successfully".to_owned(),
                },
            }
        },
        Err(reason) => failed("Automatic package update failed: ", reason.as_str()),
    }
}

} // verus!
