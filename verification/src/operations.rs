//! Running Scoop: how the lines of its output are read, and how the end of
//! an operation is reported.

use crate::text::{
    contains, contains_text, decimal, join_strings, join_texts, push_char, str_eq, to_decimal,
    to_lowercase, unicode_lower, eq_ignore_ascii_case, ascii_lower,
};
use vstd::prelude::*;
use vstd::string::*;

verus! {

/// A line of output of a command, with the stream it came from.
#[derive(Debug)]
pub struct StreamOutput {
    pub line: String,
    /// `stdout` or `stderr`.
    pub source: String,
}

impl View for StreamOutput {
    type V = (Seq<char>, Seq<char>);

    /// The line and its source.
    open spec fn view(&self) -> (Seq<char>, Seq<char>) {
        (self.line@, self.source@)
    }
}

impl DeepView for StreamOutput {
    type V = (Seq<char>, Seq<char>);

    open spec fn deep_view(&self) -> (Seq<char>, Seq<char>) {
        self@
    }
}

/// How a command ended.
#[derive(Debug)]
pub struct CommandResult {
    pub success: bool,
    pub message: String,
}

impl View for CommandResult {
    type V = (bool, Seq<char>);

    /// Whether the command succeeded, and the message.
    open spec fn view(&self) -> (bool, Seq<char>) {
        (self.success, self.message@)
    }
}

// ---------------------------------------------------------------------------
// Lines that tell of an error
// ---------------------------------------------------------------------------

/// Whether a line tells of an error: it comes from `stderr`, or holds one of
/// the words that Scoop and PowerShell use for failure.
pub open spec fn tells_error(source: Seq<char>, line: Seq<char>) -> bool {
    let lower = unicode_lower(line);
    ||| source == "stderr"@
    ||| contains_text(lower, "error"@)
    ||| contains_text(lower, "failed"@)
    ||| contains_text(lower, "exception"@)
    ||| contains_text(lower, "cannot"@)
    ||| contains_text(lower, "could not"@)
    ||| contains_text(lower, "not found"@)
    ||| contains_text(lower, "access to the path"@)
    ||| contains_text(lower, "denied"@)
    ||| contains_text(line, "Remove-Item"@)
    ||| contains_text(line, "Access to the path"@)
    ||| contains_text(line, "is denied"@)
}

/// Whether a line of output tells of an error.
pub fn is_error_line(source: &str, line: &str) -> (r: bool)
    ensures
        r == tells_error(source@, line@),
{
    if str_eq(source, "stderr") {
        return true;
    }
    let lower = to_lowercase(line);
    let low = lower.as_str();
    contains(low, "error") || contains(low, "failed") || contains(low, "exception") || contains(
        low,
        "cannot",
    ) || contains(low, "could not") || contains(low, "not found") || contains(
        low,
        "access to the path",
    ) || contains(low, "denied") || contains(line, "Remove-Item") || contains(
        line,
        "Access to the path",
    ) || contains(line, "is denied")
}

/// Makes the record of a line of output.
pub fn stream_output(line: String, source: &str) -> (r: StreamOutput)
    ensures
        r@ == (line@, source@),
{
    StreamOutput { line, source: source.to_owned() }
}

// ---------------------------------------------------------------------------
// The end of an operation
// ---------------------------------------------------------------------------

/// A whole number in decimal, with a minus sign where it is negative.
pub open spec fn signed_decimal(n: int) -> Seq<char> {
    if n < 0 {
        seq!['-'] + decimal((-n) as nat)
    } else {
        decimal(n as nat)
    }
}

/// Writes a whole number in decimal.
pub fn to_signed_decimal(n: i32) -> (r: String)
    ensures
        r@ == signed_decimal(n as int),
{
    if n < 0 {
        let mut out = String::new();
        push_char(&mut out, '-');
        let magnitude: u128 = (-(n as i64)) as u128;
        out.append(to_decimal(magnitude).as_str());
        out
    } else {
        to_decimal(n as u128)
    }
}

/// An exit code as it is shown: `Some(code)`, or `None` where the process
/// gave none.
pub open spec fn shown_code(code: Option<i32>) -> Seq<char> {
    match code {
        Some(n) => "Some("@ + signed_decimal(n as int) + ")"@,
        None => "None"@,
    }
}

/// The lines that are shown of the errors: all of up to three, else the
/// first three and the number of the others.
pub open spec fn error_preview(errors: Seq<Seq<char>>) -> Seq<char> {
    if errors.len() <= 3 {
        join_texts(errors, "\n"@)
    } else {
        join_texts(errors.take(3), "\n"@) + "\n... and "@ + decimal((errors.len() - 3) as nat)
            + " more errors"@
    }
}

/// Whether an operation counts as successful: the process says so, and no
/// line told of an error.
pub open spec fn operation_succeeded(exit_success: bool, errors: Seq<Seq<char>>) -> bool {
    exit_success && errors.len() == 0
}

/// The message at the end of an operation.
pub open spec fn completion_message(
    operation: Seq<char>,
    exit_success: bool,
    exit_code: Option<i32>,
    errors: Seq<Seq<char>>,
) -> Seq<char> {
    if operation_succeeded(exit_success, errors) {
        operation + " completed successfully"@
    } else if errors.len() > 0 {
        operation + " failed with "@ + decimal(errors.len()) + " error(s):\n"@ + error_preview(
            errors,
        ) + "\nPlease check the output log for details."@
    } else {
        operation + " failed with exit code "@ + shown_code(exit_code)
            + ". Please check the output log for details."@
    }
}

fn preview(errors: &Vec<String>) -> (r: String)
    ensures
        r@ == error_preview(errors.deep_view()),
{
    if errors.len() <= 3 {
        return join_strings(errors, "\n");
    }
    let mut first: Vec<String> = Vec::new();
    let mut k: usize = 0;
    while k < 3
        invariant
            k <= 3,
            errors.len() > 3,
            first.len() == k,
            forall|i: int| 0 <= i < k ==> (#[trigger] first@[i])@ == errors@[i]@,
        decreases 3 - k,
    {
        first.push(errors[k].clone());
        k += 1;
    }
    assert(first.deep_view() =~= errors.deep_view().take(3));
    let mut out = join_strings(&first, "\n");
    out.append("\n... and ");
    out.append(to_decimal((errors.len() - 3) as u128).as_str());
    out.append(" more errors");
    out
}

/// Reports the end of an operation. `exit_success` and `exit_code` are what
/// the process gave, `errors` the lines of its output that told of an error.
pub fn handle_command_completion(
    operation_name: &str,
    exit_success: bool,
    exit_code: Option<i32>,
    errors: &Vec<String>,
) -> (r: CommandResult)
    ensures
        r.success == operation_succeeded(exit_success, errors.deep_view()),
        r.message@ == completion_message(
            operation_name@,
            exit_success,
            exit_code,
            errors.deep_view(),
        ),
{
    let was_successful = exit_success && errors.len() == 0;
    let mut message = operation_name.to_owned();
    if was_successful {
        message.append(" completed successfully");
    } else if errors.len() > 0 {
        message.append(" failed with ");
        message.append(to_decimal(errors.len() as u128).as_str());
        message.append(" error(s):\n");
        message.append(preview(errors).as_str());
        message.append("\nPlease check the output log for details.");
    } else {
        message.append(" failed with exit code ");
        match exit_code {
            Some(code) => {
                message.append("Some(");
                message.append(to_signed_decimal(code).as_str());
                message.append(")");
            },
            None => {
                message.append("None");
            },
        }
        message.append(". Please check the output log for details.");
    }
    CommandResult { success: was_successful, message }
}

/// Reports that an operation was cancelled.
pub fn handle_cancellation(operation_name: &str) -> (r: CommandResult)
    ensures
        !r.success,
        r.message@ == operation_name@ + " was cancelled by user"@,
{
    let mut message = operation_name.to_owned();
    message.append(" was cancelled by user");
    CommandResult { success: false, message }
}

// ---------------------------------------------------------------------------
// Scanning a package for viruses
// ---------------------------------------------------------------------------

/// What a scan of a package found.
#[derive(Debug)]
pub struct VirustotalResult {
    pub detections_found: bool,
    /// Whether the scan could not run for want of an API key.
    pub is_api_key_missing: bool,
    pub message: String,
}

/// Whether a bucket is named: the text is not empty and not `none`, in any
/// case.
pub open spec fn bucket_is_named(bucket: Seq<char>) -> bool {
    bucket.len() > 0 && ascii_lower(bucket) != ascii_lower("none"@)
}

/// Returns the bucket where one is named.
pub fn named_bucket(bucket: &str) -> (r: Option<&str>)
    ensures
        r is Some == bucket_is_named(bucket@),
        r matches Some(name) ==> name@ == bucket@,
{
    if bucket.is_empty() || eq_ignore_ascii_case(bucket, "none") {
        None
    } else {
        Some(bucket)
    }
}

/// The command that scans a package.
pub open spec fn scan_command(package: Seq<char>, bucket: Seq<char>) -> Seq<char> {
    if bucket_is_named(bucket) {
        "scoop virustotal "@ + bucket + "/"@ + package
    } else {
        "scoop virustotal "@ + package
    }
}

/// Builds the command that scans a package, in its bucket where one is
/// named.
pub fn virustotal_command(package_name: &str, bucket: &str) -> (r: String)
    ensures
        r@ == scan_command(package_name@, bucket@),
{
    let mut command = "scoop virustotal ".to_owned();
    match named_bucket(bucket) {
        Some(name) => {
            command.append(name);
            command.append("/");
        },
        None => {},
    }
    command.append(package_name);
    command
}

/// The message of a scan that ended with the exit code.
pub open spec fn scan_message(exit_code: i32) -> Seq<char> {
    if exit_code == 0 {
        "No threats found."@
    } else if exit_code == 2 {
        "VirusTotal found one or more detections."@
    } else if exit_code == 16 {
        "VirusTotal API key is not configured."@
    } else {
        "Scan failed with an unexpected error (exit code "@ + signed_decimal(exit_code as int)
            + "). Please check the output."@
    }
}

/// Reads the exit code of a scan: `0` for a clean package, `2` for
/// detections, `16` for a missing API key; any other code counts as a
/// detection.
pub fn virustotal_result(exit_code: i32) -> (r: VirustotalResult)
    ensures
        r.detections_found == (exit_code != 0 && exit_code != 16),
        r.is_api_key_missing == (exit_code == 16),
        r.message@ == scan_message(exit_code),
{
    if exit_code == 0 {
        VirustotalResult {
            detections_found: false,
            is_api_key_missing: false,
            message: "No threats found.".to_owned(),
        }
    } else if exit_code == 2 {
        VirustotalResult {
            detections_found: true,
            is_api_key_missing: false,
            message: "VirusTotal found one or more detections.".to_owned(),
        }
    } else if exit_code == 16 {
        VirustotalResult {
            detections_found: false,
            is_api_key_missing: true,
            message: "VirusTotal API key is not configured.".to_owned(),
        }
    } else {
        let mut message = "Scan failed with an unexpected error (exit code ".to_owned();
        message.append(to_signed_decimal(exit_code).as_str());
        message.append("). Please check the output.");
        VirustotalResult { detections_found: true, is_api_key_missing: false, message }
    }
}

} // verus!
