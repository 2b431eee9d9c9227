//! The request and response types of the worker, and the failure responses
//! produced before any build outcome can be classified.

use vstd::prelude::*;
use vstd::string::*;

verus! {

/// One compilation request, immutable once decoded.
#[derive(Debug)]
pub struct CompileRequest {
    /// Working directory for the build tool.
    pub project_root: String,
    /// Entry point of the document, absolute or relative to `project_root`.
    pub main_file: String,
    /// Directory where artifacts and logs are written; created if absent.
    pub build_dir: String,
    /// Maximum wall-clock milliseconds allowed for the subprocess.
    pub timeout_ms: u64,
}

/// The single result the worker reports for one invocation.
#[derive(Debug)]
pub struct CompileResponse {
    /// True only if the tool exited successfully and the PDF exists.
    pub success: bool,
    /// True only if the deadline elapsed before the tool finished.
    pub timed_out: bool,
    /// The tool's exit code, absent if it never ran or was killed.
    pub exit_code: Option<i32>,
    /// Captured standard output of the tool, empty if nothing was captured.
    pub stdout: String,
    /// Captured standard error of the tool, empty if nothing was captured.
    pub stderr: String,
    /// Present exactly when `success` is true.
    pub pdf_path: Option<String>,
    /// Present exactly when the log file exists, independent of `success`.
    pub log_path: Option<String>,
    /// Size of the PDF; present exactly when `pdf_path` is.
    pub pdf_bytes: Option<u64>,
    /// Size of the log; present exactly when `log_path` is.
    pub log_bytes: Option<u64>,
    /// Human-readable cause; present exactly when `success` is false.
    pub error: Option<String>,
}

impl CompileResponse {
    /// The invariants every response the worker reports satisfies.
    pub open spec fn well_formed(self) -> bool {
        &&& self.timed_out ==> !self.success
        &&& self.success <==> self.pdf_path is Some
        &&& self.success ==> self.error is None
        &&& !self.success ==> self.error is Some
        &&& self.pdf_bytes is Some <==> self.pdf_path is Some
        &&& self.log_bytes is Some <==> self.log_path is Some
    }
}

/// A timed-out response never claims success and reports no PDF artifact.
pub proof fn lemma_timed_out_excludes_success(r: CompileResponse)
    requires
        r.well_formed(),
        r.timed_out,
    ensures
        !r.success,
        r.pdf_path is None,
        r.pdf_bytes is None,
{
}

/// A successful response carries no error and reports the PDF with its size.
pub proof fn lemma_success_has_pdf_and_no_error(r: CompileResponse)
    requires
        r.well_formed(),
        r.success,
    ensures
        r.error is None,
        r.pdf_path is Some,
        r.pdf_bytes is Some,
{
}

/// A failure response carrying the given captured streams, exit code and
/// error message, and reporting no artifacts.
pub fn build_failure(stdout: String, stderr: String, code: Option<i32>, message: String) -> (r:
    CompileResponse)
    ensures
        !r.success,
        !r.timed_out,
        r.exit_code == code,
        r.stdout@ == stdout@,
        r.stderr@ == stderr@,
        r.pdf_path is None,
        r.log_path is None,
        r.pdf_bytes is None,
        r.log_bytes is None,
        r.error matches Some(m) && m@ == message@,
        r.well_formed(),
{
    CompileResponse {
        success: false,
        timed_out: false,
        exit_code: code,
        stdout,
        stderr,
        pdf_path: None,
        log_path: None,
        pdf_bytes: None,
        log_bytes: None,
        error: Some(message),
    }
}

/// The stages at which the worker can fail before a build outcome exists.
#[derive(Debug, Clone, Copy, PartialEq, Eq)]
pub enum FailureKind {
    /// Standard input could not be read.
    ReadStdin,
    /// The input was not a well-formed request.
    InvalidRequest,
    /// The build directory could not be created.
    CreateDir,
    /// The build tool could not be launched.
    Launch,
    /// Waiting on the running tool failed for a reason other than timeout.
    Wait,
    /// The tool's captured output could not be collected.
    Collect,
}

/// The error text reported for a failure of the given kind, with the
/// underlying cause appended where one exists.
pub open spec fn spec_failure_message(kind: FailureKind, detail: Seq<char>) -> Seq<char> {
    match kind {
        FailureKind::ReadStdin => "Failed to read stdin."@,
        FailureKind::InvalidRequest => "Invalid request JSON: "@ + detail,
        FailureKind::CreateDir => "Failed to create build directory: "@ + detail,
        FailureKind::Launch => "Failed to launch latexmk: "@ + detail,
        FailureKind::Wait => "Failed while waiting for compile process: "@ + detail,
        FailureKind::Collect => "Failed to collect compile output: "@ + detail,
    }
}

/// A failure message is never empty, whatever the kind and the cause.
pub proof fn lemma_failure_message_nonempty(kind: FailureKind, detail: Seq<char>)
    ensures
        spec_failure_message(kind, detail).len() > 0,
{
    reveal_strlit("Failed to read stdin.");
    reveal_strlit("Invalid request JSON: ");
    reveal_strlit("Failed to create build directory: ");
    reveal_strlit("Failed to launch latexmk: ");
    reveal_strlit("Failed while waiting for compile process: ");
    reveal_strlit("Failed to collect compile output: ");
}

/// The terminal response for a failure at the given stage: no artifacts,
/// empty captured streams, no exit code, and a non-empty error message
/// naming the cause.
pub fn failure_response(kind: FailureKind, detail: &str) -> (r: CompileResponse)
    ensures
        !r.success,
        !r.timed_out,
        r.exit_code is None,
        r.stdout@ == Seq::<char>::empty(),
        r.stderr@ == Seq::<char>::empty(),
        r.pdf_path is None,
        r.log_path is None,
        r.pdf_bytes is None,
        r.log_bytes is None,
        r.error matches Some(m) && m@ == spec_failure_message(kind, detail@) && m@.len() > 0,
        r.well_formed(),
{
    let message = match kind {
        FailureKind::ReadStdin => "Failed to read stdin.".to_owned(),
        FailureKind::InvalidRequest => String::from_str("Invalid request JSON: ").concat(detail),
        FailureKind::CreateDir => String::from_str("Failed to create build directory: ").concat(
            detail,
        ),
        FailureKind::Launch => String::from_str("Failed to launch latexmk: ").concat(detail),
        FailureKind::Wait => String::from_str("Failed while waiting for compile process: ").concat(
            detail,
        ),
        FailureKind::Collect => String::from_str("Failed to collect compile output: ").concat(
            detail,
        ),
    };
    proof {
        lemma_failure_message_nonempty(kind, detail@);
    }
    build_failure(String::new(), String::new(), None, message)
}

} // verus!
