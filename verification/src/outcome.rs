//! Classification of a finished build run into the single response the
//! worker reports.

use crate::response::CompileResponse;
use vstd::prelude::*;

verus! {

/// Classifies a run of the build tool once the subprocess is gone and its
/// output is drained. `exit_ok` says whether the exit status indicated
/// success; `pdf_size` and `log_size` are the artifact sizes observed on disk
/// at this moment, absent when the file does not exist. The response reports
/// the PDF exactly on success, the log exactly when it exists, and the sizes
/// exactly as observed.
pub fn classify_outcome(
    timed_out: bool,
    exit_ok: bool,
    exit_code: Option<i32>,
    stdout: String,
    stderr: String,
    pdf_path: String,
    log_path: String,
    pdf_size: Option<u64>,
    log_size: Option<u64>,
) -> (r: CompileResponse)
    ensures
        r.timed_out == timed_out,
        r.exit_code == exit_code,
        r.stdout@ == stdout@,
        r.stderr@ == stderr@,
        r.success == (!timed_out && exit_ok && pdf_size is Some),
        r.success ==> (r.pdf_path matches Some(p) && p@ == pdf_path@),
        !r.success ==> r.pdf_path is None,
        r.pdf_bytes == (if r.success {
            pdf_size
        } else {
            None::<u64>
        }),
        log_size is Some ==> (r.log_path matches Some(p) && p@ == log_path@),
        log_size is None ==> r.log_path is None,
        r.log_bytes == log_size,
        r.success ==> r.error is None,
        timed_out ==> (r.error matches Some(m) && m@ == "Compilation timed out."@),
        (!timed_out && !r.success) ==> (r.error matches Some(m) && m@
            == "latexmk failed to produce a PDF."@),
        r.well_formed(),
{
    let log_path_opt = if log_size.is_some() {
        Some(log_path)
    } else {
        None
    };
    if timed_out {
        CompileResponse {
            success: false,
            timed_out: true,
            exit_code,
            stdout,
            stderr,
            pdf_path: None,
            log_path: log_path_opt,
            pdf_bytes: None,
            log_bytes: log_size,
            error: Some("Compilation timed out.".to_owned()),
        }
    } else {
        let success = exit_ok && pdf_size.is_some();
        CompileResponse {
            success,
            timed_out: false,
            exit_code,
            stdout,
            stderr,
            pdf_path: if success {
                Some(pdf_path)
            } else {
                None
            },
            log_path: log_path_opt,
            pdf_bytes: if success {
                pdf_size
            } else {
                None
            },
            log_bytes: log_size,
            error: if success {
                None
            } else {
                Some("latexmk failed to produce a PDF.".to_owned())
            },
        }
    }
}

} // verus!

