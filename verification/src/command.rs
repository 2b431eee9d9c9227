//! The fixed invocation of the build tool: the tool's name and its
//! non-configurable argument set, pinned so the worker always asks for a PDF,
//! runs non-interactively, halts on the first error, annotates errors with
//! file and line, and writes every artifact into the build directory.

use vstd::prelude::*;
use vstd::string::*;

verus! {

/// The name of the external build tool the worker launches.
pub fn tool_name() -> (s: String)
    ensures
        s@ == "latexmk"@,
{
    String::from_str("latexmk")
}

/// The exact argument list the build tool is launched with: the fixed flags,
/// then the output directory, then the entry file.
pub fn tool_arguments(build_dir: &str, main_file: &str) -> (args: Vec<String>)
    ensures
        args@.len() == 7,
        args@[0]@ == "-pdf"@,
        args@[1]@ == "-interaction=nonstopmode"@,
        args@[2]@ == "-halt-on-error"@,
        args@[3]@ == "-file-line-error"@,
        args@[4]@ == "-output-directory"@,
        args@[5]@ == build_dir@,
        args@[6]@ == main_file@,
{
    let mut args: Vec<String> = Vec::new();
    args.push(String::from_str("-pdf"));
    args.push(String::from_str("-interaction=nonstopmode"));
    args.push(String::from_str("-halt-on-error"));
    args.push(String::from_str("-file-line-error"));
    args.push(String::from_str("-output-directory"));
    args.push(String::from_str(build_dir));
    args.push(String::from_str(main_file));
    args
}

} // verus!
