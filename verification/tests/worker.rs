use compile_worker::decode::{decode_request, decode_request_str};
use compile_worker::encode::encode_response;
use compile_worker::outcome::classify_outcome;
use compile_worker::paths::{join_path, log_path_for, pdf_path_for, stem_for_main};
use compile_worker::response::{build_failure, failure_response, FailureKind};

#[test]
fn stem_simple() {
    assert_eq!(stem_for_main("main.tex"), "main");
}

#[test]
fn stem_multi_dot() {
    assert_eq!(stem_for_main("archive.tar.gz"), "archive.tar");
}

#[test]
fn stem_with_directories() {
    assert_eq!(stem_for_main("/proj/sub/doc.tex"), "doc");
}

#[test]
fn stem_hidden_file_keeps_leading_dot() {
    assert_eq!(stem_for_main(".bashrc"), ".bashrc");
}

#[test]
fn stem_empty_falls_back() {
    assert_eq!(stem_for_main(""), "main");
}

#[test]
fn stem_blank_falls_back() {
    assert_eq!(stem_for_main("   .tex"), "main");
}

#[test]
fn stem_ignores_trailing_separators() {
    assert_eq!(stem_for_main("notes/"), "notes");
    assert_eq!(stem_for_main("a/b//"), "b");
}

#[test]
fn stem_ignores_trailing_dot_components() {
    assert_eq!(stem_for_main("foo.txt/."), "foo");
    assert_eq!(stem_for_main("foo.txt/.//"), "foo");
    assert_eq!(stem_for_main("./a.tex"), "a");
    assert_eq!(stem_for_main("./."), "main");
}

#[test]
fn stem_relative_components_fall_back() {
    assert_eq!(stem_for_main("."), "main");
    assert_eq!(stem_for_main(".."), "main");
    assert_eq!(stem_for_main("/x/.."), "main");
}

#[test]
fn stem_unicode_whitespace_falls_back() {
    assert_eq!(stem_for_main("\u{a0}.tex"), "main");
}

#[test]
fn stem_without_extension() {
    assert_eq!(stem_for_main("report"), "report");
}

#[test]
fn pdf_path_under_build_dir() {
    assert_eq!(pdf_path_for("/proj/out", "main.tex"), "/proj/out/main.pdf");
}

#[test]
fn log_path_under_build_dir() {
    assert_eq!(log_path_for("/proj/out", "main.tex"), "/proj/out/main.log");
}

#[test]
fn join_keeps_single_separator() {
    assert_eq!(join_path("out/", "a.pdf"), "out/a.pdf");
    assert_eq!(join_path("out", "a.pdf"), "out/a.pdf");
    assert_eq!(join_path("", "a.pdf"), "a.pdf");
}

#[test]
fn build_failure_shape() {
    let r = build_failure(
        "captured out".to_string(),
        "captured err".to_string(),
        Some(3),
        "something broke".to_string(),
    );
    assert!(!r.success);
    assert!(!r.timed_out);
    assert_eq!(r.exit_code, Some(3));
    assert_eq!(r.stdout, "captured out");
    assert_eq!(r.stderr, "captured err");
    assert_eq!(r.pdf_path, None);
    assert_eq!(r.log_path, None);
    assert_eq!(r.pdf_bytes, None);
    assert_eq!(r.log_bytes, None);
    assert_eq!(r.error, Some("something broke".to_string()));
}

#[test]
fn launch_failure_message() {
    let r = failure_response(FailureKind::Launch, "No such file or directory (os error 2)");
    assert!(!r.success);
    assert_eq!(r.exit_code, None);
    assert_eq!(r.stdout, "");
    assert_eq!(r.stderr, "");
    assert_eq!(
        r.error,
        Some("Failed to launch latexmk: No such file or directory (os error 2)".to_string())
    );
}

#[test]
fn read_stdin_failure_message() {
    let r = failure_response(FailureKind::ReadStdin, "");
    assert_eq!(r.error, Some("Failed to read stdin.".to_string()));
}

#[test]
fn create_dir_failure_message() {
    let r = failure_response(FailureKind::CreateDir, "permission denied");
    assert_eq!(
        r.error,
        Some("Failed to create build directory: permission denied".to_string())
    );
}

#[test]
fn wait_failure_message() {
    let r = failure_response(FailureKind::Wait, "interrupted");
    assert_eq!(
        r.error,
        Some("Failed while waiting for compile process: interrupted".to_string())
    );
}

#[test]
fn collect_failure_message() {
    let r = failure_response(FailureKind::Collect, "broken pipe");
    assert_eq!(
        r.error,
        Some("Failed to collect compile output: broken pipe".to_string())
    );
}

#[test]
fn invalid_request_failure_message() {
    let r = failure_response(FailureKind::InvalidRequest, "expected ident at line 1 column 2");
    assert_eq!(
        r.error,
        Some("Invalid request JSON: expected ident at line 1 column 2".to_string())
    );
}

#[test]
fn classify_clean_success() {
    let r = classify_outcome(
        false,
        true,
        Some(0),
        "ok".to_string(),
        "".to_string(),
        "/proj/out/main.pdf".to_string(),
        "/proj/out/main.log".to_string(),
        Some(1234),
        Some(42),
    );
    assert!(r.success);
    assert!(!r.timed_out);
    assert_eq!(r.exit_code, Some(0));
    assert_eq!(r.pdf_path, Some("/proj/out/main.pdf".to_string()));
    assert_eq!(r.log_path, Some("/proj/out/main.log".to_string()));
    assert_eq!(r.pdf_bytes, Some(1234));
    assert_eq!(r.log_bytes, Some(42));
    assert_eq!(r.error, None);
}

#[test]
fn classify_timeout() {
    let r = classify_outcome(
        true,
        false,
        None,
        "".to_string(),
        "".to_string(),
        "/proj/out/main.pdf".to_string(),
        "/proj/out/main.log".to_string(),
        None,
        None,
    );
    assert!(r.timed_out);
    assert!(!r.success);
    assert_eq!(r.exit_code, None);
    assert_eq!(r.pdf_path, None);
    assert_eq!(r.pdf_bytes, None);
    assert_eq!(r.error, Some("Compilation timed out.".to_string()));
}

#[test]
fn classify_timeout_keeps_log_when_it_exists() {
    let r = classify_outcome(
        true,
        false,
        None,
        "".to_string(),
        "".to_string(),
        "/proj/out/main.pdf".to_string(),
        "/proj/out/main.log".to_string(),
        Some(7),
        Some(99),
    );
    assert!(r.timed_out);
    assert!(!r.success);
    assert_eq!(r.pdf_path, None);
    assert_eq!(r.pdf_bytes, None);
    assert_eq!(r.log_path, Some("/proj/out/main.log".to_string()));
    assert_eq!(r.log_bytes, Some(99));
}

#[test]
fn classify_exit_zero_without_pdf() {
    let r = classify_outcome(
        false,
        true,
        Some(0),
        "".to_string(),
        "".to_string(),
        "/proj/out/main.pdf".to_string(),
        "/proj/out/main.log".to_string(),
        None,
        Some(17),
    );
    assert!(!r.success);
    assert!(!r.timed_out);
    assert_eq!(r.exit_code, Some(0));
    assert_eq!(r.pdf_path, None);
    assert_eq!(r.pdf_bytes, None);
    assert_eq!(r.log_path, Some("/proj/out/main.log".to_string()));
    assert_eq!(r.log_bytes, Some(17));
    assert_eq!(r.error, Some("latexmk failed to produce a PDF.".to_string()));
}

#[test]
fn classify_nonzero_exit_ignores_existing_pdf() {
    let r = classify_outcome(
        false,
        false,
        Some(1),
        "".to_string(),
        "boom".to_string(),
        "/proj/out/main.pdf".to_string(),
        "/proj/out/main.log".to_string(),
        Some(55),
        None,
    );
    assert!(!r.success);
    assert_eq!(r.pdf_path, None);
    assert_eq!(r.pdf_bytes, None);
    assert_eq!(r.log_path, None);
    assert_eq!(r.log_bytes, None);
    assert_eq!(r.error, Some("latexmk failed to produce a PDF.".to_string()));
}

#[test]
fn decode_complete_request() {
    let text = "{\"projectRoot\":\"/proj\",\"mainFile\":\"main.tex\",\"buildDir\":\"/proj/out\",\"timeoutMs\":5000}";
    let req = decode_request_str(text).unwrap();
    assert_eq!(req.project_root, "/proj");
    assert_eq!(req.main_file, "main.tex");
    assert_eq!(req.build_dir, "/proj/out");
    assert_eq!(req.timeout_ms, 5000);
}

#[test]
fn decode_rejects_non_json() {
    let err = decode_request_str("not a json object").unwrap_err();
    assert!(!err.is_empty());
}

#[test]
fn decode_rejects_missing_field() {
    let text = "{\"projectRoot\":\"/proj\",\"mainFile\":\"main.tex\",\"buildDir\":\"/proj/out\"}";
    let err = decode_request_str(text).unwrap_err();
    assert_eq!(err, "missing or invalid field: timeoutMs");
}

#[test]
fn decode_rejects_mistyped_field() {
    let text = "{\"projectRoot\":5,\"mainFile\":\"main.tex\",\"buildDir\":\"/proj/out\",\"timeoutMs\":5000}";
    let err = decode_request_str(text).unwrap_err();
    assert_eq!(err, "missing or invalid field: projectRoot");
}

#[test]
fn decode_rejects_negative_timeout() {
    let text = "{\"projectRoot\":\"/proj\",\"mainFile\":\"main.tex\",\"buildDir\":\"/proj/out\",\"timeoutMs\":-5}";
    let err = decode_request_str(text).unwrap_err();
    assert_eq!(err, "missing or invalid field: timeoutMs");
}

#[test]
fn decode_rejects_fractional_timeout() {
    let text = "{\"projectRoot\":\"/proj\",\"mainFile\":\"main.tex\",\"buildDir\":\"/proj/out\",\"timeoutMs\":5.5}";
    let err = decode_request_str(text).unwrap_err();
    assert_eq!(err, "missing or invalid field: timeoutMs");
}

#[test]
fn decode_allows_extra_fields() {
    let text = "{\"projectRoot\":\"/proj\",\"mainFile\":\"main.tex\",\"buildDir\":\"/proj/out\",\"timeoutMs\":0,\"note\":\"x\"}";
    let req = decode_request_str(text).unwrap();
    assert_eq!(req.timeout_ms, 0);
}

#[test]
fn decode_from_parsed_value() {
    let text = "{\"projectRoot\":\"/p\",\"mainFile\":\"a.tex\",\"buildDir\":\"/p/o\",\"timeoutMs\":1}";
    let value = serde_json::from_str::<serde_json::Value>(text).unwrap();
    let req = decode_request(&value).unwrap();
    assert_eq!(req.project_root, "/p");
    assert_eq!(req.main_file, "a.tex");
    assert_eq!(req.build_dir, "/p/o");
    assert_eq!(req.timeout_ms, 1);
}

#[test]
fn malformed_input_yields_failure_with_error() {
    let err = decode_request_str("[1, 2, 3]").unwrap_err();
    let r = failure_response(FailureKind::InvalidRequest, &err);
    assert!(!r.success);
    let message = r.error.unwrap();
    assert!(!message.is_empty());
    assert!(message.starts_with("Invalid request JSON: "));
}

#[test]
fn encode_success_exact_line() {
    let r = classify_outcome(
        false,
        true,
        Some(0),
        "ok".to_string(),
        "".to_string(),
        "/proj/out/main.pdf".to_string(),
        "/proj/out/main.log".to_string(),
        Some(1234),
        Some(42),
    );
    let line = encode_response(&r);
    assert_eq!(
        line,
        "{\"error\":null,\"exitCode\":0,\"logBytes\":42,\"logPath\":\"/proj/out/main.log\",\
         \"pdfBytes\":1234,\"pdfPath\":\"/proj/out/main.pdf\",\"stderr\":\"\",\"stdout\":\"ok\",\
         \"success\":true,\"timedOut\":false}"
    );
}

#[test]
fn encode_round_trips_through_json() {
    let r = classify_outcome(
        true,
        false,
        None,
        "partial out".to_string(),
        "partial err".to_string(),
        "/d/main.pdf".to_string(),
        "/d/main.log".to_string(),
        None,
        Some(9),
    );
    let line = encode_response(&r);
    let value = serde_json::from_str::<serde_json::Value>(&line).unwrap();
    assert_eq!(value["success"], serde_json::Value::Bool(false));
    assert_eq!(value["timedOut"], serde_json::Value::Bool(true));
    assert_eq!(value["exitCode"], serde_json::Value::Null);
    assert_eq!(value["stdout"].as_str(), Some("partial out"));
    assert_eq!(value["stderr"].as_str(), Some("partial err"));
    assert_eq!(value["pdfPath"], serde_json::Value::Null);
    assert_eq!(value["pdfBytes"], serde_json::Value::Null);
    assert_eq!(value["logPath"].as_str(), Some("/d/main.log"));
    assert_eq!(value["logBytes"].as_u64(), Some(9));
    assert_eq!(value["error"].as_str(), Some("Compilation timed out."));
}

#[test]
fn encode_failure_response_line() {
    let r = failure_response(FailureKind::ReadStdin, "");
    let line = encode_response(&r);
    let value = serde_json::from_str::<serde_json::Value>(&line).unwrap();
    assert_eq!(value["success"], serde_json::Value::Bool(false));
    assert_eq!(value["error"].as_str(), Some("Failed to read stdin."));
    assert_eq!(value["exitCode"], serde_json::Value::Null);
}

#[test]
fn stem_hidden_file_under_directory() {
    assert_eq!(stem_for_main("/x/.hidden"), ".hidden");
}

#[test]
fn pdf_path_with_degenerate_entry_uses_fallback_stem() {
    assert_eq!(pdf_path_for("/out", ""), "/out/main.pdf");
}

#[test]
fn tool_invocation_is_fixed() {
    assert_eq!(compile_worker::command::tool_name(), "latexmk");
    let args = compile_worker::command::tool_arguments("/proj/out", "main.tex");
    assert_eq!(
        args,
        vec![
            "-pdf".to_string(),
            "-interaction=nonstopmode".to_string(),
            "-halt-on-error".to_string(),
            "-file-line-error".to_string(),
            "-output-directory".to_string(),
            "/proj/out".to_string(),
            "main.tex".to_string(),
        ]
    );
}
