use safex::fuzzer::{fuzz_settings, fuzzing_response, output_log, template_kind_for, test_source, Fuzzer, FuzzingResult, TemplateKind, GENERIC_HEAD, INCREMENT_TEMPLATE};

fn fuzzer() -> Fuzzer {
    Fuzzer::new(std::path::PathBuf::from("/tmp/fuzz"))
}

#[test]
fn increment_in_any_case_is_specialized() {
    let f = fuzzer();
    assert_eq!(f.harness_spec("Increment").template_kind, TemplateKind::Specialized);
    assert_eq!(f.harness_spec("INCREMENT").template_kind, TemplateKind::Specialized);
    assert_eq!(f.harness_spec("increment").template_kind, TemplateKind::Specialized);
    assert_eq!(f.harness_spec("increment2").template_kind, TemplateKind::Generic);
    assert_eq!(template_kind_for("Increment"), TemplateKind::Generic);
}

#[test]
fn withdraw_is_generic_with_its_name() {
    let f = fuzzer();
    let p = f.synthesize("withdraw");
    assert_eq!(p.spec.template_kind, TemplateKind::Generic);
    assert_eq!(p.spec.instruction_name, "withdraw");
    assert!(p.test_source.contains("fn test_withdraw_fuzz("));
    assert!(p.test_source.contains("data: vec![0; 32]"));
    assert!(p.test_source.starts_with(GENERIC_HEAD));
    assert!(p.test_source.ends_with("}\n"));
    assert_eq!(p.module_name, "withdraw_fuzz_test");
    assert_eq!(p.test_file_name, "withdraw_fuzz_test.rs");
    assert_eq!(p.lib_source, "// Fuzz test harness\n#[allow(warnings)]\nmod withdraw_fuzz_test;\n");
    assert!(p.manifest.contains("name = \"anchor_fuzz_tests\""));
}

#[test]
fn specialized_source_sizes_one_counter() {
    let f = fuzzer();
    let p = f.synthesize("Increment");
    assert_eq!(p.test_source, format!("{}\n", INCREMENT_TEMPLATE));
    assert!(p.test_source.contains("data: vec![0; 8]"));
    assert!(p.test_source.contains("fn test_increment_fuzz(value in 0..=u64::MAX)"));
    assert_eq!(p.module_name, "Increment_fuzz_test");
}

#[test]
fn synthesis_is_repeatable() {
    let f = fuzzer();
    let a = f.synthesize("withdraw");
    let b = f.synthesize("withdraw");
    assert_eq!(a.test_source, b.test_source);
    assert_eq!(a.lib_source, b.lib_source);
    assert_eq!(a.manifest, b.manifest);
    let c = fuzzer().synthesize("increment");
    let d = fuzzer().synthesize("increment");
    assert_eq!(c.test_source, d.test_source);
}

#[test]
fn test_source_inserts_name() {
    let s = test_source(TemplateKind::Generic, "deposit");
    assert!(s.contains("fn test_deposit_fuzz("));
    assert!(!s.contains("{}_fuzz"));
}

#[test]
fn no_signature_no_evidence() {
    let f = fuzzer();
    let e = f.extract_errors("running 1 test\ntest ok\n", "Compiling x\nFinished\n");
    assert!(e.is_empty());
}

#[test]
fn evidence_in_stream_then_line_order() {
    let f = fuzzer();
    let e = f.extract_errors("  attempt to add with overflow  \nfine\n", "error: could not compile\r\n");
    assert_eq!(e, vec!["attempt to add with overflow".to_string(), "error: could not compile".to_string()]);
    let e = f.extract_errors("", "x\nerror[E0425]: cannot find value\nError: boom\nunderflow\nvalidation failed here\n");
    assert_eq!(e.len(), 4);
    assert_eq!(e[0], "error[E0425]: cannot find value");
    assert_eq!(e[3], "validation failed here");
}

#[test]
fn clean_run_succeeds() {
    let f = fuzzer();
    let r = f.classify_run(true, 5_000, 120, "test result: ok", "");
    assert!(r.success);
    assert!(!r.timed_out);
    assert!(r.errors.is_empty());
    assert_eq!(r.execution_time_ms, 5_000);
}

#[test]
fn panic_line_fails_run() {
    let f = fuzzer();
    let line = "thread 'main' panicked at src/lib.rs:10:5: attempt to add with overflow";
    let r = f.classify_run(true, 1_000, 120, line, "");
    assert!(!r.success);
    assert!(!r.timed_out);
    assert_eq!(r.errors, vec![line.to_string()]);
}

#[test]
fn budget_reached_is_timeout() {
    let f = fuzzer();
    let r = f.classify_run(true, 120_000, 120, "", "");
    assert!(r.timed_out);
    assert!(!r.success);
    let r = f.classify_run(true, 119_999, 120, "", "");
    assert!(!r.timed_out);
    assert!(r.success);
    let r = f.classify_run(false, 10, 120, "", "");
    assert!(!r.success);
    assert!(r.errors.is_empty());
}

#[test]
fn log_holds_both_streams() {
    assert_eq!(output_log("out", "err"), "STDOUT:\nout\n\nSTDERR:\nerr\n");
}

#[test]
fn settings_defaults_and_limit() {
    assert_eq!(fuzz_settings(None, None), Ok(("increment".to_string(), 120)));
    assert_eq!(fuzz_settings(Some("withdraw".to_string()), Some(30)), Ok(("withdraw".to_string(), 30)));
    assert_eq!(fuzz_settings(None, Some(121)), Err("Timeout cannot exceed 120 seconds".to_string()));
    assert_eq!(fuzz_settings(None, Some(120)), Ok(("increment".to_string(), 120)));
}

#[test]
fn response_messages() {
    let ok = FuzzingResult { success: true, timed_out: false, errors: vec![], execution_time_ms: 3 };
    let r = fuzzing_response(ok, Some("src".to_string()), 7);
    assert!(r.success);
    assert_eq!(r.message, "Fuzzing tests completed successfully");
    assert!(r.errors.is_none());
    assert_eq!(r.execution_time_ms, Some(7));
    let bad = FuzzingResult { success: false, timed_out: false, errors: vec!["overflow".to_string()], execution_time_ms: 3 };
    let r = fuzzing_response(bad, None, 7);
    assert!(!r.success);
    assert_eq!(r.message, "Fuzzing tests found potential issues");
    assert_eq!(r.errors, Some(vec!["overflow".to_string()]));
    let slow = FuzzingResult { success: false, timed_out: true, errors: vec![], execution_time_ms: 3 };
    assert_eq!(fuzzing_response(slow, None, 7).message, "Fuzzing tests timed out");
}

#[test]
fn payload_covers_full_range() {
    let f = fuzzer();
    for name in ["increment", "withdraw"] {
        let src = f.synthesize(name).test_source;
        assert!(src.contains("value in 0..=u64::MAX"));
        assert!(!src.contains("value in 0..u64::MAX"));
    }
}
