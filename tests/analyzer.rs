use safex::analyzer::{CodeAnalyzer, Diagnostic};
use safex::models::{BugSeverity, CodeBug};

fn diag(level: &str, text: &str, line: u64) -> String {
    format!(
        "{{\"reason\":\"compiler-message\",\"message\":{{\"message\":\"{}\",\"level\":\"{}\",\"spans\":[{{\"line_start\":{}}},{{\"line_start\":99}}]}}}}",
        text, level, line
    )
}

#[test]
fn suggest_fix_rules_in_order() {
    let a = CodeAnalyzer::new();
    assert_eq!(
        a.suggest_fix("unused variable `x`"),
        "Remove the unused variable or prefix it with an underscore (_)"
    );
    assert_eq!(a.suggest_fix("unused import: `std::fs`"), "Remove the unused import");
    assert_eq!(
        a.suggest_fix("call to unsafe function"),
        "Avoid using unsafe code, use safe alternatives"
    );
    assert_eq!(
        a.suggest_fix("unsafe block with unused variable"),
        "Remove the unused variable or prefix it with an underscore (_)"
    );
    assert_eq!(
        a.suggest_fix("this loop never actually loops"),
        "Review the code and fix the issue according to best practices"
    );
}

#[test]
fn severity_rules_each_and_combined() {
    let a = CodeAnalyzer::new();
    assert_eq!(a.severity("use of unsafe block"), BugSeverity::High);
    assert_eq!(a.severity("unused variable"), BugSeverity::Low);
    assert_eq!(a.severity("unused thing inside unsafe code"), BugSeverity::High);
    assert_eq!(a.severity("unsafe and unused"), BugSeverity::High);
    assert_eq!(a.severity("needless borrow"), BugSeverity::Medium);
}

#[test]
fn normalize_drops_notes_and_missing_text() {
    let a = CodeAnalyzer::new();
    let note = Diagnostic {
        level: Some("note".to_string()),
        has_text: true,
        text: Some("x".to_string()),
        line_start: Some(3),
    };
    assert!(a.normalize_diagnostic(&note).is_none());
    let no_text = Diagnostic { level: Some("warning".to_string()), has_text: false, text: None, line_start: None };
    assert!(a.normalize_diagnostic(&no_text).is_none());
    let odd_text = Diagnostic { level: Some("error".to_string()), has_text: true, text: None, line_start: None };
    let b = a.normalize_diagnostic(&odd_text).unwrap();
    assert_eq!(b.bug, "Unknown issue");
    assert_eq!(b.line, 0);
    assert_eq!(b.severity, BugSeverity::Medium);
}

#[test]
fn one_finding_per_warning_or_error_line() {
    let a = CodeAnalyzer::new();
    let out = format!(
        "{}\n{}\n{}\n",
        diag("warning", "unused variable: `x`", 12),
        diag("note", "a note", 3),
        diag("error", "call to unsafe function", 40)
    );
    let bugs: Vec<CodeBug> = a.parse_clippy_output(&out);
    assert_eq!(bugs.len(), 2);
    assert_eq!(bugs[0].bug, "unused variable: `x`");
    assert_eq!(bugs[0].line, 12);
    assert_eq!(bugs[0].severity, BugSeverity::Low);
    assert_eq!(bugs[0].fix, "Remove the unused variable or prefix it with an underscore (_)");
    assert_eq!(bugs[1].line, 40);
    assert_eq!(bugs[1].severity, BugSeverity::High);
    assert_eq!(bugs[1].fix, "Avoid using unsafe code, use safe alternatives");
}

#[test]
fn line_is_zero_without_spans() {
    let a = CodeAnalyzer::new();
    let out = "{\"message\":{\"message\":\"needless return\",\"level\":\"warning\",\"spans\":[]}}\n{\"message\":{\"message\":\"long line\",\"level\":\"warning\"}}";
    let bugs = a.parse_clippy_output(out);
    assert_eq!(bugs.len(), 2);
    assert_eq!(bugs[0].line, 0);
    assert_eq!(bugs[1].line, 0);
    assert_eq!(bugs[0].severity, BugSeverity::Medium);
}

#[test]
fn unreadable_output_gives_one_low_placeholder() {
    let a = CodeAnalyzer::new();
    let bugs = a.parse_clippy_output("this is not json\n{broken\n");
    assert_eq!(bugs.len(), 1);
    assert_eq!(bugs[0].bug, "Clippy output could not be parsed");
    assert_eq!(bugs[0].severity, BugSeverity::Low);
    assert_eq!(bugs[0].line, 0);
}

#[test]
fn only_notes_also_give_placeholder() {
    let a = CodeAnalyzer::new();
    let bugs = a.parse_clippy_output(&diag("note", "just a note", 1));
    assert_eq!(bugs.len(), 1);
    assert_eq!(bugs[0].bug, "Clippy output could not be parsed");
}

#[test]
fn blank_output_gives_nothing() {
    let a = CodeAnalyzer::new();
    assert!(a.parse_clippy_output("").is_empty());
    assert!(a.parse_clippy_output("  \n\t\n").is_empty());
}

#[test]
fn unmarked_signer_struct_is_reported() {
    let a = CodeAnalyzer::new();
    let src = "use anchor_lang::prelude::*;\n\npub struct Foo {\n    x: u8,\n}\n\npub struct Ctx {\n    pub user: Foo: Signer,\n}\n";
    let bugs = a.check_missing_signer_attribute(src);
    assert_eq!(bugs.len(), 1);
    assert_eq!(bugs[0].bug, "Missing #[account(signer)] attribute for Foo");
    assert_eq!(bugs[0].line, 3);
    assert_eq!(bugs[0].severity, BugSeverity::High);
    assert_eq!(bugs[0].fix, "Add #[account(signer)] attribute to the Foo struct");
}

#[test]
fn line_counts_newlines_before_indented_declaration() {
    let a = CodeAnalyzer::new();
    let src = "mod m {\n    pub struct Bar {\n    }\n    fn f(b: Bar: &Signer) {}\n}\n";
    let bugs = a.check_missing_signer_attribute(src);
    assert_eq!(bugs.len(), 1);
    assert_eq!(bugs[0].line, 2);
    let first = "pub struct Top { }\nfn g(t: Top: Signer) {}\n";
    let bugs = a.check_missing_signer_attribute(first);
    assert_eq!(bugs.len(), 1);
    assert_eq!(bugs[0].line, 1);
}

#[test]
fn signer_attribute_anywhere_silences_file() {
    let a = CodeAnalyzer::new();
    let src = "pub struct Foo {\n}\n#[account(mut, signer)]\npub struct Other {\n}\nfn f(a: Foo: Signer) {}\n";
    assert!(a.check_missing_signer_attribute(src).is_empty());
}

#[test]
fn unused_struct_is_not_reported() {
    let a = CodeAnalyzer::new();
    let src = "pub struct Foo {\n}\nfn f(a: Foo) {}\n";
    assert!(a.check_missing_signer_attribute(src).is_empty());
}

#[test]
fn lints_keep_file_order() {
    let a = CodeAnalyzer::new();
    let files = vec![
        "pub struct A {}\nx: A: Signer".to_string(),
        "pub struct Quiet {}".to_string(),
        "\n\npub struct B {}\ny: B: &Signer".to_string(),
    ];
    let bugs = a.run_anchor_lints(&files);
    assert_eq!(bugs.len(), 2);
    assert_eq!(bugs[0].bug, "Missing #[account(signer)] attribute for A");
    assert_eq!(bugs[1].bug, "Missing #[account(signer)] attribute for B");
    assert_eq!(bugs[1].line, 3);
}

#[test]
fn failed_parts_become_placeholders() {
    let a = CodeAnalyzer::new();
    let bugs = a.analyze_outputs(None, None);
    assert_eq!(bugs.len(), 2);
    assert_eq!(bugs[0].bug, "Failed to run Cargo clippy analysis");
    assert_eq!(bugs[0].severity, BugSeverity::Low);
    assert_eq!(bugs[1].bug, "Failed to check for missing #[account(signer)] attributes");
    assert_eq!(bugs[1].severity, BugSeverity::Medium);
}

#[test]
fn linter_findings_come_before_signer_findings() {
    let a = CodeAnalyzer::new();
    let out = diag("warning", "unused import: `a`", 5);
    let files = vec!["pub struct S {}\nz: S: Signer".to_string()];
    let bugs = a.analyze_outputs(Some(&out), Some(&files));
    assert_eq!(bugs.len(), 2);
    assert_eq!(bugs[0].fix, "Remove the unused import");
    assert_eq!(bugs[1].bug, "Missing #[account(signer)] attribute for S");
}

#[test]
fn garbage_linter_output_then_signer_scan() {
    let a = CodeAnalyzer::new();
    let files: Vec<String> = vec![];
    let bugs = a.analyze_outputs(Some("error: could not compile"), Some(&files));
    assert_eq!(bugs.len(), 1);
    assert_eq!(bugs[0].bug, "Clippy output could not be parsed");
    assert_eq!(bugs[0].severity, BugSeverity::Low);
}

#[test]
fn hidden_names() {
    assert!(safex::analyzer::is_hidden_name(".git"));
    assert!(!safex::analyzer::is_hidden_name("src"));
    assert!(!safex::analyzer::is_hidden_name(""));
}

#[test]
fn findings_for_given_declarations() {
    let a = CodeAnalyzer::new();
    let src = "x\ny\npub struct Foo {}\nz: Foo: Signer";
    let decls = vec![(4usize, "Foo".to_string()), (0usize, "Absent".to_string())];
    let bugs = a.findings_for_decls(src, &decls);
    assert_eq!(bugs.len(), 1);
    assert_eq!(bugs[0].line, 3);
    assert_eq!(bugs[0].bug, "Missing #[account(signer)] attribute for Foo");
}

#[test]
fn generic_struct_is_reported() {
    let a = CodeAnalyzer::new();
    let bugs = a.check_missing_signer_attribute("pub struct Foo<'info> {\n}\n// Foo: Signer\n");
    assert_eq!(bugs.len(), 1);
    assert_eq!(bugs[0].bug, "Missing #[account(signer)] attribute for Foo");
    assert_eq!(bugs[0].line, 1);
    assert_eq!(bugs[0].severity, BugSeverity::High);
    let bugs = a.check_missing_signer_attribute("\npub struct Ctx<'info, T: Tr<U>> {\n}\nx: Ctx: &Signer\npub struct Tuple(u8);\ny: Tuple: Signer\n");
    assert_eq!(bugs.len(), 1);
    assert_eq!(bugs[0].bug, "Missing #[account(signer)] attribute for Ctx");
    assert_eq!(bugs[0].line, 2);
}

#[test]
fn rust_source_names() {
    assert!(safex::analyzer::is_rust_source_name("lib.rs"));
    assert!(safex::analyzer::is_rust_source_name("a.b.rs"));
    assert!(safex::analyzer::is_rust_source_name("..rs"));
    assert!(!safex::analyzer::is_rust_source_name(".rs"));
    assert!(!safex::analyzer::is_rust_source_name("lib.rsx"));
    assert!(!safex::analyzer::is_rust_source_name("rs"));
    assert!(!safex::analyzer::is_rust_source_name("Cargo.toml"));
}
