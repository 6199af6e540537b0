//! The lint engine: turns the toolchain linter's JSON diagnostics into
//! findings, looks for account structures used as signers without a signer
//! attribute, and merges both into one list.
use vstd::prelude::*;
use vstd::utf8::encode_utf8;

use crate::models::{bugs_view, opt_bug_view, BugSeverity, CodeBug, CodeBugView};
use crate::text::{
    chars_of, contains_str, has_sub, lemma_single_line, lines_of, split_lines, string_of, text_eq,
    trim_chars, trimmed,
};

verus! {

/// What the lint engine reads from one line of linter output: the fields of
/// its `message` object.
pub struct Diagnostic {
    /// `message.level`, when it is a string.
    pub level: Option<String>,
    /// Whether `message.message` is present.
    pub has_text: bool,
    /// `message.message`, when it is a string.
    pub text: Option<String>,
    /// `message.spans[0].line_start`, when it is an unsigned integer.
    pub line_start: Option<u64>,
}

/// The content of a `Diagnostic`.
pub struct DiagnosticView {
    pub level: Option<Seq<char>>,
    pub has_text: bool,
    pub text: Option<Seq<char>>,
    pub line_start: Option<u64>,
}

/// The text of an optional string.
pub open spec fn opt_str_view(s: Option<String>) -> Option<Seq<char>> {
    match s {
        Some(s) => Some(s@),
        None => None,
    }
}

impl View for Diagnostic {
    type V = DiagnosticView;

    open spec fn view(&self) -> DiagnosticView {
        DiagnosticView {
            level: opt_str_view(self.level),
            has_text: self.has_text,
            text: opt_str_view(self.text),
            line_start: self.line_start,
        }
    }
}

/// The fields that one line of linter output holds, or `None` when the line
/// is not JSON.
pub uninterp spec fn diagnostic_of(line: Seq<char>) -> Option<DiagnosticView>;

/// Relies on `serde_json::from_str` to parse the line into a `Value`, and on
/// `Value::get`, `as_str`, `as_array` and `as_u64` to copy out the fields of
/// its `message` object.
#[verifier::external_body]
fn read_diagnostic(line: &str) -> (r: Option<Diagnostic>)
    ensures
        r is Some <==> diagnostic_of(line@) is Some,
        r is Some ==> r->0@ == diagnostic_of(line@)->0,
{
    let v: serde_json::Value = serde_json::from_str(line).ok()?;
    let m = v.get("message");
    let at = |k: &str| m.and_then(|m| m.get(k));
    Some(Diagnostic {
        level: at("level").and_then(|l| l.as_str()).map(|s| s.to_string()),
        has_text: at("message").is_some(),
        text: at("message").and_then(|t| t.as_str()).map(|s| s.to_string()),
        line_start: at("spans").and_then(|s| s.as_array()).and_then(|a| a.first()).and_then(
            |s| s.get("line_start"),
        ).and_then(|l| l.as_u64()),
    })
}

/// The severity of a diagnostic text: the first rule that matches wins.
pub open spec fn severity_for(t: Seq<char>) -> BugSeverity {
    if has_sub(t, "unsafe"@) {
        BugSeverity::High
    } else if has_sub(t, "unused"@) {
        BugSeverity::Low
    } else {
        BugSeverity::Medium
    }
}

/// The fix suggested for a diagnostic text: the first rule that matches wins.
pub open spec fn fix_for(t: Seq<char>) -> Seq<char> {
    if has_sub(t, "unused variable"@) {
        "Remove the unused variable or prefix it with an underscore (_)"@
    } else if has_sub(t, "unused import"@) {
        "Remove the unused import"@
    } else if has_sub(t, "unsafe"@) {
        "Avoid using unsafe code, use safe alternatives"@
    } else {
        "Review the code and fix the issue according to best practices"@
    }
}

/// A diagnostic is reported when it has a text and its level is a warning or
/// an error.
pub open spec fn is_reported(d: DiagnosticView) -> bool {
    d.has_text && d.level is Some && (d.level->0 == "warning"@ || d.level->0 == "error"@)
}

/// The finding that a diagnostic gives, if any.
pub open spec fn normalized(d: DiagnosticView) -> Option<CodeBugView> {
    if is_reported(d) {
        let t = match d.text {
            Some(t) => t,
            None => "Unknown issue"@,
        };
        let line = match d.line_start {
            Some(n) => n as u32,
            None => 0u32,
        };
        Some(CodeBugView { bug: t, line, severity: severity_for(t), fix: fix_for(t) })
    } else {
        None
    }
}

/// The finding that one line of linter output gives, if any.
pub open spec fn line_finding(line: Seq<char>) -> Option<CodeBugView> {
    if trimmed(line).len() == 0 {
        None
    } else {
        match diagnostic_of(line) {
            Some(d) => normalized(d),
            None => None,
        }
    }
}

/// The findings of a sequence of lines, in order.
pub open spec fn lines_findings(lines: Seq<Seq<char>>) -> Seq<CodeBugView>
    decreases lines.len(),
{
    if lines.len() == 0 {
        seq![]
    } else {
        let prev = lines_findings(lines.drop_last());
        match line_finding(lines.last()) {
            Some(b) => prev.push(b),
            None => prev,
        }
    }
}

/// The finding that stands for linter output of which no line could be read.
pub open spec fn unparsed_finding() -> CodeBugView {
    CodeBugView {
        bug: "Clippy output could not be parsed"@,
        line: 0,
        severity: BugSeverity::Low,
        fix: "Check the project structure and ensure it's a valid Rust project"@,
    }
}

/// The finding that stands for a linter that could not be run.
pub open spec fn linter_failed_finding() -> CodeBugView {
    CodeBugView {
        bug: "Failed to run Cargo clippy analysis"@,
        line: 0,
        severity: BugSeverity::Low,
        fix: "Ensure Cargo and Clippy are installed and the project is a valid Rust project"@,
    }
}

/// The finding that stands for a signer scan that could not be run.
pub open spec fn scan_failed_finding() -> CodeBugView {
    CodeBugView {
        bug: "Failed to check for missing #[account(signer)] attributes"@,
        line: 0,
        severity: BugSeverity::Medium,
        fix: "Manually review your code for missing signer attributes"@,
    }
}

/// The findings of the whole linter output: those of its lines, or, when
/// there are none but the output is not blank, the one placeholder.
pub open spec fn linter_findings(out: Seq<char>) -> Seq<CodeBugView> {
    let found = lines_findings(lines_of(out));
    if found.len() == 0 && trimmed(out).len() > 0 {
        seq![unparsed_finding()]
    } else {
        found
    }
}

/// The first group and start of each match of
/// `pub\s+struct\s+(\w+)\s*(?:<[^{;]*>)?\s*\{` in a text, in order: the byte
/// offset where the match starts, and the structure's name. Generic
/// parameters between the name and the brace are allowed.
pub uninterp spec fn struct_decls(text: Seq<char>) -> Seq<(int, Seq<char>)>;

/// Relies on `regex::Regex::captures_iter` with the pattern
/// `pub\s+struct\s+(\w+)\s*(?:<[^{;]*>)?\s*\{`: each match, in order, with the byte offset at
/// which it starts in the text and its first group.
#[verifier::external_body]
fn struct_declarations(text: &str) -> (r: Vec<(usize, String)>)
    ensures
        r@.len() == struct_decls(text@).len(),
        forall|i: int|
            0 <= i < r@.len() ==> (#[trigger] r@[i]).0 == struct_decls(text@)[i].0 && r@[i].1@
                == struct_decls(text@)[i].1 && r@[i].0 <= encode_utf8(text@).len(),
{
    let re = regex::Regex::new(r"pub\s+struct\s+(\w+)\s*(?:<[^{;]*>)?\s*\{").unwrap();
    re.captures_iter(text).map(|c| (c.get(0).unwrap().start(), c[1].to_string())).collect()
}

/// The text holds a match of `#\[account\(.*signer.*\)\]`: `#[account(`,
/// then `signer`, then `)]`, all on one line.
pub open spec fn has_signer_attribute(s: Seq<char>) -> bool {
    exists|a: int, m: int, e: int|
        #![trigger s.subrange(a, a + 10), s.subrange(m, m + 6), s.subrange(e, e + 2)]
        0 <= a && a + 10 <= m && m + 6 <= e && e + 2 <= s.len() && s.subrange(a, a + 10)
            == "#[account("@ && s.subrange(m, m + 6) == "signer"@ && s.subrange(e, e + 2)
            == ")]"@ && forall|k: int| a <= k < e + 2 ==> s[k] != '\n'
}

/// Relies on `regex::Regex::is_match` with the pattern
/// `#\[account\(.*signer.*\)\]`, where `.` is any character but `'\n'`.
#[verifier::external_body]
fn signer_attribute_present(text: &str) -> (r: bool)
    ensures
        r == has_signer_attribute(text@),
{
    regex::Regex::new(r"#\[account\(.*signer.*\)\]").unwrap().is_match(text)
}

/// The number of newline bytes in `b`.
pub open spec fn newline_count(b: Seq<u8>) -> nat
    decreases b.len(),
{
    if b.len() == 0 {
        0
    } else {
        newline_count(b.drop_last()) + if b.last() == 10u8 {
            1nat
        } else {
            0nat
        }
    }
}

/// The 1-based line number that follows `count` newlines, as a `u32`
/// (modulo 2^32).
pub open spec fn line_after(count: nat) -> u32 {
    if count as u32 == u32::MAX {
        0
    } else {
        (count as u32 + 1) as u32
    }
}

/// A structure named `name` is used as a signer in `text`.
pub open spec fn used_as_signer(text: Seq<char>, name: Seq<char>) -> bool {
    has_sub(text, name + ": &Signer"@) || has_sub(text, name + ": Signer"@)
}

/// The description of a missing signer attribute on `name`.
pub open spec fn missing_signer_text(name: Seq<char>) -> Seq<char> {
    "Missing #[account(signer)] attribute for "@ + name
}

/// The finding for the structure declared at byte `start` of `text` under
/// `name`, if it is used as a signer and the text has no signer attribute.
pub open spec fn decl_finding(text: Seq<char>, start: int, name: Seq<char>) -> Option<
    CodeBugView,
> {
    if used_as_signer(text, name) && !has_signer_attribute(text) {
        Some(
            CodeBugView {
                bug: missing_signer_text(name),
                line: line_after(newline_count(encode_utf8(text).take(start))),
                severity: BugSeverity::High,
                fix: "Add #[account(signer)] attribute to the "@ + name + " struct"@,
            },
        )
    } else {
        None
    }
}

/// The findings for a sequence of declarations of `text`, in order.
pub open spec fn decls_findings(text: Seq<char>, ds: Seq<(int, Seq<char>)>) -> Seq<CodeBugView>
    decreases ds.len(),
{
    if ds.len() == 0 {
        seq![]
    } else {
        let prev = decls_findings(text, ds.drop_last());
        match decl_finding(text, ds.last().0, ds.last().1) {
            Some(b) => prev.push(b),
            None => prev,
        }
    }
}

/// Declarations as byte offsets and names.
pub open spec fn decl_seq(decls: Seq<(usize, String)>) -> Seq<(int, Seq<char>)> {
    decls.map_values(|d: (usize, String)| (d.0 as int, d.1@))
}

/// The signer findings of one source file.
pub open spec fn file_findings(text: Seq<char>) -> Seq<CodeBugView> {
    decls_findings(text, struct_decls(text))
}

/// The signer findings of several source files, file after file.
pub open spec fn files_findings(files: Seq<Seq<char>>) -> Seq<CodeBugView>
    decreases files.len(),
{
    if files.len() == 0 {
        seq![]
    } else {
        files_findings(files.drop_last()) + file_findings(files.last())
    }
}

/// What an analysis reports: the linter's findings (or the placeholder for a
/// linter that could not run), then the signer findings (or the placeholder
/// for a scan that could not run).
pub open spec fn analysis_findings(linter: Option<Seq<char>>, files: Option<Seq<Seq<char>>>) -> Seq<
    CodeBugView,
> {
    let first = match linter {
        Some(out) => linter_findings(out),
        None => seq![linter_failed_finding()],
    };
    let second = match files {
        Some(fs) => files_findings(fs),
        None => seq![scan_failed_finding()],
    };
    first + second
}

fn severity_of(t: &Vec<char>) -> (r: BugSeverity)
    ensures
        r == severity_for(t@),
{
    if contains_str(t, "unsafe") {
        BugSeverity::High
    } else if contains_str(t, "unused") {
        BugSeverity::Low
    } else {
        BugSeverity::Medium
    }
}

fn fix_of(t: &Vec<char>) -> (r: String)
    ensures
        r@ == fix_for(t@),
{
    if contains_str(t, "unused variable") {
        String::from_str("Remove the unused variable or prefix it with an underscore (_)")
    } else if contains_str(t, "unused import") {
        String::from_str("Remove the unused import")
    } else if contains_str(t, "unsafe") {
        String::from_str("Avoid using unsafe code, use safe alternatives")
    } else {
        String::from_str("Review the code and fix the issue according to best practices")
    }
}

fn make_bug(bug: &str, line: u32, severity: BugSeverity, fix: &str) -> (r: CodeBug)
    ensures
        r@ == (CodeBugView { bug: bug@, line, severity, fix: fix@ }),
{
    CodeBug { bug: String::from_str(bug), line, severity, fix: String::from_str(fix) }
}

/// Counts the newline bytes among the first `end` bytes of `b`.
fn count_newlines(b: &[u8], end: usize) -> (r: usize)
    requires
        end <= b@.len(),
    ensures
        r == newline_count(b@.take(end as int)),
{
    let mut n: usize = 0;
    let mut i: usize = 0;
    while i < end
        invariant
            i <= end <= b@.len(),
            n == newline_count(b@.take(i as int)),
            n <= i,
        decreases end - i,
    {
        assert(b@.take(i + 1).drop_last() =~= b@.take(i as int));
        if b[i] == 10u8 {
            n = n + 1;
        }
        i = i + 1;
    }
    n
}

/// A directory entry is hidden when its name starts with a dot; the source
/// scan skips hidden files and directories.
pub fn is_hidden_name(name: &str) -> (r: bool)
    ensures
        r == (name@.len() > 0 && name@[0] == '.'),
{
    let c = chars_of(name);
    c.len() > 0 && c[0] == '.'
}

/// A file name names a Rust source file when its extension, the part after
/// its last dot, is `rs`; a name whose only dot comes first has no extension.
pub open spec fn is_rust_source(name: Seq<char>) -> bool {
    name.len() > 3 && name.subrange(name.len() - 3, name.len() as int) == ".rs"@
}

/// Whether a file name names a Rust source file, as `Path::extension` tells.
pub fn is_rust_source_name(name: &str) -> (r: bool)
    ensures
        r == is_rust_source(name@),
{
    let c = chars_of(name);
    let n = c.len();
    if n <= 3 {
        return false;
    }
    proof {
        reveal_strlit(".rs");
    }
    let r = c[n - 3] == '.' && c[n - 2] == 'r' && c[n - 1] == 's';
    let ghost tail = c@.subrange(n - 3, n as int);
    assert(tail[0] == c@[n - 3] && tail[1] == c@[n - 2] && tail[2] == c@[n - 1]);
    proof {
        if r {
            assert(tail =~= ".rs"@);
        } else if tail == ".rs"@ {
            assert(tail[0] == '.' && tail[1] == 'r' && tail[2] == 's');
        }
    }
    r
}

/// The lint engine.
pub struct CodeAnalyzer;

impl CodeAnalyzer {
    /// A lint engine; it holds no state.
    pub fn new() -> (r: Self) {
        CodeAnalyzer
    }

    /// The fix to suggest for a diagnostic text.
    pub fn suggest_fix(&self, bug_description: &str) -> (r: String)
        ensures
            r@ == fix_for(bug_description@),
    {
        let t = chars_of(bug_description);
        fix_of(&t)
    }

    /// The severity of a diagnostic text.
    pub fn severity(&self, bug_description: &str) -> (r: BugSeverity)
        ensures
            r == severity_for(bug_description@),
    {
        let t = chars_of(bug_description);
        severity_of(&t)
    }

    /// The finding that a diagnostic gives: one exactly when it has a text
    /// and its level is a warning or an error.
    pub fn normalize_diagnostic(&self, d: &Diagnostic) -> (r: Option<CodeBug>)
        ensures
            opt_bug_view(r) == normalized(d@),
    {
        let reported = match &d.level {
            Some(l) => d.has_text && (text_eq(l.as_str(), "warning") || text_eq(
                l.as_str(),
                "error",
            )),
            None => false,
        };
        if !reported {
            return None;
        }
        let text = match &d.text {
            Some(t) => t.clone(),
            None => String::from_str("Unknown issue"),
        };
        let line: u32 = match d.line_start {
            Some(n) => #[verifier::truncate]
            (n as u32),
            None => 0,
        };
        let t = chars_of(text.as_str());
        let severity = severity_of(&t);
        let fix = fix_of(&t);
        Some(CodeBug { bug: text, line, severity, fix })
    }

    /// The findings of the linter's whole output, line by line, with the
    /// placeholder when the output is not blank and no line gave a finding.
    pub fn parse_clippy_output(&self, clippy_output: &str) -> (r: Vec<CodeBug>)
        ensures
            bugs_view(r@) == linter_findings(clippy_output@),
    {
        let all = chars_of(clippy_output);
        let lines = split_lines(all.as_slice());
        let ghost ls = lines_of(clippy_output@);
        let mut bugs: Vec<CodeBug> = Vec::new();
        let mut i: usize = 0;
        while i < lines.len()
            invariant
                i <= lines@.len() == ls.len(),
                lines@.map_values(|l: Vec<char>| l@) == ls,
                bugs_view(bugs@) == lines_findings(ls.take(i as int)),
            decreases lines@.len() - i,
        {
            let line = &lines[i];
            assert(ls.take(i + 1).drop_last() =~= ls.take(i as int));
            assert(ls.take(i + 1).last() == line@);
            let ghost before = bugs@;
            let t = trim_chars(line.as_slice());
            if t.len() > 0 {
                let s = string_of(line.as_slice());
                match read_diagnostic(s.as_str()) {
                    Some(d) => {
                        match self.normalize_diagnostic(&d) {
                            Some(b) => {
                                bugs.push(b);
                                assert(bugs_view(bugs@) =~= bugs_view(before).push(b@));
                            },
                            None => {},
                        }
                    },
                    None => {},
                }
            }
            i = i + 1;
        }
        assert(ls.take(lines@.len() as int) =~= ls);
        if bugs.len() == 0 {
            let t = trim_chars(all.as_slice());
            if t.len() > 0 {
                bugs.push(
                    make_bug(
                        "Clippy output could not be parsed",
                        0,
                        BugSeverity::Low,
                        "Check the project structure and ensure it's a valid Rust project",
                    ),
                );
                assert(bugs_view(bugs@) =~= seq![unparsed_finding()]);
            }
        }
        bugs
    }

    /// The signer findings for the given declarations of `content`, each a
    /// byte offset where a declaration starts and the structure's name: one
    /// for each structure that the text uses as a signer, when the text has
    /// no signer attribute.
    pub fn findings_for_decls(&self, content: &str, decls: &Vec<(usize, String)>) -> (r: Vec<
        CodeBug,
    >)
        requires
            forall|k: int|
                0 <= k < decls@.len() ==> (#[trigger] decls@[k]).0 <= encode_utf8(content@).len(),
        ensures
            bugs_view(r@) == decls_findings(content@, decl_seq(decls@)),
    {
        let signer = signer_attribute_present(content);
        let chars = chars_of(content);
        let bytes = content.as_bytes();
        let ghost ds = decl_seq(decls@);
        let mut bugs: Vec<CodeBug> = Vec::new();
        let mut i: usize = 0;
        while i < decls.len()
            invariant
                i <= decls@.len() == ds.len(),
                ds == decl_seq(decls@),
                chars@ == content@,
                bytes@ == encode_utf8(content@),
                signer == has_signer_attribute(content@),
                forall|k: int|
                0 <= k < decls@.len() ==> (#[trigger] decls@[k]).0 <= encode_utf8(content@).len(),
                bugs_view(bugs@) == decls_findings(content@, ds.take(i as int)),
            decreases decls@.len() - i,
        {
            let start = decls[i].0;
            let name = &decls[i].1;
            assert(ds[i as int] == (start as int, name@));
            assert(ds.take(i + 1).drop_last() =~= ds.take(i as int));
            assert(ds.take(i + 1).last() == ds[i as int]);
            let ghost before = bugs@;
            let mut by_ref = name.clone();
            by_ref.append(": &Signer");
            let mut by_value = name.clone();
            by_value.append(": Signer");
            let used = contains_str(&chars, by_ref.as_str()) || contains_str(
                &chars,
                by_value.as_str(),
            );
            if used && !signer {
                let count = count_newlines(bytes, start);
                let c32: u32 = #[verifier::truncate]
                (count as u32);
                let line: u32 = if c32 == u32::MAX {
                    0
                } else {
                    c32 + 1
                };
                let mut bug = String::from_str("Missing #[account(signer)] attribute for ");
                bug.append(name.as_str());
                let mut fix = String::from_str("Add #[account(signer)] attribute to the ");
                fix.append(name.as_str());
                fix.append(" struct");
                bugs.push(CodeBug { bug, line, severity: BugSeverity::High, fix });
                assert(bugs_view(bugs@) =~= bugs_view(before).push(bugs@.last()@));
            }
            i = i + 1;
        }
        assert(ds.take(decls@.len() as int) =~= ds);
        bugs
    }

    /// The signer findings of one source file: each public structure that
    /// the file uses as a signer, when the file has no signer attribute.
    pub fn check_missing_signer_attribute(&self, content: &str) -> (r: Vec<CodeBug>)
        ensures
            bugs_view(r@) == file_findings(content@),
    {
        let decls = struct_declarations(content);
        assert(decl_seq(decls@) =~= struct_decls(content@));
        self.findings_for_decls(content, &decls)
    }

    /// The signer findings of several source files, file after file.
    pub fn run_anchor_lints(&self, sources: &Vec<String>) -> (r: Vec<CodeBug>)
        ensures
            bugs_view(r@) == files_findings(sources@.map_values(|s: String| s@)),
    {
        let ghost fs = sources@.map_values(|s: String| s@);
        let mut bugs: Vec<CodeBug> = Vec::new();
        let mut i: usize = 0;
        while i < sources.len()
            invariant
                i <= sources@.len() == fs.len(),
                fs == sources@.map_values(|s: String| s@),
                bugs_view(bugs@) == files_findings(fs.take(i as int)),
            decreases sources@.len() - i,
        {
            assert(fs.take(i + 1).drop_last() =~= fs.take(i as int));
            let mut found = self.check_missing_signer_attribute(sources[i].as_str());
            let ghost before = bugs@;
            let ghost added = found@;
            bugs.append(&mut found);
            assert(bugs_view(bugs@) =~= bugs_view(before) + bugs_view(added));
            i = i + 1;
        }
        assert(fs.take(sources@.len() as int) =~= fs);
        bugs
    }

    /// One analysis: the linter's output, or `None` when the linter could
    /// not be run; and the project's source files, or `None` when they could
    /// not be listed. Never fails: each part that could not run stands as one
    /// placeholder finding.
    pub fn analyze_outputs(&self, clippy_output: Option<&str>, sources: Option<&Vec<String>>) -> (r:
        Vec<CodeBug>)
        ensures
            bugs_view(r@) == analysis_findings(
                match clippy_output {
                    Some(o) => Some(o@),
                    None => None,
                },
                match sources {
                    Some(s) => Some(s@.map_values(|f: String| f@)),
                    None => None,
                },
            ),
    {
        let mut bugs = match clippy_output {
            Some(o) => self.parse_clippy_output(o),
            None => {
                let mut v: Vec<CodeBug> = Vec::new();
                v.push(
                    make_bug(
                        "Failed to run Cargo clippy analysis",
                        0,
                        BugSeverity::Low,
                        "Ensure Cargo and Clippy are installed and the project is a valid Rust project",
                    ),
                );
                assert(bugs_view(v@) =~= seq![linter_failed_finding()]);
                v
            },
        };
        let mut second = match sources {
            Some(s) => self.run_anchor_lints(s),
            None => {
                let mut v: Vec<CodeBug> = Vec::new();
                v.push(
                    make_bug(
                        "Failed to check for missing #[account(signer)] attributes",
                        0,
                        BugSeverity::Medium,
                        "Manually review your code for missing signer attributes",
                    ),
                );
                assert(bugs_view(v@) =~= seq![scan_failed_finding()]);
                v
            },
        };
        let ghost a = bugs@;
        let ghost b = second@;
        bugs.append(&mut second);
        assert(bugs_view(bugs@) =~= bugs_view(a) + bugs_view(b));
        bugs
    }
}

/// A single line of linter output that holds a diagnostic with a text and
/// the level `warning` or `error` gives exactly one finding: its text, the
/// line where its first span starts (or 0), and the severity and fix that the
/// text alone decides.
pub proof fn lemma_reported_line_gives_one_finding(line: Seq<char>)
    requires
        trimmed(line).len() > 0,
        forall|k: int| 0 <= k < line.len() ==> line[k] != '\n',
        diagnostic_of(line) is Some,
        is_reported(diagnostic_of(line)->0),
    ensures
        linter_findings(line).len() == 1,
        linter_findings(line)[0] == normalized(diagnostic_of(line)->0)->0,
        linter_findings(line)[0].severity == severity_for(linter_findings(line)[0].bug),
        linter_findings(line)[0].fix == fix_for(linter_findings(line)[0].bug),
{
    assert(line.len() > 0);
    lemma_single_line(line);
    let ls = seq![line];
    assert(ls.drop_last() =~= Seq::<Seq<char>>::empty());
    assert(ls.last() == line);
    assert(lines_findings(ls.drop_last()) == Seq::<CodeBugView>::empty());
    assert(line_finding(line) == normalized(diagnostic_of(line)->0));
    assert(lines_findings(ls) =~= seq![normalized(diagnostic_of(line)->0)->0]);
    assert(lines_findings(ls) == seq![normalized(diagnostic_of(line)->0)->0]);
}

proof fn lemma_unreadable_lines_give_nothing(ls: Seq<Seq<char>>)
    requires
        forall|k: int| 0 <= k < ls.len() ==> diagnostic_of(#[trigger] ls[k]) is None,
    ensures
        lines_findings(ls) == Seq::<CodeBugView>::empty(),
    decreases ls.len(),
{
    if ls.len() > 0 {
        assert(diagnostic_of(ls[ls.len() - 1]) is None);
        lemma_unreadable_lines_give_nothing(ls.drop_last());
    }
}

/// Linter output that is not blank but of which no line can be read gives
/// exactly one finding, the low-severity placeholder, and an analysis of it
/// starts with that placeholder and nothing else from the linter.
pub proof fn lemma_unreadable_output_gives_placeholder(
    out: Seq<char>,
    files: Option<Seq<Seq<char>>>,
)
    requires
        trimmed(out).len() > 0,
        forall|k: int|
            0 <= k < lines_of(out).len() ==> diagnostic_of(#[trigger] lines_of(out)[k]) is None,
    ensures
        linter_findings(out) == seq![unparsed_finding()],
        unparsed_finding().severity == BugSeverity::Low,
        analysis_findings(Some(out), files).len() >= 1,
        analysis_findings(Some(out), files)[0] == unparsed_finding(),
        analysis_findings(Some(out), files).drop_first() == match files {
            Some(fs) => files_findings(fs),
            None => seq![scan_failed_finding()],
        },
{
    lemma_unreadable_lines_give_nothing(lines_of(out));
    let second = match files {
        Some(fs) => files_findings(fs),
        None => seq![scan_failed_finding()],
    };
    assert((seq![unparsed_finding()] + second).drop_first() =~= second);
}

proof fn lemma_missing_signer_text_injective(a: Seq<char>, b: Seq<char>)
    requires
        missing_signer_text(a) == missing_signer_text(b),
    ensures
        a == b,
{
    let p = "Missing #[account(signer)] attribute for "@;
    assert(a =~= missing_signer_text(a).subrange(p.len() as int, missing_signer_text(a).len() as int));
    assert(b =~= missing_signer_text(b).subrange(p.len() as int, missing_signer_text(b).len() as int));
}

proof fn lemma_other_names_not_reported(text: Seq<char>, ds: Seq<(int, Seq<char>)>, name: Seq<char>)
    requires
        forall|j: int| 0 <= j < ds.len() ==> (#[trigger] ds[j]).1 != name,
    ensures
        forall|j: int|
            0 <= j < decls_findings(text, ds).len() ==> (#[trigger] decls_findings(text, ds)[j]).bug
                != missing_signer_text(name),
    decreases ds.len(),
{
    if ds.len() > 0 {
        let last = ds[ds.len() - 1];
        assert(forall|j: int| 0 <= j < ds.drop_last().len() ==> ds.drop_last()[j] == ds[j]);
        lemma_other_names_not_reported(text, ds.drop_last(), name);
        if missing_signer_text(last.1) == missing_signer_text(name) {
            lemma_missing_signer_text_injective(last.1, name);
        }
    }
}

proof fn lemma_unique_name_reported_once(text: Seq<char>, ds: Seq<(int, Seq<char>)>, k: int)
    requires
        0 <= k < ds.len(),
        forall|j: int| 0 <= j < ds.len() && j != k ==> (#[trigger] ds[j]).1 != ds[k].1,
        decl_finding(text, ds[k].0, ds[k].1) is Some,
    ensures
        exists|j: int|
            0 <= j < decls_findings(text, ds).len() && #[trigger] decls_findings(text, ds)[j]
                == decl_finding(text, ds[k].0, ds[k].1)->0,
        forall|j1: int, j2: int|
            0 <= j1 < decls_findings(text, ds).len() && 0 <= j2 < decls_findings(text, ds).len()
                && (#[trigger] decls_findings(text, ds)[j1]).bug == missing_signer_text(ds[k].1)
                && (#[trigger] decls_findings(text, ds)[j2]).bug == missing_signer_text(ds[k].1)
                ==> j1 == j2,
    decreases ds.len(),
{
    let name = ds[k].1;
    let prev = ds.drop_last();
    let fs = decls_findings(text, ds);
    let pf = decls_findings(text, prev);
    assert(forall|j: int| 0 <= j < prev.len() ==> prev[j] == ds[j]);
    if k == ds.len() - 1 {
        lemma_other_names_not_reported(text, prev, name);
        assert(fs == pf.push(decl_finding(text, ds[k].0, ds[k].1)->0));
        assert(fs[pf.len() as int] == decl_finding(text, ds[k].0, ds[k].1)->0);
    } else {
        lemma_unique_name_reported_once(text, prev, k);
        let last = ds[ds.len() - 1];
        assert(last.1 != name);
        let j0 = choose|j: int|
            0 <= j < pf.len() && #[trigger] pf[j] == decl_finding(text, ds[k].0, ds[k].1)->0;
        if decl_finding(text, last.0, last.1) is Some {
            assert(fs == pf.push(decl_finding(text, last.0, last.1)->0));
            assert(fs[j0] == pf[j0]);
            if missing_signer_text(last.1) == missing_signer_text(name) {
                lemma_missing_signer_text_injective(last.1, name);
            }
        } else {
            assert(fs == pf);
        }
    }
}

/// A public structure that a file declares once, uses as a signer
/// (`Name: Signer` or `Name: &Signer`), and that the file gives no signer
/// attribute anywhere, is reported exactly once: with high severity, and on
/// the line that follows the newlines before its declaration.
pub proof fn lemma_unmarked_signer_reported_once(text: Seq<char>, k: int)
    requires
        0 <= k < struct_decls(text).len(),
        forall|j: int|
            0 <= j < struct_decls(text).len() && j != k ==> (#[trigger] struct_decls(text)[j]).1
                != struct_decls(text)[k].1,
        used_as_signer(text, struct_decls(text)[k].1),
        !has_signer_attribute(text),
    ensures
        ({
            let name = struct_decls(text)[k].1;
            let fs = file_findings(text);
            &&& exists|j: int|
                0 <= j < fs.len() && #[trigger] fs[j] == (CodeBugView {
                    bug: missing_signer_text(name),
                    line: line_after(newline_count(encode_utf8(text).take(struct_decls(text)[k].0))),
                    severity: BugSeverity::High,
                    fix: "Add #[account(signer)] attribute to the "@ + name + " struct"@,
                })
            &&& forall|j1: int, j2: int|
                0 <= j1 < fs.len() && 0 <= j2 < fs.len() && (#[trigger] fs[j1]).bug
                    == missing_signer_text(name) && (#[trigger] fs[j2]).bug == missing_signer_text(
                    name,
                ) ==> j1 == j2
        }),
        newline_count(encode_utf8(text).take(struct_decls(text)[k].0)) + 1 < 0x1_0000_0000
            ==> line_after(newline_count(encode_utf8(text).take(struct_decls(text)[k].0)))
            == newline_count(encode_utf8(text).take(struct_decls(text)[k].0)) + 1,
{
    lemma_unique_name_reported_once(text, struct_decls(text), k);
}

proof fn lemma_marked_decls_give_nothing(text: Seq<char>, ds: Seq<(int, Seq<char>)>)
    requires
        has_signer_attribute(text),
    ensures
        decls_findings(text, ds) == Seq::<CodeBugView>::empty(),
    decreases ds.len(),
{
    if ds.len() > 0 {
        lemma_marked_decls_give_nothing(text, ds.drop_last());
    }
}

/// A file that holds a signer attribute anywhere gets no signer finding, for
/// any structure, whatever structure the attribute stands on.
pub proof fn lemma_signer_attribute_silences_file(text: Seq<char>)
    requires
        has_signer_attribute(text),
    ensures
        file_findings(text) == Seq::<CodeBugView>::empty(),
{
    lemma_marked_decls_give_nothing(text, struct_decls(text));
}

} // verus!
