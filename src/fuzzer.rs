//! The fuzz-harness generator and the classifier of its runs: a harness
//! project is pure text derived from an instruction name, and a run is judged
//! from its exit status, its duration and the evidence lines of its output.
use std::path::PathBuf;
use vstd::prelude::*;

use crate::models::FuzzingResponse;
use crate::text::{
    chars_of, contains_str, has_sub, lines_of, split_lines, string_of, text_eq, trim_chars, trimmed,
};

verus! {

/// The test source for the counter-increment instruction.
pub const INCREMENT_TEMPLATE: &'static str = r##"
#[cfg(test)]
mod tests {
    use proptest::prelude::*;
    use solana_program_test::*;
    use solana_sdk::{signature::Keypair, signer::Signer};
    use anchor_lang::prelude::*;
    
    proptest! {
        #[test]
        fn test_increment_fuzz(value in 0..=u64::MAX) {
            let program_id = Pubkey::new_unique();
            let counter = Keypair::new();
            let user = Keypair::new();
            
            // Create program test environment
            let mut program_test = ProgramTest::new(
                "counter_program",
                program_id,
                None,
            );
            
            // Add counter account
            program_test.add_account(
                counter.pubkey(),
                Account {
                    lamports: 1000000,
                    data: vec![0; 8], // Space for a u64
                    owner: program_id,
                    ..Account::default()
                },
            );
            
            // Start the test environment
            let (mut banks_client, payer, recent_blockhash) = program_test.start().unwrap();
            
            // Build transaction
            let mut transaction = solana_sdk::transaction::Transaction::new_with_payer(
                &[Instruction {
                    program_id,
                    accounts: vec![
                        AccountMeta::new(counter.pubkey(), false),
                        AccountMeta::new_readonly(user.pubkey(), true),
                    ],
                    data: [0, value.to_le_bytes().to_vec()].concat(), // 0 = increment instruction, followed by value
                }],
                Some(&payer.pubkey()),
            );
            
            transaction.sign(&[&payer, &user], recent_blockhash);
            
            // Process transaction with timeout
            let start = std::time::Instant::now();
            let timeout = std::time::Duration::from_secs(2);
            
            while start.elapsed() < timeout {
                match banks_client.process_transaction(transaction.clone()) {
                    Ok(_) => return Ok(()), // Success
                    Err(e) => {
                        // Check for overflow errors
                        if e.to_string().contains("overflow") {
                            println!("Found overflow error: {}", e);
                            return Err(TestCaseError::reject("Overflow detected"));
                        }
                        
                        // Check for account validation errors
                        if e.to_string().contains("account validation failed") {
                            println!("Found validation error: {}", e);
                            return Err(TestCaseError::reject("Validation failed"));
                        }
                    }
                }
            }
            
            // Timeout
            Err(TestCaseError::reject("Test timed out"))
        }
    }
}"##;

/// The generic test source up to the instruction name.
pub const GENERIC_HEAD: &'static str = r##"
#[cfg(test)]
mod tests {
    use proptest::prelude::*;
    use solana_program_test::*;
    use solana_sdk::{signature::Keypair, signer::Signer};
    use anchor_lang::prelude::*;
    
    proptest! {
        #[test]
        fn test_"##;

/// The generic test source after the instruction name.
pub const GENERIC_TAIL: &'static str = r##"_fuzz(
            // Generate random inputs based on instruction type
            value in 0..=u64::MAX,
        ) {
            let program_id = Pubkey::new_unique();
            let account = Keypair::new();
            let user = Keypair::new();
            
            // Create program test environment
            let mut program_test = ProgramTest::new(
                "anchor_program",
                program_id,
                None,
            );
            
            // Add test account
            program_test.add_account(
                account.pubkey(),
                Account {
                    lamports: 1000000,
                    data: vec![0; 32], // Generic space
                    owner: program_id,
                    ..Account::default()
                },
            );
            
            // Start the test environment
            let (mut banks_client, payer, recent_blockhash) = program_test.start().unwrap();
            
            // Build transaction with generic instruction
            let mut transaction = solana_sdk::transaction::Transaction::new_with_payer(
                &[Instruction {
                    program_id,
                    accounts: vec![
                        AccountMeta::new(account.pubkey(), false),
                        AccountMeta::new_readonly(user.pubkey(), true),
                    ],
                    data: vec![0, value.to_le_bytes().to_vec()].concat(), // Generic instruction data
                }],
                Some(&payer.pubkey()),
            );
            
            transaction.sign(&[&payer, &user], recent_blockhash);
            
            // Process transaction with timeout
            let start = std::time::Instant::now();
            let timeout = std::time::Duration::from_secs(2);
            
            while start.elapsed() < timeout {
                match banks_client.process_transaction(transaction.clone()) {
                    Ok(_) => return Ok(()), // Success
                    Err(e) => {
                        // Check for common errors
                        if e.to_string().contains("overflow") || 
                           e.to_string().contains("underflow") ||
                           e.to_string().contains("account validation failed") {
                            println!("Found error: {}", e);
                            return Err(TestCaseError::reject("Error detected"));
                        }
                    }
                }
            }
            
            // Timeout
            Err(TestCaseError::reject("Test timed out"))
        }
    }
}"##;

/// The build manifest of a harness project.
pub const HARNESS_MANIFEST: &'static str = r##"
[package]
name = "anchor_fuzz_tests"
version = "0.1.0"
edition = "2021"

[dependencies]
solana-program = "1.16"
solana-program-test = "1.16"
solana-sdk = "1.16"
proptest = "1.2"
anchor-lang = { version = "0.28.0", optional = true }

[lib]
name = "anchor_fuzz_tests"
path = "src/lib.rs"

[features]
default = ["anchor"]
anchor = ["anchor-lang"]
test-sbf = []
"##;

/// The time budget of a run when the request names none, and the largest
/// one that a request may name, in seconds.
pub const MAX_TIMEOUT_SECS: u64 = 120;

/// Which test template a harness uses.
#[derive(Clone, Copy, Debug, PartialEq, Eq, Structural)]
pub enum TemplateKind {
    /// The template written for the counter-increment instruction.
    Specialized,
    /// The template for any other instruction, with its name in it.
    Generic,
}

/// An instruction name and the template chosen for it.
#[derive(Clone, Debug)]
pub struct HarnessSpec {
    pub instruction_name: String,
    pub template_kind: TemplateKind,
}

/// The files of a harness project: the manifest, the library entry module
/// and the generated test module.
#[derive(Clone, Debug)]
pub struct HarnessProject {
    pub spec: HarnessSpec,
    /// The file name of the generated test module.
    pub test_file_name: String,
    /// The name under which the library entry module declares it.
    pub module_name: String,
    pub test_source: String,
    pub lib_source: String,
    pub manifest: String,
}

/// The outcome of one fuzz run.
#[derive(Clone, Debug)]
pub struct FuzzingResult {
    pub success: bool,
    pub timed_out: bool,
    pub errors: Vec<String>,
    pub execution_time_ms: u64,
}

/// The lower-case form of a text, as `str::to_lowercase` gives it.
pub uninterp spec fn lower_of(s: Seq<char>) -> Seq<char>;

/// Relies on `str::to_lowercase`: the result depends on the characters alone.
#[verifier::external_body]
fn lowercase(s: &str) -> (r: String)
    ensures
        r@ == lower_of(s@),
{
    s.to_lowercase()
}

/// The template for an instruction name already in lower case.
pub open spec fn kind_for(lowered: Seq<char>) -> TemplateKind {
    if lowered == "increment"@ {
        TemplateKind::Specialized
    } else {
        TemplateKind::Generic
    }
}

/// The generated test source for a template and an instruction name.
pub open spec fn test_text(kind: TemplateKind, name: Seq<char>) -> Seq<char> {
    match kind {
        TemplateKind::Specialized => INCREMENT_TEMPLATE@ + "\n"@,
        TemplateKind::Generic => GENERIC_HEAD@ + name + GENERIC_TAIL@ + "\n"@,
    }
}

/// The module name of the generated test for an instruction name.
pub open spec fn module_text(name: Seq<char>) -> Seq<char> {
    name + "_fuzz_test"@
}

/// The library entry module, which declares the generated test module.
pub open spec fn lib_text(name: Seq<char>) -> Seq<char> {
    "// Fuzz test harness\n#[allow(warnings)]\nmod "@ + module_text(name) + ";\n"@
}

/// A line of output is evidence of a defect when it holds one of the known
/// signatures.
pub open spec fn is_evidence(l: Seq<char>) -> bool {
    has_sub(l, "error:"@) || has_sub(l, "panicked"@) || has_sub(l, "overflow"@) || has_sub(
        l,
        "underflow"@,
    ) || has_sub(l, "validation failed"@) || has_sub(l, "Error:"@) || has_sub(l, "error[E"@)
}

/// The evidence lines among `ls`, trimmed, in order.
pub open spec fn evidence_of(ls: Seq<Seq<char>>) -> Seq<Seq<char>>
    decreases ls.len(),
{
    if ls.len() == 0 {
        seq![]
    } else if is_evidence(ls.last()) {
        evidence_of(ls.drop_last()).push(trimmed(ls.last()))
    } else {
        evidence_of(ls.drop_last())
    }
}

/// The evidence in a run's output: the lines of standard output, then those
/// of standard error.
pub open spec fn evidence_in(stdout: Seq<char>, stderr: Seq<char>) -> Seq<Seq<char>> {
    evidence_of(lines_of(stdout) + lines_of(stderr))
}

/// The texts of a sequence of strings.
pub open spec fn texts(v: Seq<String>) -> Seq<Seq<char>> {
    v.map_values(|s: String| s@)
}

/// A run has timed out when it took at least the budget.
pub open spec fn is_timed_out(elapsed_ms: u64, budget_secs: u64) -> bool {
    elapsed_ms >= budget_secs * 1000
}

/// The log of a run's output.
pub open spec fn log_text(stdout: Seq<char>, stderr: Seq<char>) -> Seq<char> {
    "STDOUT:\n"@ + stdout + "\n\nSTDERR:\n"@ + stderr + "\n"@
}

/// `p` is the harness project for the instruction name `name`.
pub open spec fn synthesized(name: Seq<char>, p: HarnessProject) -> bool {
    &&& p.spec.instruction_name@ == name
    &&& p.spec.template_kind == kind_for(lower_of(name))
    &&& p.test_source@ == test_text(p.spec.template_kind, name)
    &&& p.module_name@ == module_text(name)
    &&& p.test_file_name@ == module_text(name) + ".rs"@
    &&& p.lib_source@ == lib_text(name)
    &&& p.manifest@ == HARNESS_MANIFEST@ + "\n"@
}

/// `r` is the outcome of a run with that exit status, duration, budget and
/// output.
pub open spec fn classified(
    exit_success: bool,
    elapsed_ms: u64,
    time_limit_secs: u64,
    stdout: Seq<char>,
    stderr: Seq<char>,
    r: FuzzingResult,
) -> bool {
    &&& texts(r.errors@) == evidence_in(stdout, stderr)
    &&& r.timed_out == is_timed_out(elapsed_ms, time_limit_secs)
    &&& r.success == (exit_success && !r.timed_out && r.errors@.len() == 0)
    &&& r.execution_time_ms == elapsed_ms
}

/// The template for an instruction name already in lower case.
pub fn template_kind_for(lowered: &str) -> (r: TemplateKind)
    ensures
        r == kind_for(lowered@),
{
    if text_eq(lowered, "increment") {
        TemplateKind::Specialized
    } else {
        TemplateKind::Generic
    }
}

/// The generated test source for a template and an instruction name.
pub fn test_source(kind: TemplateKind, instruction_name: &str) -> (r: String)
    ensures
        r@ == test_text(kind, instruction_name@),
{
    match kind {
        TemplateKind::Specialized => {
            let mut s = String::from_str(INCREMENT_TEMPLATE);
            s.append("\n");
            s
        },
        TemplateKind::Generic => {
            let mut s = String::from_str(GENERIC_HEAD);
            s.append(instruction_name);
            s.append(GENERIC_TAIL);
            s.append("\n");
            s
        },
    }
}

/// The log of a run's output.
pub fn output_log(stdout: &str, stderr: &str) -> (r: String)
    ensures
        r@ == log_text(stdout@, stderr@),
{
    let mut s = String::from_str("STDOUT:\n");
    s.append(stdout);
    s.append("\n\nSTDERR:\n");
    s.append(stderr);
    s.append("\n");
    s
}

/// The directory path type of `std`, carried through unread.
#[verifier::external_type_specification]
#[verifier::external_body]
pub struct ExPathBuf(PathBuf);

/// The fuzz-harness generator, working under one temporary directory.
pub struct Fuzzer {
    pub temp_dir: PathBuf,
}

impl Fuzzer {
    /// A generator that works under `temp_dir`.
    pub fn new(temp_dir: PathBuf) -> (r: Self)
        ensures
            r.temp_dir == temp_dir,
    {
        Fuzzer { temp_dir }
    }

    /// The template chosen for an instruction name: the specialised one when
    /// the name is `increment` in any case.
    pub fn harness_spec(&self, instruction_name: &str) -> (r: HarnessSpec)
        ensures
            r.instruction_name@ == instruction_name@,
            r.template_kind == kind_for(lower_of(instruction_name@)),
    {
        let lowered = lowercase(instruction_name);
        HarnessSpec {
            instruction_name: String::from_str(instruction_name),
            template_kind: template_kind_for(lowered.as_str()),
        }
    }

    /// The harness project for an instruction name.
    pub fn synthesize(&self, instruction_name: &str) -> (r: HarnessProject)
        ensures
            synthesized(instruction_name@, r),
    {
        let spec = self.harness_spec(instruction_name);
        let test_source = test_source(spec.template_kind, instruction_name);
        let mut module_name = String::from_str(instruction_name);
        module_name.append("_fuzz_test");
        let mut test_file_name = module_name.clone();
        test_file_name.append(".rs");
        let mut lib_source = String::from_str("// Fuzz test harness\n#[allow(warnings)]\nmod ");
        lib_source.append(module_name.as_str());
        lib_source.append(";\n");
        let mut manifest = String::from_str(HARNESS_MANIFEST);
        manifest.append("\n");
        HarnessProject { spec, test_file_name, module_name, test_source, lib_source, manifest }
    }

    /// The evidence lines of a run's output: each line of standard output,
    /// then of standard error, that holds a known signature, trimmed.
    pub fn extract_errors(&self, stdout: &str, stderr: &str) -> (r: Vec<String>)
        ensures
            texts(r@) == evidence_in(stdout@, stderr@),
    {
        let out_chars = chars_of(stdout);
        let err_chars = chars_of(stderr);
        let mut lines = split_lines(out_chars.as_slice());
        let mut more = split_lines(err_chars.as_slice());
        let ghost a = lines@;
        let ghost b = more@;
        lines.append(&mut more);
        let ghost ls = lines_of(stdout@) + lines_of(stderr@);
        assert(lines@.map_values(|l: Vec<char>| l@) =~= ls) by {
            assert(lines@ == a + b);
            assert(a.map_values(|l: Vec<char>| l@) == lines_of(stdout@));
            assert(b.map_values(|l: Vec<char>| l@) == lines_of(stderr@));
        }
        let mut errors: Vec<String> = Vec::new();
        let mut i: usize = 0;
        while i < lines.len()
            invariant
                i <= lines@.len() == ls.len(),
                lines@.map_values(|l: Vec<char>| l@) == ls,
                texts(errors@) == evidence_of(ls.take(i as int)),
            decreases lines@.len() - i,
        {
            let line = &lines[i];
            assert(ls.take(i + 1).drop_last() =~= ls.take(i as int));
            assert(ls.take(i + 1).last() == line@);
            let ghost before = errors@;
            if is_evidence_line(line) {
                let t = trim_chars(line.as_slice());
                errors.push(string_of(t.as_slice()));
                assert(texts(errors@) =~= texts(before).push(t@));
            }
            i = i + 1;
        }
        assert(ls.take(lines@.len() as int) =~= ls);
        errors
    }

    /// The outcome of a run from its exit status, its duration, the budget
    /// it had and its output. It has timed out when it took at least the
    /// budget, and succeeded only when it exited successfully, did not time
    /// out, and left no evidence.
    pub fn classify_run(
        &self,
        exit_success: bool,
        elapsed_ms: u64,
        time_limit_secs: u64,
        stdout: &str,
        stderr: &str,
    ) -> (r: FuzzingResult)
        ensures
            classified(exit_success, elapsed_ms, time_limit_secs, stdout@, stderr@, r),
    {
        let errors = self.extract_errors(stdout, stderr);
        let timed_out = elapsed_ms / 1000 >= time_limit_secs;
        assert(timed_out == is_timed_out(elapsed_ms, time_limit_secs)) by (nonlinear_arith)
            requires
                timed_out == (elapsed_ms / 1000 >= time_limit_secs),
        {
        }
        let success = exit_success && !timed_out && errors.len() == 0;
        FuzzingResult { success, timed_out, errors, execution_time_ms: elapsed_ms }
    }
}

fn is_evidence_line(l: &Vec<char>) -> (r: bool)
    ensures
        r == is_evidence(l@),
{
    contains_str(l, "error:") || contains_str(l, "panicked") || contains_str(l, "overflow")
        || contains_str(l, "underflow") || contains_str(l, "validation failed") || contains_str(
        l,
        "Error:",
    ) || contains_str(l, "error[E")
}

proof fn lemma_no_evidence(ls: Seq<Seq<char>>)
    requires
        forall|k: int| 0 <= k < ls.len() ==> !is_evidence(#[trigger] ls[k]),
    ensures
        evidence_of(ls) == Seq::<Seq<char>>::empty(),
    decreases ls.len(),
{
    if ls.len() > 0 {
        assert(!is_evidence(ls[ls.len() - 1]));
        lemma_no_evidence(ls.drop_last());
    }
}

proof fn lemma_evidence_kept(ls: Seq<Seq<char>>, k: int)
    requires
        0 <= k < ls.len(),
        is_evidence(ls[k]),
    ensures
        evidence_of(ls).contains(trimmed(ls[k])),
    decreases ls.len(),
{
    let prev = ls.drop_last();
    if k == ls.len() - 1 {
        let e = evidence_of(prev).push(trimmed(ls[k]));
        assert(e[e.len() - 1] == trimmed(ls[k]));
    } else {
        assert(prev[k] == ls[k]);
        lemma_evidence_kept(prev, k);
        let i = choose|i: int| 0 <= i < evidence_of(prev).len() && evidence_of(prev)[i] == trimmed(ls[k]);
        if is_evidence(ls.last()) {
            assert(evidence_of(ls)[i] == trimmed(ls[k]));
        }
    }
}

/// The evidence of two sequences of lines, one after the other, is the
/// evidence of the first followed by that of the second.
pub proof fn lemma_evidence_concat(a: Seq<Seq<char>>, b: Seq<Seq<char>>)
    ensures
        evidence_of(a + b) == evidence_of(a) + evidence_of(b),
    decreases b.len(),
{
    if b.len() == 0 {
        assert(a + b =~= a);
        assert(evidence_of(a) + evidence_of(b) =~= evidence_of(a));
    } else {
        lemma_evidence_concat(a, b.drop_last());
        assert((a + b).drop_last() =~= a + b.drop_last());
        assert((a + b).last() == b.last());
        if is_evidence(b.last()) {
            assert(evidence_of(a) + evidence_of(b) =~= (evidence_of(a) + evidence_of(
                b.drop_last(),
            )).push(trimmed(b.last())));
        }
    }
}

/// Output in which no line holds an error signature gives no evidence; and
/// the evidence always lists the lines of standard output first, then those
/// of standard error, each stream in its own order.
pub proof fn lemma_evidence_order_and_absence(stdout: Seq<char>, stderr: Seq<char>)
    ensures
        evidence_in(stdout, stderr) == evidence_of(lines_of(stdout)) + evidence_of(
            lines_of(stderr),
        ),
        (forall|k: int|
            0 <= k < lines_of(stdout).len() ==> !is_evidence(#[trigger] lines_of(stdout)[k]))
            && (forall|k: int|
            0 <= k < lines_of(stderr).len() ==> !is_evidence(#[trigger] lines_of(stderr)[k]))
            ==> evidence_in(stdout, stderr) == Seq::<Seq<char>>::empty(),
{
    lemma_evidence_concat(lines_of(stdout), lines_of(stderr));
    if (forall|k: int|
        0 <= k < lines_of(stdout).len() ==> !is_evidence(#[trigger] lines_of(stdout)[k])) && (
    forall|k: int| 0 <= k < lines_of(stderr).len() ==> !is_evidence(#[trigger] lines_of(stderr)[k])) {
        lemma_no_evidence(lines_of(stdout));
        lemma_no_evidence(lines_of(stderr));
        assert(Seq::<Seq<char>>::empty() + Seq::<Seq<char>>::empty() =~= Seq::<Seq<char>>::empty());
    }
}

/// A run that exits successfully within its budget, and whose output holds
/// no error signature, succeeds, has not timed out, and has no errors.
pub proof fn lemma_clean_run_succeeds(
    elapsed_ms: u64,
    time_limit_secs: u64,
    stdout: Seq<char>,
    stderr: Seq<char>,
    r: FuzzingResult,
)
    requires
        classified(true, elapsed_ms, time_limit_secs, stdout, stderr, r),
        elapsed_ms < time_limit_secs * 1000,
        forall|k: int| 0 <= k < lines_of(stdout).len() ==> !is_evidence(#[trigger] lines_of(stdout)[k]),
        forall|k: int| 0 <= k < lines_of(stderr).len() ==> !is_evidence(#[trigger] lines_of(stderr)[k]),
    ensures
        r.success,
        !r.timed_out,
        r.errors@.len() == 0,
{
    lemma_evidence_order_and_absence(stdout, stderr);
    assert(texts(r.errors@).len() == 0);
}

/// A run whose output holds a line with an error signature fails, whatever
/// its exit status, and that line, trimmed, is among its errors.
pub proof fn lemma_evidence_fails_run(
    exit_success: bool,
    elapsed_ms: u64,
    time_limit_secs: u64,
    stdout: Seq<char>,
    stderr: Seq<char>,
    r: FuzzingResult,
    k: int,
)
    requires
        classified(exit_success, elapsed_ms, time_limit_secs, stdout, stderr, r),
        0 <= k < lines_of(stdout).len() + lines_of(stderr).len(),
        is_evidence((lines_of(stdout) + lines_of(stderr))[k]),
    ensures
        !r.success,
        texts(r.errors@).contains(trimmed((lines_of(stdout) + lines_of(stderr))[k])),
{
    lemma_evidence_kept(lines_of(stdout) + lines_of(stderr), k);
    assert(texts(r.errors@).len() > 0);
}

/// Synthesis depends on the instruction name alone: two projects made for
/// the same name hold the same text, file for file.
pub proof fn lemma_synthesis_repeatable(name: Seq<char>, p: HarnessProject, q: HarnessProject)
    requires
        synthesized(name, p),
        synthesized(name, q),
    ensures
        p.test_source@ == q.test_source@,
        p.lib_source@ == q.lib_source@,
        p.manifest@ == q.manifest@,
        p.test_file_name@ == q.test_file_name@,
        p.spec.template_kind == q.spec.template_kind,
{
}

/// The instruction name and time budget of a request: `increment` and the
/// largest budget where the request names none; a budget over the largest is
/// refused.
pub open spec fn settings_for(instruction_name: Option<Seq<char>>, timeout_seconds: Option<u64>) -> Result<
    (Seq<char>, u64),
    Seq<char>,
> {
    let budget = match timeout_seconds {
        Some(t) => t,
        None => MAX_TIMEOUT_SECS,
    };
    if budget > MAX_TIMEOUT_SECS {
        Err("Timeout cannot exceed 120 seconds"@)
    } else {
        Ok(
            (
                match instruction_name {
                    Some(n) => n,
                    None => "increment"@,
                },
                budget,
            ),
        )
    }
}

/// The instruction name and time budget of a fuzzing request, or the reason
/// it is refused.
pub fn fuzz_settings(instruction_name: Option<String>, timeout_seconds: Option<u64>) -> (r: Result<
    (String, u64),
    String,
>)
    ensures
        match (r, settings_for(
            match instruction_name {
                Some(n) => Some(n@),
                None => None,
            },
            timeout_seconds,
        )) {
            (Ok((n, t)), Ok((sn, st))) => n@ == sn && t == st,
            (Err(e), Err(se)) => e@ == se,
            _ => false,
        },
{
    let budget = match timeout_seconds {
        Some(t) => t,
        None => MAX_TIMEOUT_SECS,
    };
    if budget > MAX_TIMEOUT_SECS {
        return Err(String::from_str("Timeout cannot exceed 120 seconds"));
    }
    let name = match instruction_name {
        Some(n) => n,
        None => String::from_str("increment"),
    };
    Ok((name, budget))
}

/// The message that reports a run: a timeout first, then whether it left
/// evidence.
pub open spec fn response_message(timed_out: bool, no_errors: bool) -> Seq<char> {
    if timed_out {
        "Fuzzing tests timed out"@
    } else if no_errors {
        "Fuzzing tests completed successfully"@
    } else {
        "Fuzzing tests found potential issues"@
    }
}

/// The answer to a fuzzing request whose run completed: the run's success,
/// a message, its errors when there are any, the generated test source, and
/// the time the whole request took.
pub fn fuzzing_response(result: FuzzingResult, test_file: Option<String>, execution_time_ms: u64) -> (r:
    FuzzingResponse)
    ensures
        r.success == result.success,
        r.message@ == response_message(result.timed_out, result.errors@.len() == 0),
        r.errors is None <==> result.errors@.len() == 0,
        r.errors is Some ==> r.errors->0@ == result.errors@,
        r.test_file == test_file,
        r.execution_time_ms == Some(execution_time_ms),
{
    let no_errors = result.errors.len() == 0;
    let message = if result.timed_out {
        String::from_str("Fuzzing tests timed out")
    } else if no_errors {
        String::from_str("Fuzzing tests completed successfully")
    } else {
        String::from_str("Fuzzing tests found potential issues")
    };
    FuzzingResponse {
        success: result.success,
        message,
        errors: if no_errors {
            None
        } else {
            Some(result.errors)
        },
        test_file,
        execution_time_ms: Some(execution_time_ms),
    }
}

} // verus!
