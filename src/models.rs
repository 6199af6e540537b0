//! The records that the analysis and fuzzing services exchange with their
//! callers.
use vstd::prelude::*;

verus! {

/// How serious a finding is.
#[derive(Clone, Copy, Debug, PartialEq, Eq, Structural)]
pub enum BugSeverity {
    Low,
    Medium,
    High,
}

/// One reported issue: what it is, where (line 0 when unknown), how serious,
/// and how to fix it.
#[derive(Clone, Debug)]
pub struct CodeBug {
    pub bug: String,
    pub line: u32,
    pub severity: BugSeverity,
    pub fix: String,
}

/// The content of a `CodeBug`.
pub struct CodeBugView {
    pub bug: Seq<char>,
    pub line: u32,
    pub severity: BugSeverity,
    pub fix: Seq<char>,
}

impl View for CodeBug {
    type V = CodeBugView;

    open spec fn view(&self) -> CodeBugView {
        CodeBugView { bug: self.bug@, line: self.line, severity: self.severity, fix: self.fix@ }
    }
}

/// The contents of a sequence of findings.
pub open spec fn bugs_view(v: Seq<CodeBug>) -> Seq<CodeBugView> {
    v.map_values(|b: CodeBug| b@)
}

/// The content of an optional finding.
pub open spec fn opt_bug_view(b: Option<CodeBug>) -> Option<CodeBugView> {
    match b {
        Some(b) => Some(b@),
        None => None,
    }
}

/// A request to record a report in the ledger.
#[derive(Clone, Debug)]
pub struct ReportLogRequest {
    pub report_content: String,
}

/// The answer to a `ReportLogRequest`.
#[derive(Clone, Debug)]
pub struct ReportLogResponse {
    pub success: bool,
    pub message: String,
    pub transaction_signature: Option<String>,
    pub hash: Option<String>,
}

/// A request to fuzz one instruction of a repository.
#[derive(Clone, Debug)]
pub struct FuzzingRequest {
    pub repo_url: String,
    pub instruction_name: Option<String>,
    pub timeout_seconds: Option<u64>,
}

/// The answer to a `FuzzingRequest`.
#[derive(Clone, Debug)]
pub struct FuzzingResponse {
    pub success: bool,
    pub message: String,
    pub errors: Option<Vec<String>>,
    pub test_file: Option<String>,
    pub execution_time_ms: Option<u64>,
}

/// A request to analyse the code of a repository.
#[derive(Clone, Debug)]
pub struct CodeAnalysisRequest {
    pub repo_url: String,
}

/// The answer to a `CodeAnalysisRequest`.
#[derive(Clone, Debug)]
pub struct CodeAnalysisResponse {
    pub success: bool,
    pub message: String,
    pub bugs: Option<Vec<CodeBug>>,
}

/// Repository metadata from the source-hosting service.
#[derive(Clone, Debug)]
pub struct GitHubRepo {
    pub id: u64,
    pub name: String,
    pub full_name: String,
    pub description: Option<String>,
    pub html_url: String,
    pub stargazers_count: u32,
    pub forks_count: u32,
    pub open_issues_count: u32,
    pub owner: GitHubOwner,
    pub language: Option<String>,
    pub created_at: String,
    pub updated_at: String,
}

/// The owner of a repository.
#[derive(Clone, Debug)]
pub struct GitHubOwner {
    pub login: String,
    pub avatar_url: Option<String>,
}

/// One entry of a repository listing, or one file with its content.
#[derive(Clone, Debug)]
pub struct GitHubContent {
    pub name: String,
    pub path: String,
    pub sha: String,
    pub size: Option<u64>,
    /// "file", "dir", "symlink", ...
    pub content_type: String,
    pub download_url: Option<String>,
    pub html_url: String,
    pub content: Option<String>,
    pub encoding: Option<String>,
    pub url: String,
}

/// A request to ingest a repository.
#[derive(Clone, Debug)]
pub struct RepoIngestionRequest {
    pub repo_url: String,
}

/// The answer to a `RepoIngestionRequest`.
#[derive(Clone, Debug)]
pub struct RepoIngestionResponse {
    pub success: bool,
    pub message: String,
    pub repo: Option<GitHubRepo>,
    pub is_anchor_project: Option<bool>,
}

/// A request to list a directory of a repository.
#[derive(Clone, Debug)]
pub struct RepoContentsRequest {
    pub repo_url: String,
    pub path: Option<String>,
}

/// The answer to a `RepoContentsRequest`.
#[derive(Clone, Debug)]
pub struct RepoContentsResponse {
    pub success: bool,
    pub message: String,
    pub contents: Option<Vec<GitHubContent>>,
    pub file_content: Option<GitHubContent>,
    pub repo_url: String,
    pub path: String,
}

} // verus!
