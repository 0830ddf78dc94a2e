//! How the pattern analyzer is run and what its exit means.
use vstd::prelude::*;
use std::time::Duration;
use crate::scanner::traits::{ScanError, ScanErrorView};
use crate::text::push_text;

verus! {

/// The duration of a whole number of seconds.
pub uninterp spec fn duration_of_secs(secs: u64) -> Duration;

/// `Duration::from_secs`: the duration of the given number of whole seconds.
pub assume_specification[ Duration::from_secs ](secs: u64) -> (d: Duration)
    ensures
        d == duration_of_secs(secs),
;

/// The pattern analyzer, which runs in a container.
pub struct SemgrepScanner {
    pub container_name: String,
    pub timeout: Duration,
}

impl SemgrepScanner {
    /// The analyzer in its usual container, with five minutes for a scan.
    pub fn new() -> (scanner: Self)
        ensures
            scanner.container_name@ == "legalscanner-semgrep"@,
            scanner.timeout == duration_of_secs(300),
    {
        SemgrepScanner {
            container_name: String::from_str("legalscanner-semgrep"),
            timeout: Duration::from_secs(300),
        }
    }

    /// The same analyzer with another time allowed for a scan.
    pub fn with_timeout(self, timeout: Duration) -> (scanner: Self)
        ensures
            scanner.container_name == self.container_name,
            scanner.timeout == timeout,
    {
        SemgrepScanner { container_name: self.container_name, timeout }
    }

    /// The name by which the analyzer is known.
    pub fn name(&self) -> (name: &'static str)
        ensures
            name@ == "semgrep"@,
    {
        "semgrep"
    }
}

impl Default for SemgrepScanner {
    fn default() -> (scanner: Self)
        ensures
            scanner.container_name@ == "legalscanner-semgrep"@,
            scanner.timeout == duration_of_secs(300),
    {
        SemgrepScanner::new()
    }
}

/// The arguments with which `docker` runs a scan of `scan_path` in the
/// given container: the rules for export control and cryptography, JSON
/// output, no regard to ignore files, and a memory limit of 2000 MB.
pub open spec fn scan_arguments(container: Seq<char>, scan_path: Seq<char>) -> Seq<Seq<char>> {
    seq![
        "exec"@,
        container,
        "semgrep"@,
        "--config"@,
        "/semgrep-rules/ecc-crypto-detection.yaml"@,
        "--json"@,
        "--no-git-ignore"@,
        "--max-memory"@,
        "2000"@,
        scan_path,
    ]
}

/// The arguments with which `docker` asks the analyzer for its version.
pub open spec fn version_arguments(container: Seq<char>) -> Seq<Seq<char>> {
    seq!["exec"@, container, "semgrep"@, "--version"@]
}

fn arguments(items: [&str; 10]) -> (v: Vec<String>)
    ensures
        v.deep_view() == Seq::new(10, |i: int| items[i]@),
{
    let mut v: Vec<String> = Vec::new();
    let mut i: usize = 0;
    while i < 10
        invariant
            i <= 10,
            v.deep_view() =~= Seq::new(i as nat, |k: int| items[k]@),
        decreases 10 - i,
    {
        let ghost before = v.deep_view();
        let item = String::from_str(items[i]);
        v.push(item);
        assert(v.deep_view() =~= before.push(item@));
        i += 1;
    }
    v
}

impl SemgrepScanner {
    /// Where the analyzer finds a repository: the workspace root as the
    /// container sees it, and the repository's folder. A path without text
    /// or without a folder name gives `Failed`.
    pub fn scan_path(repo_path: Option<&str>, folder_name: Option<&str>) -> (r: Result<
        String,
        ScanError,
    >)
        ensures
            match r {
                Ok(path) => repo_path is Some && folder_name is Some && path@ == "/scans/scans/"@
                    + folder_name->0@,
                Err(e) => if repo_path is None {
                    e@ == ScanErrorView::Failed("Invalid repository path"@)
                } else {
                    folder_name is None && e@ == ScanErrorView::Failed(
                        "Could not determine repo folder name"@,
                    )
                },
            },
    {
        if repo_path.is_none() {
            return Err(ScanError::Failed(String::from_str("Invalid repository path")));
        }
        match folder_name {
            Some(name) => {
                let mut path = String::from_str("/scans/scans/");
                push_text(&mut path, name);
                Ok(path)
            },
            None => Err(
                ScanError::Failed(String::from_str("Could not determine repo folder name")),
            ),
        }
    }

    /// The arguments with which `docker` runs a scan.
    pub fn scan_command(&self, scan_path: &str) -> (command: Vec<String>)
        ensures
            command.deep_view() == scan_arguments(self.container_name@, scan_path@),
    {
        let command = arguments(
            [
                "exec",
                self.container_name.as_str(),
                "semgrep",
                "--config",
                "/semgrep-rules/ecc-crypto-detection.yaml",
                "--json",
                "--no-git-ignore",
                "--max-memory",
                "2000",
                scan_path,
            ],
        );
        assert(command.deep_view() =~= scan_arguments(self.container_name@, scan_path@));
        command
    }

    /// The arguments with which `docker` asks the analyzer for its version.
    pub fn version_command(&self) -> (command: Vec<String>)
        ensures
            command.deep_view() == version_arguments(self.container_name@),
    {
        let mut command: Vec<String> = Vec::new();
        command.push(String::from_str("exec"));
        command.push(self.container_name.clone());
        command.push(String::from_str("semgrep"));
        command.push(String::from_str("--version"));
        assert(command.deep_view() =~= version_arguments(self.container_name@));
        command
    }

    /// What the end of a scan means: an analyzer that failed and wrote no
    /// report gives `Failed` with what it wrote to its error stream; one
    /// that failed but wrote a report is taken by its report.
    pub fn scan_outcome(succeeded: bool, report_is_empty: bool, errors: &str) -> (r: Result<
        (),
        ScanError,
    >)
        ensures
            match r {
                Ok(_) => succeeded || !report_is_empty,
                Err(e) => !succeeded && report_is_empty && e@ == ScanErrorView::Failed(
                    "Semgrep scan failed: "@ + errors@,
                ),
            },
    {
        if !succeeded && report_is_empty {
            let mut message = String::from_str("Semgrep scan failed: ");
            push_text(&mut message, errors);
            Err(ScanError::Failed(message))
        } else {
            Ok(())
        }
    }

    /// What the end of the version check means: an analyzer that failed is
    /// `Unavailable`, with what it wrote to its error stream.
    pub fn health_outcome(succeeded: bool, errors: &str) -> (r: Result<(), ScanError>)
        ensures
            match r {
                Ok(_) => succeeded,
                Err(e) => !succeeded && e@ == ScanErrorView::Unavailable(
                    "Semgrep is not available: "@ + errors@,
                ),
            },
    {
        if !succeeded {
            let mut message = String::from_str("Semgrep is not available: ");
            push_text(&mut message, errors);
            Err(ScanError::Unavailable(message))
        } else {
            Ok(())
        }
    }

    /// The error for an analyzer that could not be run at all.
    pub fn not_executed(reason: &str) -> (e: ScanError)
        ensures
            e@ == ScanErrorView::Failed("Failed to execute Semgrep: "@ + reason@),
    {
        let mut message = String::from_str("Failed to execute Semgrep: ");
        push_text(&mut message, reason);
        ScanError::Failed(message)
    }

    /// The error for a version check that could not be run at all.
    pub fn not_checked(reason: &str) -> (e: ScanError)
        ensures
            e@ == ScanErrorView::Unavailable("Failed to check Semgrep version: "@ + reason@),
    {
        let mut message = String::from_str("Failed to check Semgrep version: ");
        push_text(&mut message, reason);
        ScanError::Unavailable(message)
    }

    /// The error for a report that is no text.
    pub fn not_text(reason: &str) -> (e: ScanError)
        ensures
            e@ == ScanErrorView::ParseError("Invalid UTF-8 in Semgrep output: "@ + reason@),
    {
        let mut message = String::from_str("Invalid UTF-8 in Semgrep output: ");
        push_text(&mut message, reason);
        ScanError::ParseError(message)
    }
}

} // verus!
