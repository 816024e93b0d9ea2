//! The three remote-invocable commands: directory analysis, the system
//! report, and the watch acknowledgment.

use vstd::prelude::*;

use crate::model::AnalysisResult;
use crate::model::AnalysisSummary;
use crate::model::Issue;
use crate::model::count_severity;
use crate::model::lemma_count_of_three;
use crate::model::summary_counts;

verus! {

/// The fields of the sample security finding.
pub open spec fn is_security_sample(i: Issue) -> bool {
    &&& i.id@ == "security_1"@
    &&& i.title@ == "Potential XSS Vulnerability"@
    &&& i.description@ == "Direct innerHTML assignment without sanitization"@
    &&& i.severity@ == "high"@
    &&& i.issue_type@ == "security"@
    &&& i.file_path@ == "src/components/App.tsx"@
    &&& i.line_number == 42
    &&& i.code_snippet@ == "element.innerHTML = userInput;"@
    &&& i.recommendation@ == "Use textContent or sanitize input before assignment"@
}

/// The fields of the sample performance finding.
pub open spec fn is_performance_sample(i: Issue) -> bool {
    &&& i.id@ == "performance_1"@
    &&& i.title@ == "Inefficient CSS Selector"@
    &&& i.description@ == "Complex CSS selector may impact performance"@
    &&& i.severity@ == "medium"@
    &&& i.issue_type@ == "performance"@
    &&& i.file_path@ == "src/styles/main.css"@
    &&& i.line_number == 15
    &&& i.code_snippet@ == "div > ul > li:nth-child(odd) > a[href*='example']"@
    &&& i.recommendation@ == "Consider using CSS classes for better performance"@
}

/// The fields of the sample quality finding.
pub open spec fn is_quality_sample(i: Issue) -> bool {
    &&& i.id@ == "quality_1"@
    &&& i.title@ == "Unused Variable"@
    &&& i.description@ == "Variable declared but never used"@
    &&& i.severity@ == "low"@
    &&& i.issue_type@ == "quality"@
    &&& i.file_path@ == "src/utils/helpers.js"@
    &&& i.line_number == 8
    &&& i.code_snippet@ == "const unusedVar = 'not used';"@
    &&& i.recommendation@ == "Remove unused variables to improve code clarity"@
}

/// The one report the analysis ever returns: the fixed file counts,
/// the three sample findings in order, and a summary of one issue per
/// severity.
pub open spec fn is_sample_report(r: AnalysisResult) -> bool {
    &&& r.total_files == 127
    &&& r.analyzed_files == 89
    &&& r.issues@.len() == 3
    &&& is_security_sample(r.issues@[0])
    &&& is_performance_sample(r.issues@[1])
    &&& is_quality_sample(r.issues@[2])
    &&& r.summary.total_issues == 3
    &&& r.summary.high_severity == 1
    &&& r.summary.medium_severity == 1
    &&& r.summary.low_severity == 1
}

/// Analyzes the directory at `path`. The path is not validated and not
/// read: on every input, the empty string included, the command
/// succeeds and returns the same report of three sample findings,
/// whose summary is counted from the issue list itself.
#[allow(unused_variables)]
pub fn analyze_directory(path: String) -> (r: Result<AnalysisResult, String>)
    ensures
        r is Ok,
        is_sample_report(r->Ok_0),
        summary_counts((r->Ok_0).issues@, (r->Ok_0).summary),
{
    let mut issues: Vec<Issue> = Vec::new();
    issues.push(
        Issue {
            id: String::from_str("security_1"),
            title: String::from_str("Potential XSS Vulnerability"),
            description: String::from_str("Direct innerHTML assignment without sanitization"),
            severity: String::from_str("high"),
            issue_type: String::from_str("security"),
            file_path: String::from_str("src/components/App.tsx"),
            line_number: 42,
            code_snippet: String::from_str("element.innerHTML = userInput;"),
            recommendation: String::from_str(
                "Use textContent or sanitize input before assignment",
            ),
        },
    );
    issues.push(
        Issue {
            id: String::from_str("performance_1"),
            title: String::from_str("Inefficient CSS Selector"),
            description: String::from_str("Complex CSS selector may impact performance"),
            severity: String::from_str("medium"),
            issue_type: String::from_str("performance"),
            file_path: String::from_str("src/styles/main.css"),
            line_number: 15,
            code_snippet: String::from_str("div > ul > li:nth-child(odd) > a[href*='example']"),
            recommendation: String::from_str("Consider using CSS classes for better performance"),
        },
    );
    issues.push(
        Issue {
            id: String::from_str("quality_1"),
            title: String::from_str("Unused Variable"),
            description: String::from_str("Variable declared but never used"),
            severity: String::from_str("low"),
            issue_type: String::from_str("quality"),
            file_path: String::from_str("src/utils/helpers.js"),
            line_number: 8,
            code_snippet: String::from_str("const unusedVar = 'not used';"),
            recommendation: String::from_str("Remove unused variables to improve code clarity"),
        },
    );
    let sev_high = String::from_str("high");
    let sev_medium = String::from_str("medium");
    let sev_low = String::from_str("low");
    let total_issues: usize = issues.len();
    let high_severity: usize = count_severity(&issues, &sev_high);
    let medium_severity: usize = count_severity(&issues, &sev_medium);
    let low_severity: usize = count_severity(&issues, &sev_low);
    proof {
        reveal_strlit("high");
        reveal_strlit("medium");
        reveal_strlit("low");
        lemma_count_of_three(issues@, "high"@);
        lemma_count_of_three(issues@, "medium"@);
        lemma_count_of_three(issues@, "low"@);
        assert("high"@.len() == 4 && "medium"@.len() == 6 && "low"@.len() == 3);
    }
    let summary = AnalysisSummary { total_issues, high_severity, medium_severity, low_severity };
    Ok(AnalysisResult { total_files: 127, analyzed_files: 89, issues, summary })
}

/// The exact text of the system report for a host named `os` running
/// on the architecture named `arch`.
pub open spec fn system_info_text(os: Seq<char>, arch: Seq<char>) -> Seq<char> {
    "DrillSargeant Desktop v1.0\nPlatform: "@ + os + "\nArchitecture: "@ + arch
}

/// Reports the product banner together with the host operating system
/// and CPU architecture it is given. Never fails.
pub fn get_system_info(os: &str, arch: &str) -> (r: Result<String, String>)
    ensures
        r is Ok,
        r->Ok_0@ == system_info_text(os@, arch@),
{
    let mut info = String::from_str("DrillSargeant Desktop v1.0\nPlatform: ");
    info.append(os);
    info.append("\nArchitecture: ");
    info.append(arch);
    proof {
        assert(info@ =~= system_info_text(os@, arch@));
    }
    Ok(info)
}

/// The system report opens with the product banner and carries the
/// host operating system and architecture names verbatim, at fixed
/// offsets behind their field labels.
pub proof fn lemma_system_info_parts(os: Seq<char>, arch: Seq<char>)
    ensures
        system_info_text(os, arch).subrange(0, 26) == "DrillSargeant Desktop v1.0"@,
        system_info_text(os, arch).subrange(37, 37 + os.len() as int) == os,
        system_info_text(os, arch).subrange(
            52 + os.len() as int,
            52 + os.len() as int + arch.len() as int,
        ) == arch,
{
    reveal_strlit("DrillSargeant Desktop v1.0\nPlatform: ");
    reveal_strlit("\nArchitecture: ");
    reveal_strlit("DrillSargeant Desktop v1.0");
    let text = system_info_text(os, arch);
    assert(text.subrange(0, 26) =~= "DrillSargeant Desktop v1.0"@);
    assert(text.subrange(37, 37 + os.len() as int) =~= os);
    assert(text.subrange(52 + os.len() as int, 52 + os.len() as int + arch.len() as int)
        =~= arch);
}

/// The exact text acknowledging a watch request on `path`.
pub open spec fn watch_ack_text(path: Seq<char>) -> Seq<char> {
    "Started monitoring: "@ + path
}

/// Accepts a request to watch `path` and acknowledges it. No watcher is
/// established; the command never fails, whatever the path.
pub fn watch_directory(path: String) -> (r: Result<String, String>)
    ensures
        r is Ok,
        r->Ok_0@ == watch_ack_text(path@),
{
    let mut ack = String::from_str("Started monitoring: ");
    ack.append(path.as_str());
    Ok(ack)
}

/// The acknowledgment names the monitoring action and carries the
/// requested path verbatim.
pub proof fn lemma_watch_ack_parts(path: Seq<char>)
    ensures
        watch_ack_text(path).subrange(0, 18) == "Started monitoring"@,
        watch_ack_text(path).subrange(20, 20 + path.len() as int) == path,
{
    reveal_strlit("Started monitoring: ");
    reveal_strlit("Started monitoring");
    assert(watch_ack_text(path).subrange(0, 18) =~= "Started monitoring"@);
    assert(watch_ack_text(path).subrange(20, 20 + path.len() as int) =~= path);
}

} // verus!
