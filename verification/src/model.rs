//! Data shapes of an analysis report: the issues found, the severity
//! summary over them, and the aggregate result handed to the front end.

use vstd::prelude::*;

verus! {

/// One reported finding: severity and category labels, location, a code
/// excerpt, and remediation text. The labels are free-form strings; the
/// conventional values are severities `high` / `medium` / `low` and
/// categories `security` / `performance` / `quality`.
#[derive(Debug)]
pub struct Issue {
    pub id: String,
    pub title: String,
    pub description: String,
    pub severity: String,
    pub issue_type: String,
    pub file_path: String,
    pub line_number: u32,
    pub code_snippet: String,
    pub recommendation: String,
}

/// Counts over an issue list: the total and how many issues carry each
/// of the three severity labels.
#[derive(Debug)]
pub struct AnalysisSummary {
    pub total_issues: usize,
    pub high_severity: usize,
    pub medium_severity: usize,
    pub low_severity: usize,
}

/// The full payload of one directory analysis: how many files were seen
/// and analyzed, the issues, and their summary.
#[derive(Debug)]
pub struct AnalysisResult {
    pub total_files: usize,
    pub analyzed_files: usize,
    pub issues: Vec<Issue>,
    pub summary: AnalysisSummary,
}

/// How many issues of `issues` carry exactly the severity label `sev`.
pub open spec fn count_with_severity(issues: Seq<Issue>, sev: Seq<char>) -> nat
    decreases issues.len(),
{
    if issues.len() == 0 {
        0
    } else {
        count_with_severity(issues.drop_last(), sev) + if issues.last().severity@ == sev {
            1nat
        } else {
            0nat
        }
    }
}

/// A summary is faithful to an issue list when its total is the list's
/// length and each severity field counts the issues with that label.
pub open spec fn summary_counts(issues: Seq<Issue>, summary: AnalysisSummary) -> bool {
    &&& summary.total_issues == issues.len()
    &&& summary.high_severity == count_with_severity(issues, "high"@)
    &&& summary.medium_severity == count_with_severity(issues, "medium"@)
    &&& summary.low_severity == count_with_severity(issues, "low"@)
}

/// When every issue carries one of the labels `high`, `medium` or
/// `low`, the three severity counts partition the list: they add up to
/// its length.
pub proof fn lemma_severity_counts_partition(issues: Seq<Issue>)
    requires
        forall|k: int|
            0 <= k < issues.len() ==> issues[k].severity@ == "high"@
                || issues[k].severity@ == "medium"@ || issues[k].severity@ == "low"@,
    ensures
        count_with_severity(issues, "high"@) + count_with_severity(issues, "medium"@)
            + count_with_severity(issues, "low"@) == issues.len(),
    decreases issues.len(),
{
    reveal_strlit("high");
    reveal_strlit("medium");
    reveal_strlit("low");
    if issues.len() > 0 {
        let rest = issues.drop_last();
        assert forall|k: int|
            0 <= k < rest.len() implies rest[k].severity@ == "high"@
            || rest[k].severity@ == "medium"@ || rest[k].severity@ == "low"@ by {
            assert(rest[k] == issues[k]);
        }
        lemma_severity_counts_partition(rest);
        assert("high"@.len() == 4 && "medium"@.len() == 6 && "low"@.len() == 3);
    }
}

/// Over a three-issue list, the severity count is the sum of the three
/// per-issue indicators.
pub(crate) proof fn lemma_count_of_three(s: Seq<Issue>, sev: Seq<char>)
    requires
        s.len() == 3,
    ensures
        count_with_severity(s, sev) == (if s[0].severity@ == sev {
            1nat
        } else {
            0nat
        }) + (if s[1].severity@ == sev {
            1nat
        } else {
            0nat
        }) + (if s[2].severity@ == sev {
            1nat
        } else {
            0nat
        }),
{
    reveal_with_fuel(count_with_severity, 4);
    let s2 = s.drop_last();
    let s1 = s2.drop_last();
    let s0 = s1.drop_last();
    assert(s.last() == s[2] && s2.last() == s[1] && s1.last() == s[0]);
    assert(s0.len() == 0);
    assert(count_with_severity(s0, sev) == 0);
}

/// Counts the issues whose severity equals `sev`.
pub fn count_severity(issues: &Vec<Issue>, sev: &String) -> (n: usize)
    ensures
        n == count_with_severity(issues@, sev@),
{
    let mut n: usize = 0;
    let mut k: usize = 0;
    while k < issues.len()
        invariant
            k <= issues@.len(),
            n <= k,
            n == count_with_severity(issues@.take(k as int), sev@),
        decreases issues@.len() - k,
    {
        proof {
            assert(issues@.take(k as int + 1).drop_last() =~= issues@.take(k as int));
            assert(issues@.take(k as int + 1).last() == issues@[k as int]);
        }
        if issues[k].severity == *sev {
            n = n + 1;
        }
        k = k + 1;
    }
    proof {
        assert(issues@.take(issues@.len() as int) =~= issues@);
    }
    n
}

} // verus!
