//! What an examination of the installation found.

use vstd::prelude::*;

verus! {

#[derive(Clone, Copy, Debug, PartialEq, Eq, Structural)]
pub enum CheckState {
    Passed,
    Failed,
    Unavailable,
    NotApplicable,
}

#[derive(Clone, Copy, Debug, PartialEq, Eq, Structural)]
pub enum FindingSeverity {
    Info,
    Warning,
    Error,
}

#[derive(Clone, Copy, Debug, PartialEq, Eq, Structural)]
pub enum InstallationGuide {
    Distrobox,
    ServiceModes,
    Troubleshooting,
}

#[derive(Clone, Debug)]
pub struct InstallationFinding {
    pub code: String,
    pub state: CheckState,
    pub severity: FindingSeverity,
    pub feature: String,
    pub context: String,
    pub title: String,
    pub evidence: String,
    pub remediation: String,
    pub guide: InstallationGuide,
}

/// A finding as a value.
pub struct FindingView {
    pub code: Seq<char>,
    pub state: CheckState,
    pub severity: FindingSeverity,
    pub feature: Seq<char>,
    pub context: Seq<char>,
    pub title: Seq<char>,
    pub evidence: Seq<char>,
    pub remediation: Seq<char>,
    pub guide: InstallationGuide,
}

impl View for InstallationFinding {
    type V = FindingView;

    open spec fn view(&self) -> FindingView {
        FindingView {
            code: self.code@,
            state: self.state,
            severity: self.severity,
            feature: self.feature@,
            context: self.context@,
            title: self.title@,
            evidence: self.evidence@,
            remediation: self.remediation@,
            guide: self.guide,
        }
    }
}

/// The values of several findings.
pub open spec fn finding_views(findings: Seq<InstallationFinding>) -> Seq<FindingView> {
    Seq::new(findings.len(), |i: int| findings[i]@)
}

} // verus!
