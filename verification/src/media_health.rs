//! Whether the tools that decode and encode media are there.

use crate::command::Output;
use crate::findings::{
    CheckState, FindingSeverity, FindingView, InstallationFinding, InstallationGuide,
};
use crate::text;
use crate::text::texts;
use vstd::prelude::*;

verus! {

/// A line that lists the software encoder among the video encoders.
pub open spec fn lists_encoder(line: Seq<char>) -> bool {
    let words = text::words(line);
    words.len() >= 2 && words[0].len() > 0 && words[0][0] == 'V' && words[1] == "libx264"@
}

/// Whether any line from `i` on lists the software encoder.
pub open spec fn lists_from(lines: Seq<Seq<char>>, i: int) -> bool
    decreases lines.len() - i,
{
    if i < 0 || i >= lines.len() {
        false
    } else {
        lists_encoder(lines[i]) || lists_from(lines, i + 1)
    }
}

fn line_lists(line: &str) -> (r: bool)
    ensures
        r == lists_encoder(line@),
{
    let words = text::split_whitespace(line);
    let ghost all = texts(words@);
    assert(all.len() == words@.len());
    if words.len() < 2 {
        return false;
    }
    assert(all[0] == words@[0]@ && all[1] == words@[1]@);
    let flags = text::chars(words[0].as_str());
    flags.len() > 0 && flags[0] == 'V' && text::eq(words[1].as_str(), "libx264")
}

fn lists(output: &str) -> (r: bool)
    ensures
        r == lists_from(text::lines_of(output@), 0),
{
    let lines = text::lines(output);
    let ghost all = texts(lines@);
    let mut i: usize = 0;
    while i < lines.len()
        invariant
            all == texts(lines@),
            all == text::lines_of(output@),
            i <= lines@.len(),
            lists_from(all, 0) == lists_from(all, i as int),
        decreases lines@.len() - i,
    {
        assert(all[i as int] == lines@[i as int]@);
        if line_lists(lines[i].as_str()) {
            return true;
        }
        i += 1;
    }
    assert(all.len() == lines@.len());
    false
}

/// What running a tool says of it.
pub open spec fn verdict(tool: Seq<char>, output: Result<Output, String>) -> (CheckState, Seq<char>) {
    match output {
        Err(e) => (CheckState::Unavailable, tool + " could not be checked: "@ + e@),
        Ok(o) => if o.code != Some(0i32) {
            (CheckState::Failed, tool + " exited with "@ + o.status@)
        } else if tool == "ffmpeg"@ {
            if lists_from(text::lines_of(o.stdout@), 0) {
                (
                    CheckState::Passed,
                    tool + " runs in the daemon environment"@ + " and lists libx264"@,
                )
            } else {
                (
                    CheckState::Passed,
                    "ffmpeg is available but does not list the libx264 software encoder"@,
                )
            }
        } else {
            (CheckState::Passed, tool + " runs in the daemon environment"@)
        },
    }
}

pub open spec fn finding_of(tool: Seq<char>, output: Result<Output, String>) -> FindingView {
    FindingView {
        code: "media.tools."@ + tool,
        state: verdict(tool, output).0,
        severity: if verdict(tool, output).0 == CheckState::Passed {
            FindingSeverity::Info
        } else {
            FindingSeverity::Warning
        },
        feature: "Configured LCD media"@,
        context: "Selected daemon"@,
        title: tool + " availability"@,
        evidence: verdict(tool, output).1,
        remediation: "Install FFmpeg with ffprobe and libx264 in the daemon's environment (inside its Distrobox when applicable). Verify the service PATH, then Recheck and save the failed media settings to retry. No GPU encoder is required."@,
        guide: InstallationGuide::Troubleshooting,
    }
}

/// The finding on a media tool, by what running it gave.
pub fn evaluate(tool: &str, output: &Result<Output, String>) -> (r: InstallationFinding)
    ensures
        r@ == finding_of(tool@, *output),
{
    let (state, evidence) = match output {
        Err(e) => {
            let mut evidence = tool.to_owned();
            evidence.append(" could not be checked: ");
            evidence.append(e.as_str());
            (CheckState::Unavailable, evidence)
        },
        Ok(o) => {
            if !o.success() {
                let mut evidence = tool.to_owned();
                evidence.append(" exited with ");
                evidence.append(o.status.as_str());
                (CheckState::Failed, evidence)
            } else if text::eq(tool, "ffmpeg") {
                if lists(o.stdout.as_str()) {
                    let mut evidence = tool.to_owned();
                    evidence.append(" runs in the daemon environment");
                    evidence.append(" and lists libx264");
                    (CheckState::Passed, evidence)
                } else {
                    (
                        CheckState::Passed,
                        "ffmpeg is available but does not list the libx264 software encoder".to_owned(),
                    )
                }
            } else {
                let mut evidence = tool.to_owned();
                evidence.append(" runs in the daemon environment");
                (CheckState::Passed, evidence)
            }
        },
    };
    let mut code = "media.tools.".to_owned();
    code.append(tool);
    let mut title = tool.to_owned();
    title.append(" availability");
    InstallationFinding {
        code,
        state,
        severity: if state == CheckState::Passed {
            FindingSeverity::Info
        } else {
            FindingSeverity::Warning
        },
        feature: "Configured LCD media".to_owned(),
        context: "Selected daemon".to_owned(),
        title,
        evidence,
        remediation: "Install FFmpeg with ffprobe and libx264 in the daemon's environment (inside its Distrobox when applicable). Verify the service PATH, then Recheck and save the failed media settings to retry. No GPU encoder is required.".to_owned(),
        guide: InstallationGuide::Troubleshooting,
    }
}

/// The findings on both media tools, by what running them gave.
pub fn inspect(encoder: &Result<Output, String>, probe: &Result<Output, String>) -> (r: Vec<
    InstallationFinding,
>)
    ensures
        r@.len() == 2,
        r@[0]@ == finding_of("ffmpeg"@, *encoder),
        r@[1]@ == finding_of("ffprobe"@, *probe),
{
    let mut r: Vec<InstallationFinding> = Vec::new();
    r.push(evaluate("ffmpeg", encoder));
    r.push(evaluate("ffprobe", probe));
    r
}

/// The arguments for the encoders that `ffmpeg` has.
pub open spec fn encoder_arguments_of() -> Seq<Seq<char>> {
    seq![
        "-hide_banner"@,
        "-encoders"@,
    ]
}

pub fn encoder_arguments() -> (r: Vec<String>)
    ensures
        texts(r@) == encoder_arguments_of(),
{
    let mut r: Vec<String> = Vec::new();
    r.push("-hide_banner".to_owned());
    r.push("-encoders".to_owned());
    assert(texts(r@) =~= encoder_arguments_of());
    r
}

/// The arguments for the version of `ffprobe`.
pub open spec fn probe_arguments_of() -> Seq<Seq<char>> {
    seq![
        "-version"@,
    ]
}

pub fn probe_arguments() -> (r: Vec<String>)
    ensures
        texts(r@) == probe_arguments_of(),
{
    let mut r: Vec<String> = Vec::new();
    r.push("-version".to_owned());
    assert(texts(r@) =~= probe_arguments_of());
    r
}

/// A tool passes exactly where it could be run and succeeded, whatever it printed. It is then no more
/// than information, and otherwise a warning: open where it could not be run, a failure where it
/// ran and failed.
pub proof fn tools_pass_where_they_run(tool: Seq<char>, output: Result<Output, String>)
    ensures
        ({
            let found = finding_of(tool, output);
            &&& found.state == CheckState::Passed <==> output is Ok && output->Ok_0.code
                == Some(0i32)
            &&& found.state == CheckState::Failed <==> output is Ok && output->Ok_0.code
                != Some(0i32)
            &&& found.state == CheckState::Unavailable <==> output is Err
            &&& found.severity == FindingSeverity::Info <==> found.state == CheckState::Passed
            &&& found.severity == FindingSeverity::Warning <==> found.state != CheckState::Passed
            &&& found.code == "media.tools."@ + tool
        }),
{
}

/// The software encoder is listed exactly where some line has a flag of video before its name.
pub proof fn encoders_are_listed_by_some_line(lines: Seq<Seq<char>>, i: int)
    requires
        0 <= i,
    ensures
        lists_from(lines, i) <==> exists|k: int|
            i <= k < lines.len() && text::words(#[trigger] lines[k]).len() >= 2 && text::words(
                lines[k],
            )[0].len() > 0 && text::words(lines[k])[0][0] == 'V' && text::words(lines[k])[1]
                == "libx264"@,
    decreases lines.len() - i,
{
    if i < lines.len() {
        encoders_are_listed_by_some_line(lines, i + 1);
        if lists_encoder(lines[i]) {
            assert(text::words(lines[i]).len() >= 2);
        }
    }
}

/// A tool that runs is said to list the encoder only where it is the one that encodes and does.
pub proof fn encoders_are_told_of(output: Result<Output, String>, other: Seq<char>)
    requires
        output is Ok,
        output->Ok_0.code == Some(0i32),
        other != "ffmpeg"@,
    ensures
        finding_of("ffmpeg"@, output).evidence == (if lists_from(
            text::lines_of(output->Ok_0.stdout@),
            0,
        ) {
            "ffmpeg"@ + " runs in the daemon environment"@ + " and lists libx264"@
        } else {
            "ffmpeg is available but does not list the libx264 software encoder"@
        }),
        finding_of(other, output).evidence == other + " runs in the daemon environment"@,
{
}

} // verus!
