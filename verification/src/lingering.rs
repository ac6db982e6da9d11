//! Whether the host keeps an account's services running while the account is logged out.

use crate::command::Output;
use crate::findings::{
    CheckState, FindingSeverity, FindingView, InstallationFinding, InstallationGuide,
};
use crate::services::{ServiceProbe, ServiceReport};
use crate::text;
use crate::text::{outcome, texts};
use vstd::prelude::*;

verus! {

pub open spec fn guidance_of(uid: u32) -> Seq<char> {
    "On the host, run sudo loginctl enable-linger "@ + text::decimal(uid as nat)
        + ", then Recheck. Lingering allows this account's user services to run before login and after logout. Lian Li Linux does not change it automatically."@
}

/// How to turn lingering on.
pub fn guidance(uid: u32) -> (r: String)
    ensures
        r@ == guidance_of(uid),
{
    let mut r = "On the host, run sudo loginctl enable-linger ".to_owned();
    r.append(text::format_u64(uid as u64).as_str());
    r.append(
        ", then Recheck. Lingering allows this account's user services to run before login and after logout. Lian Li Linux does not change it automatically.",
    );
    r
}

pub open spec fn parsed_of(value: Seq<char>) -> Result<bool, Seq<char>> {
    if text::trimmed(value) == "yes"@ {
        Ok(true)
    } else if text::trimmed(value) == "no"@ {
        Ok(false)
    } else {
        Err("The host did not report a valid lingering setting"@)
    }
}

/// Reads the setting that the host printed.
pub fn parse(value: &str) -> (r: Result<bool, String>)
    ensures
        outcome(r) == parsed_of(value@),
{
    let value = text::trim(value);
    if text::eq(value.as_str(), "yes") {
        proof {
            reveal_strlit("yes");
            reveal_strlit("no");
        }
        Ok(true)
    } else if text::eq(value.as_str(), "no") {
        Ok(false)
    } else {
        Err("The host did not report a valid lingering setting".to_owned())
    }
}

pub open spec fn arguments_of(uid: u32) -> Seq<Seq<char>> {
    seq![
        "--no-pager"@,
        "--no-ask-password"@,
        "show-user"@,
        text::decimal(uid as nat),
        "--property=Linger"@,
        "--value"@,
    ]
}

/// The arguments that ask the host for the setting.
pub fn arguments(uid: u32) -> (r: Vec<String>)
    ensures
        texts(r@) == arguments_of(uid),
{
    let mut r: Vec<String> = Vec::new();
    r.push("--no-pager".to_owned());
    r.push("--no-ask-password".to_owned());
    r.push("show-user".to_owned());
    r.push(text::format_u64(uid as u64));
    r.push("--property=Linger".to_owned());
    r.push("--value".to_owned());
    assert(texts(r@) =~= arguments_of(uid));
    r
}

pub open spec fn inspected_of(output: Output) -> Result<bool, Seq<char>> {
    if output.code == Some(0i32) {
        parsed_of(output.stdout@)
    } else {
        Err("Cannot check host user lingering: "@ + text::trimmed(output.stderr@))
    }
}

/// The setting, by what the host answered.
pub fn inspect(output: &Output) -> (r: Result<bool, String>)
    ensures
        outcome(r) == inspected_of(*output),
{
    if !output.success() {
        let mut e = "Cannot check host user lingering: ".to_owned();
        e.append(text::trim(output.stderr.as_str()).as_str());
        return Err(e);
    }
    parse(output.stdout.as_str())
}

pub open spec fn required_of(setting: Result<bool, Seq<char>>, uid: u32) -> Result<(), Seq<char>> {
    match setting {
        Err(e) => Err(e + ". "@ + guidance_of(uid)),
        Ok(true) => Ok(()),
        Ok(false) => Err(
            "Distrobox system mode requires user lingering. "@ + guidance_of(uid),
        ),
    }
}

/// Whether a service of the account can outlive its logins.
pub fn require(setting: &Result<bool, String>, uid: u32) -> (r: Result<(), String>)
    ensures
        outcome(r) == required_of(outcome(*setting), uid),
{
    match setting {
        Err(e) => {
            let mut message = e.clone();
            message.append(". ");
            message.append(guidance(uid).as_str());
            Err(message)
        },
        Ok(enabled) => {
            if *enabled {
                return Ok(());
            }
            let mut message = "Distrobox system mode requires user lingering. ".to_owned();
            message.append(guidance(uid).as_str());
            Err(message)
        },
    }
}

/// The finding on lingering: the owner of the boxed system service, where it is known, and the
/// setting.
pub open spec fn finding_of(owner: Option<u32>, setting: Result<bool, Seq<char>>) -> FindingView {
    FindingView {
        code: "services.distrobox_lingering"@,
        state: match setting {
            Ok(true) => CheckState::Passed,
            Ok(false) => CheckState::Failed,
            Err(_) => CheckState::Unavailable,
        },
        severity: FindingSeverity::Warning,
        feature: "Services"@,
        context: match owner {
            Some(uid) => "Host account "@ + text::decimal(uid as nat),
            None => "Host account"@,
        },
        title: "Distrobox system startup"@,
        evidence: match setting {
            Ok(true) => "Host user lingering is enabled."@,
            Ok(false) => "Without lingering, the boxed system daemon stops after logout."@,
            Err(e) => e,
        },
        remediation: match owner {
            Some(uid) => guidance_of(uid),
            None => "Verify the host system unit's account, then follow the Distrobox lingering guide."@,
        },
        guide: InstallationGuide::Distrobox,
    }
}

fn describe(owner: Option<u32>, setting: Result<bool, String>) -> (r: InstallationFinding)
    ensures
        r@ == finding_of(owner, outcome(setting)),
{
    let (state, evidence) = match setting {
        Ok(true) => (CheckState::Passed, "Host user lingering is enabled.".to_owned()),
        Ok(false) => (
            CheckState::Failed,
            "Without lingering, the boxed system daemon stops after logout.".to_owned(),
        ),
        Err(e) => (CheckState::Unavailable, e),
    };
    let (context, remediation) = match owner {
        Some(uid) => {
            let mut context = "Host account ".to_owned();
            context.append(text::format_u64(uid as u64).as_str());
            (context, guidance(uid))
        },
        None => (
            "Host account".to_owned(),
            "Verify the host system unit's account, then follow the Distrobox lingering guide.".to_owned(),
        ),
    };
    InstallationFinding {
        code: "services.distrobox_lingering".to_owned(),
        state,
        severity: FindingSeverity::Warning,
        feature: "Services".to_owned(),
        context,
        title: "Distrobox system startup".to_owned(),
        evidence,
        remediation,
        guide: InstallationGuide::Distrobox,
    }
}

/// Whether the system service runs in a box.
pub open spec fn is_boxed(report: ServiceReport) -> bool {
    match report.system {
        ServiceProbe::Known { value } => value.distrobox_name is Some,
        _ => false,
    }
}

/// What to report on lingering where the system service runs in a box: by the account of its unit, and
/// by the setting of that account.
pub fn finding(
    report: &ServiceReport,
    owner: Result<u32, String>,
    setting: Result<bool, String>,
) -> (r: Option<InstallationFinding>)
    ensures
        match r {
            None => !is_boxed(*report),
            Some(f) => is_boxed(*report) && f@ == match owner {
                Ok(uid) => finding_of(Some(uid), outcome(setting)),
                Err(e) => finding_of(None, Err(e@)),
            },
        },
{
    let boxed = match &report.system {
        ServiceProbe::Known { value } => value.distrobox_name.is_some(),
        _ => false,
    };
    if !boxed {
        return None;
    }
    match owner {
        Ok(uid) => Some(describe(Some(uid), setting)),
        Err(e) => Some(describe(None, Err(e))),
    }
}

/// Only a host that answers and says `yes` counts as keeping the account's services.
pub proof fn only_an_explicit_setting_counts(output: Output, uid: u32)
    ensures
        required_of(inspected_of(output), uid) is Ok <==> output.code == Some(0i32)
            && text::trimmed(output.stdout@) == "yes"@,
{
    reveal_strlit("yes");
    reveal_strlit("no");
}

/// Lingering is known exactly where the host could be asked and said yes or no, and it is enabled
/// only where it said yes. A boxed system service runs only then.
pub proof fn lingering_is_what_the_host_says(output: Output, uid: u32)
    ensures
        inspected_of(output) == Ok::<bool, Seq<char>>(true) <==> output.code == Some(0i32)
            && text::trimmed(output.stdout@) == "yes"@,
        inspected_of(output) == Ok::<bool, Seq<char>>(false) <==> output.code == Some(0i32)
            && text::trimmed(output.stdout@) == "no"@,
        required_of(inspected_of(output), uid) is Ok <==> output.code == Some(0i32)
            && text::trimmed(output.stdout@) == "yes"@,
{
    reveal_strlit("yes");
    reveal_strlit("no");
    assert("yes"@.len() == 3);
    assert("no"@.len() == 2);
}

/// The finding on lingering passes exactly where it is enabled, fails where it is not, and is open
/// where nobody could tell. The host is asked about the account that the finding names.
pub proof fn lingering_passes_where_it_is_enabled(owner: Option<u32>, setting: Result<bool, Seq<char>>)
    ensures
        ({
            let found = finding_of(owner, setting);
            &&& found.state == CheckState::Passed <==> setting == Ok::<bool, Seq<char>>(true)
            &&& found.state == CheckState::Failed <==> setting == Ok::<bool, Seq<char>>(false)
            &&& found.state == CheckState::Unavailable <==> setting is Err
            &&& found.severity == FindingSeverity::Warning
            &&& found.code == "services.distrobox_lingering"@
            &&& setting is Err ==> found.evidence == setting->Err_0
        }),
        owner is Some ==> arguments_of(owner->0)[3] == text::decimal(owner->0 as nat),
{
}

/// Lingering is looked at exactly where the system service is known to run in a box.
pub proof fn only_boxed_system_services_linger(report: ServiceReport)
    ensures
        is_boxed(report) <==> report.system is Known && report.system->value.distrobox_name is Some,
{
}

} // verus!
