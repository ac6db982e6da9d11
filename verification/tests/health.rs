use lianli_control::command::Output;
use lianli_control::diagnostic_logs::{
    latest_invocation, message, messages, plain_text, recorded_invocation, running_invocation,
    valid_invocation,
};
use lianli_control::files::FileKind;
use lianli_control::findings::{CheckState, FindingSeverity, InstallationGuide};
use lianli_control::lingering;
use lianli_control::media_health;
use lianli_control::module_health;
use lianli_control::module_health::{
    classify, dkms_registered, failure_message, journal_messages, module_file, ModuleCheck,
    ModuleFile, ModuleStep,
};
use lianli_control::runtime_health;
use lianli_control::runtime_health::{
    effective_access, findings, group_fingerprint, group_summary, hermes_access, HidBackend,
    RenderNode, Report, Slot,
};
use lianli_control::services::{InstallationContext, ServiceProbe, ServiceReport, UnitState};

fn output(stdout: &str) -> Output {
    Output {
        code: Some(0),
        status: "exit status: 0".to_string(),
        stdout: stdout.to_string(),
        stderr: String::new(),
    }
}

fn failure(stderr: &str) -> Output {
    Output {
        code: Some(1),
        status: "exit status: 1".to_string(),
        stdout: String::new(),
        stderr: stderr.to_string(),
    }
}

fn object(name: &str, value: serde_json::Value) -> serde_json::Value {
    let mut map = serde_json::Map::new();
    map.insert(name.to_string(), value);
    serde_json::Value::Object(map)
}

fn bytes_value(bytes: &[u8]) -> serde_json::Value {
    serde_json::Value::Array(bytes.iter().map(|byte| serde_json::Value::from(*byte)).collect())
}

#[test]
fn colored_journal_byte_arrays_are_readable_and_invalid_bytes_are_rejected() {
    let colored = "\u{1b}[2m 6.9s\u{1b}[0m \u{1b}[32mINFO\u{1b}[0m Daemon initialized";
    let row = object("MESSAGE", bytes_value(colored.as_bytes()));
    assert_eq!(message(&row), " 6.9s INFO Daemon initialized");
    assert_eq!(
        message(&object("MESSAGE", serde_json::Value::from(colored))),
        " 6.9s INFO Daemon initialized"
    );
    for bytes in [
        serde_json::Value::Array(vec![serde_json::Value::from(256)]),
        serde_json::Value::Array(vec![serde_json::Value::from(-1)]),
        serde_json::Value::Array(vec![serde_json::Value::from(255)]),
        serde_json::Value::Array(vec![serde_json::Value::from("text")]),
    ] {
        assert_eq!(message(&object("MESSAGE", bytes)), "[non-text journal message omitted]");
    }
}

#[test]
fn latest_daemon_invocation_requires_a_complete_nonzero_id() {
    let id = "00112233445566778899aabbccddeeff";
    assert_eq!(
        latest_invocation(
            &object("_SYSTEMD_INVOCATION_ID", serde_json::Value::from(id)).to_string()
        )
        .unwrap(),
        id
    );
    for value in [
        "",
        "--boot",
        "00000000000000000000000000000000",
        "x",
        "0123456789abcdef0123456789abcdeg",
    ] {
        assert!(valid_invocation(value).is_err());
    }
    assert!(latest_invocation("{}").is_err());
    assert!(latest_invocation("").is_err());
}

#[test]
fn journal_export_selects_only_message_text_and_rejects_malformed_records() {
    let raw = "{\"MESSAGE\":\"Hermes-KMS selected\",\"_HOSTNAME\":\"private-host\",\"_CMDLINE\":\"private arguments\"}\n{\"MESSAGE\":[1,2]}";
    assert_eq!(
        messages(raw).unwrap(),
        vec!["Hermes-KMS selected", "[non-text journal message omitted]"]
    );
    assert!(messages("invalid JSON").is_err());
    let long = "a".repeat(4096);
    let text = object("MESSAGE", serde_json::Value::from(long)).to_string();
    assert_eq!(messages(&text).unwrap()[0].len(), 4096);
    let rows = vec!["{\"MESSAGE\":\"hello\"}"; 101].join("\n");
    assert_eq!(messages(&rows).unwrap().len(), 100);
}

#[test]
fn invocations_are_read_from_records_and_running_units() {
    let id = "00112233445566778899aabbccddeeff";
    let record = object("_SYSTEMD_INVOCATION_ID", serde_json::Value::from(id));
    assert_eq!(recorded_invocation(&record).unwrap(), id);
    assert!(recorded_invocation(&object("other", serde_json::Value::from(id))).is_err());
    assert_eq!(running_invocation(&output(&format!("{id}\n"))).unwrap().as_deref(), Some(id));
    assert!(running_invocation(&output("\n")).unwrap().is_none());
    assert!(running_invocation(&output("short\n")).is_err());
}

#[test]
fn plain_text_drops_terminal_codes_for_good() {
    let once = plain_text("\u{1b}[31mred\u{1b}[0m text\u{7}");
    assert_eq!(once, "red text");
    assert_eq!(plain_text(&once), once);
}

#[test]
fn accepts_only_explicit_host_lingering_state() {
    assert!(lingering::parse("yes\n").unwrap());
    assert!(!lingering::parse("no\n").unwrap());
    for value in ["", "1", "true", "Linger=yes", "yes\nno", "unknown"] {
        assert!(lingering::parse(value).is_err(), "{value:?}");
    }
}

fn service_report(boxed: Option<&str>) -> ServiceReport {
    ServiceReport {
        context: InstallationContext::Native,
        user: ServiceProbe::Unavailable { reason: "not asked".to_string() },
        system: ServiceProbe::Known {
            value: UnitState {
                name: "lianli-daemon-system.service".to_string(),
                load_state: "loaded".to_string(),
                active_state: "active".to_string(),
                sub_state: "running".to_string(),
                unit_file_state: "enabled".to_string(),
                main_pid: 1,
                fragment_path: String::new(),
                control_group: None,
                kill_mode: None,
                send_sigkill: None,
                graceful_shutdown: None,
                invocation_id: None,
                distrobox_name: boxed.map(str::to_string),
            },
        },
        ownership: None,
    }
}

#[test]
fn lingering_is_required_and_explained() {
    assert!(lingering::inspect(&output("yes\n")).unwrap());
    assert!(lingering::inspect(&failure("no such user")).is_err());
    assert!(lingering::require(&Ok(true), 1000).is_ok());
    assert!(lingering::require(&Ok(false), 1000).is_err());
    assert!(lingering::require(&Err("no bus".to_string()), 1000).is_err());
    assert!(lingering::guidance(1000).contains("1000"));
    assert!(lingering::arguments(1000).iter().any(|arg| arg.contains("1000")));
    let boxed = service_report(Some("box"));
    let finding = |owner, setting| lingering::finding(&boxed, owner, setting).unwrap();
    assert_eq!(finding(Ok(1000), Ok(true)).state, CheckState::Passed);
    assert_eq!(finding(Ok(1000), Ok(false)).state, CheckState::Failed);
    assert_eq!(finding(Ok(1000), Ok(true)).context, "Host account 1000");
    let unknown = finding(Err("no such unit".to_string()), Ok(true));
    assert_eq!(unknown.state, CheckState::Unavailable);
    assert_eq!(unknown.context, "Host account");
    assert_eq!(unknown.evidence, "no such unit");
    assert!(lingering::finding(&service_report(None), Ok(1000), Ok(true)).is_none());
}

#[test]
fn software_encoder_detection_requires_an_encoder_entry_not_a_description() {
    let evaluate = |tool: &str, stdout: &str| media_health::evaluate(tool, &Ok(output(stdout)));
    assert_eq!(
        evaluate("ffmpeg", " V....D libx264 H.264 encoder\n").state,
        CheckState::Passed
    );
    assert!(evaluate("ffmpeg", " V....D libx264 H.264 encoder\n")
        .evidence
        .contains("and lists libx264"));
    assert!(evaluate("ffmpeg", " V....D h264_nvenc libx264 replacement\n")
        .evidence
        .contains("does not list"));
    assert!(evaluate("ffmpeg", " V....D libx264rgb RGB encoder\n")
        .evidence
        .contains("does not list"));
    assert_eq!(evaluate("ffprobe", "ffprobe version 7\n").state, CheckState::Passed);
    assert_eq!(
        media_health::evaluate("ffprobe", &Err("not found".to_string())).state,
        CheckState::Unavailable
    );
    assert_eq!(
        media_health::evaluate("ffprobe", &Ok(failure(""))).state,
        CheckState::Failed
    );
}

#[test]
fn both_media_tools_are_examined() {
    let found = media_health::inspect(
        &Ok(output(" V....D libx264 H.264 encoder\n")),
        &Err("not found".to_string()),
    );
    assert_eq!(found.len(), 2);
    assert_eq!(found[0].code, "media.tools.ffmpeg");
    assert_eq!(found[1].code, "media.tools.ffprobe");
    assert_eq!(found[1].state, CheckState::Unavailable);
}

#[test]
fn registered_module_without_headers_guides_host_repair() {
    let finding = classify(
        "evdi",
        "6.1",
        false,
        &ModuleFile::Missing,
        true,
        Some(false),
        &Ok(vec![]),
    );
    assert_eq!(finding.state, CheckState::Failed);
    assert!(finding.remediation.contains("build files are missing"));
    assert!(dkms_registered("evdi/1.15.0, 6.1, x86_64: added", "evdi"));
    assert!(!dkms_registered("other-evdi/1, 6.1: installed", "evdi"));
    assert!(dkms_registered("hermes-kms/1, 6.1: installed", "hermes_kms"));
}

#[test]
fn loaded_module_supersedes_old_failure_without_claiming_capture_works() {
    let messages = Ok(vec!["evdi: Key was rejected by service".to_string()]);
    let failed = classify("evdi", "6.1", false, &ModuleFile::Missing, false, None, &messages);
    assert_eq!(failed.state, CheckState::Failed);
    let loaded = classify("evdi", "6.1", true, &ModuleFile::Missing, false, None, &messages);
    assert_eq!(loaded.state, CheckState::Passed);
    assert!(loaded.evidence.contains("checked separately"));
}

#[test]
fn missing_optional_module_does_not_trigger_a_warning() {
    let finding = classify("evdi", "6.1", false, &ModuleFile::Missing, false, None, &Ok(vec![]));
    assert_eq!(finding.state, CheckState::NotApplicable);
    assert_eq!(finding.severity, FindingSeverity::Info);
}

#[test]
fn journal_ignores_unrelated_modules_and_permitted_unsigned_loads() {
    let messages = journal_messages("{\"MESSAGE\":\"nvidia: Key was rejected by service\"}\n{\"MESSAGE\":\"evdi: module verification failed: signature and/or required key missing - tainting kernel\"}").unwrap();
    assert!(failure_message(&messages, "evdi").is_none());
    assert!(failure_message(&vec!["other_evdi: failed to load".to_string()], "evdi").is_none());
    assert!(failure_message(
        &vec!["hermes-kms: Unknown symbol something".to_string()],
        "hermes_kms"
    )
    .is_some());
    assert!(journal_messages("broken").is_err());
}

#[test]
fn the_latest_failure_counts_and_only_eighty_one_records_are_read() {
    let messages = vec![
        "evdi: failed to load".to_string(),
        "evdi: version magic differs".to_string(),
        "evdi: unrelated".to_string(),
    ];
    assert_eq!(failure_message(&messages, "evdi").unwrap(), "evdi: version magic differs");
    let rows = vec!["{\"MESSAGE\":\"hello\"}"; 90].join("\n");
    assert_eq!(journal_messages(&rows).unwrap().len(), 81);
    assert_eq!(
        journal_messages("{\"MESSAGE\":[1]}").unwrap_err(),
        "Kernel journal message is not readable text"
    );
}

#[test]
fn unavailable_tools_do_not_claim_a_missing_module_or_failed_build() {
    let file = module_file(&Err("permission denied".to_string()), "evdi");
    let finding = classify("evdi", "6.1", false, &file, true, None, &Ok(vec![]));
    assert_eq!(finding.state, CheckState::Unavailable);
    assert_eq!(finding.severity, FindingSeverity::Info);
    assert!(finding.evidence.contains("permission denied"));
}

#[test]
fn modinfo_distinguishes_missing_installed_and_unreadable() {
    assert!(matches!(
        module_file(&Ok(failure("modinfo: ERROR: Module evdi not found.")), "evdi"),
        ModuleFile::Missing
    ));
    assert!(matches!(
        module_file(&Ok(failure("modinfo: ERROR: Module other not found.")), "evdi"),
        ModuleFile::Unverified(_)
    ));
    let file = module_file(&Ok(output("/lib/modules/6.1/extra/evdi.ko.zst\n")), "evdi");
    let finding = classify("evdi", "6.1", false, &file, false, None, &Ok(vec![]));
    assert_eq!(finding.state, CheckState::Passed);
    assert!(finding.evidence.contains("does not verify signing trust"));
    assert!(matches!(module_file(&Ok(output("")), "evdi"), ModuleFile::Unverified(_)));
}

#[test]
fn kernel_releases_are_checked() {
    assert_eq!(module_health::kernel_release("6.1.0-1+deb_x\n").unwrap(), "6.1.0-1+deb_x");
    for bad in ["", "\n", "6.1;rm", &"6".repeat(129)] {
        assert_eq!(
            module_health::kernel_release(bad).unwrap_err(),
            "Host returned an invalid kernel release"
        );
    }
}

#[test]
fn a_module_is_examined_step_by_step() {
    let journal: Result<Vec<String>, String> = Ok(vec![]);
    let listing: Result<String, String> = Ok("evdi/1.15.0, 6.1, x86_64: added".to_string());
    let mut check = ModuleCheck::begin("evdi", "6.1");
    check.loaded(0, &Ok(Some(1)), &journal);
    assert_eq!(check.step, ModuleStep::QueryFile);
    check.file(0, &Ok(failure("Module evdi not found")), &listing, &journal);
    assert_eq!(check.step, ModuleStep::TestHeaders);
    check.headers(0, &Ok(Some(1)), &listing, &journal);
    assert_eq!(check.step, ModuleStep::Done);
    assert!(check.finding.remediation.contains("build files are missing"));

    let mut loaded = ModuleCheck::begin("evdi", "6.1");
    loaded.loaded(0, &Ok(Some(0)), &journal);
    assert_eq!(loaded.finding.state, CheckState::Passed);

    let mut late = ModuleCheck::begin("evdi", "6.1");
    late.loaded(10_000, &Ok(Some(0)), &journal);
    assert_eq!(late.finding.evidence, "Module checks reached their time limit");

    let mut odd = ModuleCheck::begin("evdi", "6.1");
    odd.loaded(0, &Ok(Some(7)), &journal);
    assert_eq!(odd.finding.evidence, "Cannot inspect loaded host modules");

    let mut unlisted = ModuleCheck::begin("evdi", "6.1");
    unlisted.loaded(0, &Ok(Some(1)), &journal);
    unlisted.file(
        9_999,
        &Ok(failure("Module evdi not found")),
        &Err("dkms is missing".to_string()),
        &Err("no journal".to_string()),
    );
    assert_eq!(unlisted.finding.state, CheckState::NotApplicable);
    assert!(unlisted.finding.evidence.contains("could not be checked from this account"));
    assert!(unlisted.finding.evidence.ends_with("another installer are not inspected."));
}

#[test]
fn module_queries_report_their_program() {
    assert_eq!(
        module_health::query("/usr/bin/uname", 0, &Ok(output("6.1\n"))).unwrap(),
        "6.1\n"
    );
    assert_eq!(
        module_health::query("/usr/bin/uname", 0, &Ok(failure(" broken "))).unwrap_err(),
        "/usr/bin/uname: broken"
    );
    assert!(module_health::query("/usr/bin/uname", 10_000, &Ok(output("6.1\n"))).is_err());
    assert!(module_health::journal(&Err("denied".to_string())).is_err());
    let kernel = module_health::kernel(0, &Ok(output("6.1\n")));
    let mut checks = module_health::begin_checks(kernel.as_ref().unwrap());
    let names: Vec<&str> = checks.iter().map(|check| check.module.as_str()).collect();
    assert_eq!(names, vec!["hermes_kms", "evdi"]);
    for check in checks.iter_mut() {
        check.failed("denied");
    }
    let findings = module_health::collect(&kernel, checks);
    let codes: Vec<&str> = findings.iter().map(|finding| finding.code.as_str()).collect();
    assert_eq!(codes, vec!["host.module.hermes_kms", "host.module.evdi"]);
    let failed = module_health::kernel(0, &Ok(failure("broken")));
    let only = module_health::collect(&failed, vec![]);
    assert_eq!(only.len(), 1);
    assert_eq!(only[0].code, "host.module.modules");
    assert_eq!(only[0].evidence, "/usr/bin/uname: broken");
}

#[test]
fn stale_groups_are_distinct_from_custom_access_and_container_mapping_failures() {
    let native = InstallationContext::Native;
    let stale = findings(&native, 1000, &vec![1000], &Ok(vec![500, 1000]), &Ok((500, false)));
    assert_eq!(stale[0].title, "Group membership changed after this process started");
    assert_eq!(stale[1].state, CheckState::Failed);
    let custom = findings(&native, 1000, &vec![1000], &Ok(vec![1000]), &Ok((500, true)));
    assert!(custom.iter().all(|finding| finding.state == CheckState::Passed));
    let container = InstallationContext::Distrobox { name: "a box".to_string() };
    let missing = findings(
        &container,
        1000,
        &vec![501, 1000],
        &Ok(vec![501, 1000]),
        &Ok((500, false)),
    );
    assert_eq!(missing[0].state, CheckState::Failed);
    assert!(missing[0].context.contains("a box"));
    assert!(missing[0].remediation.contains("numeric group IDs"));
    let unavailable = findings(
        &native,
        1000,
        &vec![1000],
        &Err("NSS unavailable".to_string()),
        &Ok((500, false)),
    );
    assert_eq!(unavailable[0].state, CheckState::Unavailable);
    let absent = findings(
        &native,
        1000,
        &vec![1000],
        &Ok(vec![1000]),
        &Err("missing lock".to_string()),
    );
    assert_eq!(absent.len(), 1);
    assert_eq!(absent[0].state, CheckState::Unavailable);
}

#[test]
fn group_summaries_are_bounded() {
    assert_eq!(group_summary(&vec![]), "");
    assert_eq!(group_summary(&vec![5, 10, 4294967295]), "5, 10, 4294967295");
    let many: Vec<u32> = (0..17).collect();
    assert!(group_summary(&many).ends_with("14, 15 (17 total)"));
}

#[test]
fn group_fingerprints_are_exact() {
    assert_ne!(group_fingerprint(&vec![1, 2]), group_fingerprint(&vec![2, 1]));
    assert_ne!(group_fingerprint(&vec![1]), group_fingerprint(&vec![1, 0]));
    assert_eq!(
        group_fingerprint(&vec![]),
        "e3b0c44298fc1c149afbf4c8996fb92427ae41e4649b934ca495991b7852b855"
    );
    assert_ne!(group_fingerprint(&vec![1, 2]), group_fingerprint(&vec![2, 1]));
}

#[test]
fn kernel_refusals_are_told_from_failures() {
    assert!(effective_access(&None).unwrap());
    for number in [1, 13, 30] {
        assert!(!effective_access(&Some((Some(number), "refused".to_string()))).unwrap());
    }
    assert_eq!(
        effective_access(&Some((Some(5), "I/O error".to_string()))).unwrap_err(),
        "I/O error"
    );
    assert!(effective_access(&Some((None, "unknown".to_string()))).is_err());
    assert!(runtime_health::lock_access(FileKind::Directory, 500, Ok(true)).is_err());
    assert_eq!(runtime_health::lock_access(FileKind::File, 500, Ok(false)).unwrap(), (500, false));
}

fn node(name: &str, role: &str, owner: &str) -> RenderNode {
    RenderNode {
        name: name.to_string(),
        role: Some(role.to_string()),
        owner: Ok(owner.to_string()),
        device: Ok(FileKind::CharDevice),
        granted: Ok(true),
    }
}

#[test]
fn hermes_access_excludes_private_sessions_and_rejects_missing_or_replaced_nodes() {
    let at = |found: RenderNode| hermes_access(&vec![Some(found)], "/dev/dri", 1000);
    assert!(at(node("renderD130", "session\n", "")).is_none());
    let mut missing = node("renderD130", "host\n", "");
    missing.device = Err("No such file or directory (os error 2)".to_string());
    let missing = at(missing).unwrap();
    assert_eq!(missing.state, CheckState::Unavailable);
    assert!(missing.evidence.contains("renderD130"));
    let mut replaced = node("renderD130", "host\n", "");
    replaced.device = Ok(FileKind::File);
    let replaced = at(replaced).unwrap();
    assert_eq!(replaced.state, CheckState::Unavailable);
    assert!(replaced.evidence.contains("Not a DRM device node"));
    assert!(at(node("renderD130", "host\n", "2000\n")).is_none());
}

#[test]
fn denied_render_nodes_outweigh_doubtful_and_granted_ones() {
    let mut denied = node("renderD131", "host", "");
    denied.granted = Ok(false);
    let mut earlier = node("renderD128", "host", "");
    earlier.granted = Ok(false);
    let mut doubtful = node("renderD130", "host", "");
    doubtful.owner = Err("unreadable".to_string());
    let entries = vec![
        Some(denied),
        None,
        Some(node("renderD129", "host", "")),
        Some(earlier),
        Some(doubtful),
        Some(node("card0", "host", "")),
        Some(node("renderD", "host", "")),
    ];
    let finding = hermes_access(&entries, "/dev/dri", 1000).unwrap();
    assert_eq!(finding.state, CheckState::Failed);
    assert_eq!(finding.severity, FindingSeverity::Warning);
    assert_eq!(
        finding.evidence,
        "Read/write access denied: /dev/dri/renderD128, /dev/dri/renderD131. Effective UID 1000, including ACL masks."
    );
    let passed = hermes_access(&vec![Some(node("renderD129", "host", ""))], "/dev/dri", 1000).unwrap();
    assert_eq!(passed.state, CheckState::Passed);
    assert!(passed.evidence.contains("granted for 1 host render node(s)"));
    assert_eq!(passed.guide, InstallationGuide::Troubleshooting);
}

#[test]
fn runtime_reports_must_come_from_this_process() {
    let report = Report {
        version: "1.0".to_string(),
        uid: 1000,
        gid: 100,
        groups_fingerprint: group_fingerprint(&vec![100, 200]),
        hid_backend: Some(HidBackend::Rusb),
        findings: vec![],
    };
    let check = |version: &str, backend, uid, gid, groups: Vec<u32>| {
        runtime_health::check_report(&report, version, backend, uid, gid, &groups)
    };
    assert!(check("1.0", Some(HidBackend::Rusb), 1000, 100, vec![100, 200]).is_ok());
    assert!(check("1.1", Some(HidBackend::Rusb), 1000, 100, vec![100, 200]).is_err());
    assert!(check("1.0", None, 1000, 100, vec![100, 200]).is_err());
    assert!(check("1.0", Some(HidBackend::Hidraw), 1000, 100, vec![100, 200]).is_err());
    assert!(check("1.0", Some(HidBackend::Rusb), 1001, 100, vec![100, 200]).is_err());
    assert!(check("1.0", Some(HidBackend::Rusb), 1000, 101, vec![100, 200]).is_err());
    assert!(check("1.0", Some(HidBackend::Rusb), 1000, 100, vec![100]).is_err());
    let mut many = report.clone();
    many.findings = (0..17)
        .map(|_| lingering::finding(&service_report(Some("box")), Ok(1000), Ok(true)).unwrap())
        .collect();
    assert_eq!(
        runtime_health::check_report(&many, "1.0", Some(HidBackend::Rusb), 1000, 100, &vec![100, 200])
            .unwrap_err(),
        "Runtime helper returned too many findings"
    );
    assert_eq!(
        runtime_health::arguments(Some(HidBackend::Hidraw), true, Some("/state")),
        vec![
            "inspect-runtime",
            "--media-tools",
            "--state-directory",
            "/state",
            "--hid-backend",
            "hidraw"
        ]
    );
    assert_eq!(runtime_health::arguments(None, false, None), vec!["inspect-runtime"]);
    assert!(runtime_health::check_output(&output("")).is_ok());
    assert_eq!(
        runtime_health::check_output(&failure("boom\n")).unwrap_err(),
        "Runtime helper failed: boom"
    );
}

#[test]
fn usb_backends_have_two_names() {
    assert_eq!(runtime_health::parse_hid_backend("hidraw").unwrap(), HidBackend::Hidraw);
    assert_eq!(runtime_health::parse_hid_backend("rusb").unwrap(), HidBackend::Rusb);
    assert_eq!(
        runtime_health::parse_hid_backend("HIDRAW").unwrap_err(),
        "Choose hidraw or rusb"
    );
}

#[test]
fn a_check_that_hangs_keeps_the_slot() {
    let mut slot = Slot { running: false };
    assert!(slot.enter().is_ok());
    assert!(slot.enter().unwrap_err().contains("still running"));
    slot.leave();
    assert!(slot.enter().is_ok());
    let late: Result<Result<u32, String>, String> = Err("timed out".to_string());
    let error = runtime_health::conclude(late).unwrap_err();
    assert!(error.contains("did not finish"));
    assert!(error.ends_with(": timed out"));
    assert_eq!(runtime_health::conclude(Ok(Ok(7))).unwrap(), 7);
}
