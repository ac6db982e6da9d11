use lianli_control::command::Output;
use lianli_control::container_destination::{ConfigNames, Launch, Route};
use lianli_control::distrobox_service::{
    match_recipe, match_scoped_recipe, match_system_recipe, parse_system_owner, system_owner_uid,
    Commands, ServiceCommand,
};
use lianli_control::distrobox_unit::{
    generate, generate_managed, generate_session, generate_system, guidance, matches_installed,
    session_guidance, valid_name, wait_script,
};
use lianli_control::services::ServiceScope;

fn names() -> ConfigNames {
    ConfigNames { user: Ok(()), system: Ok(()) }
}

#[test]
fn managed_modes_pin_guest_working_directories_and_configuration_paths() {
    let route = Route {
        launch: Launch {
            name: "box".to_string(),
            host_enter: "/usr/bin/distrobox-enter".to_string(),
            binaries: "/usr/bin".to_string(),
        },
        user_config: "/home/user/user-state/custom.json".to_string(),
        system_config: "/home/user/system-state/custom.json".to_string(),
        user_working_directory: "/home/user/$USER %i".to_string(),
        system_working_directory: "/home/user/system work".to_string(),
    };
    let user = generate_managed(&route, &names(), ServiceScope::User, 1000).unwrap();
    let system = generate_managed(&route, &names(), ServiceScope::System, 1000).unwrap();
    assert!(user.contains("/usr/bin/env \"--chdir=/home/user/$$USER %%i\" \"/usr/bin/lianli-daemon\" --config \"/home/user/user-state/custom.json\""));
    assert!(system.contains("/usr/bin/env \"--chdir=/home/user/system work\" \"/usr/bin/lianli-daemon\" --system --config \"/home/user/system-state/custom.json\""));
    assert!(system.contains("User=1000\n"));
    assert!(!user.contains("User=1000\n"));
    for unit in [user, system] {
        assert_eq!(unit.matches("ExecStop=").count(), 2);
        assert!(unit.contains("SendSIGKILL=no\nTimeoutStopSec=120s\n"));
    }
    assert!(generate_managed(&route, &names(), ServiceScope::System, 0).is_err());
}

#[test]
fn system_unit_uses_the_box_owner_and_an_explicit_guest_configuration() {
    let unit = generate_system(
        "my box",
        "/usr/bin/distrobox-enter",
        "/opt/app %i",
        1000,
        "/home/test/system $USER/config.json",
    )
    .unwrap();
    assert!(unit.contains("Requires=user@1000.service\nAfter=user@1000.service\n"));
    assert!(unit.contains("User=1000\nEnvironment=XDG_RUNTIME_DIR=/run/user/1000\n"));
    assert!(unit.contains("RuntimeDirectory=lianli\nRuntimeDirectoryMode=0755\n"));
    assert!(unit.contains("\"/opt/app %%i/lianli-daemon\" --system --config \"/home/test/system $$USER/config.json\" --service-invocation ${INVOCATION_ID}\n"));
    assert!(unit.contains("stop-service --scope system --invocation-id ${INVOCATION_ID}\n"));
    assert_eq!(unit.matches("ExecStop=").count(), 2);
    assert!(unit.contains("KillMode=control-group\nSendSIGKILL=no\nTimeoutStopSec=120s\n"));
    assert!(unit.ends_with("WantedBy=multi-user.target\n"));
    for (uid, config) in [
        (0, "/config.json"),
        (1000, "relative.json"),
        (1000, "/bad\npath"),
    ] {
        assert!(
            generate_system("box", "/usr/bin/distrobox-enter", "/usr/bin", uid, config).is_err()
        );
    }
}

#[test]
fn session_unit_starts_login_discovery_in_the_selected_box() {
    let unit = generate_session(
        "my box",
        "/opt/host tools/distrobox-enter",
        "/opt/app $USER %i",
    )
    .unwrap();
    assert!(unit.contains("ExecStart=/usr/bin/env --unset=INVOCATION_ID \"/opt/host tools/distrobox-enter\" --name \"my box\" -- \"/opt/app $$USER %%i/lianli-session\" --login-start --service-invocation ${INVOCATION_ID}\n"));
    assert!(unit.contains("/lianli-session\" --stop-service ${INVOCATION_ID}\n"));
    assert!(!unit.contains("lianli-daemon"));
    assert!(unit.contains("Restart=always\nRestartSec=5s"));
    assert!(unit.ends_with("WantedBy=default.target\n"));
    assert!(generate_session("box\nother", "/usr/bin/distrobox-enter", "/usr/bin").is_err());
}

#[test]
fn unit_preserves_literal_paths_and_the_invocation_variable() {
    let unit = generate(
        "my box",
        "/opt/host tools/distrobox-enter",
        "/opt/app \"quoted\" \\ $USER %i",
    )
    .unwrap();
    assert!(unit.contains("ExecStart=/usr/bin/env --unset=INVOCATION_ID \"/opt/host tools/distrobox-enter\" --name \"my box\" -- \"/opt/app \\\"quoted\\\" \\\\ $$USER %%i/lianli-daemon\" --service-invocation ${INVOCATION_ID}\n"));
    assert!(unit.contains("/lianli-control\" stop-service --invocation-id ${INVOCATION_ID}\n"));
    assert_eq!(unit.matches("ExecStart=").count(), 1);
    assert_eq!(unit.matches("ExecStop=").count(), 2);
    assert!(unit.contains("KillMode=control-group\nSendSIGKILL=no\nTimeoutStopSec=120s"));
    let session = generate_session("my box", "/usr/bin/distrobox-enter", "/usr/bin").unwrap();
    assert!(session.contains("KillMode=control-group\nSendSIGKILL=no\nTimeoutStopSec=30s"));
    assert!(session.contains("--stop-service ${INVOCATION_ID}\n"));
}

#[test]
fn unit_refuses_directive_injection_and_ambiguous_executables() {
    for name in [
        "",
        "-option",
        "box\nExecStart=/bin/false",
        "box';exit",
        "box/other",
    ] {
        assert!(generate(name, "/usr/bin/distrobox-enter", "/usr/bin").is_err());
        assert!(guidance(name).is_err());
    }
    for path in [
        "relative/distrobox-enter",
        "/usr/bin/sh",
        "/opt/$HOME/distrobox-enter",
        "/opt/line\nbreak/distrobox-enter",
    ] {
        assert!(generate("box", path, "/usr/bin").is_err());
    }
    assert!(generate("box", "/usr/bin/distrobox-enter", "relative").is_err());
}

#[test]
fn guidance_names_the_box() {
    assert!(valid_name("my box"));
    assert!(!valid_name("a/b"));
    assert!(guidance("my box").unwrap().contains("my box"));
    assert!(session_guidance("my box").unwrap().contains("my box"));
    assert!(session_guidance("-box").is_err());
}

#[test]
fn installed_units_are_recognised_by_their_contents() {
    let unit = generate("box", "/usr/bin/distrobox-enter", "/usr/bin").unwrap();
    assert!(matches_installed(&unit, &unit));
    assert!(!matches_installed(&format!("{unit}\nExecStartPost=/bin/true\n"), &unit));
}

#[test]
fn system_wrapper_owner_requires_one_non_root_numeric_uid() {
    assert_eq!(parse_system_owner("1000\n").unwrap(), 1000);
    for value in ["", "0", "root", "lianli", "1000\n2000", "-1", "4294967296"] {
        assert!(parse_system_owner(value).is_err());
    }
}

#[test]
fn system_owner_comes_from_a_successful_query() {
    let mut output = Output {
        code: Some(0),
        status: "exit status: 0".to_string(),
        stdout: "1000\n".to_string(),
        stderr: String::new(),
    };
    assert_eq!(system_owner_uid(&output).unwrap(), 1000);
    output.code = Some(1);
    output.stderr = " no bus \n".to_string();
    assert_eq!(
        system_owner_uid(&output).unwrap_err(),
        "Cannot inspect the Distrobox system unit account: no bus"
    );
}

fn commands(args: &[&str]) -> Commands {
    Commands {
        signature: "a(sasasttttuii)".to_string(),
        data: vec![ServiceCommand {
            program: args[0].to_string(),
            arguments: args.iter().map(|arg| arg.to_string()).collect(),
            flags: vec![],
        }],
    }
}

fn stopped(args: &[&str]) -> Commands {
    let mut result = commands(args);
    let script = wait_script().replace('$', "$$");
    result
        .data
        .extend(commands(&["/usr/bin/sh", "-c", &script, "--", "${MAINPID}"]).data);
    result
}

fn splice(commands: &mut Commands, at: usize, new: &[&str]) {
    commands.data[0]
        .arguments
        .splice(at..at, new.iter().map(|arg| arg.to_string()));
}

#[test]
fn only_matching_guarded_stop_and_bounded_wrapper_wait_are_accepted() {
    let start = [
        "/usr/bin/env",
        "--unset=INVOCATION_ID",
        "/usr/bin/distrobox-enter",
        "--name",
        "box",
        "--",
        "/usr/bin/lianli-daemon",
        "--service-invocation",
        "${INVOCATION_ID}",
    ];
    let stop = [
        "/usr/bin/env",
        "--unset=INVOCATION_ID",
        "/usr/bin/distrobox-enter",
        "--name",
        "box",
        "--",
        "/usr/bin/lianli-control",
        "stop-service",
        "--invocation-id",
        "${INVOCATION_ID}",
    ];
    assert_eq!(
        match_recipe(&commands(&start), &stopped(&stop)).unwrap().as_deref(),
        Some("box")
    );
    let system_start = || {
        let mut value = commands(&start);
        splice(&mut value, 7, &["--system", "--config", "/state/config.json"]);
        value
    };
    for scope in [ServiceScope::User, ServiceScope::System] {
        let mut managed = commands(&start);
        splice(&mut managed, 6, &["/usr/bin/env", "--chdir=/home/box owner"]);
        if scope == ServiceScope::System {
            splice(&mut managed, 9, &["--system", "--config", "/state/config.json"]);
        } else {
            splice(&mut managed, 9, &["--config", "/state/config.json"]);
        }
        let mut stopping = stopped(&stop);
        if scope == ServiceScope::System {
            splice(&mut stopping, 8, &["--scope", "system"]);
        }
        assert_eq!(
            match_scoped_recipe(scope, managed, stopping, &Ok(())).unwrap().as_deref(),
            Some("box")
        );
    }
    let system_stop = || {
        let mut value = stopped(&stop);
        splice(&mut value, 8, &["--scope", "system"]);
        value
    };
    assert_eq!(
        match_system_recipe(system_start(), system_stop()).unwrap().as_deref(),
        Some("box")
    );
    assert!(match_recipe(&system_start(), &system_stop()).unwrap().is_none());
    assert!(match_system_recipe(commands(&start), stopped(&stop)).unwrap().is_none());
    let mut wrong_config = system_start();
    wrong_config.data[0].arguments[9] = "relative.json".to_string();
    assert!(match_system_recipe(wrong_config, system_stop()).unwrap().is_none());
    let mut wrong_scope = system_stop();
    wrong_scope.data[0].arguments[9] = "user".to_string();
    assert!(match_system_recipe(system_start(), wrong_scope).unwrap().is_none());
    for (index, replacement) in [
        (0, "/bin/sh"),
        (1, "--unset=OTHER"),
        (4, "another-box"),
        (6, "/usr/bin/kill"),
        (7, "diagnose"),
        (9, "stale-id"),
    ] {
        let mut wrong = stop;
        wrong[index] = replacement;
        assert!(match_recipe(&commands(&start), &stopped(&wrong)).unwrap().is_none());
    }
    let mut joined = stopped(&stop);
    joined.data[0].arguments = vec![stop.join(" ")];
    assert!(match_recipe(&commands(&start), &joined).unwrap().is_none());
    let mut multiple = stopped(&stop);
    let first = multiple.data[0].clone();
    multiple.data.push(first);
    assert!(match_recipe(&commands(&start), &multiple).unwrap().is_none());
    let mut ignored = stopped(&stop);
    ignored.data[0].flags = vec!["ignore-failure".to_string()];
    assert!(match_recipe(&commands(&start), &ignored).unwrap().is_none());
    let mut spaced_start = start;
    let mut spaced_stop = stop;
    spaced_start[2] = "/opt/host tools/distrobox-enter";
    spaced_stop[2] = spaced_start[2];
    spaced_start[4] = "my box";
    spaced_stop[4] = spaced_start[4];
    spaced_start[6] = "/opt/app tools/lianli-daemon";
    spaced_stop[6] = "/opt/app tools/lianli-control";
    assert_eq!(
        match_recipe(&commands(&spaced_start), &stopped(&spaced_stop)).unwrap().as_deref(),
        Some("my box")
    );
    assert!(match_recipe(&commands(&start[2..]), &commands(&stop[2..])).unwrap().is_none());
    assert!(match_recipe(&commands(&start), &commands(&stop)).unwrap().is_none());
    for (index, replacement) in [(0, "/bin/sh"), (2, "sleep 999"), (4, "123")] {
        let mut altered = stopped(&stop);
        altered.data[1].arguments[index] = replacement.to_string();
        assert!(match_recipe(&commands(&start), &altered).unwrap().is_none());
    }
}

#[test]
fn malformed_service_commands_are_refused() {
    let mut wrong = commands(&["/usr/bin/env"]);
    wrong.signature = "s".to_string();
    assert!(match_recipe(&wrong, &wrong).is_err());
}
