use lianli_control::account::Account;
use lianli_control::container_deployment::Deployment;
use lianli_control::container_setup::{Setup, SetupStep};
use lianli_control::destination::verify_override;
use lianli_control::digest::Hasher;
use lianli_control::distrobox_unit::{generate, generate_managed, generate_session, generate_system};
use lianli_control::container_destination::{ConfigNames, Launch, Route};
use lianli_control::files::{FileKind, Metadata};
use lianli_control::host_helper;
use lianli_control::media_publication::{fingerprint_directory, Entry};
use lianli_control::media_staging::{AddStep, Adding, CopyControl, Linked, MediaStaging};
use lianli_control::process_owner::parse_cgroup;
use lianli_control::recovery_trigger::{State, Trigger, TriggerStep};
use lianli_control::services::ServiceScope;

fn metadata(kind: FileKind, mode: u32, ino: u64, len: u64) -> Metadata {
    Metadata {
        kind,
        uid: 1000,
        gid: 1000,
        mode,
        dev: 1,
        ino,
        len,
        nlink: 1,
        mtime: 10,
        mtime_nsec: 20,
        ctime: 30,
        ctime_nsec: 40,
    }
}

fn file(ino: u64, len: u64) -> Metadata {
    metadata(FileKind::File, 0o600, ino, len)
}

fn digest(bytes: &[u8]) -> String {
    let mut hasher = Hasher::new();
    hasher.update(bytes);
    hasher.finish()
}

#[test]
fn fingerprints_do_not_depend_on_the_order_of_a_listing() {
    let directory = metadata(FileKind::Directory, 0o700, 9, 0);
    let names = ["a", "b", "c"].map(|one| one.repeat(64));
    let listing = |order: [usize; 4]| -> Vec<Entry> {
        order
            .iter()
            .map(|&i| match i {
                3 => Entry { name: format!("{}.png", names[0]), meta: file(10, 4) },
                _ => Entry { name: names[i].clone(), meta: file(10 + i as u64, 4) },
            })
            .collect()
    };
    let of = |order| fingerprint_directory(1000, &directory, &listing(order), &directory);
    let first = of([0, 1, 2, 3]).unwrap();
    assert_eq!(first.len(), 64);
    for order in [[3, 2, 1, 0], [1, 3, 0, 2], [2, 0, 3, 1]] {
        assert_eq!(of(order).unwrap(), first);
    }
    let mut other = listing([0, 1, 2, 3]);
    other[1].meta.mtime = 11;
    assert_ne!(fingerprint_directory(1000, &directory, &other, &directory).unwrap(), first);
}

#[test]
fn control_groups_do_not_depend_on_the_order_of_lines() {
    let lines = ["0::/unified", "1:name=systemd:/user.slice/a.service", "2:cpu:/other"];
    for order in [[0, 1, 2], [2, 1, 0], [1, 2, 0], [0, 2, 1]] {
        let text: Vec<&str> = order.iter().map(|&i: &usize| lines[i]).collect();
        assert_eq!(parse_cgroup(&text.join("\n")).unwrap(), "/user.slice/a.service");
    }
    assert_eq!(parse_cgroup("2:cpu:/other\n0::/unified").unwrap(), "/unified");
    assert!(parse_cgroup("0::/one\n0::/two").is_err());
    assert!(parse_cgroup("2:cpu:/other").is_err());
    assert!(parse_cgroup("0::/one\nnonsense").is_err());
}

#[test]
fn accepted_overrides_are_accepted_together() {
    let parts = [
        "[Service]\nEnvironment=RUST_LOG=debug",
        "# only a remark\r",
        "",
        "[Unit]\n\n[Service]\nEnvironment=\"DISPLAY=:0\"\r\n",
    ];
    for a in parts {
        for b in parts {
            verify_override(a).unwrap();
            verify_override(&format!("{a}\n{b}")).unwrap();
        }
    }
    assert!(verify_override("Environment=RUST_LOG=debug").is_err());
}

fn route() -> Route {
    Route {
        launch: Launch {
            name: "box".to_string(),
            host_enter: "/usr/bin/distrobox-enter".to_string(),
            binaries: "/usr/bin".to_string(),
        },
        user_config: "/home/user/.config/lianli/config.json".to_string(),
        system_config: "/etc/lianli/config.json".to_string(),
        user_working_directory: "/home/user".to_string(),
        system_working_directory: "/var/lib/lianli".to_string(),
    }
}

#[test]
fn setup_names_the_helper_that_is_installed() {
    let supplied = |canonical: Option<&str>| {
        let deployment = Deployment {
            version: 1,
            owner_uid: 1000,
            owner_name: "fixture".to_string(),
            route: route(),
        };
        let names = ConfigNames { user: Ok(()), system: Ok(()) };
        let owner = Account {
            uid: 1000,
            gid: 1000,
            groups: vec![1000],
            name: "fixture".to_string(),
            home: "/home/user".to_string(),
            container: None,
        };
        let mut setup = Setup::install(deployment, names);
        setup.context(true);
        setup.caller(owner);
        assert_eq!(setup.step, SetupStep::FindHelper, "{}", setup.error);
        setup.helper("/opt/helper", canonical);
        assert_eq!(setup.step, SetupStep::InitializeLocks);
        setup.supplied(&format!("ExecStart={}", host_helper::packaged())).0
    };
    let packaged = format!("ExecStart={}", host_helper::packaged());
    let standalone = format!("ExecStart={}", host_helper::standalone());
    assert_eq!(supplied(Some("/opt/./helper")), packaged);
    assert_eq!(supplied(Some("/opt/other")), standalone);
    assert_eq!(supplied(None), standalone);
}

#[test]
fn arguments_stay_on_the_lines_of_a_unit() {
    let enter = "/opt/a \"b\" %h/distrobox-enter";
    let binaries = "/usr/local/b\\in $HOME";
    let user = generate("box", enter, binaries).unwrap();
    assert_eq!(user.lines().count(), 16);
    let plain = generate("box", "/usr/bin/distrobox-enter", "/usr/bin").unwrap();
    for (one, two) in user.lines().zip(plain.lines()) {
        if one.starts_with("ExecStart=/usr/bin/env ") || one.starts_with("ExecStop=/usr/bin/env ") {
            assert_eq!(one.split('=').next(), two.split('=').next());
        } else {
            assert_eq!(one, two);
        }
    }
    assert!(user.contains("\"/opt/a \\\"b\\\" %%h/distrobox-enter\""));
    assert!(user.contains("\"/usr/local/b\\\\in $$HOME/lianli-daemon\""));
    assert_eq!(generate_session("box", enter, binaries).unwrap().lines().count(), 15);
    let system = generate_system("box", enter, binaries, 1000, "/etc/a b.json").unwrap();
    assert_eq!(system.lines().count(), 22);
    assert!(generate("box", enter, "/usr\nExecStart=/bin/true").is_err());
    assert!(generate_system("box", enter, "/usr", 1000, "/a\nUser=0").is_err());
    let route = route();
    let names = ConfigNames { user: Ok(()), system: Ok(()) };
    let managed = generate_managed(&route, &names, ServiceScope::User, 1000).unwrap();
    assert_eq!(managed.lines().count(), 16);
    let managed = generate_managed(&route, &names, ServiceScope::System, 1000).unwrap();
    assert_eq!(managed.lines().count(), 22);
}

fn copied(media: MediaStaging, path: &str, meta: Metadata, bytes: &[u8]) -> Adding {
    let mut control = CopyControl::new(5_000);
    let mut adding = media.add(path);
    let mut rest = bytes;
    while adding.step != AddStep::Added && adding.step != AddStep::Failed {
        match adding.step {
            AddStep::Inspect => adding.inspected(&meta),
            AddStep::CreateTemporary => adding.created(),
            AddStep::Read => {
                adding.bytes(rest);
                rest = &[];
            }
            AddStep::Write => adding.written(&mut control),
            AddStep::Reread => adding.reread(&meta),
            AddStep::SyncTemporary => adding.synced(),
            AddStep::Keep => adding.kept(),
            AddStep::Link => adding.linked(&Linked::Done),
            AddStep::CheckLinked => adding.confirm(&control, 0),
            _ => adding.control(&control, 0),
        }
    }
    adding
}

#[test]
fn equal_contents_get_one_stem() {
    let media = MediaStaging::new("/media").unwrap();
    let one = copied(media, "/one.PNG", file(5, 5), b"asset");
    assert_eq!(one.destination, format!("/media/{}.png", digest(b"asset")));
    let two = copied(one.staging, "/two.tar.gz", file(6, 5), b"asset");
    assert_eq!(two.destination, format!("/media/{}.gz", digest(b"asset")));
    let three = copied(two.staging, "/three.a/b", file(7, 5), b"asset");
    assert_eq!(three.destination, format!("/media/{}.bin", digest(b"asset")));
    let four = copied(three.staging, "/four.with-sign", file(8, 5), b"other");
    assert_eq!(four.destination, format!("/media/{}.bin", digest(b"other")));
    assert_eq!(four.staging.unique_files(), 2);
}

#[test]
fn source_paths_are_judged_before_the_source_is_inspected() {
    let control = CopyControl::new(5_000);
    let mut relative = MediaStaging::new("/media").unwrap().add("relative.png");
    relative.control(&control, 0);
    assert_eq!(relative.step, AddStep::Failed);
    assert_eq!(relative.error, "Source media path must be absolute and at most 4096 bytes");
    let mut nul = MediaStaging::new("/media").unwrap().add("/a\0b.png");
    nul.control(&control, 0);
    assert_eq!(nul.error, "Source media path contains a NUL byte");
}

fn seen(busy: bool, invocation: Option<&str>) -> State {
    State { busy, invocation: invocation.map(str::to_string) }
}

#[test]
fn recoveries_are_asked_for_once_and_never_beside_another() {
    let mut idle = Trigger::begin();
    idle.inspected(&seen(false, None));
    assert_eq!(idle.step, TriggerStep::Submit);
    idle.submitted(&Err("lost".to_string()));
    assert_eq!(idle.step, TriggerStep::Failed);
    let waiting = || {
        let mut trigger = Trigger::begin();
        trigger.inspected(&seen(true, Some("one")));
        trigger.clock(0);
        trigger.paused();
        assert_eq!(trigger.step, TriggerStep::InspectAgain);
        trigger
    };
    let mut over = waiting();
    over.observed(&seen(false, Some("one")));
    assert_eq!(over.step, TriggerStep::Submit);
    let mut other = waiting();
    other.observed(&seen(false, Some("two")));
    assert_eq!(other.step, TriggerStep::Done);
    let mut broken = waiting();
    broken.failed("no answer");
    assert_eq!(broken.step, TriggerStep::Failed);
    assert_eq!(broken.error, "no answer");
}
