//! The systemd units that run the daemon or its session helper inside a box, as text.

use crate::container_destination::{route_complaint, ConfigNames, Route};
use crate::path;
use crate::services::ServiceScope;
use crate::text;
use vstd::prelude::*;

verus! {

/// The longest name of a box, in bytes.
pub const MAX_NAME: usize = 255;

/// The longest argument in a unit, in bytes.
pub const MAX_ARGUMENT: usize = 4096;

/// A character that a box's name may hold.
pub open spec fn name_char(c: char) -> bool {
    text::is_alphanumeric(c) || c == '_' || c == '.' || c == '-' || c == ' '
}

/// The name of a box: ASCII letters, digits and a few signs, of which the first is no sign.
pub open spec fn is_name(s: Seq<char>) -> bool {
    &&& 0 < s.len()
    &&& text::byte_len(s) <= MAX_NAME
    &&& text::is_alphanumeric(s[0])
    &&& forall|i: int| 0 <= i < s.len() ==> name_char(#[trigger] s[i])
}

pub fn valid_name(name: &str) -> (r: bool)
    ensures
        r == is_name(name@),
{
    let v = text::chars(name);
    if v.len() == 0 || text::len(name) > MAX_NAME || !text::alphanumeric(v[0]) {
        return false;
    }
    let mut i: usize = 0;
    while i < v.len()
        invariant
            v@ == name@,
            i <= v@.len(),
            forall|j: int| 0 <= j < i ==> name_char(#[trigger] v@[j]),
        decreases v@.len() - i,
    {
        let c = v[i];
        if !(text::alphanumeric(c) || c == '_' || c == '.' || c == '-' || c == ' ') {
            assert(!name_char(name@[i as int]));
            return false;
        }
        i += 1;
    }
    true
}

/// A character that means something in a quoted unit argument.
pub open spec fn special(c: char) -> bool {
    c == '\\' || c == '"' || c == '%' || c == '$'
}

/// A character as a quoted unit argument writes it.
pub open spec fn escape(c: char) -> Seq<char> {
    if c == '\\' || c == '"' {
        seq!['\\', c]
    } else if c == '%' || c == '$' {
        seq![c, c]
    } else {
        seq![c]
    }
}

/// A text as a quoted unit argument writes it.
pub open spec fn escaped(s: Seq<char>) -> Seq<char>
    decreases s.len(),
{
    if s.len() == 0 {
        Seq::empty()
    } else {
        escaped(s.drop_last()) + escape(s.last())
    }
}

/// A text in quotation marks.
pub open spec fn quoted(s: Seq<char>) -> Seq<char> {
    seq!['"'] + escaped(s) + seq!['"']
}

/// What a quoted argument stands for: each escape gives the character behind it.
pub open spec fn unescaped(s: Seq<char>) -> Seq<char>
    decreases s.len(),
{
    if s.len() == 0 {
        s
    } else if s.len() >= 2 && (s[0] == '\\' || s[0] == '%' || s[0] == '$') {
        seq![s[1]] + unescaped(s.skip(2))
    } else {
        seq![s[0]] + unescaped(s.skip(1))
    }
}

proof fn unescape_one(c: char, rest: Seq<char>)
    ensures
        unescaped(escape(c) + rest) == seq![c] + unescaped(rest),
{
    let s = escape(c) + rest;
    if special(c) {
        assert(s.skip(2) =~= rest);
        assert(s[1] == c);
    } else {
        assert(s.skip(1) =~= rest);
        assert(s[0] == c);
    }
}

proof fn unescape_after(s: Seq<char>, rest: Seq<char>)
    ensures
        unescaped(escaped(s) + rest) == s + unescaped(rest),
    decreases s.len(),
{
    if s.len() == 0 {
        assert(escaped(s) + rest =~= rest);
        assert(s + unescaped(rest) =~= unescaped(rest));
    } else {
        let init = s.drop_last();
        let c = s.last();
        assert(escaped(s) + rest =~= escaped(init) + (escape(c) + rest));
        unescape_after(init, escape(c) + rest);
        unescape_one(c, rest);
        assert(init + (seq![c] + unescaped(rest)) =~= s + unescaped(rest)) by {
            assert(s =~= init + seq![c]);
        }
    }
}

/// Reading the escapes of a quoted argument back gives the argument.
pub proof fn quoting_is_reversible(s: Seq<char>)
    ensures
        unescaped(escaped(s)) == s,
{
    unescape_after(s, Seq::empty());
    assert(escaped(s) + Seq::<char>::empty() =~= escaped(s));
    assert(s + Seq::<char>::empty() =~= s);
}

proof fn escapes_are_printable(s: Seq<char>)
    requires
        text::no_control(s),
    ensures
        text::no_control(escaped(s)),
    decreases s.len(),
{
    if s.len() > 0 {
        let init = s.drop_last();
        assert forall|i: int| 0 <= i < init.len() implies !text::is_control(#[trigger] init[i]) by {
            assert(init[i] == s[i]);
        }
        escapes_are_printable(init);
        assert(!text::is_control(s[s.len() - 1]));
        assert(!text::is_control('\\'));
        let all = escaped(s);
        assert forall|i: int| 0 <= i < all.len() implies !text::is_control(#[trigger] all[i]) by {
            if i < escaped(init).len() {
                assert(all[i] == escaped(init)[i]);
            } else {
                assert(all[i] == escape(s.last())[i - escaped(init).len()]);
            }
        }
    }
}

/// An argument that was quoted holds no line break or other control character, so it cannot begin
/// another directive.
pub proof fn quoted_arguments_stay_on_their_line(s: Seq<char>)
    requires
        quote_of(s) is Ok,
    ensures
        text::no_control(quote_of(s)->Ok_0),
{
    escapes_are_printable(s);
    let all = quoted(s);
    assert(!text::is_control('"'));
    assert forall|i: int| 0 <= i < all.len() implies !text::is_control(#[trigger] all[i]) by {
        if 0 < i < all.len() - 1 {
            assert(all[i] == escaped(s)[i - 1]);
        }
    }
}

/// An argument in the form of a unit, where it is fit for one.
pub open spec fn quote_of(s: Seq<char>) -> Result<Seq<char>, Seq<char>> {
    if s.len() == 0 || text::byte_len(s) > MAX_ARGUMENT || !text::no_control(s) {
        Err(
            "Unit arguments must be nonempty, at most 4096 bytes and contain no control characters"@,
        )
    } else {
        Ok(quoted(s))
    }
}

/// The text or error of a fallible call.
pub open spec fn written(r: Result<String, String>) -> Result<Seq<char>, Seq<char>> {
    match r {
        Ok(s) => Ok(s@),
        Err(e) => Err(e@),
    }
}

fn enclose(value: &str) -> (r: String)
    ensures
        r@ == quoted(value@),
{
    let v = text::chars(value);
    let mut out = String::new();
    out.push('"');
    let mut i: usize = 0;
    assert(v@.take(0) =~= Seq::<char>::empty());
    assert(out@ =~= seq!['"'] + escaped(v@.take(0)));
    while i < v.len()
        invariant
            v@ == value@,
            i <= v@.len(),
            out@ == seq!['"'] + escaped(v@.take(i as int)),
        decreases v@.len() - i,
    {
        let c = v[i];
        let ghost before = out@;
        if c == '\\' || c == '"' {
            out.push('\\');
            out.push(c);
        } else if c == '%' || c == '$' {
            out.push(c);
            out.push(c);
        } else {
            out.push(c);
        }
        proof {
            assert(v@.take(i + 1).drop_last() =~= v@.take(i as int));
            assert(v@.take(i + 1).last() == c);
            assert(out@ =~= before + escape(c));
            assert(out@ =~= seq!['"'] + escaped(v@.take(i + 1)));
        }
        i += 1;
    }
    assert(v@.take(i as int) =~= v@);
    out.push('"');
    assert(out@ =~= quoted(value@));
    out
}

pub fn quote(value: &str) -> (r: Result<String, String>)
    ensures
        written(r) == quote_of(value@),
{
    let v = text::chars(value);
    if v.len() == 0 || text::len(value) > MAX_ARGUMENT || !text::printable(value) {
        return Err(
            "Unit arguments must be nonempty, at most 4096 bytes and contain no control characters".to_owned(),
        );
    }
    Ok(enclose(value))
}

/// The script that waits for the wrapper of a stopped service to end.
pub open spec fn wait_script_spec() -> Seq<char> {
    "test -z \"$1\" || exec /usr/bin/timeout 5s /usr/bin/tail --pid=\"$1\" --sleep-interval=0.1 -f /dev/null"@
}

pub fn wait_script() -> (r: &'static str)
    ensures
        r@ == wait_script_spec(),
{
    "test -z \"$1\" || exec /usr/bin/timeout 5s /usr/bin/tail --pid=\"$1\" --sleep-interval=0.1 -f /dev/null"
}

/// The command that waits for the wrapper of a stopped service to end.
pub open spec fn wrapper_wait_spec() -> Seq<char> {
    "/usr/bin/sh -c "@ + quoted(wait_script_spec()) + " -- \"${MAINPID}\""@
}

fn wrapper_wait() -> (r: String)
    ensures
        r@ == wrapper_wait_spec(),
{
    let mut r = "/usr/bin/sh -c ".to_owned();
    r.append(enclose(wait_script()).as_str());
    r.append(" -- \"${MAINPID}\"");
    r
}

/// Whether an installed unit is the expected one, under its present or its former description.
pub open spec fn is_installed(contents: Seq<char>, expected: Seq<char>) -> bool {
    contents == expected || contents == text::replaced_once(
        expected,
        "\nDescription=Lian Li Linux "@,
        "\nDescription=Lian Li "@,
    )
}

pub fn matches_installed(contents: &str, expected: &str) -> (r: bool)
    ensures
        r == is_installed(contents@, expected@),
{
    text::eq(contents, expected) || text::eq(
        contents,
        text::replace_once(
            expected,
            "\nDescription=Lian Li Linux ",
            "\nDescription=Lian Li ",
        ).as_str(),
    )
}

/// The beginning of each command that enters the box. The supervisor of the box must not join the
/// service's control group, so the invocation is hidden from it.
pub open spec fn prefix_of(name: Seq<char>, enter: Seq<char>, binaries: Seq<char>) -> Result<
    Seq<char>,
    Seq<char>,
> {
    if !is_name(name) {
        Err("Invalid Distrobox name. Use its existing container name"@)
    } else if !(path::is_absolute(enter) && path::file_name_of(enter) == Some(
        "distrobox-enter"@,
    )) {
        Err("Select the absolute host path to distrobox-enter"@)
    } else if !path::is_absolute(binaries) {
        Err("Select an absolute binary directory inside the box"@)
    } else if enter.contains('$') {
        Err("The host executable path cannot contain dollar signs"@)
    } else {
        match quote_of(enter) {
            Err(e) => Err(e),
            Ok(enter) => match quote_of(name) {
                Err(e) => Err(e),
                Ok(name) => Ok(
                    "/usr/bin/env --unset=INVOCATION_ID "@ + enter + " --name "@ + name + " --"@,
                ),
            },
        }
    }
}

fn named_enter(p: &str) -> (r: bool)
    ensures
        r == (path::file_name_of(p@) == Some("distrobox-enter"@)),
{
    match path::file_name(p) {
        Some(n) => text::eq(n.as_str(), "distrobox-enter"),
        None => false,
    }
}

fn command_prefix(name: &str, enter: &str, binaries: &str) -> (r: Result<String, String>)
    ensures
        written(r) == prefix_of(name@, enter@, binaries@),
{
    if !valid_name(name) {
        return Err("Invalid Distrobox name. Use its existing container name".to_owned());
    }
    if !(path::absolute(enter) && named_enter(enter)) {
        return Err("Select the absolute host path to distrobox-enter".to_owned());
    }
    if !path::absolute(binaries) {
        return Err("Select an absolute binary directory inside the box".to_owned());
    }
    if text::has_char(enter, '$') {
        return Err("The host executable path cannot contain dollar signs".to_owned());
    }
    let enter = quote(enter)?;
    let name = quote(name)?;
    let mut r = "/usr/bin/env --unset=INVOCATION_ID ".to_owned();
    r.append(enter.as_str());
    r.append(" --name ");
    r.append(name.as_str());
    r.append(" --");
    Ok(r)
}

/// The quoted path of a program in the binary directory.
pub open spec fn program_of(binaries: Seq<char>, program: Seq<char>) -> Result<
    Seq<char>,
    Seq<char>,
> {
    quote_of(path::join_of(binaries, program))
}

fn program(binaries: &str, name: &str) -> (r: Result<String, String>)
    ensures
        written(r) == program_of(binaries@, name@),
{
    quote(path::join(binaries, name).as_str())
}

/// The text of some lines, each with its end.
pub open spec fn joined(lines: Seq<Seq<char>>) -> Seq<char>
    decreases lines.len(),
{
    if lines.len() == 0 {
        Seq::empty()
    } else {
        joined(lines.drop_last()) + lines.last() + "\n"@
    }
}

fn join(lines: &Vec<String>) -> (r: String)
    ensures
        r@ == joined(text::texts(lines@)),
{
    let ghost all = text::texts(lines@);
    let mut r = String::new();
    let mut i: usize = 0;
    assert(r@ =~= joined(all.take(0)));
    while i < lines.len()
        invariant
            all == text::texts(lines@),
            i <= lines@.len(),
            r@ == joined(all.take(i as int)),
        decreases lines@.len() - i,
    {
        assert(all.take(i + 1).drop_last() =~= all.take(i as int));
        assert(all.take(i + 1).last() == lines@[i as int]@);
        r.append(lines[i].as_str());
        r.append("\n");
        i += 1;
    }
    assert(all.take(i as int) =~= all);
    r
}

/// A line of two texts.
fn line(a: &str, b: &str) -> (r: String)
    ensures
        r@ == a@ + b@,
{
    let mut r = a.to_owned();
    r.append(b);
    r
}

/// The lines that every unit ends with: how it stops, when it restarts, and what wants it.
pub open spec fn closing_lines(restart: Seq<char>, stop: Seq<char>, target: Seq<char>) -> Seq<
    Seq<char>,
> {
    seq![
        "ExecStop="@ + wrapper_wait_spec(),
        "Restart="@ + restart,
        "RestartSec=5s"@,
        "KillMode=control-group"@,
        "SendSIGKILL=no"@,
        "TimeoutStopSec="@ + stop,
        ""@,
        "[Install]"@,
        "WantedBy="@ + target,
    ]
}

fn close(lines: &mut Vec<String>, restart: &str, stop: &str, target: &str)
    ensures
        text::texts(final(lines)@) == text::texts(old(lines)@) + closing_lines(
            restart@,
            stop@,
            target@,
        ),
{
    let ghost before = text::texts(lines@);
    lines.push(line("ExecStop=", wrapper_wait().as_str()));
    lines.push(line("Restart=", restart));
    lines.push("RestartSec=5s".to_owned());
    lines.push("KillMode=control-group".to_owned());
    lines.push("SendSIGKILL=no".to_owned());
    lines.push(line("TimeoutStopSec=", stop));
    lines.push("".to_owned());
    lines.push("[Install]".to_owned());
    lines.push(line("WantedBy=", target));
    assert(text::texts(lines@) =~= before + closing_lines(restart@, stop@, target@));
}

/// The lines of the daemon's unit in a user's session.
pub open spec fn user_lines(prefix: Seq<char>, daemon: Seq<char>, control: Seq<char>) -> Seq<
    Seq<char>,
> {
    seq![
        "[Unit]"@,
        "Description=Lian Li Linux Daemon (Distrobox)"@,
        "After=graphical-session.target"@,
        ""@,
        "[Service]"@,
        "ExecStart="@ + prefix + " "@ + daemon + " --service-invocation ${INVOCATION_ID}"@,
        "ExecStop="@ + prefix + " "@ + control
            + " stop-service --invocation-id ${INVOCATION_ID}"@,
    ] + closing_lines("on-failure"@, "120s"@, "default.target"@)
}

#[verifier::opaque]
pub open spec fn generate_of(name: Seq<char>, enter: Seq<char>, binaries: Seq<char>) -> Result<
    Seq<char>,
    Seq<char>,
> {
    match prefix_of(name, enter, binaries) {
        Err(e) => Err(e),
        Ok(prefix) => match program_of(binaries, "lianli-daemon"@) {
            Err(e) => Err(e),
            Ok(daemon) => match program_of(binaries, "lianli-control"@) {
                Err(e) => Err(e),
                Ok(control) => Ok(joined(user_lines(prefix, daemon, control))),
            },
        },
    }
}

/// The user unit of a daemon in a box.
pub fn generate(name: &str, host_enter: &str, guest_binaries: &str) -> (r: Result<String, String>)
    ensures
        written(r) == generate_of(name@, host_enter@, guest_binaries@),
{
    proof {
        reveal(generate_of);
    }
    let prefix = command_prefix(name, host_enter, guest_binaries)?;
    let daemon = program(guest_binaries, "lianli-daemon")?;
    let control = program(guest_binaries, "lianli-control")?;
    let mut start = "ExecStart=".to_owned();
    start.append(prefix.as_str());
    start.append(" ");
    start.append(daemon.as_str());
    start.append(" --service-invocation ${INVOCATION_ID}");
    let mut stop = "ExecStop=".to_owned();
    stop.append(prefix.as_str());
    stop.append(" ");
    stop.append(control.as_str());
    stop.append(" stop-service --invocation-id ${INVOCATION_ID}");
    let mut lines: Vec<String> = Vec::new();
    lines.push("[Unit]".to_owned());
    lines.push("Description=Lian Li Linux Daemon (Distrobox)".to_owned());
    lines.push("After=graphical-session.target".to_owned());
    lines.push("".to_owned());
    lines.push("[Service]".to_owned());
    lines.push(start);
    lines.push(stop);
    close(&mut lines, "on-failure", "120s", "default.target");
    assert(text::texts(lines@) =~= user_lines(prefix@, daemon@, control@));
    Ok(join(&lines))
}

/// The lines of the desktop capture helper's unit in a user's session.
pub open spec fn session_lines(prefix: Seq<char>, session: Seq<char>) -> Seq<Seq<char>> {
    seq![
        "[Unit]"@,
        "Description=Lian Li Linux desktop capture (Distrobox)"@,
        ""@,
        "[Service]"@,
        "ExecStart="@ + prefix + " "@ + session
            + " --login-start --service-invocation ${INVOCATION_ID}"@,
        "ExecStop="@ + prefix + " "@ + session + " --stop-service ${INVOCATION_ID}"@,
    ] + closing_lines("always"@, "30s"@, "default.target"@)
}

#[verifier::opaque]
pub open spec fn generate_session_of(
    name: Seq<char>,
    enter: Seq<char>,
    binaries: Seq<char>,
) -> Result<Seq<char>, Seq<char>> {
    match prefix_of(name, enter, binaries) {
        Err(e) => Err(e),
        Ok(prefix) => match program_of(binaries, "lianli-session"@) {
            Err(e) => Err(e),
            Ok(session) => Ok(joined(session_lines(prefix, session))),
        },
    }
}

/// The user unit of the desktop capture helper in a box.
pub fn generate_session(name: &str, host_enter: &str, guest_binaries: &str) -> (r: Result<
    String,
    String,
>)
    ensures
        written(r) == generate_session_of(name@, host_enter@, guest_binaries@),
{
    proof {
        reveal(generate_session_of);
    }
    let prefix = command_prefix(name, host_enter, guest_binaries)?;
    let session = program(guest_binaries, "lianli-session")?;
    let mut start = "ExecStart=".to_owned();
    start.append(prefix.as_str());
    start.append(" ");
    start.append(session.as_str());
    start.append(" --login-start --service-invocation ${INVOCATION_ID}");
    let mut stop = "ExecStop=".to_owned();
    stop.append(prefix.as_str());
    stop.append(" ");
    stop.append(session.as_str());
    stop.append(" --stop-service ${INVOCATION_ID}");
    let mut lines: Vec<String> = Vec::new();
    lines.push("[Unit]".to_owned());
    lines.push("Description=Lian Li Linux desktop capture (Distrobox)".to_owned());
    lines.push("".to_owned());
    lines.push("[Service]".to_owned());
    lines.push(start);
    lines.push(stop);
    close(&mut lines, "always", "30s", "default.target");
    assert(text::texts(lines@) =~= session_lines(prefix@, session@));
    Ok(join(&lines))
}

/// What a managed unit depends on.
pub open spec fn dependency_lines(scope: ServiceScope, uid: u32) -> Seq<Seq<char>> {
    match scope {
        ServiceScope::User => seq!["After=graphical-session.target"@],
        ServiceScope::System => seq![
            "Requires=user@"@ + text::decimal(uid as nat) + ".service"@,
            "After=user@"@ + text::decimal(uid as nat) + ".service"@,
        ],
    }
}

fn depend(lines: &mut Vec<String>, scope: ServiceScope, uid: u32)
    ensures
        text::texts(final(lines)@) == text::texts(old(lines)@) + dependency_lines(scope, uid),
{
    let ghost before = text::texts(lines@);
    match scope {
        ServiceScope::User => {
            lines.push("After=graphical-session.target".to_owned());
        },
        ServiceScope::System => {
            let number = text::format_u64(uid as u64);
            lines.push(line(line("Requires=user@", number.as_str()).as_str(), ".service"));
            lines.push(line(line("After=user@", number.as_str()).as_str(), ".service"));
        },
    }
    assert(text::texts(lines@) =~= before + dependency_lines(scope, uid));
}

/// The account that a managed unit runs under.
pub open spec fn account_lines(scope: ServiceScope, uid: u32) -> Seq<Seq<char>> {
    match scope {
        ServiceScope::User => Seq::empty(),
        ServiceScope::System => seq![
            "User="@ + text::decimal(uid as nat),
            "Environment=XDG_RUNTIME_DIR=/run/user/"@ + text::decimal(uid as nat),
            "Environment=DBUS_SESSION_BUS_ADDRESS=unix:path=/run/user/"@ + text::decimal(uid as nat)
                + "/bus"@,
            "RuntimeDirectory=lianli"@,
            "RuntimeDirectoryMode=0755"@,
        ],
    }
}

fn run_under(lines: &mut Vec<String>, scope: ServiceScope, uid: u32)
    ensures
        text::texts(final(lines)@) == text::texts(old(lines)@) + account_lines(scope, uid),
{
    let ghost before = text::texts(lines@);
    match scope {
        ServiceScope::User => {},
        ServiceScope::System => {
            let number = text::format_u64(uid as u64);
            lines.push(line("User=", number.as_str()));
            lines.push(line("Environment=XDG_RUNTIME_DIR=/run/user/", number.as_str()));
            lines.push(
                line(
                    line(
                        "Environment=DBUS_SESSION_BUS_ADDRESS=unix:path=/run/user/",
                        number.as_str(),
                    ).as_str(),
                    "/bus",
                ),
            );
            lines.push("RuntimeDirectory=lianli".to_owned());
            lines.push("RuntimeDirectoryMode=0755".to_owned());
        },
    }
    assert(text::texts(lines@) =~= before + account_lines(scope, uid));
}

/// The option that selects the mode of the daemon.
pub open spec fn mode_of(scope: ServiceScope) -> Seq<char> {
    match scope {
        ServiceScope::User => ""@,
        ServiceScope::System => "--system "@,
    }
}

/// The option that selects the service to stop.
pub open spec fn stop_scope_of(scope: ServiceScope) -> Seq<char> {
    match scope {
        ServiceScope::User => ""@,
        ServiceScope::System => "--scope system "@,
    }
}

pub open spec fn target_of(scope: ServiceScope) -> Seq<char> {
    match scope {
        ServiceScope::User => "default.target"@,
        ServiceScope::System => "multi-user.target"@,
    }
}

/// The lines of the unit of a daemon in a box that this program manages.
pub open spec fn managed_lines(
    scope: ServiceScope,
    uid: u32,
    prefix: Seq<char>,
    working: Seq<char>,
    daemon: Seq<char>,
    control: Seq<char>,
    config: Seq<char>,
) -> Seq<Seq<char>> {
    seq!["[Unit]"@, "Description=Lian Li Linux Daemon (managed Distrobox)"@] + dependency_lines(
        scope,
        uid,
    ) + seq![""@, "[Service]"@] + account_lines(scope, uid) + seq![
        "ExecStart="@ + prefix + " /usr/bin/env "@ + working + " "@ + daemon + " "@ + mode_of(scope)
            + "--config "@ + config + " --service-invocation ${INVOCATION_ID}"@,
        "ExecStop="@ + prefix + " "@ + control + " stop-service "@ + stop_scope_of(scope)
            + "--invocation-id ${INVOCATION_ID}"@,
    ] + closing_lines("on-failure"@, "120s"@, target_of(scope))
}

#[verifier::opaque]
pub open spec fn generate_managed_of(
    route: Route,
    names: ConfigNames,
    scope: ServiceScope,
    uid: u32,
) -> Result<Seq<char>, Seq<char>> {
    let launch = route.launch;
    match route_complaint(route, names) {
        Some(e) => Err(e),
        None => if uid == 0 {
            Err("Container services require an unprivileged owner"@)
        } else {
            match prefix_of(launch.name@, launch.host_enter@, launch.binaries@) {
                Err(e) => Err(e),
                Ok(prefix) => match quote_of("--chdir="@ + route.working_of(scope)) {
                    Err(e) => Err(e),
                    Ok(working) => match program_of(launch.binaries@, "lianli-daemon"@) {
                        Err(e) => Err(e),
                        Ok(daemon) => match program_of(launch.binaries@, "lianli-control"@) {
                            Err(e) => Err(e),
                            Ok(control) => match quote_of(route.config_of(scope)) {
                                Err(e) => Err(e),
                                Ok(config) => Ok(
                                    joined(
                                        managed_lines(
                                            scope,
                                            uid,
                                            prefix,
                                            working,
                                            daemon,
                                            control,
                                            config,
                                        ),
                                    ),
                                ),
                            },
                        },
                    },
                },
            }
        },
    }
}

/// The unit of a daemon in a box that this program manages.
pub fn generate_managed(
    route: &Route,
    names: &ConfigNames,
    scope: ServiceScope,
    owner_uid: u32,
) -> (r: Result<String, String>)
    ensures
        written(r) == generate_managed_of(*route, *names, scope, owner_uid),
{
    proof {
        reveal(generate_managed_of);
    }
    route.validate(names)?;
    if owner_uid == 0 {
        return Err("Container services require an unprivileged owner".to_owned());
    }
    let launch = &route.launch;
    let prefix = command_prefix(
        launch.name.as_str(),
        launch.host_enter.as_str(),
        launch.binaries.as_str(),
    )?;
    let (config, working) = route.paths(scope);
    let mut directory = "--chdir=".to_owned();
    directory.append(working.as_str());
    let working = quote(directory.as_str())?;
    let daemon = program(launch.binaries.as_str(), "lianli-daemon")?;
    let control = program(launch.binaries.as_str(), "lianli-control")?;
    let config = quote(config.as_str())?;
    let (mode, stop_scope, target) = match scope {
        ServiceScope::User => ("", "", "default.target"),
        ServiceScope::System => ("--system ", "--scope system ", "multi-user.target"),
    };
    let mut start = "ExecStart=".to_owned();
    start.append(prefix.as_str());
    start.append(" /usr/bin/env ");
    start.append(working.as_str());
    start.append(" ");
    start.append(daemon.as_str());
    start.append(" ");
    start.append(mode);
    start.append("--config ");
    start.append(config.as_str());
    start.append(" --service-invocation ${INVOCATION_ID}");
    let mut stop = "ExecStop=".to_owned();
    stop.append(prefix.as_str());
    stop.append(" ");
    stop.append(control.as_str());
    stop.append(" stop-service ");
    stop.append(stop_scope);
    stop.append("--invocation-id ${INVOCATION_ID}");
    let mut lines: Vec<String> = Vec::new();
    lines.push("[Unit]".to_owned());
    lines.push("Description=Lian Li Linux Daemon (managed Distrobox)".to_owned());
    assert(text::texts(lines@) =~= seq!["[Unit]"@, "Description=Lian Li Linux Daemon (managed Distrobox)"@]);
    depend(&mut lines, scope, owner_uid);
    let ghost unit = text::texts(lines@);
    lines.push("".to_owned());
    lines.push("[Service]".to_owned());
    assert(text::texts(lines@) =~= unit + seq![""@, "[Service]"@]);
    run_under(&mut lines, scope, owner_uid);
    let ghost service = text::texts(lines@);
    let ghost commands = seq![start@, stop@];
    lines.push(start);
    lines.push(stop);
    assert(text::texts(lines@) =~= service + commands);
    close(&mut lines, "on-failure", "120s", target);
    assert(text::texts(lines@) =~= managed_lines(
        scope,
        owner_uid,
        prefix@,
        working@,
        daemon@,
        control@,
        config@,
    ));
    Ok(join(&lines))
}

/// The lines of the system unit of a daemon in a box.
pub open spec fn system_lines(
    uid: u32,
    prefix: Seq<char>,
    daemon: Seq<char>,
    control: Seq<char>,
    config: Seq<char>,
) -> Seq<Seq<char>> {
    seq!["[Unit]"@, "Description=Lian Li Linux Daemon (Distrobox system mode)"@] + dependency_lines(
        ServiceScope::System,
        uid,
    ) + seq![""@, "[Service]"@] + account_lines(ServiceScope::System, uid) + seq![
        "ExecStart="@ + prefix + " "@ + daemon + " --system --config "@ + config
            + " --service-invocation ${INVOCATION_ID}"@,
        "ExecStop="@ + prefix + " "@ + control
            + " stop-service --scope system --invocation-id ${INVOCATION_ID}"@,
    ] + closing_lines("on-failure"@, "120s"@, "multi-user.target"@)
}

#[verifier::opaque]
pub open spec fn generate_system_of(
    name: Seq<char>,
    enter: Seq<char>,
    binaries: Seq<char>,
    uid: u32,
    config: Seq<char>,
) -> Result<Seq<char>, Seq<char>> {
    if uid == 0 {
        Err("Select the unprivileged host account that owns the box"@)
    } else if !path::is_absolute(config) {
        Err("Select an absolute configuration path inside the box"@)
    } else {
        match quote_of(config) {
            Err(e) => Err(e),
            Ok(config) => match prefix_of(name, enter, binaries) {
                Err(e) => Err(e),
                Ok(prefix) => match program_of(binaries, "lianli-daemon"@) {
                    Err(e) => Err(e),
                    Ok(daemon) => match program_of(binaries, "lianli-control"@) {
                        Err(e) => Err(e),
                        Ok(control) => Ok(
                            joined(system_lines(uid, prefix, daemon, control, config)),
                        ),
                    },
                },
            },
        }
    }
}

/// The system unit of a daemon in a box of an unprivileged owner.
pub fn generate_system(
    name: &str,
    host_enter: &str,
    guest_binaries: &str,
    owner_uid: u32,
    config: &str,
) -> (r: Result<String, String>)
    ensures
        written(r) == generate_system_of(
            name@,
            host_enter@,
            guest_binaries@,
            owner_uid,
            config@,
        ),
{
    proof {
        reveal(generate_system_of);
    }
    if owner_uid == 0 {
        return Err("Select the unprivileged host account that owns the box".to_owned());
    }
    if !path::absolute(config) {
        return Err("Select an absolute configuration path inside the box".to_owned());
    }
    let config = quote(config)?;
    let prefix = command_prefix(name, host_enter, guest_binaries)?;
    let daemon = program(guest_binaries, "lianli-daemon")?;
    let control = program(guest_binaries, "lianli-control")?;
    let mut start = "ExecStart=".to_owned();
    start.append(prefix.as_str());
    start.append(" ");
    start.append(daemon.as_str());
    start.append(" --system --config ");
    start.append(config.as_str());
    start.append(" --service-invocation ${INVOCATION_ID}");
    let mut stop = "ExecStop=".to_owned();
    stop.append(prefix.as_str());
    stop.append(" ");
    stop.append(control.as_str());
    stop.append(" stop-service --scope system --invocation-id ${INVOCATION_ID}");
    let mut lines: Vec<String> = Vec::new();
    lines.push("[Unit]".to_owned());
    lines.push("Description=Lian Li Linux Daemon (Distrobox system mode)".to_owned());
    assert(text::texts(lines@) =~= seq!["[Unit]"@, "Description=Lian Li Linux Daemon (Distrobox system mode)"@]);
    depend(&mut lines, ServiceScope::System, owner_uid);
    let ghost unit = text::texts(lines@);
    lines.push("".to_owned());
    lines.push("[Service]".to_owned());
    assert(text::texts(lines@) =~= unit + seq![""@, "[Service]"@]);
    run_under(&mut lines, ServiceScope::System, owner_uid);
    let ghost service = text::texts(lines@);
    let ghost commands = seq![start@, stop@];
    lines.push(start);
    lines.push(stop);
    assert(text::texts(lines@) =~= service + commands);
    close(&mut lines, "on-failure", "120s", "multi-user.target");
    assert(text::texts(lines@) =~= system_lines(
        owner_uid,
        prefix@,
        daemon@,
        control@,
        config@,
    ));
    Ok(join(&lines))
}

/// The place of the mark that ends a quoted argument, where its text begins at `i`: the first one
/// that no backslash stands before.
pub open spec fn closing_mark(s: Seq<char>, i: int) -> int
    decreases s.len() - i,
{
    if i < 0 || i >= s.len() {
        s.len() as int
    } else if s[i] == '"' {
        i
    } else if s[i] == '\\' && i + 2 < s.len() {
        closing_mark(s, i + 2)
    } else if s[i] == '\\' {
        s.len() as int
    } else {
        closing_mark(s, i + 1)
    }
}

proof fn escapes_do_not_close(s: Seq<char>, before: Seq<char>, rest: Seq<char>)
    ensures
        closing_mark(before + escaped(s) + rest, before.len() as int) == closing_mark(
            before + escaped(s) + rest,
            (before + escaped(s)).len() as int,
        ),
    decreases s.len(),
{
    if s.len() == 0 {
        assert(before + escaped(s) =~= before);
    } else {
        let init = s.drop_last();
        let c = s.last();
        let head = before + escaped(init);
        let whole = before + escaped(s) + rest;
        assert(whole =~= head + (escape(c) + rest));
        escapes_do_not_close(init, before, escape(c) + rest);
        assert(whole =~= before + escaped(init) + (escape(c) + rest));
        let at = head.len() as int;
        assert(whole[at] == escape(c)[0]);
        if c == '%' || c == '$' {
            assert(whole[at + 1] == escape(c)[1]);
            assert(closing_mark(whole, at) == closing_mark(whole, at + 1));
            assert(closing_mark(whole, at + 1) == closing_mark(whole, at + 2));
        }
    }
}

/// What can be quoted, and that quoting loses nothing: the quoted text begins and ends with a mark,
/// no mark inside ends it early, its escapes give the argument back, and so no two arguments look
/// the same.
pub proof fn quotes_are_faithful(a: Seq<char>, b: Seq<char>)
    ensures
        quote_of(a) is Err <==> a.len() == 0 || text::byte_len(a) > MAX_ARGUMENT || !text::no_control(
            a,
        ),
        quote_of(a) is Ok ==> ({
            let q = quote_of(a)->Ok_0;
            &&& q.len() >= 2
            &&& q[0] == '"' && q.last() == '"'
            &&& closing_mark(q, 1) == q.len() - 1
            &&& unescaped(q.subrange(1, q.len() - 1)) == a
        }),
        quote_of(a) is Ok && quote_of(a) == quote_of(b) ==> a == b,
{
    quoting_is_reversible(a);
    quoting_is_reversible(b);
    let p = quoted(a);
    let q = quoted(b);
    escapes_do_not_close(a, seq!['"'], seq!['"']);
    assert(p[p.len() - 1] == '"');
    assert((seq!['"'] + escaped(a)).len() == p.len() - 1);
    assert(p.subrange(1, p.len() - 1) =~= escaped(a));
    assert(q.subrange(1, q.len() - 1) =~= escaped(b));
}

proof fn joins_cleanly(a: Seq<char>, b: Seq<char>)
    requires
        text::no_control(a),
        text::no_control(b),
    ensures
        text::no_control(a + b),
{
    let all = a + b;
    assert forall|i: int| 0 <= i < all.len() implies !text::is_control(#[trigger] all[i]) by {
        if i < a.len() {
            assert(all[i] == a[i]);
        } else {
            assert(all[i] == b[i - a.len()]);
        }
    }
}

/// Lines without a control character.
pub open spec fn clean(lines: Seq<Seq<char>>) -> bool {
    forall|i: int| 0 <= i < lines.len() ==> text::no_control(#[trigger] lines[i])
}

proof fn clean_together(a: Seq<Seq<char>>, b: Seq<Seq<char>>)
    requires
        clean(a),
        clean(b),
    ensures
        clean(a + b),
{
    let all = a + b;
    assert forall|i: int| 0 <= i < all.len() implies text::no_control(#[trigger] all[i]) by {
        if i < a.len() {
            assert(all[i] == a[i]);
        } else {
            assert(all[i] == b[i - a.len()]);
        }
    }
}

proof fn one_line(line: Seq<char>, i: int)
    requires
        text::no_control(line),
        0 <= i <= line.len(),
    ensures
        text::lines_from(line.push('\n'), 0, i) == seq![line],
    decreases line.len() - i,
{
    let p = line.push('\n');
    if i < line.len() {
        assert(!text::is_control(line[i]));
        assert(p[i] == line[i]);
        one_line(line, i + 1);
    } else {
        assert(p.subrange(0, i) =~= line);
        if line.len() > 0 {
            assert(!text::is_control(line[line.len() - 1]));
        }
        assert(text::lines_from(p, i + 1, i + 1) =~= Seq::empty());
        assert(text::lines_from(p, 0, i) =~= seq![line]);
    }
}

/// The lines of a text that was made of clean lines are these.
pub proof fn joined_lines_stay(lines: Seq<Seq<char>>)
    requires
        clean(lines),
    ensures
        text::lines_of(joined(lines)) == lines,
        lines.len() > 0 ==> joined(lines).len() > 0 && joined(lines).last() == '\n',
    decreases lines.len(),
{
    reveal_strlit("\n");
    if lines.len() > 0 {
        let init = lines.drop_last();
        let last = lines.last();
        assert forall|i: int| 0 <= i < init.len() implies text::no_control(#[trigger] init[i]) by {
            assert(init[i] == lines[i]);
        }
        assert(text::no_control(lines[lines.len() - 1]));
        joined_lines_stay(init);
        one_line(last, 0);
        let p = joined(init);
        assert(last + "\n"@ =~= last.push('\n'));
        assert(joined(lines) =~= p + last.push('\n'));
        assert(joined(lines).last() == '\n');
        if init.len() > 0 {
            text::lines_of_joined(p, last.push('\n'));
        } else {
            assert(joined(lines) =~= last.push('\n'));
        }
        assert(lines =~= init + seq![last]);
    } else {
        assert(text::lines_of(joined(lines)) =~= lines);
    }
}

proof fn common_words_are_clean()
    ensures
        text::no_control("ExecStop="@),
        text::no_control("ExecStart="@),
        text::no_control("Restart="@),
        text::no_control("RestartSec=5s"@),
        text::no_control("KillMode=control-group"@),
        text::no_control("SendSIGKILL=no"@),
        text::no_control("TimeoutStopSec="@),
        text::no_control(""@),
        text::no_control("[Install]"@),
        text::no_control("WantedBy="@),
        text::no_control("[Unit]"@),
        text::no_control("[Service]"@),
        text::no_control(" "@),
        text::no_control(" --service-invocation ${INVOCATION_ID}"@),
        text::no_control("on-failure"@),
        text::no_control("always"@),
        text::no_control("120s"@),
        text::no_control("30s"@),
        text::no_control("default.target"@),
        text::no_control("multi-user.target"@),
{
    assert(text::no_control("ExecStop="@)) by {
        reveal_strlit("ExecStop=");
    }
    assert(text::no_control("ExecStart="@)) by {
        reveal_strlit("ExecStart=");
    }
    assert(text::no_control("Restart="@)) by {
        reveal_strlit("Restart=");
    }
    assert(text::no_control("RestartSec=5s"@)) by {
        reveal_strlit("RestartSec=5s");
    }
    assert(text::no_control("KillMode=control-group"@)) by {
        reveal_strlit("KillMode=control-group");
    }
    assert(text::no_control("SendSIGKILL=no"@)) by {
        reveal_strlit("SendSIGKILL=no");
    }
    assert(text::no_control("TimeoutStopSec="@)) by {
        reveal_strlit("TimeoutStopSec=");
    }
    assert(text::no_control(""@)) by {
        reveal_strlit("");
    }
    assert(text::no_control("[Install]"@)) by {
        reveal_strlit("[Install]");
    }
    assert(text::no_control("WantedBy="@)) by {
        reveal_strlit("WantedBy=");
    }
    assert(text::no_control("[Unit]"@)) by {
        reveal_strlit("[Unit]");
    }
    assert(text::no_control("[Service]"@)) by {
        reveal_strlit("[Service]");
    }
    assert(text::no_control(" "@)) by {
        reveal_strlit(" ");
    }
    assert(text::no_control(" --service-invocation ${INVOCATION_ID}"@)) by {
        reveal_strlit(" --service-invocation ${INVOCATION_ID}");
    }
    assert(text::no_control("on-failure"@)) by {
        reveal_strlit("on-failure");
    }
    assert(text::no_control("always"@)) by {
        reveal_strlit("always");
    }
    assert(text::no_control("120s"@)) by {
        reveal_strlit("120s");
    }
    assert(text::no_control("30s"@)) by {
        reveal_strlit("30s");
    }
    assert(text::no_control("default.target"@)) by {
        reveal_strlit("default.target");
    }
    assert(text::no_control("multi-user.target"@)) by {
        reveal_strlit("multi-user.target");
    }
}

proof fn command_words_are_clean()
    ensures
        text::no_control("/usr/bin/env --unset=INVOCATION_ID "@),
        text::no_control(" --name "@),
        text::no_control(" --"@),
        text::no_control("/usr/bin/sh -c "@),
        text::no_control(" -- \"${MAINPID}\""@),
{
    assert(text::no_control("/usr/bin/env --unset=INVOCATION_ID "@)) by {
        reveal_strlit("/usr/bin/env --unset=INVOCATION_ID ");
    }
    assert(text::no_control(" --name "@)) by {
        reveal_strlit(" --name ");
    }
    assert(text::no_control(" --"@)) by {
        reveal_strlit(" --");
    }
    assert(text::no_control("/usr/bin/sh -c "@)) by {
        reveal_strlit("/usr/bin/sh -c ");
    }
    assert(text::no_control(" -- \"${MAINPID}\""@)) by {
        reveal_strlit(" -- \"${MAINPID}\"");
    }
}

proof fn user_words_are_clean()
    ensures
        text::no_control("Description=Lian Li Linux Daemon (Distrobox)"@),
        text::no_control("After=graphical-session.target"@),
        text::no_control(" stop-service --invocation-id ${INVOCATION_ID}"@),
{
    assert(text::no_control("Description=Lian Li Linux Daemon (Distrobox)"@)) by {
        reveal_strlit("Description=Lian Li Linux Daemon (Distrobox)");
    }
    assert(text::no_control("After=graphical-session.target"@)) by {
        reveal_strlit("After=graphical-session.target");
    }
    assert(text::no_control(" stop-service --invocation-id ${INVOCATION_ID}"@)) by {
        reveal_strlit(" stop-service --invocation-id ${INVOCATION_ID}");
    }
}

proof fn session_words_are_clean()
    ensures
        text::no_control("Description=Lian Li Linux desktop capture (Distrobox)"@),
        text::no_control(" --login-start --service-invocation ${INVOCATION_ID}"@),
        text::no_control(" --stop-service ${INVOCATION_ID}"@),
{
    assert(text::no_control("Description=Lian Li Linux desktop capture (Distrobox)"@)) by {
        reveal_strlit("Description=Lian Li Linux desktop capture (Distrobox)");
    }
    assert(text::no_control(" --login-start --service-invocation ${INVOCATION_ID}"@)) by {
        reveal_strlit(" --login-start --service-invocation ${INVOCATION_ID}");
    }
    assert(text::no_control(" --stop-service ${INVOCATION_ID}"@)) by {
        reveal_strlit(" --stop-service ${INVOCATION_ID}");
    }
}

proof fn system_words_are_clean()
    ensures
        text::no_control("Description=Lian Li Linux Daemon (managed Distrobox)"@),
        text::no_control("Description=Lian Li Linux Daemon (Distrobox system mode)"@),
        text::no_control("Requires=user@"@),
        text::no_control(".service"@),
        text::no_control("After=user@"@),
        text::no_control("User="@),
        text::no_control("Environment=XDG_RUNTIME_DIR=/run/user/"@),
        text::no_control("Environment=DBUS_SESSION_BUS_ADDRESS=unix:path=/run/user/"@),
        text::no_control("/bus"@),
        text::no_control("RuntimeDirectory=lianli"@),
        text::no_control("RuntimeDirectoryMode=0755"@),
        text::no_control(" /usr/bin/env "@),
        text::no_control("--config "@),
        text::no_control(" stop-service "@),
        text::no_control("--invocation-id ${INVOCATION_ID}"@),
        text::no_control("--system "@),
        text::no_control("--scope system "@),
        text::no_control(" --system --config "@),
        text::no_control(" stop-service --scope system --invocation-id ${INVOCATION_ID}"@),
{
    assert(text::no_control("Description=Lian Li Linux Daemon (managed Distrobox)"@)) by {
        reveal_strlit("Description=Lian Li Linux Daemon (managed Distrobox)");
    }
    assert(text::no_control("Description=Lian Li Linux Daemon (Distrobox system mode)"@)) by {
        reveal_strlit("Description=Lian Li Linux Daemon (Distrobox system mode)");
    }
    assert(text::no_control("Requires=user@"@)) by {
        reveal_strlit("Requires=user@");
    }
    assert(text::no_control(".service"@)) by {
        reveal_strlit(".service");
    }
    assert(text::no_control("After=user@"@)) by {
        reveal_strlit("After=user@");
    }
    assert(text::no_control("User="@)) by {
        reveal_strlit("User=");
    }
    assert(text::no_control("Environment=XDG_RUNTIME_DIR=/run/user/"@)) by {
        reveal_strlit("Environment=XDG_RUNTIME_DIR=/run/user/");
    }
    assert(text::no_control("Environment=DBUS_SESSION_BUS_ADDRESS=unix:path=/run/user/"@)) by {
        reveal_strlit("Environment=DBUS_SESSION_BUS_ADDRESS=unix:path=/run/user/");
    }
    assert(text::no_control("/bus"@)) by {
        reveal_strlit("/bus");
    }
    assert(text::no_control("RuntimeDirectory=lianli"@)) by {
        reveal_strlit("RuntimeDirectory=lianli");
    }
    assert(text::no_control("RuntimeDirectoryMode=0755"@)) by {
        reveal_strlit("RuntimeDirectoryMode=0755");
    }
    assert(text::no_control(" /usr/bin/env "@)) by {
        reveal_strlit(" /usr/bin/env ");
    }
    assert(text::no_control("--config "@)) by {
        reveal_strlit("--config ");
    }
    assert(text::no_control(" stop-service "@)) by {
        reveal_strlit(" stop-service ");
    }
    assert(text::no_control("--invocation-id ${INVOCATION_ID}"@)) by {
        reveal_strlit("--invocation-id ${INVOCATION_ID}");
    }
    assert(text::no_control("--system "@)) by {
        reveal_strlit("--system ");
    }
    assert(text::no_control("--scope system "@)) by {
        reveal_strlit("--scope system ");
    }
    assert(text::no_control(" --system --config "@)) by {
        reveal_strlit(" --system --config ");
    }
    assert(text::no_control(" stop-service --scope system --invocation-id ${INVOCATION_ID}"@)) by {
        reveal_strlit(" stop-service --scope system --invocation-id ${INVOCATION_ID}");
    }
}

proof fn script_is_clean()
    ensures
        text::no_control(wait_script_spec()),
{
    reveal_strlit(
        "test -z \"$1\" || exec /usr/bin/timeout 5s /usr/bin/tail --pid=\"$1\" --sleep-interval=0.1 -f /dev/null",
    );
}

proof fn quoted_is_clean(s: Seq<char>)
    requires
        text::no_control(s),
    ensures
        text::no_control(quoted(s)),
{
    escapes_are_printable(s);
    assert(!text::is_control('"'));
    let mark = seq!['"'];
    joins_cleanly(mark, escaped(s));
    joins_cleanly(mark + escaped(s), mark);
}

proof fn closing_is_clean(restart: Seq<char>, stop: Seq<char>, target: Seq<char>)
    requires
        text::no_control(restart),
        text::no_control(stop),
        text::no_control(target),
    ensures
        clean(closing_lines(restart, stop, target)),
{
    common_words_are_clean();
    command_words_are_clean();
    script_is_clean();
    quoted_is_clean(wait_script_spec());
    joins_cleanly("/usr/bin/sh -c "@, quoted(wait_script_spec()));
    joins_cleanly("/usr/bin/sh -c "@ + quoted(wait_script_spec()), " -- \"${MAINPID}\""@);
    joins_cleanly("ExecStop="@, wrapper_wait_spec());
    joins_cleanly("Restart="@, restart);
    joins_cleanly("TimeoutStopSec="@, stop);
    joins_cleanly("WantedBy="@, target);
}

proof fn prefix_is_clean(name: Seq<char>, enter: Seq<char>, binaries: Seq<char>)
    requires
        prefix_of(name, enter, binaries) is Ok,
    ensures
        text::no_control(prefix_of(name, enter, binaries)->Ok_0),
{
    command_words_are_clean();
    let e = quote_of(enter)->Ok_0;
    let n = quote_of(name)->Ok_0;
    quoted_is_clean(enter);
    quoted_is_clean(name);
    joins_cleanly("/usr/bin/env --unset=INVOCATION_ID "@, e);
    joins_cleanly("/usr/bin/env --unset=INVOCATION_ID "@ + e, " --name "@);
    joins_cleanly("/usr/bin/env --unset=INVOCATION_ID "@ + e + " --name "@, n);
    joins_cleanly("/usr/bin/env --unset=INVOCATION_ID "@ + e + " --name "@ + n, " --"@);
}

/// A command line: a beginning, a prefix, and an argument with what follows it.
proof fn command_is_clean(
    start: Seq<char>,
    prefix: Seq<char>,
    space: Seq<char>,
    argument: Seq<char>,
    end: Seq<char>,
)
    requires
        text::no_control(start),
        text::no_control(prefix),
        text::no_control(space),
        text::no_control(argument),
        text::no_control(end),
    ensures
        text::no_control(start + prefix + space + argument + end),
{
    joins_cleanly(start, prefix);
    joins_cleanly(start + prefix, space);
    joins_cleanly(start + prefix + space, argument);
    joins_cleanly(start + prefix + space + argument, end);
}

proof fn decimals_are_clean(n: nat)
    ensures
        text::no_control(text::decimal(n)),
    decreases n,
{
    let last = seq![text::digit_char((n % 10) as int)];
    assert(text::no_control(last));
    if n >= 10 {
        decimals_are_clean(n / 10);
        joins_cleanly(text::decimal(n / 10), last);
        assert(text::decimal(n) =~= text::decimal(n / 10) + last);
    }
}

proof fn system_parts_are_clean(scope: ServiceScope, uid: u32)
    ensures
        clean(dependency_lines(scope, uid)),
        clean(account_lines(scope, uid)),
{
    user_words_are_clean();
    system_words_are_clean();
    decimals_are_clean(uid as nat);
    let n = text::decimal(uid as nat);
    joins_cleanly("Requires=user@"@, n);
    joins_cleanly("Requires=user@"@ + n, ".service"@);
    joins_cleanly("After=user@"@, n);
    joins_cleanly("After=user@"@ + n, ".service"@);
    joins_cleanly("User="@, n);
    joins_cleanly("Environment=XDG_RUNTIME_DIR=/run/user/"@, n);
    joins_cleanly("Environment=DBUS_SESSION_BUS_ADDRESS=unix:path=/run/user/"@, n);
    joins_cleanly("Environment=DBUS_SESSION_BUS_ADDRESS=unix:path=/run/user/"@ + n, "/bus"@);
}

/// No argument adds a line to the user unit: its lines are those that `user_lines` gives, and the
/// arguments stand quoted in the two commands.
pub proof fn arguments_add_no_lines(name: Seq<char>, enter: Seq<char>, binaries: Seq<char>)
    requires
        generate_of(name, enter, binaries) is Ok,
    ensures
        ({
            let lines = user_lines(
                prefix_of(name, enter, binaries)->Ok_0,
                program_of(binaries, "lianli-daemon"@)->Ok_0,
                program_of(binaries, "lianli-control"@)->Ok_0,
            );
            &&& lines.len() == 16
            &&& text::lines_of(generate_of(name, enter, binaries)->Ok_0) == lines
        }),
{
    reveal(generate_of);
    let prefix = prefix_of(name, enter, binaries)->Ok_0;
    let daemon = program_of(binaries, "lianli-daemon"@)->Ok_0;
    let control = program_of(binaries, "lianli-control"@)->Ok_0;
    common_words_are_clean();
    user_words_are_clean();
    prefix_is_clean(name, enter, binaries);
    quoted_is_clean(path::join_of(binaries, "lianli-daemon"@));
    quoted_is_clean(path::join_of(binaries, "lianli-control"@));
    command_is_clean(
        "ExecStart="@,
        prefix,
        " "@,
        daemon,
        " --service-invocation ${INVOCATION_ID}"@,
    );
    command_is_clean(
        "ExecStop="@,
        prefix,
        " "@,
        control,
        " stop-service --invocation-id ${INVOCATION_ID}"@,
    );
    closing_is_clean("on-failure"@, "120s"@, "default.target"@);
    let lines = user_lines(prefix, daemon, control);
    let head = seq![
        "[Unit]"@,
        "Description=Lian Li Linux Daemon (Distrobox)"@,
        "After=graphical-session.target"@,
        ""@,
        "[Service]"@,
        "ExecStart="@ + prefix + " "@ + daemon + " --service-invocation ${INVOCATION_ID}"@,
        "ExecStop="@ + prefix + " "@ + control
            + " stop-service --invocation-id ${INVOCATION_ID}"@,
    ];
    clean_together(head, closing_lines("on-failure"@, "120s"@, "default.target"@));
    joined_lines_stay(lines);
}

/// No argument adds a line to the unit of the desktop capture helper.
pub proof fn arguments_add_no_lines_to_the_session(
    name: Seq<char>,
    enter: Seq<char>,
    binaries: Seq<char>,
)
    requires
        generate_session_of(name, enter, binaries) is Ok,
    ensures
        ({
            let lines = session_lines(
                prefix_of(name, enter, binaries)->Ok_0,
                program_of(binaries, "lianli-session"@)->Ok_0,
            );
            &&& lines.len() == 15
            &&& text::lines_of(generate_session_of(name, enter, binaries)->Ok_0) == lines
        }),
{
    reveal(generate_session_of);
    let prefix = prefix_of(name, enter, binaries)->Ok_0;
    let session = program_of(binaries, "lianli-session"@)->Ok_0;
    common_words_are_clean();
    session_words_are_clean();
    prefix_is_clean(name, enter, binaries);
    quoted_is_clean(path::join_of(binaries, "lianli-session"@));
    command_is_clean(
        "ExecStart="@,
        prefix,
        " "@,
        session,
        " --login-start --service-invocation ${INVOCATION_ID}"@,
    );
    command_is_clean(
        "ExecStop="@,
        prefix,
        " "@,
        session,
        " --stop-service ${INVOCATION_ID}"@,
    );
    closing_is_clean("always"@, "30s"@, "default.target"@);
    let head = seq![
        "[Unit]"@,
        "Description=Lian Li Linux desktop capture (Distrobox)"@,
        ""@,
        "[Service]"@,
        "ExecStart="@ + prefix + " "@ + session
            + " --login-start --service-invocation ${INVOCATION_ID}"@,
        "ExecStop="@ + prefix + " "@ + session + " --stop-service ${INVOCATION_ID}"@,
    ];
    clean_together(head, closing_lines("always"@, "30s"@, "default.target"@));
    joined_lines_stay(session_lines(prefix, session));
}

/// No argument adds a line to the system unit.
pub proof fn arguments_add_no_lines_to_the_system_unit(
    name: Seq<char>,
    enter: Seq<char>,
    binaries: Seq<char>,
    uid: u32,
    config: Seq<char>,
)
    requires
        generate_system_of(name, enter, binaries, uid, config) is Ok,
    ensures
        ({
            let lines = system_lines(
                uid,
                prefix_of(name, enter, binaries)->Ok_0,
                program_of(binaries, "lianli-daemon"@)->Ok_0,
                program_of(binaries, "lianli-control"@)->Ok_0,
                quote_of(config)->Ok_0,
            );
            &&& lines.len() == 22
            &&& text::lines_of(generate_system_of(name, enter, binaries, uid, config)->Ok_0) == lines
        }),
{
    reveal(generate_system_of);
    let prefix = prefix_of(name, enter, binaries)->Ok_0;
    let daemon = program_of(binaries, "lianli-daemon"@)->Ok_0;
    let control = program_of(binaries, "lianli-control"@)->Ok_0;
    let target = quote_of(config)->Ok_0;
    common_words_are_clean();
    system_words_are_clean();
    prefix_is_clean(name, enter, binaries);
    quoted_is_clean(path::join_of(binaries, "lianli-daemon"@));
    quoted_is_clean(path::join_of(binaries, "lianli-control"@));
    quoted_is_clean(config);
    command_is_clean("ExecStart="@, prefix, " "@, daemon, " --system --config "@);
    joins_cleanly("ExecStart="@ + prefix + " "@ + daemon + " --system --config "@, target);
    joins_cleanly(
        "ExecStart="@ + prefix + " "@ + daemon + " --system --config "@ + target,
        " --service-invocation ${INVOCATION_ID}"@,
    );
    command_is_clean(
        "ExecStop="@,
        prefix,
        " "@,
        control,
        " stop-service --scope system --invocation-id ${INVOCATION_ID}"@,
    );
    closing_is_clean("on-failure"@, "120s"@, "multi-user.target"@);
    system_parts_are_clean(ServiceScope::System, uid);
    let head = seq!["[Unit]"@, "Description=Lian Li Linux Daemon (Distrobox system mode)"@];
    let depends = dependency_lines(ServiceScope::System, uid);
    let service = seq![""@, "[Service]"@];
    let account = account_lines(ServiceScope::System, uid);
    let commands = seq![
        "ExecStart="@ + prefix + " "@ + daemon + " --system --config "@ + target
            + " --service-invocation ${INVOCATION_ID}"@,
        "ExecStop="@ + prefix + " "@ + control
            + " stop-service --scope system --invocation-id ${INVOCATION_ID}"@,
    ];
    clean_together(head, depends);
    clean_together(head + depends, service);
    clean_together(head + depends + service, account);
    clean_together(head + depends + service + account, commands);
    clean_together(
        head + depends + service + account + commands,
        closing_lines("on-failure"@, "120s"@, "multi-user.target"@),
    );
    joined_lines_stay(system_lines(uid, prefix, daemon, control, target));
}

/// No argument adds a line to the unit of a daemon in a box that this program manages.
pub proof fn arguments_add_no_lines_to_the_managed_unit(
    route: Route,
    names: ConfigNames,
    scope: ServiceScope,
    uid: u32,
)
    requires
        generate_managed_of(route, names, scope, uid) is Ok,
    ensures
        text::lines_of(generate_managed_of(route, names, scope, uid)->Ok_0) == managed_lines(
            scope,
            uid,
            prefix_of(route.launch.name@, route.launch.host_enter@, route.launch.binaries@)->Ok_0,
            quote_of("--chdir="@ + route.working_of(scope))->Ok_0,
            program_of(route.launch.binaries@, "lianli-daemon"@)->Ok_0,
            program_of(route.launch.binaries@, "lianli-control"@)->Ok_0,
            quote_of(route.config_of(scope))->Ok_0,
        ),
{
    reveal(generate_managed_of);
    let launch = route.launch;
    let prefix = prefix_of(launch.name@, launch.host_enter@, launch.binaries@)->Ok_0;
    let working = quote_of("--chdir="@ + route.working_of(scope))->Ok_0;
    let daemon = program_of(launch.binaries@, "lianli-daemon"@)->Ok_0;
    let control = program_of(launch.binaries@, "lianli-control"@)->Ok_0;
    let config = quote_of(route.config_of(scope))->Ok_0;
    common_words_are_clean();
    system_words_are_clean();
    prefix_is_clean(launch.name@, launch.host_enter@, launch.binaries@);
    quoted_is_clean("--chdir="@ + route.working_of(scope));
    quoted_is_clean(path::join_of(launch.binaries@, "lianli-daemon"@));
    quoted_is_clean(path::join_of(launch.binaries@, "lianli-control"@));
    quoted_is_clean(route.config_of(scope));
    let run = "ExecStart="@ + prefix + " /usr/bin/env "@ + working + " "@;
    command_is_clean("ExecStart="@, prefix, " /usr/bin/env "@, working, " "@);
    joins_cleanly(run, daemon);
    joins_cleanly(run + daemon, " "@);
    joins_cleanly(run + daemon + " "@, mode_of(scope));
    joins_cleanly(run + daemon + " "@ + mode_of(scope), "--config "@);
    joins_cleanly(run + daemon + " "@ + mode_of(scope) + "--config "@, config);
    joins_cleanly(
        run + daemon + " "@ + mode_of(scope) + "--config "@ + config,
        " --service-invocation ${INVOCATION_ID}"@,
    );
    command_is_clean("ExecStop="@, prefix, " "@, control, " stop-service "@);
    joins_cleanly(
        "ExecStop="@ + prefix + " "@ + control + " stop-service "@,
        stop_scope_of(scope),
    );
    joins_cleanly(
        "ExecStop="@ + prefix + " "@ + control + " stop-service "@ + stop_scope_of(scope),
        "--invocation-id ${INVOCATION_ID}"@,
    );
    closing_is_clean("on-failure"@, "120s"@, target_of(scope));
    system_parts_are_clean(scope, uid);
    let head = seq!["[Unit]"@, "Description=Lian Li Linux Daemon (managed Distrobox)"@];
    let depends = dependency_lines(scope, uid);
    let service = seq![""@, "[Service]"@];
    let account = account_lines(scope, uid);
    let commands = seq![
        run + daemon + " "@ + mode_of(scope) + "--config "@ + config
            + " --service-invocation ${INVOCATION_ID}"@,
        "ExecStop="@ + prefix + " "@ + control + " stop-service "@ + stop_scope_of(scope)
            + "--invocation-id ${INVOCATION_ID}"@,
    ];
    clean_together(head, depends);
    clean_together(head + depends, service);
    clean_together(head + depends + service, account);
    clean_together(head + depends + service + account, commands);
    clean_together(
        head + depends + service + account + commands,
        closing_lines("on-failure"@, "120s"@, target_of(scope)),
    );
    joined_lines_stay(managed_lines(scope, uid, prefix, working, daemon, control, config));
}

pub open spec fn session_guidance_of(name: Seq<char>) -> Result<Seq<char>, Seq<char>> {
    if is_name(name) {
        Ok(
            "Inside box '"@ + name
                + "', run: lianli-control distrobox-service-unit --desktop-session --box '"@ + name
                + "'. Review the output and install it as ~/.config/systemd/user/lianli-session.service on the host. On the host run systemctl --user daemon-reload, then systemctl --user enable --now lianli-session.service. Keep the host process and private user runtime views shared with the box. See the Distrobox guide for custom paths. This capture helper does not start the hardware daemon."@,
        )
    } else {
        Err("Invalid detected Distrobox name"@)
    }
}

/// How to set up desktop capture for a box.
pub fn session_guidance(name: &str) -> (r: Result<String, String>)
    ensures
        written(r) == session_guidance_of(name@),
{
    if !valid_name(name) {
        return Err("Invalid detected Distrobox name".to_owned());
    }
    let mut r = "Inside box '".to_owned();
    r.append(name);
    r.append("', run: lianli-control distrobox-service-unit --desktop-session --box '");
    r.append(name);
    r.append(
        "'. Review the output and install it as ~/.config/systemd/user/lianli-session.service on the host. On the host run systemctl --user daemon-reload, then systemctl --user enable --now lianli-session.service. Keep the host process and private user runtime views shared with the box. See the Distrobox guide for custom paths. This capture helper does not start the hardware daemon.",
    );
    Ok(r)
}

pub open spec fn guidance_of(name: Seq<char>) -> Result<Seq<char>, Seq<char>> {
    if is_name(name) {
        Ok(
            "Inside box '"@ + name + "', run: lianli-control distrobox-service-unit --box '"@ + name
                + "'. It prints the host user unit without installing or starting it. For custom paths, pass --distrobox-enter with the host executable path and --binaries with the guest binary directory. Review the output, stop any older daemon cleanly, then install it as ~/.config/systemd/user/lianli-daemon.service on the host and run systemctl --user daemon-reload there. Follow the Distrobox guide before enabling it."@,
        )
    } else {
        Err("Invalid detected Distrobox name"@)
    }
}

/// How to set up the daemon of a box.
pub fn guidance(name: &str) -> (r: Result<String, String>)
    ensures
        written(r) == guidance_of(name@),
{
    if !valid_name(name) {
        return Err("Invalid detected Distrobox name".to_owned());
    }
    let mut r = "Inside box '".to_owned();
    r.append(name);
    r.append("', run: lianli-control distrobox-service-unit --box '");
    r.append(name);
    r.append(
        "'. It prints the host user unit without installing or starting it. For custom paths, pass --distrobox-enter with the host executable path and --binaries with the guest binary directory. Review the output, stop any older daemon cleanly, then install it as ~/.config/systemd/user/lianli-daemon.service on the host and run systemctl --user daemon-reload there. Follow the Distrobox guide before enabling it.",
    );
    Ok(r)
}

/// A box has a name exactly where it is of at most 255 bytes, begins with a letter or digit and holds
/// only those, underscores, dots, dashes and spaces.
pub proof fn boxes_have_plain_names(s: Seq<char>)
    ensures
        is_name(s) <==> {
            &&& s.len() > 0
            &&& text::byte_len(s) <= 255
            &&& text::is_alphanumeric(s[0])
            &&& forall|i: int|
                0 <= i < s.len() ==> text::is_alphanumeric(#[trigger] s[i]) || s[i] == '_' || s[i] == '.'
                    || s[i] == '-' || s[i] == ' '
        },
{
    if is_name(s) {
        assert forall|i: int| 0 <= i < s.len() implies text::is_alphanumeric(#[trigger] s[i]) || s[i]
            == '_' || s[i] == '.' || s[i] == '-' || s[i] == ' ' by {
            assert(name_char(s[i]));
        }
    }
}

/// An argument can stand in a unit exactly where it is not empty, of at most 4096 bytes and without
/// control characters. It then stands there quoted.
pub proof fn arguments_are_quoted(s: Seq<char>)
    ensures
        quote_of(s) is Ok <==> s.len() > 0 && text::byte_len(s) <= 4096 && text::no_control(s),
        quote_of(s) is Ok ==> quote_of(s)->Ok_0 == seq!['"'] + escaped(s) + seq!['"'],
{
}

/// A command enters a box exactly by a valid name and the absolute path of the program that enters,
/// without dollar signs, where the programs in the box lie at an absolute path. It names both.
pub proof fn commands_enter_their_box(name: Seq<char>, enter: Seq<char>, binaries: Seq<char>)
    ensures
        ({
            let prefix = prefix_of(name, enter, binaries);
            &&& prefix is Ok <==> {
                &&& is_name(name)
                &&& path::is_absolute(enter)
                &&& path::file_name_of(enter) == Some("distrobox-enter"@)
                &&& path::is_absolute(binaries)
                &&& !enter.contains('$')
                &&& quote_of(enter) is Ok
                &&& quote_of(name) is Ok
            }
            &&& prefix is Ok ==> prefix->Ok_0 == "/usr/bin/env --unset=INVOCATION_ID "@ + quote_of(
                enter,
            )->Ok_0 + " --name "@ + quote_of(name)->Ok_0 + " --"@
        }),
{
}

/// The unit of a managed service is made exactly for a valid route and an unprivileged owner, where all
/// that it names can stand in a unit.
pub proof fn managed_units_are_made_for_valid_routes(
    route: Route,
    names: ConfigNames,
    scope: ServiceScope,
    uid: u32,
)
    ensures
        generate_managed_of(route, names, scope, uid) is Ok <==> {
            let launch = route.launch;
            &&& route_complaint(route, names) is None
            &&& uid != 0
            &&& prefix_of(launch.name@, launch.host_enter@, launch.binaries@) is Ok
            &&& quote_of("--chdir="@ + route.working_of(scope)) is Ok
            &&& quote_of(path::join_of(launch.binaries@, "lianli-daemon"@)) is Ok
            &&& quote_of(path::join_of(launch.binaries@, "lianli-control"@)) is Ok
            &&& quote_of(route.config_of(scope)) is Ok
        },
{
    reveal(generate_managed_of);
}

/// A managed unit starts the daemon of its mode in the box, in its working directory and with its
/// configuration, and stops it there by the helper. The system's runs under the owner's number and
/// with the machine, the user's with the session and under no named account.
pub proof fn managed_units_run_the_daemon_of_their_mode(
    uid: u32,
    prefix: Seq<char>,
    working: Seq<char>,
    daemon: Seq<char>,
    control: Seq<char>,
    config: Seq<char>,
)
    ensures
        ({
            let user = managed_lines(
                ServiceScope::User,
                uid,
                prefix,
                working,
                daemon,
                control,
                config,
            );
            let system = managed_lines(
                ServiceScope::System,
                uid,
                prefix,
                working,
                daemon,
                control,
                config,
            );
            &&& user.contains(
                "ExecStart="@ + prefix + " /usr/bin/env "@ + working + " "@ + daemon + " "@ + ""@
                    + "--config "@ + config + " --service-invocation ${INVOCATION_ID}"@,
            )
            &&& system.contains(
                "ExecStart="@ + prefix + " /usr/bin/env "@ + working + " "@ + daemon + " "@
                    + "--system "@ + "--config "@ + config
                    + " --service-invocation ${INVOCATION_ID}"@,
            )
            &&& user.contains(
                "ExecStop="@ + prefix + " "@ + control + " stop-service "@ + ""@
                    + "--invocation-id ${INVOCATION_ID}"@,
            )
            &&& system.contains(
                "ExecStop="@ + prefix + " "@ + control + " stop-service "@ + "--scope system "@
                    + "--invocation-id ${INVOCATION_ID}"@,
            )
            &&& system.contains("User="@ + text::decimal(uid as nat))
            &&& system.contains("Requires=user@"@ + text::decimal(uid as nat) + ".service"@)
            &&& system.last() == "WantedBy="@ + "multi-user.target"@
            &&& user.last() == "WantedBy="@ + "default.target"@
            &&& system.len() == user.len() + 6
        }),
{
    let user = managed_lines(ServiceScope::User, uid, prefix, working, daemon, control, config);
    let system = managed_lines(ServiceScope::System, uid, prefix, working, daemon, control, config);
    assert(user.len() == 16);
    assert(user[5] == "ExecStart="@ + prefix + " /usr/bin/env "@ + working + " "@ + daemon + " "@
        + ""@ + "--config "@ + config + " --service-invocation ${INVOCATION_ID}"@);
    assert(user[6] == "ExecStop="@ + prefix + " "@ + control + " stop-service "@ + ""@
        + "--invocation-id ${INVOCATION_ID}"@);
    assert(system[11] == "ExecStart="@ + prefix + " /usr/bin/env "@ + working + " "@ + daemon + " "@
        + "--system "@ + "--config "@ + config + " --service-invocation ${INVOCATION_ID}"@);
    assert(system[12] == "ExecStop="@ + prefix + " "@ + control + " stop-service "@
        + "--scope system "@ + "--invocation-id ${INVOCATION_ID}"@);
    assert(system[6] == "User="@ + text::decimal(uid as nat));
    assert(system[2] == "Requires=user@"@ + text::decimal(uid as nat) + ".service"@);
}

/// The unit of a box's system service is made exactly for an unprivileged owner and an absolute
/// configuration that can stand in a unit, by a valid entry.
pub proof fn system_units_are_made_for_their_owner(
    name: Seq<char>,
    enter: Seq<char>,
    binaries: Seq<char>,
    uid: u32,
    config: Seq<char>,
)
    ensures
        generate_system_of(name, enter, binaries, uid, config) is Ok <==> uid != 0
            && path::is_absolute(config) && quote_of(config) is Ok && prefix_of(
            name,
            enter,
            binaries,
        ) is Ok && quote_of(path::join_of(binaries, "lianli-daemon"@)) is Ok && quote_of(
            path::join_of(binaries, "lianli-control"@),
        ) is Ok,
        generate_of(name, enter, binaries) is Ok <==> prefix_of(name, enter, binaries) is Ok
            && quote_of(path::join_of(binaries, "lianli-daemon"@)) is Ok && quote_of(
            path::join_of(binaries, "lianli-control"@),
        ) is Ok,
        generate_session_of(name, enter, binaries) is Ok <==> prefix_of(name, enter, binaries) is Ok
            && quote_of(path::join_of(binaries, "lianli-session"@)) is Ok,
{
    reveal(generate_of);
    reveal(generate_session_of);
    reveal(generate_system_of);
}

/// Guidance is given exactly for a box with a name, and names it.
pub proof fn guidance_names_the_box(name: Seq<char>)
    ensures
        guidance_of(name) is Ok <==> is_name(name),
        session_guidance_of(name) is Ok <==> is_name(name),
        is_name(name) ==> text::begins_with(guidance_of(name)->Ok_0, "Inside box '"@ + name),
        is_name(name) ==> text::begins_with(session_guidance_of(name)->Ok_0, "Inside box '"@ + name),
{
    let front = "Inside box '"@ + name;
    if is_name(name) {
        assert(guidance_of(name)->Ok_0.take(front.len() as int) =~= front);
        assert(session_guidance_of(name)->Ok_0.take(front.len() as int) =~= front);
    }
}

/// An installed unit is the expected one where it is the same text, or the same under its former
/// description.
pub proof fn installed_units_are_recognised(contents: Seq<char>, expected: Seq<char>)
    ensures
        is_installed(expected, expected),
        is_installed(contents, expected) <==> contents == expected || contents == text::replaced_once(
            expected,
            "\nDescription=Lian Li Linux "@,
            "\nDescription=Lian Li "@,
        ),
{
}

} // verus!
