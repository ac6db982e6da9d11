//! Recognising the service of a box by the commands that the manager runs for it.

use crate::command::{output_complaint, Output};
use crate::container_destination;
use crate::container_destination::{config_complaint, is_destination_path};
use crate::destination::{check_output, object_of, unit_object};
use crate::distrobox_unit;
use crate::path;
use crate::services::ServiceScope;
use crate::text;
use crate::text::{outcome, texts};
use vstd::prelude::*;

verus! {

/// A command of a unit: the program, the arguments it is started with, and how its result counts.
#[derive(Clone, Debug)]
pub struct ServiceCommand {
    pub program: String,
    pub arguments: Vec<String>,
    pub flags: Vec<String>,
}

/// The commands of a unit for one occasion, with the type under which the bus sent them.
#[derive(Clone, Debug)]
pub struct Commands {
    pub signature: String,
    pub data: Vec<ServiceCommand>,
}

/// A command as a value.
#[verifier::ext_equal]
pub struct CommandView {
    pub program: Seq<char>,
    pub arguments: Seq<Seq<char>>,
    pub flags: Seq<Seq<char>>,
}

/// The commands for one occasion as a value.
#[verifier::ext_equal]
pub struct CommandsView {
    pub signature: Seq<char>,
    pub data: Seq<CommandView>,
}

impl View for ServiceCommand {
    type V = CommandView;

    open spec fn view(&self) -> CommandView {
        CommandView {
            program: self.program@,
            arguments: texts(self.arguments@),
            flags: texts(self.flags@),
        }
    }
}

impl View for Commands {
    type V = CommandsView;

    open spec fn view(&self) -> CommandsView {
        CommandsView {
            signature: self.signature@,
            data: Seq::new(self.data@.len(), |i: int| self.data@[i]@),
        }
    }
}

pub open spec fn owner_of(value: Seq<char>) -> Result<u32, Seq<char>> {
    match text::parsed(text::trimmed(value), 10, u32::MAX as nat) {
        None => Err("The Distrobox system unit must specify its owner's numeric User ID"@),
        Some(uid) => if uid == 0 {
            Err("The Distrobox system unit must run as its unprivileged owner"@)
        } else {
            Ok(uid as u32)
        },
    }
}

/// The account of a system unit.
pub fn parse_system_owner(value: &str) -> (r: Result<u32, String>)
    ensures
        outcome(r) == owner_of(value@),
{
    match text::parse_u32(text::trim(value).as_str()) {
        None => Err(
            "The Distrobox system unit must specify its owner's numeric User ID".to_owned(),
        ),
        Some(uid) => {
            if uid == 0 {
                return Err(
                    "The Distrobox system unit must run as its unprivileged owner".to_owned(),
                );
            }
            Ok(uid)
        },
    }
}

/// The account of the system unit, by what the manager printed.
pub fn system_owner_uid(output: &Output) -> (r: Result<u32, String>)
    ensures
        outcome(r) == if output.code == Some(0i32) {
            owner_of(output.stdout@)
        } else {
            Err("Cannot inspect the Distrobox system unit account: "@ + text::trimmed(output.stderr@))
        },
{
    if !output.success() {
        let mut e = "Cannot inspect the Distrobox system unit account: ".to_owned();
        e.append(text::trim(output.stderr.as_str()).as_str());
        return Err(e);
    }
    parse_system_owner(output.stdout.as_str())
}

/// The list without its elements from `from` up to `to`.
pub open spec fn dropped(args: Seq<Seq<char>>, from: int, to: int) -> Seq<Seq<char>> {
    args.take(from) + args.skip(to)
}

fn drop_range(args: &Vec<String>, from: usize, to: usize) -> (r: Vec<String>)
    requires
        from <= to <= args@.len(),
    ensures
        texts(r@) == dropped(texts(args@), from as int, to as int),
{
    let ghost all = texts(args@);
    let mut r: Vec<String> = Vec::new();
    let mut i: usize = 0;
    while i < from
        invariant
            all == texts(args@),
            i <= from <= args@.len(),
            texts(r@) == all.take(i as int),
        decreases from - i,
    {
        proof {
            text::texts_push(r@, args@[i as int]);
            assert(all.take(i + 1) =~= all.take(i as int).push(all[i as int]));
        }
        r.push(args[i].clone());
        i += 1;
    }
    let mut j: usize = to;
    assert(all.subrange(to as int, to as int) =~= Seq::<Seq<char>>::empty());
    assert(texts(r@) =~= all.take(from as int) + all.subrange(to as int, to as int));
    while j < args.len()
        invariant
            all == texts(args@),
            from <= to <= j <= args@.len(),
            texts(r@) == all.take(from as int) + all.subrange(to as int, j as int),
        decreases args@.len() - j,
    {
        proof {
            text::texts_push(r@, args@[j as int]);
            assert(all.subrange(to as int, j + 1) =~= all.subrange(to as int, j as int).push(
                all[j as int],
            ));
        }
        r.push(args[j].clone());
        j += 1;
        assert(texts(r@) =~= all.take(from as int) + all.subrange(to as int, j as int));
    }
    assert(all.len() == args@.len());
    assert(all.subrange(to as int, j as int) =~= all.skip(to as int));
    r
}

/// The arguments of the command that waits for the wrapper to end.
pub open spec fn wait_arguments() -> Seq<Seq<char>> {
    seq![
        "/usr/bin/sh"@,
        "-c"@,
        text::replaced(distrobox_unit::wait_script_spec(), '$', "$$"@),
        "--"@,
        "${MAINPID}"@,
    ]
}

/// A command that counts, with its result, for the unit.
pub open spec fn is_wait(c: CommandView) -> bool {
    c.program == "/usr/bin/sh"@ && c.flags.len() == 0 && c.arguments == wait_arguments()
}

fn waits(c: &ServiceCommand) -> (r: bool)
    ensures
        r == is_wait(c@),
{
    let script = text::replace(distrobox_unit::wait_script(), '$', "$$");
    let ghost args = texts(c.arguments@);
    let a = &c.arguments;
    let r = text::eq(c.program.as_str(), "/usr/bin/sh") && c.flags.len() == 0 && a.len() == 5
        && text::eq(a[0].as_str(), "/usr/bin/sh") && text::eq(a[1].as_str(), "-c") && text::eq(
        a[2].as_str(),
        script.as_str(),
    ) && text::eq(a[3].as_str(), "--") && text::eq(a[4].as_str(), "${MAINPID}");
    proof {
        assert(args.len() == a@.len());
        if a@.len() == 5 {
            assert(args[0] == a@[0]@ && args[1] == a@[1]@ && args[2] == a@[2]@ && args[3]
                == a@[3]@ && args[4] == a@[4]@);
        }
        if r {
            assert(args =~= wait_arguments());
        }
    }
    r
}

/// Whether a path ends in a component.
pub open spec fn ends_with_name(p: Seq<char>, name: Seq<char>) -> bool {
    path::file_name_of(p) == Some(name)
}

fn named(p: &str, name: &str) -> (r: bool)
    ensures
        r == ends_with_name(p@, name@),
{
    match path::file_name(p) {
        Some(n) => text::eq(n.as_str(), name),
        None => false,
    }
}

/// Whether a command line starts the daemon in a box and another one stops it there, both without
/// any argument more.
pub open spec fn is_pair(start: CommandView, stop: CommandView) -> bool {
    let a = start.arguments;
    let b = stop.arguments;
    &&& a.len() == 9
    &&& b.len() == 10
    &&& distrobox_unit::is_name(a[4])
    &&& start.flags.len() == 0
    &&& stop.flags.len() == 0
    &&& path::is_absolute(a[2])
    &&& ends_with_name(a[2], "distrobox-enter"@)
    &&& start.program == "/usr/bin/env"@
    &&& stop.program == "/usr/bin/env"@
    &&& a[0] == "/usr/bin/env"@
    &&& b[0] == "/usr/bin/env"@
    &&& a[1] == "--unset=INVOCATION_ID"@
    &&& b[1] == a[1]
    &&& b[2] == a[2]
    &&& a[3] == "--name"@
    &&& b[3] == a[3]
    &&& b[4] == a[4]
    &&& a[5] == "--"@
    &&& b[5] == a[5]
    &&& path::is_absolute(a[6])
    &&& path::is_absolute(b[6])
    &&& path::parent_of(a[6]) == path::parent_of(b[6])
    &&& ends_with_name(a[6], "lianli-daemon"@)
    &&& ends_with_name(b[6], "lianli-control"@)
    &&& a[7] == "--service-invocation"@
    &&& a[8] == "${INVOCATION_ID}"@
    &&& b[7] == "stop-service"@
    &&& b[8] == "--invocation-id"@
    &&& b[9] == a[8]
}

fn pair(start: &ServiceCommand, stop: &ServiceCommand) -> (r: bool)
    ensures
        r == is_pair(start@, stop@),
{
    let ghost x = texts(start.arguments@);
    let ghost y = texts(stop.arguments@);
    let a = &start.arguments;
    let b = &stop.arguments;
    assert(x.len() == a@.len() && y.len() == b@.len());
    if a.len() != 9 || b.len() != 10 {
        return false;
    }
    assert(x[0] == a@[0]@ && x[1] == a@[1]@ && x[2] == a@[2]@ && x[3] == a@[3]@ && x[4] == a@[4]@
        && x[5] == a@[5]@ && x[6] == a@[6]@ && x[7] == a@[7]@ && x[8] == a@[8]@);
    assert(y[0] == b@[0]@ && y[1] == b@[1]@ && y[2] == b@[2]@ && y[3] == b@[3]@ && y[4] == b@[4]@
        && y[5] == b@[5]@ && y[6] == b@[6]@ && y[7] == b@[7]@ && y[8] == b@[8]@ && y[9]
        == b@[9]@);
    let entered = distrobox_unit::valid_name(a[4].as_str()) && start.flags.len() == 0
        && stop.flags.len() == 0 && path::absolute(a[2].as_str()) && named(
        a[2].as_str(),
        "distrobox-enter",
    ) && text::eq(start.program.as_str(), "/usr/bin/env") && text::eq(
        stop.program.as_str(),
        "/usr/bin/env",
    ) && text::eq(a[0].as_str(), "/usr/bin/env") && text::eq(b[0].as_str(), "/usr/bin/env")
        && text::eq(a[1].as_str(), "--unset=INVOCATION_ID") && text::eq(
        b[1].as_str(),
        a[1].as_str(),
    ) && text::eq(b[2].as_str(), a[2].as_str()) && text::eq(a[3].as_str(), "--name") && text::eq(
        b[3].as_str(),
        a[3].as_str(),
    ) && text::eq(b[4].as_str(), a[4].as_str()) && text::eq(a[5].as_str(), "--") && text::eq(
        b[5].as_str(),
        a[5].as_str(),
    );
    let together = crate::services::same_optional(
        &path::parent(a[6].as_str()),
        &path::parent(b[6].as_str()),
    );
    entered && path::absolute(a[6].as_str()) && path::absolute(b[6].as_str()) && together && named(
        a[6].as_str(),
        "lianli-daemon",
    ) && named(b[6].as_str(), "lianli-control") && text::eq(a[7].as_str(), "--service-invocation")
        && text::eq(a[8].as_str(), "${INVOCATION_ID}") && text::eq(b[7].as_str(), "stop-service")
        && text::eq(b[8].as_str(), "--invocation-id") && text::eq(b[9].as_str(), a[8].as_str())
}

pub open spec fn is_known(signature: Seq<char>) -> bool {
    signature == "a(sasasttttuii)"@
}

/// The box whose daemon the commands start and stop, where they do exactly that.
pub open spec fn recipe_of(start: CommandsView, stop: CommandsView) -> Result<
    Option<Seq<char>>,
    Seq<char>,
> {
    if !(is_known(start.signature) && is_known(stop.signature)) {
        Err("Unrecognized systemd command property format"@)
    } else if start.data.len() == 1 && stop.data.len() == 2 && is_wait(stop.data[1]) && is_pair(
        start.data[0],
        stop.data[0],
    ) {
        Ok(Some(start.data[0].arguments[4]))
    } else {
        Ok(None)
    }
}

/// The value of a call that may find a text.
pub open spec fn found(r: Result<Option<String>, String>) -> Result<Option<Seq<char>>, Seq<char>> {
    match r {
        Ok(Some(s)) => Ok(Some(s@)),
        Ok(None) => Ok(None),
        Err(e) => Err(e@),
    }
}

/// Recognises the commands of a user service without further options.
pub fn match_recipe(start: &Commands, stop: &Commands) -> (r: Result<Option<String>, String>)
    ensures
        found(r) == recipe_of(start@, stop@),
{
    if !(text::eq(start.signature.as_str(), "a(sasasttttuii)") && text::eq(
        stop.signature.as_str(),
        start.signature.as_str(),
    )) {
        return Err("Unrecognized systemd command property format".to_owned());
    }
    if start.data.len() == 1 && stop.data.len() == 2 && waits(&stop.data[1]) && pair(
        &start.data[0],
        &stop.data[0],
    ) {
        assert(start@.data[0].arguments[4] == start.data@[0].arguments@[4]@);
        Ok(Some(start.data[0].arguments[4].clone()))
    } else {
        Ok(None)
    }
}

/// The commands with other arguments for the first one.
pub open spec fn rewritten(commands: CommandsView, arguments: Seq<Seq<char>>) -> CommandsView {
    CommandsView {
        data: commands.data.update(0, CommandView { arguments, ..commands.data[0] }),
        ..commands
    }
}

fn rewrite(commands: Commands, arguments: Vec<String>) -> (r: Commands)
    requires
        commands.data@.len() > 0,
    ensures
        r@ == rewritten(commands@, texts(arguments@)),
{
    let Commands { signature, data } = commands;
    let ghost before = data@;
    let mut data = data;
    let first = ServiceCommand {
        program: data[0].program.clone(),
        arguments,
        flags: text::copy_texts(&data[0].flags),
    };
    data.set(0, first);
    let r = Commands { signature, data };
    assert(r@.data =~= rewritten(commands@, texts(arguments@)).data) by {
        assert(r@.data[0] =~= rewritten(commands@, texts(arguments@)).data[0]);
    }
    r
}

/// Whether the commands of a system service carry its options where they belong.
pub open spec fn has_system_options(start: CommandsView, stop: CommandsView) -> bool {
    let a = start.data[0].arguments;
    let b = stop.data[0].arguments;
    &&& start.data.len() == 1
    &&& stop.data.len() == 2
    &&& a.len() >= 10
    &&& a[7] == "--system"@
    &&& a[8] == "--config"@
    &&& path::is_absolute(a[9])
    &&& b.len() >= 10
    &&& b[8] == "--scope"@
    &&& b[9] == "system"@
}

/// The box of a system service: its commands without the system options are those of a user service.
pub open spec fn system_recipe_of(start: CommandsView, stop: CommandsView) -> Result<
    Option<Seq<char>>,
    Seq<char>,
> {
    if has_system_options(start, stop) {
        recipe_of(
            rewritten(start, dropped(start.data[0].arguments, 7, 10)),
            rewritten(stop, dropped(stop.data[0].arguments, 8, 10)),
        )
    } else {
        Ok(None)
    }
}

/// Recognises the commands of a system service.
pub fn match_system_recipe(start: Commands, stop: Commands) -> (r: Result<Option<String>, String>)
    ensures
        found(r) == system_recipe_of(start@, stop@),
{
    if start.data.len() != 1 || stop.data.len() != 2 {
        return Ok(None);
    }
    let ghost x = texts(start.data@[0].arguments@);
    let ghost y = texts(stop.data@[0].arguments@);
    assert(start@.data[0].arguments == x && stop@.data[0].arguments == y);
    let a = &start.data[0].arguments;
    let b = &stop.data[0].arguments;
    assert(x.len() == a@.len() && y.len() == b@.len());
    if a.len() < 10 {
        return Ok(None);
    }
    assert(x[7] == a@[7]@ && x[8] == a@[8]@ && x[9] == a@[9]@);
    if !text::eq(a[7].as_str(), "--system") || !text::eq(a[8].as_str(), "--config")
        || !path::absolute(a[9].as_str()) || b.len() < 10 {
        return Ok(None);
    }
    assert(y[8] == b@[8]@ && y[9] == b@[9]@);
    if !text::eq(b[8].as_str(), "--scope") || !text::eq(b[9].as_str(), "system") {
        return Ok(None);
    }
    let plain_start_arguments = drop_range(a, 7, 10);
    let plain_stop_arguments = drop_range(b, 8, 10);
    let plain_start = rewrite(start, plain_start_arguments);
    let plain_stop = rewrite(stop, plain_stop_arguments);
    match_recipe(&plain_start, &plain_stop)
}

/// Whether the start command enters a working directory first.
pub open spec fn enters_directory(a: Seq<Seq<char>>) -> bool {
    a.len() > 6 && a[6] == "/usr/bin/env"@
}

/// The arguments of the start command of a managed service without its own additions, where those
/// are in order. `name` says what the rules on configuration file names hold of the configuration.
pub open spec fn unmanaged(scope: ServiceScope, a: Seq<Seq<char>>, name: Result<(), String>) -> Option<
    Seq<Seq<char>>,
> {
    if !(a.len() > 7 && text::begins_with(a[7], "--chdir="@) && is_destination_path(
        a[7].skip("--chdir="@.len() as int),
    )) {
        None
    } else {
        let rest = dropped(a, 6, 8);
        if scope == ServiceScope::System {
            Some(rest)
        } else if rest.len() >= 9 && rest[7] == "--config"@ && config_complaint(rest[8], name)
            is None {
            Some(dropped(rest, 7, 9))
        } else {
            None
        }
    }
}

/// The box of a service in a mode.
pub open spec fn mode_recipe_of(scope: ServiceScope, start: CommandsView, stop: CommandsView) -> Result<
    Option<Seq<char>>,
    Seq<char>,
> {
    match scope {
        ServiceScope::User => recipe_of(start, stop),
        ServiceScope::System => system_recipe_of(start, stop),
    }
}

/// The box of a service in a mode, managed by this program or not.
pub open spec fn scoped_recipe_of(
    scope: ServiceScope,
    start: CommandsView,
    stop: CommandsView,
    name: Result<(), String>,
) -> Result<Option<Seq<char>>, Seq<char>> {
    if start.data.len() != 1 {
        Ok(None)
    } else if !enters_directory(start.data[0].arguments) {
        mode_recipe_of(scope, start, stop)
    } else {
        match unmanaged(scope, start.data[0].arguments, name) {
            None => Ok(None),
            Some(arguments) => mode_recipe_of(scope, rewritten(start, arguments), stop),
        }
    }
}

/// Recognises the commands of a service in a mode. `name` says what the rules on configuration file
/// names hold of the configuration that a managed user service names.
pub fn match_scoped_recipe(
    scope: ServiceScope,
    start: Commands,
    stop: Commands,
    name: &Result<(), String>,
) -> (r: Result<Option<String>, String>)
    ensures
        found(r) == scoped_recipe_of(scope, start@, stop@, *name),
{
    if start.data.len() != 1 {
        return Ok(None);
    }
    let ghost x = texts(start.data@[0].arguments@);
    assert(start@.data[0].arguments == x);
    let a = &start.data[0].arguments;
    assert(x.len() == a@.len());
    let managed = a.len() > 6 && text::eq(a[6].as_str(), "/usr/bin/env");
    assert(a@.len() > 6 ==> x[6] == a@[6]@);
    if !managed {
        return match scope {
            ServiceScope::User => match_recipe(&start, &stop),
            ServiceScope::System => match_system_recipe(start, stop),
        };
    }
    if a.len() < 8 {
        return Ok(None);
    }
    assert(x[7] == a@[7]@);
    match text::strip_prefix(a[7].as_str(), "--chdir=") {
        None => {
            return Ok(None);
        },
        Some(working) => {
            if container_destination::absolute(working.as_str()).is_err() {
                return Ok(None);
            }
        },
    }
    let rest = drop_range(a, 6, 8);
    let ghost y = texts(rest@);
    assert(y.len() == rest@.len());
    let plain_arguments = match scope {
        ServiceScope::System => rest,
        ServiceScope::User => {
            if rest.len() < 9 {
                return Ok(None);
            }
            assert(y[7] == rest@[7]@ && y[8] == rest@[8]@);
            if !text::eq(rest[7].as_str(), "--config") || container_destination::validate_config(
                rest[8].as_str(),
                name,
            ).is_err() {
                return Ok(None);
            }
            drop_range(&rest, 7, 9)
        },
    };
    let plain = rewrite(start, plain_arguments);
    match scope {
        ServiceScope::User => match_recipe(&plain, &stop),
        ServiceScope::System => match_system_recipe(plain, stop),
    }
}

/// A recognised service is stopped by the command of the same box, and its wrapper is waited for.
pub proof fn recognised_services_stop_in_their_own_box(
    start: CommandsView,
    stop: CommandsView,
    name: Seq<char>,
)
    requires
        recipe_of(start, stop) == Ok::<Option<Seq<char>>, Seq<char>>(Some(name)),
    ensures
        distrobox_unit::is_name(name),
        start.data[0].arguments[4] == name,
        stop.data[0].arguments[4] == name,
        stop.data[0].arguments[7] == "stop-service"@,
        is_wait(stop.data[1]),
{
}

/// The arguments of busctl that ask for the commands of a service.
pub open spec fn command_arguments_of(scope: ServiceScope, property: Seq<char>) -> Seq<Seq<char>> {
    seq![
        scope.argument_spec(),
        "--timeout=4"@,
        "--json=short"@,
        "get-property"@,
        "org.freedesktop.systemd1"@,
        object_of(scope),
        "org.freedesktop.systemd1.Service"@,
        property,
    ]
}

pub fn command_arguments(scope: ServiceScope, property: &str) -> (r: Vec<String>)
    ensures
        texts(r@) == command_arguments_of(scope, property@),
{
    let mut r: Vec<String> = Vec::new();
    r.push(scope.argument().to_owned());
    r.push("--timeout=4".to_owned());
    r.push("--json=short".to_owned());
    r.push("get-property".to_owned());
    r.push("org.freedesktop.systemd1".to_owned());
    r.push(unit_object(scope));
    r.push("org.freedesktop.systemd1.Service".to_owned());
    r.push(property.to_owned());
    assert(texts(r@) =~= command_arguments_of(scope, property@));
    r
}

/// The arguments of systemctl that ask for the account of the system unit.
pub open spec fn owner_arguments_of() -> Seq<Seq<char>> {
    seq![
        "--system"@,
        "--no-pager"@,
        "--no-ask-password"@,
        "show"@,
        "--property=User"@,
        "--value"@,
        ServiceScope::System.unit_spec(),
    ]
}

pub fn owner_arguments() -> (r: Vec<String>)
    ensures
        texts(r@) == owner_arguments_of(),
{
    let mut r: Vec<String> = Vec::new();
    r.push("--system".to_owned());
    r.push("--no-pager".to_owned());
    r.push("--no-ask-password".to_owned());
    r.push("show".to_owned());
    r.push("--property=User".to_owned());
    r.push("--value".to_owned());
    r.push(ServiceScope::System.unit().to_owned());
    assert(texts(r@) =~= owner_arguments_of());
    r
}

/// The box behind a service, by how the two queries for its commands ended and what they hold.
pub open spec fn inspected_of(
    scope: ServiceScope,
    start: (Output, Result<Commands, String>),
    stop: (Output, Result<Commands, String>),
    name: Result<(), String>,
) -> Result<Option<Seq<char>>, Seq<char>> {
    let words = "Cannot inspect Distrobox service commands with host busctl: "@;
    match (output_complaint(start.0, words), start.1) {
        (Some(e), _) => Err(e),
        (None, Err(e)) => Err(e@),
        (None, Ok(started)) => match (output_complaint(stop.0, words), stop.1) {
            (Some(e), _) => Err(e),
            (None, Err(e)) => Err(e@),
            (None, Ok(stopped)) => scoped_recipe_of(scope, started@, stopped@, name),
        },
    }
}

/// Recognises the box behind a service: the commands that start it were asked for, then those that
/// stop it.
pub fn inspect(
    scope: ServiceScope,
    start: (Output, Result<Commands, String>),
    stop: (Output, Result<Commands, String>),
    name: &Result<(), String>,
) -> (r: Result<Option<String>, String>)
    ensures
        found(r) == inspected_of(scope, start, stop, *name),
{
    check_output(&start.0, "Cannot inspect Distrobox service commands with host busctl: ")?;
    let started = start.1?;
    check_output(&stop.0, "Cannot inspect Distrobox service commands with host busctl: ")?;
    let stopped = stop.1?;
    match_scoped_recipe(scope, started, stopped, name)
}

/// The owner of a boxed system service is the number that its unit names, which is not root's.
pub proof fn owners_are_unprivileged_numbers(value: Seq<char>, uid: u32)
    ensures
        owner_of(value) == Ok::<u32, Seq<char>>(uid) <==> uid != 0 && text::parsed(
            text::trimmed(value),
            10,
            u32::MAX as nat,
        ) == Some(uid as nat),
{
}

/// The command that enters a box and runs a program there.
pub open spec fn entering(enter: Seq<char>, name: Seq<char>, rest: Seq<Seq<char>>) -> CommandView {
    CommandView {
        program: "/usr/bin/env"@,
        arguments: seq!["/usr/bin/env"@, "--unset=INVOCATION_ID"@, enter, "--name"@, name, "--"@]
            + rest,
        flags: Seq::empty(),
    }
}

/// The command that waits for the wrapper to end.
pub open spec fn waiting() -> CommandView {
    CommandView {
        program: "/usr/bin/sh"@,
        arguments: wait_arguments(),
        flags: Seq::empty(),
    }
}

/// A service that starts the daemon in a box, and stops it there by the helper beside it and then
/// waits, is recognised as the service of that box: the user's by these commands, the system's by
/// the same with its options, and either with a working directory to enter first.
pub proof fn services_of_a_box_are_recognised(
    name: Seq<char>,
    enter: Seq<char>,
    daemon: Seq<char>,
    control: Seq<char>,
    config: Seq<char>,
    working: Seq<char>,
)
    requires
        distrobox_unit::is_name(name),
        path::is_absolute(enter),
        path::file_name_of(enter) == Some("distrobox-enter"@),
        path::is_absolute(daemon),
        path::is_absolute(control),
        path::file_name_of(daemon) == Some("lianli-daemon"@),
        path::file_name_of(control) == Some("lianli-control"@),
        path::parent_of(daemon) == path::parent_of(control),
        path::is_absolute(config),
    ensures
        ({
            let known = "a(sasasttttuii)"@;
            let ran = seq!["--service-invocation"@, "${INVOCATION_ID}"@];
            let start = CommandsView {
                signature: known,
                data: seq![entering(enter, name, seq![daemon] + ran)],
            };
            let stop = CommandsView {
                signature: known,
                data: seq![
                    entering(
                        enter,
                        name,
                        seq![control, "stop-service"@, "--invocation-id"@, "${INVOCATION_ID}"@],
                    ),
                    waiting(),
                ],
            };
            let system_start = CommandsView {
                signature: known,
                data: seq![
                    entering(enter, name, seq![daemon, "--system"@, "--config"@, config] + ran),
                ],
            };
            let system_stop = CommandsView {
                signature: known,
                data: seq![
                    entering(
                        enter,
                        name,
                        seq![
                            control,
                            "stop-service"@,
                            "--scope"@,
                            "system"@,
                            "--invocation-id"@,
                            "${INVOCATION_ID}"@,
                        ],
                    ),
                    waiting(),
                ],
            };
            &&& mode_recipe_of(ServiceScope::User, start, stop) == Ok::<
                Option<Seq<char>>,
                Seq<char>,
            >(Some(name))
            &&& mode_recipe_of(ServiceScope::System, system_start, system_stop) == Ok::<
                Option<Seq<char>>,
                Seq<char>,
            >(Some(name))
        }),
{
    let known = "a(sasasttttuii)"@;
    let ran = seq!["--service-invocation"@, "${INVOCATION_ID}"@];
    let start = CommandsView {
        signature: known,
        data: seq![entering(enter, name, seq![daemon] + ran)],
    };
    let stop = CommandsView {
        signature: known,
        data: seq![
            entering(
                enter,
                name,
                seq![control, "stop-service"@, "--invocation-id"@, "${INVOCATION_ID}"@],
            ),
            waiting(),
        ],
    };
    let system_start = CommandsView {
        signature: known,
        data: seq![entering(enter, name, seq![daemon, "--system"@, "--config"@, config] + ran)],
    };
    let system_stop = CommandsView {
        signature: known,
        data: seq![
            entering(
                enter,
                name,
                seq![
                    control,
                    "stop-service"@,
                    "--scope"@,
                    "system"@,
                    "--invocation-id"@,
                    "${INVOCATION_ID}"@,
                ],
            ),
            waiting(),
        ],
    };
    assert(is_pair(start.data[0], stop.data[0]));
    assert(dropped(system_start.data[0].arguments, 7, 10) =~= start.data[0].arguments);
    assert(dropped(system_stop.data[0].arguments, 8, 10) =~= stop.data[0].arguments);
    assert(has_system_options(system_start, system_stop));
    let a = rewritten(system_start, dropped(system_start.data[0].arguments, 7, 10));
    let b = rewritten(system_stop, dropped(system_stop.data[0].arguments, 8, 10));
    assert(a.data =~= start.data);
    assert(b.data =~= stop.data);
}

/// Services are asked for at their own manager, and the account at the system's unit.
pub proof fn commands_are_asked_for_at_their_manager(scope: ServiceScope, property: Seq<char>)
    ensures
        command_arguments_of(scope, property)[0] == (if scope == ServiceScope::User {
            "--user"@
        } else {
            "--system"@
        }),
        command_arguments_of(scope, property)[5] == object_of(scope),
        command_arguments_of(scope, property).last() == property,
        owner_arguments_of().last() == "lianli-daemon-system.service"@,
{
}

/// A managed service is recognised by what it does behind its own additions: the working directory that
/// it enters, and for the user's mode its configuration, are taken off first. One whose additions are
/// not in order is none.
pub proof fn managed_services_are_recognised_without_their_additions(
    scope: ServiceScope,
    start: CommandsView,
    stop: CommandsView,
    name: Result<(), String>,
)
    ensures
        ({
            let a = start.data[0].arguments;
            let managed = a.len() > 6 && a[6] == "/usr/bin/env"@;
            let found = scoped_recipe_of(scope, start, stop, name);
            &&& start.data.len() != 1 ==> found == Ok::<Option<Seq<char>>, Seq<char>>(None)
            &&& start.data.len() == 1 && !managed ==> found == mode_recipe_of(scope, start, stop)
            &&& start.data.len() == 1 && managed && unmanaged(scope, a, name) is None ==> found == Ok::<
                Option<Seq<char>>,
                Seq<char>,
            >(None)
            &&& start.data.len() == 1 && managed && unmanaged(scope, a, name) is Some ==> found
                == mode_recipe_of(scope, rewritten(start, unmanaged(scope, a, name)->0), stop)
        }),
        mode_recipe_of(ServiceScope::User, start, stop) == recipe_of(start, stop),
        mode_recipe_of(ServiceScope::System, start, stop) == system_recipe_of(start, stop),
{
}

/// The additions of a managed service are in order exactly where it enters a sound directory and, for
/// the user's mode, names a sound configuration. What is left are its other arguments.
pub proof fn additions_are_taken_off(scope: ServiceScope, a: Seq<Seq<char>>, name: Result<(), String>)
    requires
        a.len() > 10,
    ensures
        unmanaged(scope, a, name) is Some <==> {
            &&& text::begins_with(a[7], "--chdir="@)
            &&& is_destination_path(a[7].skip("--chdir="@.len() as int))
            &&& scope == ServiceScope::User ==> a[9] == "--config"@ && config_complaint(
                a[10],
                name,
            ) is None
        },
        unmanaged(ServiceScope::System, a, name) matches Some(left) ==> left == a.take(6) + a.skip(8),
        unmanaged(ServiceScope::User, a, name) matches Some(left) ==> left == a.take(6).push(a[8])
            + a.skip(11),
{
    let rest = dropped(a, 6, 8);
    assert(rest[7] == a[9]);
    assert(rest[8] == a[10]);
    assert(dropped(rest, 7, 9) =~= a.take(6).push(a[8]) + a.skip(11));
}

/// The box behind a service is known exactly where both queries succeeded and could be read.
pub proof fn boxes_are_known_by_both_queries(
    scope: ServiceScope,
    start: (Output, Result<Commands, String>),
    stop: (Output, Result<Commands, String>),
    name: Result<(), String>,
)
    ensures
        inspected_of(scope, start, stop, name) is Ok ==> start.0.code == Some(0i32) && start.1 is Ok
            && stop.0.code == Some(0i32) && stop.1 is Ok,
        start.0.code == Some(0i32) && start.1 is Ok && stop.0.code == Some(0i32) && stop.1 is Ok
            ==> inspected_of(scope, start, stop, name) == scoped_recipe_of(
            scope,
            start.1->Ok_0@,
            stop.1->Ok_0@,
            name,
        ),
{
}

/// The services of the modes are not mistaken for each other: one that is recognised as the system's
/// says so where it starts and where it stops, names an absolute configuration, and is none of the
/// user's.
pub proof fn modes_are_not_mistaken(start: CommandsView, stop: CommandsView)
    requires
        mode_recipe_of(ServiceScope::System, start, stop) matches Ok(Some(_)),
    ensures
        start.data[0].arguments[7] == "--system"@,
        start.data[0].arguments[8] == "--config"@,
        path::is_absolute(start.data[0].arguments[9]),
        stop.data[0].arguments[8] == "--scope"@,
        stop.data[0].arguments[9] == "system"@,
        !(mode_recipe_of(ServiceScope::User, start, stop) matches Ok(Some(_))),
{
    let a = start.data[0].arguments;
    let b = dropped(a, 7, 10);
    assert(b.len() == a.len() - 3);
    assert(rewritten(start, b).data[0].arguments.len() == 9);
}

} // verus!
