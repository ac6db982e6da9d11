//! Messages of the daemon in the system journal, as plain text.

use crate::command::{output_complaint, Output};
use crate::destination::check_output;
use crate::json;
use crate::json::{member, parsed, tree, Json};
use crate::module_health::listed;
use crate::services::ServiceScope;
use crate::steps;
use crate::text;
use crate::text::{outcome, texts};
use vstd::prelude::*;
use vstd::utf8::{decode_utf8, valid_utf8};

verus! {

/// The most that the journal may print of the messages, in bytes.
pub const JOURNAL_LIMIT: usize = 1_048_576;

/// The most messages that are read.
pub const MAX_MESSAGES: usize = 100;

#[derive(Clone, Copy, Debug, PartialEq, Eq, Structural)]
pub enum LogSource {
    UserDaemon,
    SystemDaemon,
    SessionWorker,
    SavedDaemonLog,
}

/// The service manager and the unit of a source in the journal.
pub open spec fn target_of(source: LogSource) -> Result<(Seq<char>, Seq<char>), Seq<char>> {
    match source {
        LogSource::UserDaemon => Ok(("--user"@, "lianli-daemon.service"@)),
        LogSource::SystemDaemon => Ok(("--system"@, "lianli-daemon-system.service"@)),
        LogSource::SessionWorker => Ok(("--user"@, "lianli-session.service"@)),
        LogSource::SavedDaemonLog => Err("Choose a saved daemon log file in the export dialog"@),
    }
}

pub fn target(source: LogSource) -> (r: Result<(&'static str, &'static str), String>)
    ensures
        match r {
            Ok((scope, unit)) => target_of(source) == Ok::<(Seq<char>, Seq<char>), Seq<char>>(
                (scope@, unit@),
            ),
            Err(e) => target_of(source) == Err::<(Seq<char>, Seq<char>), Seq<char>>(e@),
        },
{
    match source {
        LogSource::UserDaemon => Ok(("--user", "lianli-daemon.service")),
        LogSource::SystemDaemon => Ok(("--system", "lianli-daemon-system.service")),
        LogSource::SessionWorker => Ok(("--user", "lianli-session.service")),
        LogSource::SavedDaemonLog => Err(
            "Choose a saved daemon log file in the export dialog".to_owned(),
        ),
    }
}

/// What to ask the journal for when the service does not run.
pub open spec fn recent_arguments_of(scope: Seq<char>, unit: Seq<char>) -> Seq<Seq<char>> {
    seq![
        scope,
        "--no-pager"@,
        "--lines=1"@,
        "--output=json"@,
        "--output-fields=_SYSTEMD_INVOCATION_ID"@,
        (if scope == "--user"@ {
            "_SYSTEMD_USER_UNIT"@
        } else {
            "_SYSTEMD_UNIT"@
        }) + "="@ + unit,
    ]
}

pub fn recent_arguments(scope: &str, unit: &str) -> (r: Vec<String>)
    ensures
        texts(r@) == recent_arguments_of(scope@, unit@),
{
    let mut field = if text::eq(scope, "--user") {
        "_SYSTEMD_USER_UNIT".to_owned()
    } else {
        "_SYSTEMD_UNIT".to_owned()
    };
    field.append("=");
    field.append(unit);
    let mut r: Vec<String> = Vec::new();
    r.push(scope.to_owned());
    r.push("--no-pager".to_owned());
    r.push("--lines=1".to_owned());
    r.push("--output=json".to_owned());
    r.push("--output-fields=_SYSTEMD_INVOCATION_ID".to_owned());
    r.push(field);
    assert(texts(r@) =~= recent_arguments_of(scope@, unit@));
    r
}

/// What to ask the journal for once the invocation is known.
pub open spec fn message_arguments_of(
    scope: Seq<char>,
    unit: Seq<char>,
    invocation: Seq<char>,
) -> Seq<Seq<char>> {
    seq![
        scope,
        "--no-pager"@,
        "--lines=100"@,
        "--output=json"@,
        "--output-fields=MESSAGE"@,
        "--unit"@,
        unit,
        "_SYSTEMD_INVOCATION_ID="@ + invocation,
    ]
}

pub fn message_arguments(scope: &str, unit: &str, invocation: &str) -> (r: Vec<String>)
    ensures
        texts(r@) == message_arguments_of(scope@, unit@, invocation@),
{
    let mut filter = "_SYSTEMD_INVOCATION_ID=".to_owned();
    filter.append(invocation);
    let mut r: Vec<String> = Vec::new();
    r.push(scope.to_owned());
    r.push("--no-pager".to_owned());
    r.push("--lines=100".to_owned());
    r.push("--output=json".to_owned());
    r.push("--output-fields=MESSAGE".to_owned());
    r.push("--unit".to_owned());
    r.push(unit.to_owned());
    r.push(filter);
    assert(texts(r@) =~= message_arguments_of(scope@, unit@, invocation@));
    r
}

/// An invocation identifier: 32 hexadecimal digits that are not all zero.
pub open spec fn is_invocation(s: Seq<char>) -> bool {
    text::hex_of_len(s, 32) && exists|i: int| 0 <= i < s.len() && #[trigger] s[i] != '0'
}

pub fn valid_invocation(value: &str) -> (r: Result<(), String>)
    ensures
        outcome(r) == if is_invocation(value@) {
            Ok(())
        } else {
            Err("The service has no valid daemon invocation ID"@)
        },
{
    if text::is_hex_of_len(value, 32) {
        let v = text::chars(value);
        let mut i: usize = 0;
        while i < v.len()
            invariant
                v@ == value@,
                text::hex_of_len(value@, 32),
                i <= v@.len(),
                forall|j: int| 0 <= j < i ==> #[trigger] value@[j] == '0',
            decreases v@.len() - i,
        {
            if v[i] != '0' {
                assert(value@[i as int] != '0');
                return Ok(());
            }
            i += 1;
        }
    }
    Err("The service has no valid daemon invocation ID".to_owned())
}

/// The invocation that a journal record names.
pub open spec fn invocation_of(record: Result<Json, Seq<char>>) -> Result<Seq<char>, Seq<char>> {
    match record {
        Err(e) => Err("No previous daemon invocation was found in the readable journal: "@ + e),
        Ok(json) => match member(json, "_SYSTEMD_INVOCATION_ID"@) {
            Some(Json::Text(id)) => if is_invocation(id) {
                Ok(id)
            } else {
                Err("The service has no valid daemon invocation ID"@)
            },
            _ => Err("Latest daemon log has no invocation ID"@),
        },
    }
}

/// The invocation that the latest journal record names.
pub fn latest_invocation(output: &str) -> (r: Result<String, String>)
    ensures
        match r {
            Ok(id) => invocation_of(parsed(text::trimmed(output@))) == Ok::<
                Seq<char>,
                Seq<char>,
            >(id@),
            Err(e) => invocation_of(parsed(text::trimmed(output@))) == Err::<
                Seq<char>,
                Seq<char>,
            >(e@),
        },
{
    match json::parse(text::trim(output).as_str()) {
        Err(cause) => {
            let mut e = "No previous daemon invocation was found in the readable journal: ".to_owned();
            e.append(cause.as_str());
            Err(e)
        },
        Ok(record) => recorded_invocation(&record),
    }
}

/// The invocation that a journal record names.
pub fn recorded_invocation(record: &serde_json::Value) -> (r: Result<String, String>)
    ensures
        match r {
            Ok(id) => invocation_of(Ok(tree(*record))) == Ok::<Seq<char>, Seq<char>>(id@),
            Err(e) => invocation_of(Ok(tree(*record))) == Err::<Seq<char>, Seq<char>>(e@),
        },
{
    match json::get(record, "_SYSTEMD_INVOCATION_ID") {
        None => Err("Latest daemon log has no invocation ID".to_owned()),
        Some(value) => match json::as_str(value) {
            None => Err("Latest daemon log has no invocation ID".to_owned()),
            Some(id) => {
                valid_invocation(id)?;
                Ok(id.to_owned())
            },
        },
    }
}

/// Nothing but white space.
pub open spec fn is_blank(s: Seq<char>) -> bool {
    text::trimmed(s).len() == 0
}

/// The invocation that runs, if one does, by what the service manager printed.
pub open spec fn running_of(output: Output) -> Result<Option<Seq<char>>, Seq<char>> {
    match output_complaint(output, "Cannot inspect daemon invocation: "@) {
        Some(e) => Err(e),
        None => if is_blank(output.stdout@) {
            Ok(None)
        } else if is_invocation(text::trimmed(output.stdout@)) {
            Ok(Some(text::trimmed(output.stdout@)))
        } else {
            Err("The service has no valid daemon invocation ID"@)
        },
    }
}

pub fn running_invocation(output: &Output) -> (r: Result<Option<String>, String>)
    ensures
        match r {
            Ok(None) => running_of(*output) == Ok::<Option<Seq<char>>, Seq<char>>(None),
            Ok(Some(id)) => running_of(*output) == Ok::<Option<Seq<char>>, Seq<char>>(Some(id@)),
            Err(e) => running_of(*output) == Err::<Option<Seq<char>>, Seq<char>>(e@),
        },
{
    if !output.success() {
        let mut e = "Cannot inspect daemon invocation: ".to_owned();
        e.append(text::trim(output.stderr.as_str()).as_str());
        return Err(e);
    }
    let id = text::trim(output.stdout.as_str());
    if text::chars(id.as_str()).len() == 0 {
        return Ok(None);
    }
    valid_invocation(id.as_str())?;
    Ok(Some(id))
}

/// A character that ends a terminal control sequence.
pub open spec fn is_terminator(c: char) -> bool {
    0x40 <= c as u32 <= 0x7e
}

/// The index after the control sequence whose parameters begin at `i`.
pub open spec fn after_sequence(s: Seq<char>, i: int) -> int
    decreases s.len() - i,
{
    if i >= s.len() {
        s.len() as int
    } else if is_terminator(s[i]) {
        i + 1
    } else {
        after_sequence(s, i + 1)
    }
}

/// Whether a terminal control sequence begins at `i`.
pub open spec fn begins_sequence(s: Seq<char>, i: int) -> bool {
    s[i] == '\u{1b}' && i + 1 < s.len() && s[i + 1] == '['
}

/// A character that plain text keeps.
pub open spec fn is_kept(c: char) -> bool {
    !text::is_control(c) || c == '\n' || c == '\t'
}

proof fn sequence_ends(s: Seq<char>, i: int)
    requires
        0 <= i <= s.len(),
    ensures
        i <= after_sequence(s, i) <= s.len(),
    decreases s.len() - i,
{
    if i < s.len() && !is_terminator(s[i]) {
        sequence_ends(s, i + 1);
    }
}

/// The text from `i` on without terminal control sequences and control characters.
pub open spec fn plain_from(s: Seq<char>, i: int) -> Seq<char>
    decreases s.len() - i,
    via plain_from_ends
{
    if i < 0 || i >= s.len() {
        Seq::empty()
    } else if begins_sequence(s, i) {
        plain_from(s, after_sequence(s, i + 2))
    } else if is_kept(s[i]) {
        seq![s[i]] + plain_from(s, i + 1)
    } else {
        plain_from(s, i + 1)
    }
}

#[via_fn]
proof fn plain_from_ends(s: Seq<char>, i: int) {
    if 0 <= i < s.len() && begins_sequence(s, i) {
        sequence_ends(s, i + 2);
    }
}

/// The text without terminal control sequences and control characters.
pub fn plain_text(value: &str) -> (r: String)
    ensures
        r@ == plain_from(value@, 0),
{
    let v = text::chars(value);
    let n: usize = v.len();
    let mut out = String::new();
    let mut i: usize = 0;
    let ghost whole = plain_from(value@, 0);
    assert(out@ + whole =~= whole);
    while i < n
        invariant
            v@ == value@,
            n == v@.len(),
            i <= n,
            whole == plain_from(value@, 0),
            out@ + plain_from(value@, i as int) == whole,
        decreases n - i,
    {
        let c = v[i];
        let ghost before = out@;
        if c == '\u{1b}' && n - i > 1 && v[i + 1] == '[' {
            let ghost start = i + 2;
            proof {
                sequence_ends(value@, start);
            }
            i += 2;
            let mut inside = true;
            while inside && i < n
                invariant
                    v@ == value@,
                    n == v@.len(),
                    start <= i <= n,
                    if inside {
                        after_sequence(value@, start) == after_sequence(value@, i as int)
                    } else {
                        after_sequence(value@, start) == i
                    },
                decreases n - i,
            {
                let u: u32 = v[i] as u32;
                if 0x40 <= u && u <= 0x7e {
                    inside = false;
                }
                i += 1;
            }
        } else {
            if !text::control(c) || c == '\n' || c == '\t' {
                out.push(c);
                assert(before + (seq![c] + plain_from(value@, i + 1)) =~= out@ + plain_from(
                    value@,
                    i + 1,
                ));
            }
            i += 1;
        }
    }
    assert(plain_from(value@, i as int) =~= Seq::<char>::empty());
    assert(out@ =~= whole);
    out
}

/// Plain text holds no control characters but line breaks and tabs.
pub proof fn plain_text_is_printable(s: Seq<char>, i: int)
    requires
        0 <= i,
    ensures
        forall|j: int| 0 <= j < plain_from(s, i).len() ==> is_kept(#[trigger] plain_from(s, i)[j]),
    decreases s.len() - i,
{
    if i < s.len() {
        if begins_sequence(s, i) {
            sequence_ends(s, i + 2);
            plain_text_is_printable(s, after_sequence(s, i + 2));
            assert(plain_from(s, i) == plain_from(s, after_sequence(s, i + 2)));
        } else {
            plain_text_is_printable(s, i + 1);
            let rest = plain_from(s, i + 1);
            if is_kept(s[i]) {
                assert(plain_from(s, i) == seq![s[i]] + rest);
                assert forall|j: int| 0 <= j < plain_from(s, i).len() implies is_kept(
                    #[trigger] plain_from(s, i)[j],
                ) by {
                    if j > 0 {
                        assert(plain_from(s, i)[j] == rest[j - 1]);
                    }
                }
            } else {
                assert(plain_from(s, i) == rest);
            }
        }
    }
}

proof fn kept_text_stays(s: Seq<char>, i: int)
    requires
        0 <= i <= s.len(),
        forall|j: int| 0 <= j < s.len() ==> is_kept(#[trigger] s[j]),
    ensures
        plain_from(s, i) == s.skip(i),
    decreases s.len() - i,
{
    if i < s.len() {
        assert(is_kept(s[i]));
        assert(text::is_control('\u{1b}'));
        kept_text_stays(s, i + 1);
        assert(s.skip(i) =~= seq![s[i]] + s.skip(i + 1));
    } else {
        assert(s.skip(i) =~= Seq::<char>::empty());
    }
}

/// Text without control characters stays as it is.
pub proof fn clean_text_is_kept(s: Seq<char>)
    requires
        forall|j: int| 0 <= j < s.len() ==> is_kept(#[trigger] s[j]),
    ensures
        plain_from(s, 0) == s,
{
    kept_text_stays(s, 0);
    assert(s.skip(0) =~= s);
}

/// The places of the characters that plain text keeps, from `i` on.
pub open spec fn kept_from(s: Seq<char>, i: int) -> Seq<int>
    decreases s.len() - i,
    via kept_from_ends
{
    if i < 0 || i >= s.len() {
        Seq::empty()
    } else if begins_sequence(s, i) {
        kept_from(s, after_sequence(s, i + 2))
    } else if is_kept(s[i]) {
        seq![i] + kept_from(s, i + 1)
    } else {
        kept_from(s, i + 1)
    }
}

#[via_fn]
proof fn kept_from_ends(s: Seq<char>, i: int) {
    if 0 <= i < s.len() && begins_sequence(s, i) {
        sequence_ends(s, i + 2);
    }
}

/// Plain text is a subsequence of the text: its characters stand there in the same order.
pub proof fn plain_text_is_a_subsequence(s: Seq<char>, i: int)
    requires
        0 <= i,
    ensures
        plain_from(s, i).len() == kept_from(s, i).len(),
        forall|k: int|
            0 <= k < kept_from(s, i).len() ==> i <= #[trigger] kept_from(s, i)[k] < s.len()
                && plain_from(s, i)[k] == s[kept_from(s, i)[k]],
        forall|j: int, k: int|
            0 <= j < k < kept_from(s, i).len() ==> #[trigger] kept_from(s, i)[j]
                < #[trigger] kept_from(s, i)[k],
    decreases s.len() - i,
{
    if i < s.len() {
        if begins_sequence(s, i) {
            sequence_ends(s, i + 2);
            plain_text_is_a_subsequence(s, after_sequence(s, i + 2));
            assert(kept_from(s, i) == kept_from(s, after_sequence(s, i + 2)));
        } else {
            plain_text_is_a_subsequence(s, i + 1);
            let rest = kept_from(s, i + 1);
            if is_kept(s[i]) {
                assert(kept_from(s, i) == seq![i] + rest);
                assert(plain_from(s, i) == seq![s[i]] + plain_from(s, i + 1));
                assert forall|k: int| 0 <= k < kept_from(s, i).len() implies i
                    <= #[trigger] kept_from(s, i)[k] < s.len() && plain_from(s, i)[k]
                    == s[kept_from(s, i)[k]] by {
                    if k > 0 {
                        assert(kept_from(s, i)[k] == rest[k - 1]);
                        assert(plain_from(s, i)[k] == plain_from(s, i + 1)[k - 1]);
                    }
                }
                assert forall|j: int, k: int| 0 <= j < k < kept_from(s, i).len() implies
                    #[trigger] kept_from(s, i)[j] < #[trigger] kept_from(s, i)[k] by {
                    assert(kept_from(s, i)[k] == rest[k - 1]);
                    if j > 0 {
                        assert(kept_from(s, i)[j] == rest[j - 1]);
                    }
                }
            } else {
                assert(kept_from(s, i) == rest);
            }
        }
    }
}

/// Whether no control sequence of the text from `i` on reaches across `n`.
pub open spec fn divides(s: Seq<char>, i: int, n: int) -> bool
    decreases s.len() - i,
    via divides_ends
{
    if i < 0 || i >= n || i >= s.len() {
        i == n
    } else if begins_sequence(s, i) {
        divides(s, after_sequence(s, i + 2), n)
    } else {
        divides(s, i + 1, n)
    }
}

#[via_fn]
proof fn divides_ends(s: Seq<char>, i: int, n: int) {
    if 0 <= i < s.len() && begins_sequence(s, i) {
        sequence_ends(s, i + 2);
    }
}

proof fn sequence_shifts(a: Seq<char>, b: Seq<char>, i: int)
    requires
        0 <= i <= b.len(),
    ensures
        after_sequence(a + b, a.len() + i) == a.len() + after_sequence(b, i),
    decreases b.len() - i,
{
    if i < b.len() {
        assert((a + b)[a.len() + i] == b[i]);
        if !is_terminator(b[i]) {
            sequence_shifts(a, b, i + 1);
        }
    }
}

proof fn plain_shifts(a: Seq<char>, b: Seq<char>, i: int)
    requires
        0 <= i <= b.len(),
    ensures
        plain_from(a + b, a.len() + i) == plain_from(b, i),
    decreases b.len() - i,
{
    let s = a + b;
    if i < b.len() {
        assert(s[a.len() + i] == b[i]);
        if i + 1 < b.len() {
            assert(s[a.len() + i + 1] == b[i + 1]);
        }
        assert(begins_sequence(s, a.len() + i) == begins_sequence(b, i));
        if begins_sequence(b, i) {
            sequence_shifts(a, b, i + 2);
            sequence_ends(b, i + 2);
            plain_shifts(a, b, after_sequence(b, i + 2));
        } else {
            plain_shifts(a, b, i + 1);
        }
    }
}

proof fn divided_stays(s: Seq<char>, i: int, n: int)
    requires
        divides(s, i, n),
    ensures
        i <= n,
    decreases s.len() - i,
{
    if 0 <= i < n && i < s.len() {
        if begins_sequence(s, i) {
            sequence_ends(s, i + 2);
        }
    }
}

proof fn sequence_within(a: Seq<char>, b: Seq<char>, i: int)
    requires
        0 <= i <= a.len(),
        after_sequence(a + b, i) <= a.len(),
    ensures
        after_sequence(a, i) == after_sequence(a + b, i),
    decreases a.len() - i,
{
    let s = a + b;
    if i < a.len() {
        assert(s[i] == a[i]);
        if !is_terminator(a[i]) {
            sequence_within(a, b, i + 1);
        }
    } else {
        sequence_ends(s, i);
        if i < s.len() && !is_terminator(s[i]) {
            sequence_ends(s, i + 1);
        }
    }
}

proof fn plain_joins(a: Seq<char>, b: Seq<char>, i: int)
    requires
        0 <= i <= a.len(),
        divides(a + b, i, a.len() as int),
    ensures
        plain_from(a + b, i) == plain_from(a, i) + plain_from(b, 0),
    decreases a.len() - i,
{
    let s = a + b;
    if i == a.len() {
        plain_shifts(a, b, 0);
        assert(plain_from(a, i) =~= Seq::<char>::empty());
        assert(Seq::<char>::empty() + plain_from(b, 0) =~= plain_from(b, 0));
    } else {
        assert(s[i] == a[i]);
        if begins_sequence(s, i) {
            sequence_ends(s, i + 2);
            let end = after_sequence(s, i + 2);
            divided_stays(s, end, a.len() as int);
            assert(s[i + 1] == a[i + 1]);
            sequence_within(a, b, i + 2);
            plain_joins(a, b, end);
        } else {
            if i + 1 < a.len() {
                assert(s[i + 1] == a[i + 1]);
            }
            plain_joins(a, b, i + 1);
            let rest = plain_from(a, i + 1);
            if is_kept(a[i]) {
                assert(seq![a[i]] + (rest + plain_from(b, 0)) =~= (seq![a[i]] + rest) + plain_from(
                    b,
                    0,
                ));
            }
        }
    }
}

/// Two texts one after the other become plain as each of them does, unless a control sequence
/// reaches from the first into the second.
pub proof fn plain_text_of_both(a: Seq<char>, b: Seq<char>)
    requires
        divides(a + b, 0, a.len() as int),
    ensures
        plain_from(a + b, 0) == plain_from(a, 0) + plain_from(b, 0),
{
    plain_joins(a, b, 0);
}

/// Making plain text plain again changes nothing.
pub proof fn plain_text_is_idempotent(s: Seq<char>)
    ensures
        plain_from(plain_from(s, 0), 0) == plain_from(s, 0),
{
    plain_text_is_printable(s, 0);
    let once = plain_from(s, 0);
    kept_text_stays(once, 0);
    assert(once.skip(0) =~= once);
}

/// The bytes that the items of an array write, if all are bytes.
pub open spec fn bytes_from(items: Seq<Json>, n: int) -> Option<Seq<u8>>
    decreases n,
{
    if n <= 0 {
        Some(Seq::empty())
    } else {
        match (bytes_from(items, n - 1), items[n - 1]) {
            (Some(before), Json::Number(Some(byte))) => if byte <= 255 {
                Some(before.push(byte as u8))
            } else {
                None
            },
            _ => None,
        }
    }
}

/// The text under the message of a journal record, where it is text.
pub open spec fn raw_message(record: Json) -> Option<Seq<char>> {
    match member(record, "MESSAGE"@) {
        Some(Json::Text(s)) => Some(s),
        Some(Json::Array(items)) => match bytes_from(items, items.len() as int) {
            Some(bytes) => if valid_utf8(bytes) {
                Some(decode_utf8(bytes))
            } else {
                None
            },
            None => None,
        },
        _ => None,
    }
}

/// The message of a journal record as plain text.
pub open spec fn message_of(record: Json) -> Seq<char> {
    match raw_message(record) {
        Some(s) => if is_blank(plain_from(s, 0)) {
            "[non-text journal message omitted]"@
        } else {
            plain_from(s, 0)
        },
        None => "[non-text journal message omitted]"@,
    }
}

fn bytes(items: &Vec<serde_json::Value>) -> (r: Option<Vec<u8>>)
    ensures
        match r {
            Some(v) => bytes_from(json::trees(items@), items@.len() as int) == Some(v@),
            None => bytes_from(json::trees(items@), items@.len() as int) is None,
        },
{
    let ghost all = json::trees(items@);
    let mut out: Vec<u8> = Vec::new();
    let mut bad = false;
    let mut i: usize = 0;
    while i < items.len()
        invariant
            all == json::trees(items@),
            i <= items@.len(),
            bytes_from(all, i as int) == if bad {
                None
            } else {
                Some(out@)
            },
        decreases items@.len() - i,
    {
        assert(all[i as int] == tree(items@[i as int]));
        match json::as_u64(&items[i]) {
            Some(n) => {
                if n <= 255 {
                    out.push(n as u8);
                } else {
                    bad = true;
                }
            },
            None => {
                bad = true;
            },
        }
        i += 1;
    }
    if bad {
        None
    } else {
        Some(out)
    }
}

fn raw(record: &serde_json::Value) -> (r: Option<String>)
    ensures
        match r {
            Some(s) => raw_message(tree(*record)) == Some(s@),
            None => raw_message(tree(*record)) is None,
        },
{
    let value = match json::get(record, "MESSAGE") {
        Some(value) => value,
        None => {
            return None;
        },
    };
    match json::as_str(value) {
        Some(s) => {
            return Some(s.to_owned());
        },
        None => {},
    }
    match json::as_array(value) {
        Some(items) => match bytes(items) {
            Some(v) => match json::decode(v) {
                Ok(s) => Some(s),
                Err(_) => None,
            },
            None => None,
        },
        None => None,
    }
}

/// The message of a journal record as plain text.
pub fn message(record: &serde_json::Value) -> (r: String)
    ensures
        r@ == message_of(tree(*record)),
{
    match raw(record) {
        Some(s) => {
            let plain = plain_text(s.as_str());
            if text::chars(text::trim(plain.as_str()).as_str()).len() == 0 {
                "[non-text journal message omitted]".to_owned()
            } else {
                plain
            }
        },
        None => "[non-text journal message omitted]".to_owned(),
    }
}

/// The messages of the first `n` journal records, or the first error.
pub open spec fn messages_from(lines: Seq<Seq<char>>, n: int) -> Result<Seq<Seq<char>>, Seq<char>>
    decreases n,
{
    if n <= 0 {
        Ok(Seq::empty())
    } else {
        match messages_from(lines, n - 1) {
            Err(e) => Err(e),
            Ok(before) => match parsed(lines[n - 1]) {
                Err(e) => Err(e),
                Ok(record) => Ok(before.push(message_of(record))),
            },
        }
    }
}

/// How many records are read.
pub open spec fn counted(lines: Seq<Seq<char>>) -> int {
    if lines.len() < MAX_MESSAGES {
        lines.len() as int
    } else {
        MAX_MESSAGES as int
    }
}

/// The messages of a journal export, of which the first hundred count.
pub fn messages(output: &str) -> (r: Result<Vec<String>, String>)
    ensures
        listed(r) == messages_from(text::lines_of(output@), counted(text::lines_of(output@))),
{
    let lines = text::lines(output);
    let ghost all = texts(lines@);
    assert(all.len() == lines@.len());
    let n: usize = if lines.len() < MAX_MESSAGES {
        lines.len()
    } else {
        MAX_MESSAGES
    };
    let mut out: Vec<String> = Vec::new();
    let mut error: Option<String> = None;
    let mut i: usize = 0;
    assert(texts(out@) =~= Seq::<Seq<char>>::empty());
    while i < n
        invariant
            all == texts(lines@),
            n <= lines@.len(),
            i <= n,
            messages_from(all, i as int) == match error {
                Some(e) => Err(e@),
                None => Ok(texts(out@)),
            },
        decreases n - i,
    {
        assert(all[i as int] == lines@[i as int]@);
        if error.is_none() {
            match json::parse(lines[i].as_str()) {
                Ok(record) => {
                    let s = message(&record);
                    proof {
                        text::texts_push(out@, s);
                    }
                    out.push(s);
                },
                Err(e) => {
                    error = Some(e);
                },
            }
        }
        i += 1;
    }
    match error {
        Some(e) => Err(e),
        None => Ok(out),
    }
}

/// What to ask the service manager for the invocation that runs.
pub open spec fn state_arguments_of(scope: Seq<char>, unit: Seq<char>) -> Seq<Seq<char>> {
    seq![
        scope,
        "show"@,
        "--property=InvocationID"@,
        "--value"@,
        unit,
    ]
}

pub fn state_arguments(scope: &str, unit: &str) -> (r: Vec<String>)
    ensures
        texts(r@) == state_arguments_of(scope@, unit@),
{
    let mut r: Vec<String> = Vec::new();
    r.push(scope.to_owned());
    r.push("show".to_owned());
    r.push("--property=InvocationID".to_owned());
    r.push("--value".to_owned());
    r.push(unit.to_owned());
    assert(texts(r@) =~= state_arguments_of(scope@, unit@));
    r
}

/// The latest invocation, by how the journal's query ended and what it printed.
pub open spec fn recent_of(output: Output) -> Result<Seq<char>, Seq<char>> {
    match output_complaint(output, "Cannot inspect latest daemon logs: "@) {
        Some(e) => Err(e),
        None => invocation_of(parsed(text::trimmed(output.stdout@))),
    }
}

fn recent_invocation(output: &Output) -> (r: Result<String, String>)
    ensures
        match r {
            Ok(id) => recent_of(*output) == Ok::<Seq<char>, Seq<char>>(id@),
            Err(e) => recent_of(*output) == Err::<Seq<char>, Seq<char>>(e@),
        },
{
    check_output(output, "Cannot inspect latest daemon logs: ")?;
    latest_invocation(output.stdout.as_str())
}

/// The messages, by how the journal's query ended and what it printed.
pub open spec fn journal_of(output: Output) -> Result<Seq<Seq<char>>, Seq<char>> {
    match output_complaint(output, "Journal query unavailable: "@) {
        Some(e) => Err(e),
        None => messages_from(
            text::lines_of(output.stdout@),
            counted(text::lines_of(output.stdout@)),
        ),
    }
}

fn journal_text(output: &Output) -> (r: Result<Vec<String>, String>)
    ensures
        listed(r) == journal_of(*output),
{
    check_output(output, "Journal query unavailable: ")?;
    messages(output.stdout.as_str())
}

/// Where reading the messages of a daemon stands.
#[derive(Clone, Copy, Debug, PartialEq, Eq, Structural)]
pub enum ReadingStep {
    ReadState,
    ReadRecent,
    ReadMessages,
    Read,
    Failed,
}

pub open spec fn reading_rank(step: ReadingStep) -> int {
    match step {
        ReadingStep::ReadState => 0,
        ReadingStep::ReadRecent => 1,
        ReadingStep::ReadMessages => 2,
        ReadingStep::Read => 3,
        ReadingStep::Failed => 4,
    }
}

/// The journal is asked for the latest invocation only where none runs.
pub open spec fn reading_takes(step: ReadingStep, running: bool) -> bool {
    match step {
        ReadingStep::ReadRecent => !running,
        _ => true,
    }
}

/// Reading the messages of a daemon: of the invocation that runs, or else of the latest one.
pub struct Reading {
    pub scope: String,
    pub unit: String,
    /// The invocation whose messages are read, once it is known.
    pub invocation: String,
    /// Whether the service runs.
    pub running: bool,
    pub messages: Vec<String>,
    pub step: ReadingStep,
    pub error: String,
    /// The steps that succeeded, in order.
    pub log: Ghost<Seq<ReadingStep>>,
}

pub open spec fn reading_stops(before: Reading, after: Reading, text: Seq<char>) -> bool {
    after == (Reading { step: ReadingStep::Failed, error: after.error, ..before })
        && after.error@ == text
}

pub open spec fn reading_moves(before: Reading, after: Reading, next: ReadingStep) -> bool {
    after == (Reading { step: next, log: Ghost(before.log@.push(before.step)), ..before })
}

impl Reading {
    /// Every step taken before the present one succeeded.
    pub open spec fn wf(self) -> bool {
        self.step != ReadingStep::Failed ==> {
            &&& forall|s: ReadingStep|
                reading_rank(s) < reading_rank(self.step) && reading_takes(s, self.running)
                    ==> #[trigger] self.log@.contains(s)
            &&& reading_rank(self.step) > 1 ==> is_invocation(self.invocation@)
        }
    }

    fn advance(&mut self, next: ReadingStep)
        requires
            (Reading {
                step: next,
                log: Ghost(old(self).log@.push(old(self).step)),
                ..*old(self)
            }).wf(),
        ensures
            final(self).wf(),
            reading_moves(*old(self), *final(self), next),
    {
        self.log = Ghost(self.log@.push(self.step));
        self.step = next;
    }

    /// A step could not be done.
    pub fn failed(&mut self, reason: &str)
        ensures
            final(self).wf(),
            reading_stops(*old(self), *final(self), reason@),
    {
        self.step = ReadingStep::Failed;
        self.error = reason.to_owned();
    }

    pub fn begin(source: LogSource) -> (r: Result<Reading, String>)
        ensures
            match r {
                Ok(reading) => {
                    &&& reading.wf()
                    &&& target_of(source) == Ok::<(Seq<char>, Seq<char>), Seq<char>>(
                        (reading.scope@, reading.unit@),
                    )
                    &&& reading.step == ReadingStep::ReadState
                    &&& reading.invocation@.len() == 0
                    &&& !reading.running
                    &&& reading.messages@.len() == 0
                    &&& reading.log@ == Seq::<ReadingStep>::empty()
                },
                Err(e) => target_of(source) == Err::<(Seq<char>, Seq<char>), Seq<char>>(e@),
            },
    {
        let (scope, unit) = target(source)?;
        Ok(
            Reading {
                scope: scope.to_owned(),
                unit: unit.to_owned(),
                invocation: String::new(),
                running: false,
                messages: Vec::new(),
                step: ReadingStep::ReadState,
                error: String::new(),
                log: Ghost(Seq::empty()),
            },
        )
    }

    /// The service manager was asked for the invocation that runs.
    pub fn state(&mut self, output: &Output)
        requires
            old(self).wf(),
            old(self).step == ReadingStep::ReadState,
        ensures
            final(self).wf(),
            match running_of(*output) {
                Err(e) => reading_stops(*old(self), *final(self), e),
                Ok(found) => {
                    &&& *final(self) == (Reading {
                        invocation: final(self).invocation,
                        running: found is Some,
                        step: if found is Some {
                            ReadingStep::ReadMessages
                        } else {
                            ReadingStep::ReadRecent
                        },
                        log: Ghost(old(self).log@.push(old(self).step)),
                        ..*old(self)
                    })
                    &&& found matches Some(id) ==> final(self).invocation@ == id
                },
            },
    {
        match running_invocation(output) {
            Err(e) => {
                self.failed(e.as_str());
            },
            Ok(Some(id)) => {
                self.invocation = id;
                self.running = true;
                proof {
                    steps::push_holds(self.log@, self.step);
                }
                self.advance(ReadingStep::ReadMessages);
            },
            Ok(None) => {
                self.running = false;
                proof {
                    steps::push_holds(self.log@, self.step);
                }
                self.advance(ReadingStep::ReadRecent);
            },
        }
    }

    /// The journal was asked for its latest record.
    pub fn recent(&mut self, output: &Output)
        requires
            old(self).wf(),
            old(self).step == ReadingStep::ReadRecent,
        ensures
            final(self).wf(),
            match recent_of(*output) {
                Err(e) => reading_stops(*old(self), *final(self), e),
                Ok(id) => {
                    &&& *final(self) == (Reading {
                        invocation: final(self).invocation,
                        step: ReadingStep::ReadMessages,
                        log: Ghost(old(self).log@.push(old(self).step)),
                        ..*old(self)
                    })
                    &&& final(self).invocation@ == id
                },
            },
    {
        match recent_invocation(output) {
            Err(e) => {
                self.failed(e.as_str());
            },
            Ok(id) => {
                self.invocation = id;
                proof {
                    steps::push_holds(self.log@, self.step);
                }
                self.advance(ReadingStep::ReadMessages);
            },
        }
    }

    /// How much the query of the present step may print, in bytes, where that is another limit than
    /// that of all queries.
    pub fn limit(&self) -> (r: Option<usize>)
        ensures
            r == if self.step == ReadingStep::ReadMessages {
                Some(JOURNAL_LIMIT)
            } else {
                None
            },
    {
        match self.step {
            ReadingStep::ReadMessages => Some(JOURNAL_LIMIT),
            _ => None,
        }
    }

    /// The journal was asked for the messages of the invocation.
    pub fn journal(&mut self, output: &Output)
        requires
            old(self).wf(),
            old(self).step == ReadingStep::ReadMessages,
        ensures
            final(self).wf(),
            match journal_of(*output) {
                Err(e) => reading_stops(*old(self), *final(self), e),
                Ok(messages) => {
                    &&& *final(self) == (Reading {
                        messages: final(self).messages,
                        step: ReadingStep::Read,
                        log: Ghost(old(self).log@.push(old(self).step)),
                        ..*old(self)
                    })
                    &&& texts(final(self).messages@) == messages
                },
            },
    {
        match journal_text(output) {
            Err(e) => {
                self.failed(e.as_str());
            },
            Ok(messages) => {
                self.messages = messages;
                proof {
                    steps::push_holds(self.log@, self.step);
                }
                self.advance(ReadingStep::Read);
            },
        }
    }
}

/// Messages are read only for one valid invocation: the one that runs, or the one that the latest
/// record names where none runs.
pub proof fn messages_are_of_one_invocation(m: Reading)
    requires
        m.wf(),
        m.step == ReadingStep::Read,
    ensures
        is_invocation(m.invocation@),
        m.log@.contains(ReadingStep::ReadState),
        !m.running ==> m.log@.contains(ReadingStep::ReadRecent),
{
}

/// Every daemon's messages are asked of its own service under its own manager: those of the user's
/// and of the system's daemon where the services themselves are named, those of the session worker
/// under the user's manager as well. A saved log is not in the journal. No two sources share a
/// target.
pub proof fn sources_name_their_own_service(a: LogSource, b: LogSource)
    ensures
        target_of(LogSource::UserDaemon) == Ok::<(Seq<char>, Seq<char>), Seq<char>>(
            (ServiceScope::User.argument_spec(), ServiceScope::User.unit_spec()),
        ),
        target_of(LogSource::SystemDaemon) == Ok::<(Seq<char>, Seq<char>), Seq<char>>(
            (ServiceScope::System.argument_spec(), ServiceScope::System.unit_spec()),
        ),
        target_of(a) is Ok && target_of(a)->Ok_0.0 == "--system"@ <==> a
            == LogSource::SystemDaemon,
        target_of(a) is Ok && target_of(a)->Ok_0.0 == "--user"@ <==> a == LogSource::UserDaemon || a
            == LogSource::SessionWorker,
        target_of(LogSource::SessionWorker)->Ok_0.1 == "lianli-session.service"@,
        target_of(a) is Err <==> a == LogSource::SavedDaemonLog,
        a != b ==> target_of(a) != target_of(b),
{
    reveal_strlit("--user");
    reveal_strlit("--system");
    reveal_strlit("lianli-daemon.service");
    reveal_strlit("lianli-session.service");
    assert("--user"@[2] == 'u');
    assert("--system"@[2] == 's');
    assert("lianli-daemon.service"@[7] == 'd');
    assert("lianli-session.service"@[7] == 's');
}

/// A service runs exactly where the manager could be asked and printed an invocation, and it does not
/// where it printed nothing.
pub proof fn running_invocations_are_printed(output: Output, id: Seq<char>)
    ensures
        running_of(output) == Ok::<Option<Seq<char>>, Seq<char>>(Some(id)) <==> output.code
            == Some(0i32) && text::trimmed(output.stdout@) == id && is_invocation(id),
        running_of(output) == Ok::<Option<Seq<char>>, Seq<char>>(None) <==> output.code == Some(0i32)
            && text::trimmed(output.stdout@).len() == 0,
{
}

/// The latest invocation is exactly the one that the record names, where it names a valid one.
pub proof fn latest_invocations_are_recorded(record: Result<Json, Seq<char>>, id: Seq<char>)
    ensures
        invocation_of(record) == Ok::<Seq<char>, Seq<char>>(id) <==> record is Ok && member(
            record->Ok_0,
            "_SYSTEMD_INVOCATION_ID"@,
        ) == Some(Json::Text(id)) && is_invocation(id),
{
}

/// An export holds a message for each of the first hundred lines, in their order, exactly where all of
/// those can be read.
pub proof fn exports_hold_every_message(lines: Seq<Seq<char>>, n: int, i: int)
    requires
        0 <= i < n <= lines.len(),
    ensures
        messages_from(lines, n) is Ok <==> forall|k: int|
            0 <= k < n ==> parsed(#[trigger] lines[k]) is Ok,
        messages_from(lines, n) is Ok ==> messages_from(lines, n)->Ok_0.len() == n && messages_from(
            lines,
            n,
        )->Ok_0[i] == message_of(parsed(lines[i])->Ok_0),
        counted(lines) == (if lines.len() < 100 {
            lines.len() as int
        } else {
            100
        }),
    decreases n,
{
    if n == 1 {
        assert(messages_from(lines, 0) == Ok::<Seq<Seq<char>>, Seq<char>>(Seq::empty()));
    } else if i < n - 1 {
        exports_hold_every_message(lines, n - 1, i);
    } else {
        exports_hold_every_message(lines, n - 1, 0);
    }
}

/// A message is the plain text of what the record holds, and says that it was left out exactly where
/// there is none, or nothing but blanks.
pub proof fn messages_are_plain_text(record: Json)
    ensures
        raw_message(record) is Some && text::trimmed(plain_from(raw_message(record)->0, 0)).len() > 0
            ==> message_of(record) == plain_from(raw_message(record)->0, 0),
        raw_message(record) is None || text::trimmed(plain_from(raw_message(record)->0, 0)).len() == 0
            ==> message_of(record) == "[non-text journal message omitted]"@,
        member(record, "MESSAGE"@) matches Some(Json::Text(s)) ==> raw_message(record) == Some(s),
        member(record, "MESSAGE"@) is None ==> raw_message(record) is None,
{
}

/// The journal and the manager are asked under the manager of the source and for its unit, and for
/// messages only of the invocation that was found.
pub proof fn journals_are_asked_for_their_unit(
    scope: Seq<char>,
    unit: Seq<char>,
    invocation: Seq<char>,
)
    ensures
        state_arguments_of(scope, unit)[0] == scope,
        state_arguments_of(scope, unit).last() == unit,
        recent_arguments_of(scope, unit)[0] == scope,
        recent_arguments_of(scope, unit).last() == (if scope == "--user"@ {
            "_SYSTEMD_USER_UNIT"@
        } else {
            "_SYSTEMD_UNIT"@
        }) + "="@ + unit,
        message_arguments_of(scope, unit, invocation)[0] == scope,
        message_arguments_of(scope, unit, invocation)[6] == unit,
        message_arguments_of(scope, unit, invocation).last() == "_SYSTEMD_INVOCATION_ID="@
            + invocation,
{
}

/// An invocation is named by 32 hexadecimal digits of which one at least is not zero.
pub proof fn invocations_are_not_zero(s: Seq<char>)
    ensures
        is_invocation(s) <==> text::hex_of_len(s, 32) && !(forall|i: int|
            0 <= i < s.len() ==> (#[trigger] s[i]) == '0'),
{
}

proof fn sequence_runs(s: Seq<char>, i: int, end: int)
    requires
        0 <= i <= end < s.len(),
        forall|j: int| i <= j < end ==> !is_terminator(#[trigger] s[j]),
        is_terminator(s[end]),
    ensures
        after_sequence(s, i) == end + 1,
    decreases end - i,
{
    if i < end {
        assert(!is_terminator(s[i]));
        sequence_runs(s, i + 1, end);
    }
}

/// A terminal control sequence leaves nothing in plain text: it runs from the escape character and the
/// bracket through its parameters to the first character between `@` and `~`.
pub proof fn sequences_leave_nothing(parameters: Seq<char>, last: char, rest: Seq<char>)
    requires
        forall|j: int|
            0 <= j < parameters.len() ==> (#[trigger] parameters[j] as u32) < 0x40
                || parameters[j] as u32 > 0x7e,
        0x40 <= last as u32 <= 0x7e,
    ensures
        plain_from(seq!['\u{1b}', '['] + parameters + seq![last] + rest, 0) == plain_from(rest, 0),
{
    let front = seq!['\u{1b}', '['] + parameters + seq![last];
    let s = front + rest;
    assert(begins_sequence(s, 0));
    assert(s[parameters.len() as int + 2] == last);
    assert forall|j: int| 2 <= j < parameters.len() + 2 implies !is_terminator(#[trigger] s[j]) by {
        assert(s[j] == parameters[j - 2]);
    }
    sequence_runs(s, 2, parameters.len() as int + 2);
    plain_shifts(front, rest, 0);
}

/// A control character by itself is dropped, but for line breaks and tabs, and what follows it stays.
pub proof fn control_characters_are_dropped(c: char, rest: Seq<char>)
    requires
        text::is_control(c),
        c != '\n',
        c != '\t',
        c == '\u{1b}' ==> rest.len() == 0 || rest[0] != '[',
    ensures
        plain_from(seq![c] + rest, 0) == plain_from(rest, 0),
{
    let s = seq![c] + rest;
    if rest.len() > 0 {
        assert(s[1] == rest[0]);
    }
    assert(!begins_sequence(s, 0));
    plain_shifts(seq![c], rest, 0);
}

/// The latest invocation and the messages are known only from a query that succeeded, and are those of
/// what it printed.
pub proof fn journals_are_read_where_they_can_be(output: Output)
    ensures
        recent_of(output) is Ok ==> output.code == Some(0i32),
        output.code == Some(0i32) ==> recent_of(output) == invocation_of(
            parsed(text::trimmed(output.stdout@)),
        ),
        journal_of(output) is Ok ==> output.code == Some(0i32),
        output.code == Some(0i32) && text::lines_of(output.stdout@).len() <= MAX_MESSAGES
            ==> journal_of(output) == messages_from(
            text::lines_of(output.stdout@),
            text::lines_of(output.stdout@).len() as int,
        ),
{
}

} // verus!
