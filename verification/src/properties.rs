//! Text of the form `name=value`, one assignment a line, as a map.

use crate::text;
use vstd::prelude::*;

verus! {

/// Named values. Of two values under one name the later one counts.
pub struct Properties {
    names: Vec<String>,
    values: Vec<String>,
}

/// The map that the first `n` assignments make.
pub open spec fn assigned(names: Seq<Seq<char>>, values: Seq<Seq<char>>, n: int) -> Map<
    Seq<char>,
    Seq<char>,
>
    decreases n,
{
    if n <= 0 {
        Map::empty()
    } else {
        assigned(names, values, n - 1).insert(names[n - 1], values[n - 1])
    }
}

/// The map that the first `n` lines make: a line without the separator says nothing.
pub open spec fn gathered(lines: Seq<Seq<char>>, separator: char, n: int) -> Map<
    Seq<char>,
    Seq<char>,
>
    decreases n,
{
    if n <= 0 {
        Map::empty()
    } else {
        match text::split_once_spec(lines[n - 1], separator) {
            Some((name, value)) => gathered(lines, separator, n - 1).insert(name, value),
            None => gathered(lines, separator, n - 1),
        }
    }
}

/// What a text of assignments says.
pub open spec fn properties_of(s: Seq<char>, separator: char) -> Map<Seq<char>, Seq<char>> {
    gathered(text::lines_of(s), separator, text::lines_of(s).len() as int)
}

/// The value under a name, where there is one.
pub open spec fn value_of(m: Map<Seq<char>, Seq<char>>, name: Seq<char>) -> Option<Seq<char>> {
    if m.dom().contains(name) {
        Some(m[name])
    } else {
        None
    }
}

impl View for Properties {
    type V = Map<Seq<char>, Seq<char>>;

    closed spec fn view(&self) -> Map<Seq<char>, Seq<char>> {
        assigned(text::texts(self.names@), text::texts(self.values@), self.names@.len() as int)
    }
}

proof fn assigned_prefix(
    names: Seq<Seq<char>>,
    values: Seq<Seq<char>>,
    more_names: Seq<Seq<char>>,
    more_values: Seq<Seq<char>>,
    n: int,
)
    requires
        forall|i: int| 0 <= i < n ==> names[i] == more_names[i] && values[i] == more_values[i],
    ensures
        assigned(names, values, n) == assigned(more_names, more_values, n),
    decreases n,
{
    if n > 0 {
        assigned_prefix(names, values, more_names, more_values, n - 1);
    }
}

impl Properties {
    #[verifier::type_invariant]
    spec fn paired(self) -> bool {
        self.names@.len() == self.values@.len()
    }

    pub fn new() -> (r: Properties)
        ensures
            r@ == Map::<Seq<char>, Seq<char>>::empty(),
    {
        Properties { names: Vec::new(), values: Vec::new() }
    }

    /// The same with one more assignment at the end.
    pub fn with(self, name: String, value: String) -> (r: Properties)
        ensures
            r@ == self@.insert(name@, value@),
    {
        proof {
            use_type_invariant(&self);
        }
        let Properties { names, values } = self;
        let ghost n = names@.len() as int;
        let ghost old_names = text::texts(names@);
        let ghost old_values = text::texts(values@);
        let mut names = names;
        let mut values = values;
        names.push(name);
        values.push(value);
        proof {
            assigned_prefix(old_names, old_values, text::texts(names@), text::texts(values@), n);
        }
        Properties { names, values }
    }

    /// Reads a text of assignments.
    pub fn parse(s: &str, separator: char) -> (r: Properties)
        ensures
            r@ == properties_of(s@, separator),
    {
        let lines = text::lines(s);
        Self::gather(&lines, separator)
    }

    /// Reads assignments that stand in a list.
    pub fn gather(lines: &Vec<String>, separator: char) -> (r: Properties)
        ensures
            r@ == gathered(text::texts(lines@), separator, lines@.len() as int),
    {
        let mut r = Properties::new();
        let mut i: usize = 0;
        while i < lines.len()
            invariant
                i <= lines@.len(),
                r@ == gathered(text::texts(lines@), separator, i as int),
            decreases lines@.len() - i,
        {
            assert(text::texts(lines@)[i as int] == lines@[i as int]@);
            match text::split_once(lines[i].as_str(), separator) {
                Some((name, value)) => {
                    r = r.with(name, value);
                },
                None => {},
            }
            i += 1;
        }
        r
    }

    pub fn get(&self, name: &str) -> (r: Option<&String>)
        ensures
            match r {
                Some(value) => value_of(self@, name@) == Some(value@),
                None => value_of(self@, name@) is None,
            },
    {
        proof {
            use_type_invariant(self);
        }
        let ghost names = text::texts(self.names@);
        let ghost values = text::texts(self.values@);
        let mut i: usize = self.names.len();
        while i > 0
            invariant
                i <= self.names@.len() == self.values@.len(),
                names == text::texts(self.names@),
                values == text::texts(self.values@),
                value_of(self@, name@) == value_of(assigned(names, values, i as int), name@),
            decreases i,
        {
            i -= 1;
            assert(names[i as int] == self.names@[i as int]@);
            assert(values[i as int] == self.values@[i as int]@);
            if text::eq(self.names[i].as_str(), name) {
                return Some(&self.values[i]);
            }
        }
        None
    }

    /// Whether the name has this value.
    pub fn is(&self, name: &str, value: &str) -> (r: bool)
        ensures
            r == (value_of(self@, name@) == Some(value@)),
    {
        match self.get(name) {
            Some(v) => text::eq(v.as_str(), value),
            None => false,
        }
    }
}

/// A property has the value of the last line that names it, and none where no line does.
pub proof fn the_last_line_counts(
    lines: Seq<Seq<char>>,
    separator: char,
    n: int,
    name: Seq<char>,
)
    requires
        0 <= n <= lines.len(),
    ensures
        value_of(gathered(lines, separator, n), name) is Some <==> exists|i: int|
            0 <= i < n && (text::split_once_spec(#[trigger] lines[i], separator) matches Some((k, _))
                && k == name),
        value_of(gathered(lines, separator, n), name) matches Some(value) ==> exists|i: int|
            0 <= i < n && text::split_once_spec(#[trigger] lines[i], separator) == Some((name, value))
                && forall|j: int|
                i < j < n ==> !(text::split_once_spec(#[trigger] lines[j], separator) matches Some(
                    (k, _),
                ) && k == name),
    decreases n,
{
    if n > 0 {
        the_last_line_counts(lines, separator, n - 1, name);
        let before = gathered(lines, separator, n - 1);
        match text::split_once_spec(lines[n - 1], separator) {
            Some((k, v)) => {
                if k == name {
                    assert(value_of(gathered(lines, separator, n), name) == Some(v));
                    assert(text::split_once_spec(lines[n - 1], separator) == Some((name, v)));
                } else {
                    assert(value_of(gathered(lines, separator, n), name) == value_of(before, name));
                    kept_line(lines, separator, n, name);
                }
            },
            None => {
                kept_line(lines, separator, n, name);
            },
        }
    }
}

proof fn kept_line(lines: Seq<Seq<char>>, separator: char, n: int, name: Seq<char>)
    requires
        0 < n <= lines.len(),
        !(text::split_once_spec(lines[n - 1], separator) matches Some((k, _)) && k == name),
        value_of(gathered(lines, separator, n - 1), name) matches Some(value) ==> exists|i: int|
            0 <= i < n - 1 && text::split_once_spec(#[trigger] lines[i], separator) == Some(
                (name, value),
            ) && forall|j: int|
                i < j < n - 1 ==> !(text::split_once_spec(#[trigger] lines[j], separator) matches Some(
                    (k, _),
                ) && k == name),
    ensures
        value_of(gathered(lines, separator, n), name) == value_of(
            gathered(lines, separator, n - 1),
            name,
        ),
        value_of(gathered(lines, separator, n), name) matches Some(value) ==> exists|i: int|
            0 <= i < n && text::split_once_spec(#[trigger] lines[i], separator) == Some((name, value))
                && forall|j: int|
                i < j < n ==> !(text::split_once_spec(#[trigger] lines[j], separator) matches Some(
                    (k, _),
                ) && k == name),
{
    let found = value_of(gathered(lines, separator, n - 1), name);
    if found is Some {
        let value = found->0;
        let i = choose|i: int|
            0 <= i < n - 1 && text::split_once_spec(#[trigger] lines[i], separator) == Some(
                (name, value),
            ) && forall|j: int|
                i < j < n - 1 ==> !(text::split_once_spec(#[trigger] lines[j], separator) matches Some(
                    (k, _),
                ) && k == name);
        assert(text::split_once_spec(lines[i], separator) == Some((name, value)));
        assert forall|j: int| i < j < n implies !(text::split_once_spec(
            #[trigger] lines[j],
            separator,
        ) matches Some((k, _)) && k == name) by {
            if j < n - 1 {
            }
        }
    }
}

} // verus!
