//! File paths as texts. Two spellings are the same path when they name the same components: repeated
//! and trailing separators and inner `.` components do not count.

use crate::text;
use vstd::prelude::*;

verus! {

pub open spec fn is_absolute(p: Seq<char>) -> bool {
    p.len() > 0 && p[0] == '/'
}

/// Whether a piece between separators counts as a component. An empty piece never does, and `.`
/// only at the very beginning of a relative path.
pub open spec fn counts(pieces: Seq<Seq<char>>, i: int) -> bool {
    pieces[i].len() > 0 && (pieces[i] != seq!['.'] || i == 0)
}

/// The components among the first `n` pieces.
pub open spec fn counting(pieces: Seq<Seq<char>>, n: int) -> Seq<Seq<char>>
    decreases n,
{
    if n <= 0 {
        Seq::empty()
    } else if counts(pieces, n - 1) {
        counting(pieces, n - 1).push(pieces[n - 1])
    } else {
        counting(pieces, n - 1)
    }
}

/// The components of a path.
pub open spec fn components_of(p: Seq<char>) -> Seq<Seq<char>> {
    counting(text::pieces(p, '/'), text::pieces(p, '/').len() as int)
}

/// Whether two spellings name the same path.
pub open spec fn same_path(a: Seq<char>, b: Seq<char>) -> bool {
    is_absolute(a) == is_absolute(b) && components_of(a) == components_of(b)
}

/// A component that leads to the directory above.
pub open spec fn is_parent(c: Seq<char>) -> bool {
    c == seq!['.', '.']
}

/// Whether no component is `..`.
pub open spec fn descends(parts: Seq<Seq<char>>) -> bool {
    forall|i: int| 0 <= i < parts.len() ==> !is_parent(#[trigger] parts[i])
}

pub fn absolute(p: &str) -> (r: bool)
    ensures
        r == is_absolute(p@),
{
    let v = text::chars(p);
    v.len() > 0 && v[0] == '/'
}

fn is_dot(v: &Vec<char>) -> (r: bool)
    ensures
        r == (v@ == seq!['.']),
{
    let r = v.len() == 1 && v[0] == '.';
    assert(r ==> v@ =~= seq!['.']);
    r
}

pub fn is_dots(p: &str) -> (r: bool)
    ensures
        r == is_parent(p@),
{
    let v = text::chars(p);
    let r = v.len() == 2 && v[0] == '.' && v[1] == '.';
    assert(r ==> v@ =~= seq!['.', '.']);
    r
}

pub fn components(p: &str) -> (r: Vec<String>)
    ensures
        text::texts(r@) == components_of(p@),
{
    let pieces = text::split(p, '/');
    let ghost all = text::texts(pieces@);
    let mut out: Vec<String> = Vec::new();
    let mut i: usize = 0;
    assert(text::texts(out@) =~= counting(all, 0));
    while i < pieces.len()
        invariant
            all == text::texts(pieces@),
            i <= pieces@.len(),
            text::texts(out@) == counting(all, i as int),
        decreases pieces@.len() - i,
    {
        let v = text::chars(pieces[i].as_str());
        assert(all[i as int] == v@);
        if v.len() > 0 && (i == 0 || !is_dot(&v)) {
            proof {
                text::texts_push(out@, pieces@[i as int]);
            }
            out.push(pieces[i].clone());
        }
        i += 1;
    }
    out
}

fn same_texts(a: &Vec<String>, b: &Vec<String>, n: usize) -> (r: bool)
    requires
        n <= a@.len(),
        n <= b@.len(),
    ensures
        r == (text::texts(a@).take(n as int) == text::texts(b@).take(n as int)),
{
    let mut i: usize = 0;
    while i < n
        invariant
            i <= n,
            n <= a@.len(),
            n <= b@.len(),
            forall|j: int| 0 <= j < i ==> text::texts(a@)[j] == text::texts(b@)[j],
        decreases n - i,
    {
        if !text::eq(a[i].as_str(), b[i].as_str()) {
            assert(text::texts(a@).take(n as int)[i as int] != text::texts(b@).take(n as int)[i as int]);
            return false;
        }
        i += 1;
    }
    assert(text::texts(a@).take(n as int) =~= text::texts(b@).take(n as int));
    true
}

pub fn same(a: &str, b: &str) -> (r: bool)
    ensures
        r == same_path(a@, b@),
{
    let x = components(a);
    let y = components(b);
    assert(x@.len() == text::texts(x@).len());
    assert(y@.len() == text::texts(y@).len());
    let r = absolute(a) == absolute(b) && x.len() == y.len() && same_texts(&x, &y, x.len());
    assert(text::texts(x@).take(x@.len() as int) =~= text::texts(x@));
    assert(text::texts(y@).take(y@.len() as int) =~= text::texts(y@));
    r
}

/// Whether no component of the path is `..`.
pub fn descending(p: &str) -> (r: bool)
    ensures
        r == descends(components_of(p@)),
{
    let parts = components(p);
    let ghost all = text::texts(parts@);
    let mut i: usize = 0;
    while i < parts.len()
        invariant
            all == text::texts(parts@),
            all == components_of(p@),
            i <= parts@.len(),
            forall|j: int| 0 <= j < i ==> !is_parent(#[trigger] all[j]),
        decreases parts@.len() - i,
    {
        if is_dots(parts[i].as_str()) {
            assert(is_parent(all[i as int]));
            return false;
        }
        i += 1;
    }
    true
}

/// The last component, where it names an entry.
pub open spec fn file_name_of(p: Seq<char>) -> Option<Seq<char>> {
    let parts = components_of(p);
    if parts.len() > 0 && !is_parent(parts.last()) && parts.last() != seq!['.'] {
        Some(parts.last())
    } else {
        None
    }
}

pub fn file_name(p: &str) -> (r: Option<String>)
    ensures
        match r {
            Some(n) => file_name_of(p@) == Some(n@),
            None => file_name_of(p@) is None,
        },
{
    let parts = components(p);
    assert(parts@.len() == text::texts(parts@).len());
    if parts.len() == 0 {
        return None;
    }
    let last = parts[parts.len() - 1].clone();
    assert(text::texts(parts@).last() == last@);
    if is_dots(last.as_str()) || is_dot(&text::chars(last.as_str())) {
        return None;
    }
    Some(last)
}

/// A path written with its first `n` components.
pub open spec fn leading(p: Seq<char>, n: int) -> Seq<char> {
    if is_absolute(p) {
        seq!['/'] + text::joined(components_of(p).take(n), seq!['/'])
    } else {
        text::joined(components_of(p).take(n), seq!['/'])
    }
}

/// The path of the first `n` components.
pub fn lead(p: &str, n: usize) -> (r: String)
    requires
        n <= components_of(p@).len(),
    ensures
        r@ == leading(p@, n as int),
{
    let mut parts = components(p);
    let ghost all = text::texts(parts@);
    assert(parts@.len() == all.len());
    parts.truncate(n);
    assert(text::texts(parts@) =~= all.take(n as int));
    let slash = "/";
    proof {
        reveal_strlit("/");
        assert(slash@ =~= seq!['/']);
    }
    let rest = text::join(&parts, slash);
    if absolute(p) {
        let mut d = String::new();
        d.push('/');
        d.append(rest.as_str());
        assert(d@ =~= seq!['/'] + rest@);
        d
    } else {
        rest
    }
}

/// The path without its last component, where it has one.
pub open spec fn parent_of(p: Seq<char>) -> Option<Seq<char>> {
    if components_of(p).len() > 0 {
        Some(leading(p, components_of(p).len() - 1))
    } else {
        None
    }
}

pub fn parent(p: &str) -> (r: Option<String>)
    ensures
        match r {
            Some(d) => parent_of(p@) == Some(d@),
            None => parent_of(p@) is None,
        },
{
    let parts = components(p);
    assert(parts@.len() == text::texts(parts@).len());
    if parts.len() == 0 {
        return None;
    }
    Some(lead(p, parts.len() - 1))
}

/// The path that names `name` below `base`. An absolute `name` stands for itself.
pub open spec fn join_of(base: Seq<char>, name: Seq<char>) -> Seq<char> {
    if is_absolute(name) || base.len() == 0 {
        name
    } else if base.last() == '/' {
        base + name
    } else {
        base.push('/') + name
    }
}

pub fn join(base: &str, name: &str) -> (r: String)
    ensures
        r@ == join_of(base@, name@),
{
    let v = text::chars(base);
    if absolute(name) || v.len() == 0 {
        return name.to_owned();
    }
    let mut r = base.to_owned();
    if v[v.len() - 1] != '/' {
        r.push('/');
    }
    r.append(name);
    r
}

/// The components of `p` below `base`, where it lies there.
pub open spec fn below(p: Seq<char>, base: Seq<char>) -> Option<Seq<Seq<char>>> {
    let parts = components_of(p);
    let prefix = components_of(base);
    if is_absolute(p) == is_absolute(base) && prefix.len() <= parts.len() && parts.take(
        prefix.len() as int,
    ) == prefix {
        Some(parts.skip(prefix.len() as int))
    } else {
        None
    }
}

pub fn strip(p: &str, base: &str) -> (r: Option<Vec<String>>)
    ensures
        match r {
            Some(v) => below(p@, base@) == Some(text::texts(v@)),
            None => below(p@, base@) is None,
        },
{
    let parts = components(p);
    let prefix = components(base);
    assert(parts@.len() == text::texts(parts@).len());
    assert(prefix@.len() == text::texts(prefix@).len());
    assert(text::texts(prefix@).take(prefix@.len() as int) =~= text::texts(prefix@));
    if absolute(p) != absolute(base) || prefix.len() > parts.len() || !same_texts(
        &parts,
        &prefix,
        prefix.len(),
    ) {
        return None;
    }
    let mut out: Vec<String> = Vec::new();
    let mut i: usize = prefix.len();
    while i < parts.len()
        invariant
            prefix@.len() <= i <= parts@.len(),
            text::texts(out@) == text::texts(parts@).subrange(prefix@.len() as int, i as int),
        decreases parts@.len() - i,
    {
        proof {
            text::texts_push(out@, parts@[i as int]);
        }
        out.push(parts[i].clone());
        i += 1;
        assert(text::texts(parts@).subrange(prefix@.len() as int, i as int) =~= text::texts(
            parts@,
        ).subrange(prefix@.len() as int, i - 1).push(parts@[i - 1]@));
    }
    assert(text::texts(out@) =~= text::texts(parts@).skip(prefix@.len() as int));
    Some(out)
}

proof fn counting_both(a: Seq<Seq<char>>, b: Seq<Seq<char>>, n: int)
    requires
        a.len() >= 1,
        0 <= n <= b.len(),
        b.len() > 0 ==> b[0] != seq!['.'],
    ensures
        counting(a + b, a.len() + n) == counting(a, a.len() as int) + counting(b, n),
    decreases n,
{
    if n == 0 {
        counting_before(a, b, a.len() as int);
        assert(counting(a, a.len() as int) + counting(b, 0) =~= counting(a, a.len() as int));
    } else {
        counting_both(a, b, n - 1);
        assert((a + b)[a.len() + n - 1] == b[n - 1]);
        assert(counting(a + b, a.len() + n) =~= counting(a, a.len() as int) + counting(b, n));
    }
}

proof fn counting_before(a: Seq<Seq<char>>, b: Seq<Seq<char>>, n: int)
    requires
        0 <= n <= a.len(),
    ensures
        counting(a + b, n) == counting(a, n),
    decreases n,
{
    if n > 0 {
        counting_before(a, b, n - 1);
        assert((a + b)[n - 1] == a[n - 1]);
    }
}

proof fn split_components(a: Seq<char>, b: Seq<char>)
    requires
        text::pieces(b, '/')[0] != seq!['.'],
    ensures
        components_of(a.push('/') + b) == components_of(a) + components_of(b),
{
    text::pieces_of_both(a, '/', b);
    let x = text::pieces(a, '/');
    let y = text::pieces(b, '/');
    counting_both(x, y, y.len() as int);
}

/// A name that stands for itself: not empty, not a dot, and without a separator.
pub open spec fn is_entry(name: Seq<char>) -> bool {
    name.len() > 0 && name != seq!['.'] && !name.contains('/')
}

/// The components of a path with a name below it are its own and then that name. It stays absolute or
/// relative.
pub proof fn names_are_added_below(base: Seq<char>, name: Seq<char>)
    requires
        base.len() > 0,
        is_entry(name),
    ensures
        components_of(join_of(base, name)) == components_of(base).push(name),
        is_absolute(join_of(base, name)) == is_absolute(base),
        below(join_of(base, name), base) == Some(seq![name]),
{
    text::pieces_of_both(name, '/', name);
    let own = text::pieces(name, '/');
    assert(own == seq![name]);
    assert(components_of(name) =~= seq![name]) by {
        reveal_with_fuel(counting, 2);
        assert(counts(own, 0));
    }
    if is_absolute(name) {
        assert(name.contains(name[0]));
    }
    let whole = join_of(base, name);
    if base.last() == '/' {
        let front = base.drop_last();
        assert(base + name =~= front.push('/') + name);
        split_components(front, name);
        let none = Seq::<char>::empty();
        assert(base =~= front.push('/') + none);
        text::pieces_of_both(none, '/', none);
        assert(text::pieces(none, '/') == seq![none]);
        split_components(front, none);
        assert(components_of(none) =~= Seq::<Seq<char>>::empty()) by {
            reveal_with_fuel(counting, 2);
        }
        assert(components_of(base) =~= components_of(front));
    } else {
        split_components(base, name);
    }
    assert(components_of(whole) =~= components_of(base).push(name));
    assert(whole[0] == base[0]);
    let parts = components_of(whole);
    assert(parts.take(components_of(base).len() as int) =~= components_of(base));
    assert(parts.skip(components_of(base).len() as int) =~= seq![name]);
}

/// What was put below a path can be taken off again: the last component is the name.
pub proof fn names_are_found_again(base: Seq<char>, name: Seq<char>)
    requires
        base.len() > 0,
        is_entry(name),
        name != seq!['.', '.'],
    ensures
        file_name_of(join_of(base, name)) == Some(name),
        parent_of(join_of(base, name)) is Some,
{
    names_are_added_below(base, name);
    assert(components_of(join_of(base, name)).last() == name);
}

proof fn sound_components(pieces: Seq<Seq<char>>, n: int)
    requires
        0 <= n <= pieces.len(),
        pieces.len() > 0,
        pieces[0].len() == 0,
        forall|i: int| 0 <= i < pieces.len() ==> !(#[trigger] pieces[i]).contains('/'),
    ensures
        forall|i: int| 0 <= i < counting(pieces, n).len() ==> is_entry(#[trigger] counting(pieces, n)[i]),
    decreases n,
{
    if n > 0 {
        sound_components(pieces, n - 1);
        let before = counting(pieces, n - 1);
        assert(!pieces[n - 1].contains('/'));
        assert forall|i: int| 0 <= i < counting(pieces, n).len() implies is_entry(
            #[trigger] counting(pieces, n)[i],
        ) by {
            if i < before.len() {
                assert(counting(pieces, n)[i] == before[i]);
            }
        }
    }
}

proof fn pieces_hold_no_separator(s: Seq<char>, start: int, i: int)
    requires
        0 <= start <= i <= s.len(),
        forall|k: int| start <= k < i ==> s[k] != '/',
    ensures
        forall|j: int|
            0 <= j < text::pieces_from(s, '/', start, i).len() ==> !(#[trigger] text::pieces_from(
                s,
                '/',
                start,
                i,
            )[j]).contains('/'),
    decreases s.len() - i,
{
    let piece = s.subrange(start, i);
    let all = text::pieces_from(s, '/', start, i);
    assert(!piece.contains('/')) by {
        if piece.contains('/') {
            let k = piece.index_of('/');
            assert(s[start + k] == '/');
        }
    }
    if i >= s.len() {
        assert(s.subrange(start, s.len() as int) =~= piece);
        assert(all =~= seq![piece]);
    } else if s[i] == '/' {
        pieces_hold_no_separator(s, i + 1, i + 1);
        let rest = text::pieces_from(s, '/', i + 1, i + 1);
        assert(all =~= seq![piece] + rest);
        assert forall|j: int| 0 <= j < all.len() implies !(#[trigger] all[j]).contains('/') by {
            if j > 0 {
                assert(all[j] == rest[j - 1]);
            }
        }
    } else {
        pieces_hold_no_separator(s, start, i + 1);
        let rest = text::pieces_from(s, '/', start, i + 1);
        assert(all == rest);
        assert forall|j: int| 0 <= j < all.len() implies !(#[trigger] all[j]).contains('/') by {
            assert(!rest[j].contains('/'));
        }
    }
}

proof fn absolute_components(p: Seq<char>)
    requires
        is_absolute(p),
    ensures
        forall|i: int| 0 <= i < components_of(p).len() ==> is_entry(#[trigger] components_of(p)[i]),
{
    let rest = p.skip(1);
    let none = Seq::<char>::empty();
    assert(p =~= none.push('/') + rest);
    text::pieces_of_both(none, '/', rest);
    text::pieces_of_both(rest, '/', none);
    assert(text::pieces(none, '/') == seq![none]);
    assert(text::pieces(p, '/')[0] == none);
    pieces_hold_no_separator(p, 0, 0);
    sound_components(text::pieces(p, '/'), text::pieces(p, '/').len() as int);
}

proof fn written_components(parts: Seq<Seq<char>>)
    requires
        forall|i: int| 0 <= i < parts.len() ==> is_entry(#[trigger] parts[i]),
    ensures
        components_of(seq!['/'] + text::joined(parts, seq!['/'])) == parts,
    decreases parts.len(),
{
    let slash = seq!['/'];
    let none = Seq::<char>::empty();
    let whole = slash + text::joined(parts, slash);
    if parts.len() == 0 {
        assert(whole =~= none.push('/') + none);
        text::pieces_of_both(none, '/', none);
        assert(text::pieces(none, '/') == seq![none]);
        split_components(none, none);
        assert(components_of(none) =~= Seq::<Seq<char>>::empty()) by {
            reveal_with_fuel(counting, 2);
        }
        assert(components_of(whole) =~= parts);
    } else {
        let last = parts.last();
        let front = parts.drop_last();
        assert forall|i: int| 0 <= i < front.len() implies is_entry(#[trigger] front[i]) by {
            assert(is_entry(parts[i]));
        }
        written_components(front);
        assert(is_entry(parts[parts.len() - 1]));
        let base = slash + text::joined(front, slash);
        names_are_added_below(base, last);
        if front.len() == 0 {
            assert(base =~= slash);
            assert(join_of(base, last) =~= whole);
        } else {
            assert(whole =~= base.push('/') + last);
            assert(components_of(whole) =~= parts) by {
                text::pieces_of_both(last, '/', last);
                split_components(base, last);
                assert(components_of(last) =~= seq![last]) by {
                    reveal_with_fuel(counting, 2);
                    assert(counts(text::pieces(last, '/'), 0));
                }
            }
        }
        assert(front.push(last) =~= parts);
    }
}

/// The directory of an absolute path is the path without its last component. Of a name below a
/// directory it is that directory.
pub proof fn directories_are_found_again(base: Seq<char>, name: Seq<char>)
    requires
        is_absolute(base),
        is_entry(name),
    ensures
        parent_of(join_of(base, name)) is Some,
        same_path(parent_of(join_of(base, name))->0, base),
        components_of(base).len() > 0 ==> components_of(parent_of(base)->0) == components_of(
            base,
        ).drop_last(),
{
    names_are_added_below(base, name);
    let whole = join_of(base, name);
    absolute_components(base);
    absolute_components(whole);
    let n = components_of(whole).len() - 1;
    let kept = components_of(whole).take(n);
    assert(kept =~= components_of(base));
    written_components(kept);
    if components_of(base).len() > 0 {
        let shorter = components_of(base).take(components_of(base).len() - 1);
        assert(shorter =~= components_of(base).drop_last());
        assert forall|i: int| 0 <= i < shorter.len() implies is_entry(#[trigger] shorter[i]) by {
            assert(is_entry(components_of(base)[i]));
        }
        written_components(shorter);
    }
}

/// Two spellings are one path exactly where they agree on being absolute and in their components, and
/// that is the same either way round.
pub proof fn paths_are_compared_by_components(a: Seq<char>, b: Seq<char>)
    ensures
        same_path(a, b) <==> is_absolute(a) == is_absolute(b) && components_of(a) == components_of(b),
        same_path(a, b) == same_path(b, a),
        same_path(a, a),
        is_absolute(a) <==> a.len() > 0 && a[0] == '/',
{
}

/// Repeated and trailing separators do not count.
pub proof fn separators_are_not_counted(a: Seq<char>, b: Seq<char>)
    requires
        text::pieces(b, '/')[0] != seq!['.'],
    ensures
        components_of(a.push('/')) == components_of(a),
        components_of(a.push('/').push('/') + b) == components_of(a.push('/') + b),
{
    let none = Seq::<char>::empty();
    text::pieces_of_both(none, '/', none);
    assert(text::pieces(none, '/') == seq![none]);
    assert(components_of(none) =~= Seq::<Seq<char>>::empty()) by {
        reveal_with_fuel(counting, 2);
    }
    split_components(a, none);
    assert(a.push('/') + none =~= a.push('/'));
    assert(components_of(a) + components_of(none) =~= components_of(a));
    split_components(a.push('/'), b);
    split_components(a, b);
}

} // verus!
