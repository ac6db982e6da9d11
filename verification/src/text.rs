//! Text as sequences of characters: the few string operations the library needs, each with an
//! exact meaning over `Seq<char>`.

use vstd::prelude::*;
use vstd::utf8::encode_utf8;

verus! {

/// `String::push` appends its character to the end of the string.
pub assume_specification[ String::push ](s: &mut String, c: char)
    ensures
        final(s)@ == old(s)@.push(c),
;

/// The number of bytes of a text in UTF-8.
pub open spec fn byte_len(s: Seq<char>) -> nat {
    encode_utf8(s).len()
}

/// The texts held by a list of strings.
pub open spec fn texts(v: Seq<String>) -> Seq<Seq<char>> {
    Seq::new(v.len(), |i: int| v[i]@)
}

/// What a fallible call gives: its value, or the text of its error.
pub open spec fn outcome<T>(r: Result<T, String>) -> Result<T, Seq<char>> {
    match r {
        Ok(v) => Ok(v),
        Err(e) => Err(e@),
    }
}

/// What a fallible call that lends its value gives.
pub open spec fn lent<T>(r: Result<&T, String>) -> Result<T, Seq<char>> {
    match r {
        Ok(v) => Ok(*v),
        Err(e) => Err(e@),
    }
}

/// The control characters of Unicode (general category Cc).
pub open spec fn is_control(c: char) -> bool {
    c as u32 <= 0x1f || 0x7f <= c as u32 <= 0x9f
}

/// The characters with the Unicode property White_Space.
pub open spec fn is_space(c: char) -> bool {
    let n = c as u32;
    0x09 <= n <= 0x0d || n == 0x20 || n == 0x85 || n == 0xa0 || n == 0x1680 || 0x2000 <= n <= 0x200a
        || n == 0x2028 || n == 0x2029 || n == 0x202f || n == 0x205f || n == 0x3000
}

pub open spec fn is_digit(c: char) -> bool {
    0x30 <= c as u32 <= 0x39
}

pub open spec fn is_letter(c: char) -> bool {
    0x41 <= c as u32 <= 0x5a || 0x61 <= c as u32 <= 0x7a
}

/// An ASCII letter or digit.
pub open spec fn is_alphanumeric(c: char) -> bool {
    is_digit(c) || is_letter(c)
}

/// An ASCII hexadecimal digit of either case.
pub open spec fn is_hex(c: char) -> bool {
    is_digit(c) || 0x41 <= c as u32 <= 0x46 || 0x61 <= c as u32 <= 0x66
}

pub fn control(c: char) -> (r: bool)
    ensures
        r == is_control(c),
{
    let n: u32 = c as u32;
    n <= 0x1f || (0x7f <= n && n <= 0x9f)
}

pub fn space(c: char) -> (r: bool)
    ensures
        r == is_space(c),
{
    let n: u32 = c as u32;
    (0x09 <= n && n <= 0x0d) || n == 0x20 || n == 0x85 || n == 0xa0 || n == 0x1680
        || (0x2000 <= n && n <= 0x200a) || n == 0x2028 || n == 0x2029 || n == 0x202f || n == 0x205f
        || n == 0x3000
}

pub fn digit(c: char) -> (r: bool)
    ensures
        r == is_digit(c),
{
    let n: u32 = c as u32;
    0x30 <= n && n <= 0x39
}

pub fn alphanumeric(c: char) -> (r: bool)
    ensures
        r == is_alphanumeric(c),
{
    let n: u32 = c as u32;
    digit(c) || (0x41 <= n && n <= 0x5a) || (0x61 <= n && n <= 0x7a)
}

pub fn hex_digit(c: char) -> (r: bool)
    ensures
        r == is_hex(c),
{
    let n: u32 = c as u32;
    digit(c) || (0x41 <= n && n <= 0x46) || (0x61 <= n && n <= 0x66)
}

/// The characters of a text.
pub fn chars(s: &str) -> (v: Vec<char>)
    ensures
        v@ == s@,
{
    let mut v: Vec<char> = Vec::new();
    for c in it: s.chars()
        invariant
            v@.len() == it.index(),
            it.seq() == s@,
            forall|i: int| 0 <= i < v@.len() ==> v@[i] == s@[i],
    {
        v.push(c);
    }
    v
}

/// The text made of the characters from `from` up to `to`.
pub fn slice(v: &Vec<char>, from: usize, to: usize) -> (s: String)
    requires
        from <= to <= v@.len(),
    ensures
        s@ == v@.subrange(from as int, to as int),
{
    let mut s = String::new();
    let mut i: usize = from;
    while i < to
        invariant
            from <= i <= to <= v@.len(),
            s@ == v@.subrange(from as int, i as int),
        decreases to - i,
    {
        s.push(v[i]);
        i += 1;
        assert(v@.subrange(from as int, i as int) =~= v@.subrange(from as int, i - 1).push(v@[i - 1]));
    }
    s
}

/// The number of bytes of a text in UTF-8.
pub fn len(s: &str) -> (n: usize)
    ensures
        n == byte_len(s@),
{
    s.as_bytes().len()
}

/// Whether two texts are equal.
pub fn eq(a: &str, b: &str) -> (r: bool)
    ensures
        r == (a@ == b@),
{
    let x = a.as_bytes();
    let y = b.as_bytes();
    proof {
        vstd::utf8::encode_utf8_decode_utf8(a@);
        vstd::utf8::encode_utf8_decode_utf8(b@);
    }
    if x.len() != y.len() {
        return false;
    }
    let mut i: usize = 0;
    while i < x.len()
        invariant
            x@ == encode_utf8(a@),
            y@ == encode_utf8(b@),
            i <= x@.len() == y@.len(),
            forall|j: int| 0 <= j < i ==> x@[j] == y@[j],
        decreases x@.len() - i,
    {
        if x[i] != y[i] {
            return false;
        }
        i += 1;
    }
    assert(x@ =~= y@);
    true
}

/// The first index from `i` on at which `c` stands, or the length of the text.
pub open spec fn find_from(s: Seq<char>, c: char, i: int) -> int
    decreases s.len() - i,
{
    if i >= s.len() {
        s.len() as int
    } else if s[i] == c {
        i
    } else {
        find_from(s, c, i + 1)
    }
}

/// The first index at which `c` stands, or the length of the text.
pub open spec fn find(s: Seq<char>, c: char) -> int {
    find_from(s, c, 0)
}

/// The first place of a character holds it, and no place before does.
pub proof fn find_from_props(s: Seq<char>, c: char, i: int)
    requires
        0 <= i <= s.len(),
    ensures
        i <= find_from(s, c, i) <= s.len(),
        find_from(s, c, i) < s.len() ==> s[find_from(s, c, i)] == c,
        forall|j: int| i <= j < find_from(s, c, i) ==> s[j] != c,
    decreases s.len() - i,
{
    if i < s.len() && s[i] != c {
        find_from_props(s, c, i + 1);
    }
}

pub fn index_of(v: &Vec<char>, c: char, from: usize) -> (n: usize)
    requires
        from <= v@.len(),
    ensures
        n == find_from(v@, c, from as int),
        from <= n <= v@.len(),
{
    let mut i: usize = from;
    while i < v.len()
        invariant
            from <= i <= v@.len(),
            find_from(v@, c, from as int) == find_from(v@, c, i as int),
        decreases v@.len() - i,
    {
        if v[i] == c {
            return i;
        }
        i += 1;
    }
    i
}

/// The text before the first `c` and the text after it, where there is one.
pub open spec fn split_once_spec(s: Seq<char>, c: char) -> Option<(Seq<char>, Seq<char>)> {
    let n = find(s, c);
    if n < s.len() {
        Some((s.take(n), s.skip(n + 1)))
    } else {
        None
    }
}

pub fn split_once(s: &str, c: char) -> (r: Option<(String, String)>)
    ensures
        match r {
            Some((a, b)) => split_once_spec(s@, c) == Some((a@, b@)),
            None => split_once_spec(s@, c) is None,
        },
{
    let v = chars(s);
    let n: usize = index_of(&v, c, 0);
    if n < v.len() {
        let a = slice(&v, 0, n);
        let b = slice(&v, n + 1, v.len());
        assert(a@ =~= s@.take(n as int));
        assert(b@ =~= s@.skip(n + 1));
        Some((a, b))
    } else {
        None
    }
}

/// The pieces between occurrences of `c`, where the current piece began at `start`.
pub open spec fn pieces_from(s: Seq<char>, c: char, start: int, i: int) -> Seq<Seq<char>>
    decreases s.len() - i,
{
    if i >= s.len() {
        seq![s.subrange(start, s.len() as int)]
    } else if s[i] == c {
        seq![s.subrange(start, i)] + pieces_from(s, c, i + 1, i + 1)
    } else {
        pieces_from(s, c, start, i + 1)
    }
}

/// The pieces between occurrences of `c`: one more than `c` occurs.
pub open spec fn pieces(s: Seq<char>, c: char) -> Seq<Seq<char>> {
    pieces_from(s, c, 0, 0)
}

/// The texts of a list with one more string end with the text of that.
pub proof fn texts_push(v: Seq<String>, x: String)
    ensures
        texts(v.push(x)) == texts(v).push(x@),
{
    assert(texts(v.push(x)) =~= texts(v).push(x@));
}

pub fn split(s: &str, c: char) -> (r: Vec<String>)
    ensures
        texts(r@) == pieces(s@, c),
        r@.len() >= 1,
{
    let v = chars(s);
    let mut out: Vec<String> = Vec::new();
    let mut start: usize = 0;
    let mut i: usize = 0;
    assert(texts(out@) + pieces_from(v@, c, 0, 0) =~= pieces(s@, c));
    while i < v.len()
        invariant
            v@ == s@,
            start <= i <= v@.len(),
            texts(out@) + pieces_from(v@, c, start as int, i as int) == pieces(s@, c),
        decreases v@.len() - i,
    {
        if v[i] == c {
            let piece = slice(&v, start, i);
            let ghost before = texts(out@);
            proof {
                texts_push(out@, piece);
            }
            out.push(piece);
            i += 1;
            start = i;
            assert(before.push(piece@) + pieces_from(v@, c, i as int, i as int) =~= before + (seq![
                piece@,
            ] + pieces_from(v@, c, i as int, i as int)));
        } else {
            i += 1;
        }
    }
    let piece = slice(&v, start, i);
    proof {
        texts_push(out@, piece);
        assert(texts(out@) + seq![piece@] =~= texts(out@).push(piece@));
    }
    out.push(piece);
    assert(texts(out@).len() == out@.len());
    out
}

/// The words of a text: its longest pieces without white space, where the current piece began at
/// `start`.
pub open spec fn words_from(s: Seq<char>, start: int, i: int) -> Seq<Seq<char>>
    decreases s.len() - i,
{
    let word = if start < i {
        seq![s.subrange(start, i)]
    } else {
        Seq::empty()
    };
    if i >= s.len() {
        word
    } else if is_space(s[i]) {
        word + words_from(s, i + 1, i + 1)
    } else {
        words_from(s, start, i + 1)
    }
}

/// The words of a text, separated by any amount of white space.
pub open spec fn words(s: Seq<char>) -> Seq<Seq<char>> {
    words_from(s, 0, 0)
}

pub fn split_whitespace(s: &str) -> (r: Vec<String>)
    ensures
        texts(r@) == words(s@),
{
    let v = chars(s);
    let mut out: Vec<String> = Vec::new();
    let mut start: usize = 0;
    let mut i: usize = 0;
    assert(texts(out@) + words_from(v@, 0, 0) =~= words(s@));
    while i < v.len()
        invariant
            v@ == s@,
            start <= i <= v@.len(),
            texts(out@) + words_from(v@, start as int, i as int) == words(s@),
        decreases v@.len() - i,
    {
        if space(v[i]) {
            let ghost before = texts(out@);
            if start < i {
                let word = slice(&v, start, i);
                proof {
                    texts_push(out@, word);
                }
                out.push(word);
                assert(before.push(word@) + words_from(v@, i + 1, i + 1) =~= before + (seq![word@]
                    + words_from(v@, i + 1, i + 1)));
            } else {
                assert(before + words_from(v@, i + 1, i + 1) =~= before + (Seq::<Seq<char>>::empty()
                    + words_from(v@, i + 1, i + 1)));
            }
            i += 1;
            start = i;
        } else {
            i += 1;
        }
    }
    if start < i {
        let word = slice(&v, start, i);
        proof {
            texts_push(out@, word);
            assert(texts(out@) + seq![word@] =~= texts(out@).push(word@));
        }
        out.push(word);
    } else {
        assert(texts(out@) + Seq::<Seq<char>>::empty() =~= texts(out@));
    }
    out
}

/// A line without the carriage return at its end.
pub open spec fn without_return(s: Seq<char>) -> Seq<char> {
    if s.len() > 0 && s.last() == '\r' {
        s.drop_last()
    } else {
        s
    }
}

/// The lines of a text, where the current line began at `start`.
pub open spec fn lines_from(s: Seq<char>, start: int, i: int) -> Seq<Seq<char>>
    decreases s.len() - i,
{
    if i >= s.len() {
        if start < s.len() {
            seq![s.subrange(start, s.len() as int)]
        } else {
            Seq::empty()
        }
    } else if s[i] == '\n' {
        seq![without_return(s.subrange(start, i))] + lines_from(s, i + 1, i + 1)
    } else {
        lines_from(s, start, i + 1)
    }
}

/// The lines of a text. Each ends with a line feed or a carriage return and a line feed, which do
/// not belong to it; for the last line they are optional.
pub open spec fn lines_of(s: Seq<char>) -> Seq<Seq<char>> {
    lines_from(s, 0, 0)
}

pub fn lines(s: &str) -> (r: Vec<String>)
    ensures
        texts(r@) == lines_of(s@),
{
    let v = chars(s);
    let mut out: Vec<String> = Vec::new();
    let mut start: usize = 0;
    let mut i: usize = 0;
    assert(texts(out@) + lines_from(v@, 0, 0) =~= lines_of(s@));
    while i < v.len()
        invariant
            v@ == s@,
            start <= i <= v@.len(),
            texts(out@) + lines_from(v@, start as int, i as int) == lines_of(s@),
        decreases v@.len() - i,
    {
        if v[i] == '\n' {
            let end: usize = if start < i && v[i - 1] == '\r' {
                i - 1
            } else {
                i
            };
            let line = slice(&v, start, end);
            let ghost before = texts(out@);
            proof {
                texts_push(out@, line);
                assert(line@ =~= without_return(v@.subrange(start as int, i as int)));
                assert(before.push(line@) + lines_from(v@, i + 1, i + 1) =~= before + (seq![line@]
                    + lines_from(v@, i + 1, i + 1)));
            }
            out.push(line);
            i += 1;
            start = i;
        } else {
            i += 1;
        }
    }
    if start < i {
        let line = slice(&v, start, i);
        proof {
            texts_push(out@, line);
            assert(texts(out@) + seq![line@] =~= texts(out@).push(line@));
        }
        out.push(line);
    } else {
        assert(texts(out@) + Seq::<Seq<char>>::empty() =~= texts(out@));
    }
    out
}

/// The first index from `i` on that holds no white space, or the length of the text.
pub open spec fn skip_space(s: Seq<char>, i: int) -> int
    decreases s.len() - i,
{
    if i < s.len() && is_space(s[i]) {
        skip_space(s, i + 1)
    } else {
        i
    }
}

/// The smallest end below which the text ends without white space, looking back from `j`.
pub open spec fn drop_space(s: Seq<char>, j: int) -> int
    decreases j,
{
    if j > 0 && is_space(s[j - 1]) {
        drop_space(s, j - 1)
    } else {
        j
    }
}

/// A text without the white space at its two ends.
pub open spec fn trimmed(s: Seq<char>) -> Seq<char> {
    let from = skip_space(s, 0);
    if from >= s.len() {
        Seq::empty()
    } else {
        s.subrange(from, drop_space(s, s.len() as int))
    }
}

proof fn skip_space_agrees(s: Seq<char>, w: Seq<char>, i: int)
    requires
        s.len() == w.len() + 1,
        s.drop_last() == w,
        is_space(s.last()),
        0 <= i <= w.len(),
    ensures
        skip_space(w, i) < w.len() ==> skip_space(s, i) == skip_space(w, i),
        skip_space(w, i) >= w.len() ==> skip_space(s, i) == s.len(),
        i <= skip_space(w, i) <= w.len(),
        skip_space(w, i) < w.len() ==> !is_space(w[skip_space(w, i)]),
    decreases w.len() - i,
{
    if i < w.len() {
        assert(s[i] == w[i]);
        if is_space(w[i]) {
            skip_space_agrees(s, w, i + 1);
        }
    } else {
        reveal_with_fuel(skip_space, 2);
    }
}

proof fn drop_space_agrees(s: Seq<char>, w: Seq<char>, j: int)
    requires
        s.len() == w.len() + 1,
        s.drop_last() == w,
        0 <= j <= w.len(),
    ensures
        drop_space(s, j) == drop_space(w, j),
        drop_space(w, j) <= j,
    decreases j,
{
    if j > 0 {
        assert(s[j - 1] == w[j - 1]);
        if is_space(w[j - 1]) {
            drop_space_agrees(s, w, j - 1);
        }
    }
}

proof fn drop_space_keeps(w: Seq<char>, j: int, k: int)
    requires
        0 <= k < j,
        !is_space(w[k]),
    ensures
        k < drop_space(w, j) <= j,
    decreases j,
{
    if is_space(w[j - 1]) {
        drop_space_keeps(w, j - 1, k);
    }
}

/// A carriage return at the end of a line is white space.
pub proof fn trimming_drops_a_return(s: Seq<char>)
    ensures
        trimmed(without_return(s)) == trimmed(s),
{
    if s.len() > 0 && s.last() == '\r' {
        let w = s.drop_last();
        skip_space_agrees(s, w, 0);
        drop_space_agrees(s, w, w.len() as int);
        assert(drop_space(s, s.len() as int) == drop_space(s, s.len() - 1));
        if skip_space(w, 0) < w.len() {
            let from = skip_space(w, 0);
            let to = drop_space(w, w.len() as int);
            drop_space_keeps(w, w.len() as int, from);
            assert(s.subrange(from, to) =~= w.subrange(from, to));
        }
    }
}

proof fn lines_shift(p: Seq<char>, b: Seq<char>, start: int, i: int)
    requires
        0 <= start <= i <= b.len(),
    ensures
        lines_from(p + b, p.len() + start, p.len() + i) == lines_from(b, start, i),
    decreases b.len() - i,
{
    let t = p + b;
    let m = p.len() as int;
    if i < b.len() {
        assert(t[m + i] == b[i]);
        if b[i] == '\n' {
            assert(t.subrange(m + start, m + i) =~= b.subrange(start, i));
            lines_shift(p, b, i + 1, i + 1);
        } else {
            lines_shift(p, b, start, i + 1);
        }
    } else if start < b.len() {
        assert(t.subrange(m + start, t.len() as int) =~= b.subrange(start, b.len() as int));
    }
}

proof fn lines_split(p: Seq<char>, b: Seq<char>, start: int, i: int)
    requires
        p.len() > 0,
        p.last() == '\n',
        0 <= start <= i <= p.len(),
        i == p.len() ==> start == i,
    ensures
        lines_from(p + b, start, i) == lines_from(p, start, i) + lines_of(b),
    decreases p.len() - i,
{
    let t = p + b;
    if i < p.len() {
        assert(t[i] == p[i]);
        if p[i] == '\n' {
            assert(t.subrange(start, i) =~= p.subrange(start, i));
            lines_split(p, b, i + 1, i + 1);
            let line = seq![without_return(p.subrange(start, i))];
            assert(line + (lines_from(p, i + 1, i + 1) + lines_of(b)) =~= line + lines_from(
                p,
                i + 1,
                i + 1,
            ) + lines_of(b));
        } else {
            lines_split(p, b, start, i + 1);
        }
    } else {
        lines_shift(p, b, 0, 0);
        assert(lines_from(p, start, i) + lines_of(b) =~= lines_of(b));
    }
}

/// The lines of a text that ends in a line feed stand before those of what follows it.
pub proof fn lines_of_joined(p: Seq<char>, b: Seq<char>)
    requires
        p.len() > 0,
        p.last() == '\n',
    ensures
        lines_of(p + b) == lines_of(p) + lines_of(b),
{
    lines_split(p, b, 0, 0);
}

/// Whether lines are those of a text to which a line feed was added: the last one lost a carriage
/// return, or an empty one came.
pub open spec fn ended(now: Seq<Seq<char>>, before: Seq<Seq<char>>) -> bool {
    ||| now == before.push(Seq::empty())
    ||| now.len() == before.len() > 0 && now.drop_last() == before.drop_last() && now.last()
        == without_return(before.last())
}

proof fn ended_from(a: Seq<char>, start: int, i: int)
    requires
        0 <= start <= i <= a.len(),
    ensures
        ended(lines_from(a.push('\n'), start, i), lines_from(a, start, i)),
    decreases a.len() - i,
{
    let p = a.push('\n');
    let n = a.len() as int;
    let now = lines_from(p, start, i);
    let before = lines_from(a, start, i);
    if i < n {
        assert(p[i] == a[i]);
        if a[i] == '\n' {
            assert(p.subrange(start, i) =~= a.subrange(start, i));
            ended_from(a, i + 1, i + 1);
            let line = seq![without_return(a.subrange(start, i))];
            let later = lines_from(p, i + 1, i + 1);
            let early = lines_from(a, i + 1, i + 1);
            if later == early.push(Seq::empty()) {
                assert(now =~= before.push(Seq::empty()));
            } else {
                assert(now.drop_last() =~= line + later.drop_last());
                assert(before.drop_last() =~= line + early.drop_last());
            }
        } else {
            ended_from(a, start, i + 1);
        }
    } else {
        assert(p[i] == '\n');
        assert(p.subrange(start, i) =~= a.subrange(start, i));
        assert(lines_from(p, i + 1, i + 1) =~= Seq::empty());
        assert(now =~= seq![without_return(a.subrange(start, i))]);
        if start < n {
            assert(now.drop_last() =~= before.drop_last());
        } else {
            assert(without_return(a.subrange(start, i)) =~= Seq::empty());
            assert(now =~= before.push(Seq::empty()));
        }
    }
}

/// What a line feed at the end of a text does to its lines.
pub proof fn lines_of_ended(a: Seq<char>)
    ensures
        ended(lines_of(a.push('\n')), lines_of(a)),
{
    ended_from(a, 0, 0);
}

pub fn trim(s: &str) -> (r: String)
    ensures
        r@ == trimmed(s@),
{
    let v = chars(s);
    let mut i: usize = 0;
    while i < v.len() && space(v[i])
        invariant
            i <= v@.len(),
            skip_space(v@, 0) == skip_space(v@, i as int),
        decreases v@.len() - i,
    {
        i += 1;
    }
    if i >= v.len() {
        return String::new();
    }
    let mut j: usize = v.len();
    while space(v[j - 1])
        invariant
            i < j <= v@.len(),
            !is_space(v@[i as int]),
            drop_space(v@, v@.len() as int) == drop_space(v@, j as int),
        decreases j,
    {
        j -= 1;
    }
    slice(&v, i, j)
}

pub open spec fn begins_with(s: Seq<char>, prefix: Seq<char>) -> bool {
    prefix.len() <= s.len() && s.take(prefix.len() as int) == prefix
}

pub open spec fn ends_in(s: Seq<char>, suffix: Seq<char>) -> bool {
    suffix.len() <= s.len() && s.skip(s.len() - suffix.len()) == suffix
}

/// Whether `part` stands in `v` at index `at`.
pub fn matches_at(v: &Vec<char>, part: &Vec<char>, at: usize) -> (r: bool)
    requires
        at + part@.len() <= v@.len(),
    ensures
        r == (v@.subrange(at as int, at + part@.len()) == part@),
{
    let n: usize = v.len();
    let mut i: usize = 0;
    while i < part.len()
        invariant
            n == v@.len(),
            at + part@.len() <= n,
            i <= part@.len(),
            forall|j: int| 0 <= j < i ==> v@[at + j] == part@[j],
        decreases part@.len() - i,
    {
        if v[at + i] != part[i] {
            assert(v@.subrange(at as int, at + part@.len())[i as int] != part@[i as int]);
            return false;
        }
        i += 1;
    }
    assert(v@.subrange(at as int, at + part@.len()) =~= part@);
    true
}

/// What follows `prefix`, where the text begins with it.
pub fn strip_prefix(s: &str, prefix: &str) -> (r: Option<String>)
    ensures
        match r {
            Some(rest) => begins_with(s@, prefix@) && rest@ == s@.skip(prefix@.len() as int),
            None => !begins_with(s@, prefix@),
        },
{
    let v = chars(s);
    let p = chars(prefix);
    assert(prefix@.len() <= s@.len() ==> s@.take(prefix@.len() as int) =~= s@.subrange(
        0,
        prefix@.len() as int,
    ));
    if p.len() <= v.len() && matches_at(&v, &p, 0) {
        let rest = slice(&v, p.len(), v.len());
        assert(rest@ =~= s@.skip(prefix@.len() as int));
        Some(rest)
    } else {
        None
    }
}

pub fn starts_with(s: &str, prefix: &str) -> (r: bool)
    ensures
        r == begins_with(s@, prefix@),
{
    strip_prefix(s, prefix).is_some()
}

/// What precedes `suffix`, where the text ends with it.
pub fn strip_suffix(s: &str, suffix: &str) -> (r: Option<String>)
    ensures
        match r {
            Some(rest) => ends_in(s@, suffix@) && rest@ == s@.take(s@.len() - suffix@.len()),
            None => !ends_in(s@, suffix@),
        },
{
    let v = chars(s);
    let p = chars(suffix);
    if p.len() > v.len() {
        return None;
    }
    let at: usize = v.len() - p.len();
    assert(s@.skip(at as int) =~= s@.subrange(at as int, at + p@.len()));
    if matches_at(&v, &p, at) {
        let rest = slice(&v, 0, at);
        assert(rest@ =~= s@.take(at as int));
        Some(rest)
    } else {
        None
    }
}

/// Whether `part` stands in `s` at index `at`.
pub open spec fn occurs_at(s: Seq<char>, part: Seq<char>, at: int) -> bool {
    0 <= at && at + part.len() <= s.len() && s.subrange(at, at + part.len()) == part
}

/// Whether `part` stands anywhere in `s`.
pub open spec fn has_part(s: Seq<char>, part: Seq<char>) -> bool {
    exists|at: int| occurs_at(s, part, at)
}

pub fn contains(s: &str, part: &str) -> (r: bool)
    ensures
        r == has_part(s@, part@),
{
    let v = chars(s);
    let p = chars(part);
    if p.len() > v.len() {
        assert(forall|at: int| !occurs_at(s@, part@, at));
        return false;
    }
    let last: usize = v.len() - p.len();
    let mut i: usize = 0;
    while i <= last
        invariant
            v@ == s@,
            p@ == part@,
            last + p@.len() == v@.len(),
            i <= last + 1,
            forall|at: int| at < i ==> !occurs_at(s@, part@, at),
        decreases last + 1 - i,
    {
        if matches_at(&v, &p, i) {
            assert(occurs_at(s@, part@, i as int));
            return true;
        }
        if i == last {
            assert(forall|at: int| !occurs_at(s@, part@, at));
            return false;
        }
        i += 1;
    }
    false
}

pub open spec fn all_hex(s: Seq<char>) -> bool {
    forall|i: int| 0 <= i < s.len() ==> is_hex(#[trigger] s[i])
}

pub open spec fn all_alphanumeric(s: Seq<char>) -> bool {
    forall|i: int| 0 <= i < s.len() ==> is_alphanumeric(#[trigger] s[i])
}

pub open spec fn no_control(s: Seq<char>) -> bool {
    forall|i: int| 0 <= i < s.len() ==> !is_control(#[trigger] s[i])
}

pub fn only_hex(v: &Vec<char>) -> (r: bool)
    ensures
        r == all_hex(v@),
{
    let mut i: usize = 0;
    while i < v.len()
        invariant
            i <= v@.len(),
            forall|j: int| 0 <= j < i ==> is_hex(#[trigger] v@[j]),
        decreases v@.len() - i,
    {
        if !hex_digit(v[i]) {
            assert(!is_hex(v@[i as int]));
            return false;
        }
        i += 1;
    }
    true
}

pub fn only_alphanumeric(v: &Vec<char>) -> (r: bool)
    ensures
        r == all_alphanumeric(v@),
{
    let mut i: usize = 0;
    while i < v.len()
        invariant
            i <= v@.len(),
            forall|j: int| 0 <= j < i ==> is_alphanumeric(#[trigger] v@[j]),
        decreases v@.len() - i,
    {
        if !alphanumeric(v[i]) {
            assert(!is_alphanumeric(v@[i as int]));
            return false;
        }
        i += 1;
    }
    true
}

/// Whether no character of the text is a control character.
pub fn printable(s: &str) -> (r: bool)
    ensures
        r == no_control(s@),
{
    let v = chars(s);
    let mut i: usize = 0;
    while i < v.len()
        invariant
            v@ == s@,
            i <= v@.len(),
            forall|j: int| 0 <= j < i ==> !is_control(#[trigger] v@[j]),
        decreases v@.len() - i,
    {
        if control(v[i]) {
            assert(is_control(s@[i as int]));
            return false;
        }
        i += 1;
    }
    true
}

/// Exactly `n` hexadecimal digits.
pub open spec fn hex_of_len(s: Seq<char>, n: int) -> bool {
    s.len() == n && all_hex(s)
}

pub fn is_hex_of_len(s: &str, n: usize) -> (r: bool)
    ensures
        r == hex_of_len(s@, n as int),
{
    let v = chars(s);
    v.len() == n && only_hex(&v)
}

/// The text with each `c` replaced by `by`.
pub open spec fn replaced(s: Seq<char>, c: char, by: Seq<char>) -> Seq<char>
    decreases s.len(),
{
    if s.len() == 0 {
        s
    } else {
        replaced(s.drop_last(), c, by) + if s.last() == c {
            by
        } else {
            seq![s.last()]
        }
    }
}

pub fn replace(s: &str, c: char, by: &str) -> (r: String)
    ensures
        r@ == replaced(s@, c, by@),
{
    let v = chars(s);
    let mut out = String::new();
    let mut i: usize = 0;
    assert(v@.take(0) =~= Seq::<char>::empty());
    while i < v.len()
        invariant
            v@ == s@,
            i <= v@.len(),
            out@ == replaced(v@.take(i as int), c, by@),
        decreases v@.len() - i,
    {
        let x = v[i];
        proof {
            assert(v@.take(i + 1).drop_last() =~= v@.take(i as int));
            assert(v@.take(i + 1).last() == x);
        }
        if x == c {
            out.append(by);
        } else {
            let ghost before = out@;
            out.push(x);
            assert(before.push(x) =~= before + seq![x]);
        }
        i += 1;
    }
    assert(v@.take(i as int) =~= v@);
    out
}

/// The text cut after its first `n` characters.
pub open spec fn cut(s: Seq<char>, n: int) -> Seq<char> {
    if s.len() <= n {
        s
    } else {
        s.take(n)
    }
}

pub fn take(s: &str, n: usize) -> (r: String)
    ensures
        r@ == cut(s@, n as int),
{
    let v = chars(s);
    let end: usize = if v.len() <= n {
        v.len()
    } else {
        n
    };
    let r = slice(&v, 0, end);
    assert(r@ =~= cut(s@, n as int));
    r
}

/// The value of a digit in a base up to sixteen.
pub open spec fn digit_value(c: char, radix: nat) -> Option<nat> {
    let n = c as u32;
    let value = if 0x30 <= n <= 0x39 {
        (n - 0x30) as nat
    } else if 0x61 <= n <= 0x66 {
        (n - 0x61 + 10) as nat
    } else if 0x41 <= n <= 0x46 {
        (n - 0x41 + 10) as nat
    } else {
        16
    };
    if value < radix && value < 16 {
        Some(value)
    } else {
        None
    }
}

/// The number that the digits before index `n` write.
pub open spec fn number(s: Seq<char>, radix: nat, n: int) -> nat
    decreases n,
{
    if n <= 0 {
        0
    } else {
        number(s, radix, n - 1) * radix + digit_value(s[n - 1], radix)->0
    }
}

pub open spec fn all_digits(s: Seq<char>, radix: nat) -> bool {
    forall|i: int| 0 <= i < s.len() ==> (#[trigger] digit_value(s[i], radix)) is Some
}

/// The digits of a number that may have a plus sign in front.
pub open spec fn unsigned_digits(s: Seq<char>) -> Seq<char> {
    if s.len() > 1 && s[0] == '+' {
        s.skip(1)
    } else {
        s
    }
}

/// The number from zero to `max` that a text writes: digits, with an optional plus sign in front.
pub open spec fn parsed(s: Seq<char>, radix: nat, max: nat) -> Option<nat> {
    let d = unsigned_digits(s);
    if d.len() > 0 && all_digits(d, radix) && number(d, radix, d.len() as int) <= max {
        Some(number(d, radix, d.len() as int))
    } else {
        None
    }
}

proof fn number_grows(s: Seq<char>, radix: nat, i: int, j: int)
    requires
        radix >= 1,
        0 <= i <= j,
    ensures
        number(s, radix, i) <= number(s, radix, j),
    decreases j,
{
    if i < j {
        number_grows(s, radix, i, j - 1);
        let n = number(s, radix, j - 1);
        assert(n <= n * radix) by (nonlinear_arith)
            requires
                radix >= 1,
                n >= 0,
        ;
    }
}

fn value_of(c: char, radix: u64) -> (r: Option<u64>)
    requires
        radix <= 16,
    ensures
        match r {
            Some(d) => digit_value(c, radix as nat) == Some(d as nat) && d < radix,
            None => digit_value(c, radix as nat) is None,
        },
{
    let n: u32 = c as u32;
    let value: u64 = if 0x30 <= n && n <= 0x39 {
        (n - 0x30) as u64
    } else if 0x61 <= n && n <= 0x66 {
        (n - 0x61 + 10) as u64
    } else if 0x41 <= n && n <= 0x46 {
        (n - 0x41 + 10) as u64
    } else {
        16
    };
    if value < radix {
        Some(value)
    } else {
        None
    }
}

/// Reads a number from zero to `max`.
pub fn parse(s: &str, radix: u64, max: u64) -> (r: Option<u64>)
    requires
        2 <= radix <= 16,
    ensures
        match r {
            Some(n) => parsed(s@, radix as nat, max as nat) == Some(n as nat),
            None => parsed(s@, radix as nat, max as nat) is None,
        },
{
    let v = chars(s);
    let from: usize = if v.len() > 1 && v[0] == '+' {
        1
    } else {
        0
    };
    let ghost d = unsigned_digits(s@);
    assert(d =~= v@.skip(from as int));
    if from >= v.len() {
        return None;
    }
    let mut n: u64 = 0;
    let mut i: usize = from;
    while i < v.len()
        invariant
            2 <= radix <= 16,
            from <= i <= v@.len(),
            d == v@.skip(from as int),
            d == unsigned_digits(s@),
            n == number(d, radix as nat, i - from),
            n <= max,
            forall|j: int| 0 <= j < i - from ==> (#[trigger] digit_value(d[j], radix as nat)) is Some,
        decreases v@.len() - i,
    {
        assert(d[i - from] == v@[i as int]);
        match value_of(v[i], radix) {
            Some(x) => {
                proof {
                    number_grows(d, radix as nat, i + 1 - from, d.len() as int);
                }
                if x > max || n > (max - x) / radix {
                    assert(n * radix + x > max) by (nonlinear_arith)
                        requires
                            2 <= radix,
                            0 <= x,
                            x > max || n > (max - x) / (radix as int),
                            0 <= n,
                    ;
                    return None;
                }
                assert(n * radix + x <= max) by (nonlinear_arith)
                    requires
                        2 <= radix,
                        0 <= x <= max,
                        n <= (max - x) / (radix as int),
                        0 <= n,
                ;
                assert(n * radix <= max);
                n = n * radix + x;
                i += 1;
            },
            None => {
                assert(digit_value(d[i - from], radix as nat) is None);
                return None;
            },
        }
    }
    Some(n)
}

/// Reads a decimal number that fits 32 bits.
pub fn parse_u32(s: &str) -> (r: Option<u32>)
    ensures
        match r {
            Some(n) => parsed(s@, 10, u32::MAX as nat) == Some(n as nat),
            None => parsed(s@, 10, u32::MAX as nat) is None,
        },
{
    match parse(s, 10, 0xffff_ffff) {
        Some(n) => Some(n as u32),
        None => None,
    }
}

/// Reads a decimal number that fits 64 bits.
pub fn parse_u64(s: &str) -> (r: Option<u64>)
    ensures
        match r {
            Some(n) => parsed(s@, 10, u64::MAX as nat) == Some(n as nat),
            None => parsed(s@, 10, u64::MAX as nat) is None,
        },
{
    parse(s, 10, 0xffff_ffff_ffff_ffff)
}

/// What the error of `u32::from_str_radix` says of a text.
pub uninterp spec fn u32_error(s: Seq<char>, radix: u32) -> Seq<char>;

/// `u32::from_str_radix`: the number that the text writes, with an optional plus sign in front, or what
/// the error says where the text writes none or one that is too large.
#[verifier::external_body]
pub(crate) fn read_u32(s: &str, radix: u32) -> (r: Result<u32, String>)
    requires
        radix == 10 || radix == 16,
    ensures
        match r {
            Ok(n) => parsed(s@, radix as nat, u32::MAX as nat) == Some(n as nat),
            Err(e) => parsed(s@, radix as nat, u32::MAX as nat) is None && e@ == u32_error(
                s@,
                radix,
            ),
        },
{
    u32::from_str_radix(s, radix).map_err(|e| e.to_string())
}

/// The number of 32 bits that a text writes, or what is wrong with it.
pub open spec fn u32_of(s: Seq<char>, radix: u32) -> Result<u32, Seq<char>> {
    match parsed(s, radix as nat, u32::MAX as nat) {
        Some(n) => Ok(n as u32),
        None => Err(u32_error(s, radix)),
    }
}

/// What the error of `u64::from_str_radix` says of a text.
pub uninterp spec fn u64_error(s: Seq<char>, radix: u32) -> Seq<char>;

/// `u64::from_str_radix`: the number that the text writes, with an optional plus sign in front, or what
/// the error says where the text writes none or one that is too large.
#[verifier::external_body]
pub(crate) fn read_u64(s: &str, radix: u32) -> (r: Result<u64, String>)
    requires
        radix == 10 || radix == 16,
    ensures
        match r {
            Ok(n) => parsed(s@, radix as nat, u64::MAX as nat) == Some(n as nat),
            Err(e) => parsed(s@, radix as nat, u64::MAX as nat) is None && e@ == u64_error(
                s@,
                radix,
            ),
        },
{
    u64::from_str_radix(s, radix).map_err(|e| e.to_string())
}

/// The number of 64 bits that a text writes, or what is wrong with it.
pub open spec fn u64_of(s: Seq<char>, radix: u32) -> Result<u64, Seq<char>> {
    match parsed(s, radix as nat, u64::MAX as nat) {
        Some(n) => Ok(n as u64),
        None => Err(u64_error(s, radix)),
    }
}

/// The character of a decimal digit.
pub open spec fn digit_char(n: int) -> char {
    (0x30 + n) as char
}

/// A number in decimal digits.
pub open spec fn decimal(n: nat) -> Seq<char>
    decreases n,
{
    if n < 10 {
        seq![digit_char(n as int)]
    } else {
        decimal(n / 10).push(digit_char((n % 10) as int))
    }
}

fn digit_of(n: u64) -> (c: char)
    requires
        n < 10,
    ensures
        c == digit_char(n as int),
{
    (0x30u8 + n as u8) as char
}

/// Writes a number in decimal digits.
pub fn format_u64(n: u64) -> (s: String)
    ensures
        s@ == decimal(n as nat),
    decreases n,
{
    if n < 10 {
        let mut s = String::new();
        s.push(digit_of(n));
        assert(s@ =~= seq![digit_char(n as int)]);
        s
    } else {
        let mut s = format_u64(n / 10);
        s.push(digit_of(n % 10));
        s
    }
}

/// The two hexadecimal digits of each byte, in lower case.
pub open spec fn hex(bytes: Seq<u8>) -> Seq<char>
    decreases bytes.len(),
{
    if bytes.len() == 0 {
        Seq::empty()
    } else {
        hex(bytes.drop_last()).push(hex_char((bytes.last() / 16) as int)).push(
            hex_char((bytes.last() % 16) as int),
        )
    }
}

/// The character of a hexadecimal digit, in lower case.
pub open spec fn hex_char(n: int) -> char {
    if n < 10 {
        (0x30 + n) as char
    } else {
        (0x57 + n) as char
    }
}

fn hex_of(n: u8) -> (c: char)
    requires
        n < 16,
    ensures
        c == hex_char(n as int),
{
    if n < 10 {
        (0x30u8 + n) as char
    } else {
        (0x57u8 + n) as char
    }
}

/// Writes bytes as hexadecimal digits.
pub fn format_hex(bytes: &Vec<u8>) -> (s: String)
    ensures
        s@ == hex(bytes@),
{
    let mut s = String::new();
    let mut i: usize = 0;
    assert(bytes@.take(0) =~= Seq::<u8>::empty());
    while i < bytes.len()
        invariant
            i <= bytes@.len(),
            s@ == hex(bytes@.take(i as int)),
        decreases bytes@.len() - i,
    {
        s.push(hex_of(bytes[i] / 16));
        s.push(hex_of(bytes[i] % 16));
        i += 1;
        assert(bytes@.take(i as int).drop_last() =~= bytes@.take(i - 1));
    }
    assert(bytes@.take(i as int) =~= bytes@);
    s
}

/// The texts one after another with `separator` between them.
pub open spec fn joined(parts: Seq<Seq<char>>, separator: Seq<char>) -> Seq<char>
    decreases parts.len(),
{
    if parts.len() == 0 {
        Seq::empty()
    } else if parts.len() == 1 {
        parts[0]
    } else {
        joined(parts.drop_last(), separator) + separator + parts.last()
    }
}

pub fn join(parts: &Vec<String>, separator: &str) -> (s: String)
    ensures
        s@ == joined(texts(parts@), separator@),
{
    let mut s = String::new();
    let mut i: usize = 0;
    assert(texts(parts@).take(0) =~= Seq::<Seq<char>>::empty());
    while i < parts.len()
        invariant
            i <= parts@.len(),
            s@ == joined(texts(parts@).take(i as int), separator@),
        decreases parts@.len() - i,
    {
        let ghost before = s@;
        if i > 0 {
            s.append(separator);
        }
        s.append(parts[i].as_str());
        i += 1;
        let ghost done = texts(parts@).take(i as int);
        assert(done.drop_last() =~= texts(parts@).take(i - 1));
        assert(i == 1 ==> s@ =~= parts@[0]@);
    }
    assert(texts(parts@).take(i as int) =~= texts(parts@));
    s
}

/// The text with its ASCII capitals in lower case.
pub open spec fn lowered(s: Seq<char>) -> Seq<char> {
    Seq::new(s.len(), |i: int| lower_char(s[i]))
}

pub open spec fn lower_char(c: char) -> char {
    if 0x41 <= c as u32 <= 0x5a {
        (c as u32 + 32) as char
    } else {
        c
    }
}

pub fn lower(s: &str) -> (r: String)
    ensures
        r@ == lowered(s@),
{
    let v = chars(s);
    let mut r = String::new();
    let mut i: usize = 0;
    while i < v.len()
        invariant
            v@ == s@,
            i <= v@.len(),
            r@ == lowered(v@).take(i as int),
        decreases v@.len() - i,
    {
        let n: u32 = v[i] as u32;
        if 0x41 <= n && n <= 0x5a {
            r.push((n as u8 + 32) as char);
        } else {
            r.push(v[i]);
        }
        i += 1;
        assert(lowered(v@).take(i as int) =~= lowered(v@).take(i - 1).push(lower_char(v@[i - 1])));
    }
    assert(lowered(v@).take(i as int) =~= lowered(v@));
    r
}

/// The digits of bytes tell them apart.
pub proof fn digits_are_told_apart(a: Seq<u8>, b: Seq<u8>)
    requires
        hex(a) == hex(b),
    ensures
        a == b,
    decreases a.len(),
{
    if a.len() > 0 && b.len() > 0 {
        let x = hex(a);
        let y = hex(b);
        let n = x.len();
        assert(x[n - 1] == y[n - 1] && x[n - 2] == y[n - 2]);
        assert(a.last() / 16 == b.last() / 16);
        assert(a.last() % 16 == b.last() % 16);
        assert(hex(a.drop_last()) =~= x.take(n - 2));
        assert(hex(b.drop_last()) =~= y.take(n - 2));
        digits_are_told_apart(a.drop_last(), b.drop_last());
        assert(a =~= a.drop_last().push(a.last()));
        assert(b =~= b.drop_last().push(b.last()));
    } else if a.len() > 0 {
        assert(hex(a).len() >= 2 && hex(b).len() == 0);
    } else if b.len() > 0 {
        assert(hex(b).len() >= 2 && hex(a).len() == 0);
    } else {
        assert(a =~= b);
    }
}

/// The hexadecimal digits of bytes are two for each byte, and nothing else.
pub proof fn hex_is_hex(bytes: Seq<u8>)
    ensures
        hex_of_len(hex(bytes), 2 * bytes.len() as int),
    decreases bytes.len(),
{
    if bytes.len() > 0 {
        hex_is_hex(bytes.drop_last());
        let rest = hex(bytes.drop_last());
        let all = hex(bytes);
        assert forall|i: int| 0 <= i < all.len() implies is_hex(#[trigger] all[i]) by {
            if i < rest.len() {
                assert(all[i] == rest[i]);
            }
        }
    }
}

/// Whether the character stands in the text.
pub fn has_char(s: &str, c: char) -> (r: bool)
    ensures
        r == s@.contains(c),
{
    let v = chars(s);
    let n: usize = index_of(&v, c, 0);
    proof {
        find_from_props(s@, c, 0);
        if n < v@.len() {
            assert(s@[n as int] == c);
        }
    }
    n < v.len()
}

/// The first index from `at` on at which `part` stands in `s`, where there is one.
pub open spec fn place_from(s: Seq<char>, part: Seq<char>, at: int) -> Option<int>
    decreases s.len() + 1 - at,
{
    if at < 0 || at + part.len() > s.len() {
        None
    } else if s.subrange(at, at + part.len()) == part {
        Some(at)
    } else {
        place_from(s, part, at + 1)
    }
}

/// The first place at which `part` stands in `v`.
pub fn find_part(v: &Vec<char>, part: &Vec<char>) -> (r: Option<usize>)
    ensures
        match r {
            Some(at) => place_from(v@, part@, 0) == Some(at as int) && at + part@.len()
                <= v@.len(),
            None => place_from(v@, part@, 0) is None,
        },
{
    let n: usize = v.len();
    if part.len() > n {
        return None;
    }
    let last: usize = n - part.len();
    let mut at: usize = 0;
    while at < last
        invariant
            n == v@.len(),
            last == n - part@.len(),
            at <= last,
            place_from(v@, part@, 0) == place_from(v@, part@, at as int),
        decreases last - at,
    {
        if matches_at(v, part, at) {
            return Some(at);
        }
        at += 1;
    }
    if matches_at(v, part, at) {
        return Some(at);
    }
    assert(place_from(v@, part@, last + 1) is None);
    None
}

/// The last place up to `at` at which `part` stands in `s`.
pub open spec fn place_back(s: Seq<char>, part: Seq<char>, at: int) -> Option<int>
    decreases at + 1,
{
    if at < 0 {
        None
    } else if occurs_at(s, part, at) {
        Some(at)
    } else {
        place_back(s, part, at - 1)
    }
}

/// The last place at which `part` stands in `s`.
pub open spec fn last_place(s: Seq<char>, part: Seq<char>) -> Option<int> {
    place_back(s, part, s.len() - part.len())
}

pub fn find_last(v: &Vec<char>, part: &Vec<char>) -> (r: Option<usize>)
    ensures
        match r {
            Some(at) => last_place(v@, part@) == Some(at as int) && at + part@.len() <= v@.len(),
            None => last_place(v@, part@) is None,
        },
{
    let n: usize = v.len();
    if part.len() > n {
        return None;
    }
    let mut end: usize = n - part.len();
    while end > 0
        invariant
            n == v@.len(),
            end + part@.len() <= n,
            last_place(v@, part@) == place_back(v@, part@, end as int),
        decreases end,
    {
        if matches_at(v, part, end) {
            return Some(end);
        }
        end -= 1;
    }
    if matches_at(v, part, end) {
        return Some(end);
    }
    assert(place_back(v@, part@, -1) is None);
    None
}

/// The text with the first `part` replaced by `by`.
pub open spec fn replaced_once(s: Seq<char>, part: Seq<char>, by: Seq<char>) -> Seq<char> {
    match place_from(s, part, 0) {
        Some(at) => s.take(at) + by + s.skip(at + part.len()),
        None => s,
    }
}

pub fn replace_once(s: &str, part: &str, by: &str) -> (r: String)
    ensures
        r@ == replaced_once(s@, part@, by@),
{
    let v = chars(s);
    let p = chars(part);
    if p.len() > v.len() {
        return s.to_owned();
    }
    let n: usize = v.len();
    let last: usize = n - p.len();
    let mut at: usize = 0;
    let mut over = false;
    while !over
        invariant
            v@ == s@,
            p@ == part@,
            n == v@.len(),
            last == n - p@.len(),
            at <= last,
            place_from(s@, part@, 0) == place_from(s@, part@, if over {
                last + 1
            } else {
                at as int
            }),
        decreases last - at + if over { 0int } else { 1int },
    {
        if matches_at(&v, &p, at) {
            let mut r = slice(&v, 0, at);
            r.append(by);
            r.append(slice(&v, at + p.len(), v.len()).as_str());
            assert(v@.subrange(0, at as int) =~= s@.take(at as int));
            assert(v@.subrange(at + p@.len(), v@.len() as int) =~= s@.skip(at + p@.len()));
            return r;
        }
        if at < last {
            at += 1;
        } else {
            over = true;
        }
    }
    s.to_owned()
}

/// The text from `i` on with each `part` replaced by `by`, from left to right.
pub open spec fn replaced_from(s: Seq<char>, part: Seq<char>, by: Seq<char>, i: int) -> Seq<char>
    decreases s.len() - i,
{
    if part.len() == 0 || i < 0 || i + part.len() > s.len() {
        s.skip(i)
    } else if s.subrange(i, i + part.len()) == part {
        by + replaced_from(s, part, by, i + part.len())
    } else {
        seq![s[i]] + replaced_from(s, part, by, i + 1)
    }
}

/// The text with each `part` replaced by `by`.
pub fn replace_all(s: &str, part: &str, by: &str) -> (r: String)
    requires
        part@.len() > 0,
    ensures
        r@ == replaced_from(s@, part@, by@, 0),
{
    let v = chars(s);
    let p = chars(part);
    let n: usize = v.len();
    let mut out = String::new();
    let mut i: usize = 0;
    let ghost whole = replaced_from(s@, part@, by@, 0);
    assert(out@ + whole =~= whole);
    while p.len() <= n - i
        invariant
            v@ == s@,
            p@ == part@,
            p@.len() > 0,
            n == v@.len(),
            i <= n,
            whole == replaced_from(s@, part@, by@, 0),
            out@ + replaced_from(s@, part@, by@, i as int) == whole,
        decreases n - i,
    {
        let ghost before = out@;
        if matches_at(&v, &p, i) {
            out.append(by);
            assert(before + (by@ + replaced_from(s@, part@, by@, i + p@.len())) =~= out@
                + replaced_from(s@, part@, by@, i + p@.len()));
            i += p.len();
        } else {
            out.push(v[i]);
            assert(before + (seq![v@[i as int]] + replaced_from(s@, part@, by@, i + 1)) =~= out@
                + replaced_from(s@, part@, by@, i + 1));
            i += 1;
        }
    }
    let rest = slice(&v, i, n);
    assert(rest@ =~= s@.skip(i as int));
    out.append(rest.as_str());
    out
}

/// Whether the text is among those of a list.
pub fn is_among(s: &str, list: &Vec<String>) -> (r: bool)
    ensures
        r == texts(list@).contains(s@),
{
    let ghost all = texts(list@);
    let mut i: usize = 0;
    while i < list.len()
        invariant
            all == texts(list@),
            i <= list@.len(),
            forall|j: int| 0 <= j < i ==> all[j] != s@,
        decreases list@.len() - i,
    {
        if eq(list[i].as_str(), s) {
            assert(all[i as int] == s@);
            return true;
        }
        i += 1;
    }
    assert(all.len() == list@.len());
    false
}

/// The complaint that a failure makes, after the words given.
pub open spec fn prefixed(words: Seq<char>, r: Result<(), String>) -> Option<Seq<char>> {
    match r {
        Ok(_) => None,
        Err(e) => Some(words + e@),
    }
}

/// Puts words before a failure.
pub fn prefix(words: &str, r: &Result<(), String>) -> (p: Result<(), String>)
    ensures
        match p {
            Ok(_) => prefixed(words@, *r) is None,
            Err(e) => prefixed(words@, *r) == Some(e@),
        },
{
    match r {
        Ok(_) => Ok(()),
        Err(e) => {
            let mut whole = words.to_owned();
            whole.append(e.as_str());
            Err(whole)
        },
    }
}

/// A reason with words before it.
pub fn worded(words: &str, reason: &str) -> (r: String)
    ensures
        r@ == words@ + reason@,
{
    let mut r = words.to_owned();
    r.append(reason);
    r
}

/// The same texts once more.
pub fn copy_texts(v: &Vec<String>) -> (r: Vec<String>)
    ensures
        r@ == v@,
{
    let mut r: Vec<String> = Vec::new();
    let mut i: usize = 0;
    while i < v.len()
        invariant
            i <= v@.len(),
            r@ == v@.take(i as int),
        decreases v@.len() - i,
    {
        r.push(v[i].clone());
        i += 1;
        assert(v@.take(i as int) =~= v@.take(i - 1).push(v@[i - 1]));
    }
    assert(v@.take(i as int) =~= v@);
    r
}

/// Splitting at a character undoes joining by it: the part before the first one and the part after
/// it come back, whatever the second part holds. Where the character does not occur there is nothing
/// to split.
pub proof fn splitting_undoes_joining(a: Seq<char>, c: char, b: Seq<char>)
    requires
        !a.contains(c),
    ensures
        split_once_spec(a.push(c) + b, c) == Some((a, b)),
        split_once_spec(a, c) is None,
{
    let whole = a.push(c) + b;
    find_from_props(whole, c, 0);
    find_from_props(a, c, 0);
    let n = find_from(whole, c, 0);
    assert(whole[a.len() as int] == c);
    assert(forall|j: int| 0 <= j < a.len() ==> whole[j] == a[j] && a.contains(a[j]));
    assert(n == a.len());
    assert(whole.take(n) =~= a);
    assert(whole.skip(n + 1) =~= b);
    if find_from(a, c, 0) < a.len() {
        assert(a.contains(a[find_from(a, c, 0)]));
    }
}

/// A text is split where it can be: the two parts and the character between them make up the whole.
pub proof fn splitting_loses_nothing(s: Seq<char>, c: char)
    ensures
        split_once_spec(s, c) is Some <==> s.contains(c),
        split_once_spec(s, c) matches Some((a, b)) ==> s == a.push(c) + b && !a.contains(c),
{
    find_from_props(s, c, 0);
    let n = find_from(s, c, 0);
    if n < s.len() {
        let a = s.take(n);
        assert(s[n] == c);
        assert(s =~= a.push(c) + s.skip(n + 1));
        if a.contains(c) {
            let k = a.index_of(c);
            assert(s[k] == c);
        }
    } else if s.contains(c) {
        let k = s.index_of(c);
        assert(s[k] == c);
    }
}

proof fn later_pieces(x: Seq<char>, b: Seq<char>, c: char, start: int, i: int)
    requires
        0 <= start <= i <= b.len(),
    ensures
        pieces_from(x + b, c, x.len() + start, x.len() + i) == pieces_from(b, c, start, i),
    decreases b.len() - i,
{
    let s = x + b;
    if i < b.len() {
        assert(s[x.len() + i] == b[i]);
        assert(s.subrange(x.len() + start, x.len() + i) =~= b.subrange(start, i));
        if b[i] == c {
            later_pieces(x, b, c, i + 1, i + 1);
        } else {
            later_pieces(x, b, c, start, i + 1);
        }
    } else {
        assert(s.subrange(x.len() + start, s.len() as int) =~= b.subrange(start, b.len() as int));
    }
}

proof fn earlier_pieces(a: Seq<char>, b: Seq<char>, c: char, start: int, i: int)
    requires
        0 <= start <= i <= a.len(),
    ensures
        pieces_from(a.push(c) + b, c, start, i) == pieces_from(a, c, start, i) + pieces(b, c),
    decreases a.len() - i,
{
    let s = a.push(c) + b;
    assert(s.subrange(start, i) =~= a.subrange(start, i));
    if i < a.len() {
        assert(s[i] == a[i]);
        if a[i] == c {
            earlier_pieces(a, b, c, i + 1, i + 1);
            assert(pieces_from(s, c, start, i) =~= pieces_from(a, c, start, i) + pieces(b, c));
        } else {
            earlier_pieces(a, b, c, start, i + 1);
        }
    } else {
        assert(s[i] == c);
        later_pieces(a.push(c), b, c, 0, 0);
        assert(a.push(c).len() == i + 1);
        assert(pieces_from(s, c, start, i) =~= pieces_from(a, c, start, i) + pieces(b, c));
    }
}

/// The pieces of two texts with the separator between them are those of the one and then those of the
/// other. A text without the separator is one piece.
pub proof fn pieces_of_both(a: Seq<char>, c: char, b: Seq<char>)
    ensures
        pieces(a.push(c) + b, c) == pieces(a, c) + pieces(b, c),
        pieces(a, c).len() >= 1,
        !b.contains(c) ==> pieces(b, c) == seq![b],
{
    earlier_pieces(a, b, c, 0, 0);
    some_piece(a, c, 0, 0);
    if !b.contains(c) {
        whole_piece(b, c, 0);
    }
}

proof fn some_piece(s: Seq<char>, c: char, start: int, i: int)
    requires
        0 <= start <= i <= s.len(),
    ensures
        pieces_from(s, c, start, i).len() >= 1,
    decreases s.len() - i,
{
    if i < s.len() {
        if s[i] == c {
            some_piece(s, c, i + 1, i + 1);
        } else {
            some_piece(s, c, start, i + 1);
        }
    }
}

proof fn whole_piece(s: Seq<char>, c: char, i: int)
    requires
        0 <= i <= s.len(),
        !s.contains(c),
    ensures
        pieces_from(s, c, 0, i) == seq![s],
    decreases s.len() - i,
{
    if i < s.len() {
        assert(s.contains(s[i]));
        whole_piece(s, c, i + 1);
    } else {
        assert(s.subrange(0, s.len() as int) =~= s);
    }
}

proof fn space_is_skipped(s: Seq<char>, i: int)
    requires
        0 <= i <= s.len(),
    ensures
        i <= skip_space(s, i) <= s.len(),
        forall|k: int| i <= k < skip_space(s, i) ==> is_space(#[trigger] s[k]),
        skip_space(s, i) < s.len() ==> !is_space(s[skip_space(s, i)]),
    decreases s.len() - i,
{
    if i < s.len() && is_space(s[i]) {
        space_is_skipped(s, i + 1);
    }
}

proof fn space_is_dropped(s: Seq<char>, j: int)
    requires
        0 <= j <= s.len(),
    ensures
        0 <= drop_space(s, j) <= j,
        forall|k: int| drop_space(s, j) <= k < j ==> is_space(#[trigger] s[k]),
        drop_space(s, j) > 0 ==> !is_space(s[drop_space(s, j) - 1]),
    decreases j,
{
    if j > 0 && is_space(s[j - 1]) {
        space_is_dropped(s, j - 1);
    }
}

/// Trimming takes white space from both ends and nothing else: what is left is empty or begins and ends
/// with something else, and what was taken is all white space.
pub proof fn trimming_takes_space_from_the_ends(s: Seq<char>)
    ensures
        ({
            let t = trimmed(s);
            &&& t.len() > 0 ==> !is_space(t[0]) && !is_space(t.last())
            &&& t.len() == 0 <==> forall|i: int| 0 <= i < s.len() ==> is_space(#[trigger] s[i])
            &&& exists|a: Seq<char>, b: Seq<char>|
                s == #[trigger] (a + t + b) && (forall|i: int|
                    0 <= i < a.len() ==> is_space(#[trigger] a[i])) && (forall|i: int|
                    0 <= i < b.len() ==> is_space(#[trigger] b[i]))
        }),
{
    space_is_skipped(s, 0);
    space_is_dropped(s, s.len() as int);
    let from = skip_space(s, 0);
    let to = drop_space(s, s.len() as int);
    let t = trimmed(s);
    if from >= s.len() {
        assert(s =~= s + t + Seq::<char>::empty());
    } else {
        if to <= from {
            assert(is_space(s[from]));
        }
        let a = s.take(from);
        let b = s.skip(to);
        assert(s =~= a + t + b);
        assert(t[0] == s[from]);
        assert(t.last() == s[to - 1]);
        assert forall|i: int| 0 <= i < b.len() implies is_space(#[trigger] b[i]) by {
            assert(is_space(s[to + i]));
        }
        assert forall|i: int| 0 <= i < a.len() implies is_space(#[trigger] a[i]) by {
            assert(is_space(s[i]));
        }
    }
}

/// Replacing a character goes on character by character: a text is replaced part by part, and one
/// without the character stays as it is.
pub proof fn replacing_goes_part_by_part(a: Seq<char>, b: Seq<char>, c: char, by: Seq<char>)
    ensures
        replaced(a + b, c, by) == replaced(a, c, by) + replaced(b, c, by),
        replaced(seq![c], c, by) == by,
        !a.contains(c) ==> replaced(a, c, by) == a,
    decreases b.len() + a.len(),
{
    if b.len() == 0 {
        assert(a + b =~= a);
        assert(replaced(a, c, by) + replaced(b, c, by) =~= replaced(a, c, by));
    } else {
        replacing_goes_part_by_part(a, b.drop_last(), c, by);
        assert((a + b).drop_last() =~= a + b.drop_last());
        assert(replaced(a + b, c, by) =~= replaced(a, c, by) + replaced(b, c, by));
    }
    let one = seq![c];
    assert(one.drop_last() =~= Seq::<char>::empty());
    assert(replaced(one.drop_last(), c, by) =~= Seq::<char>::empty());
    assert(one.last() == c);
    assert(replaced(one, c, by) =~= by);
    if !a.contains(c) && a.len() > 0 {
        assert(a.contains(a.last()));
        assert forall|i: int| 0 <= i < a.drop_last().len() implies a.drop_last()[i] != c by {
            assert(a.contains(a[i]));
        }
        replacing_goes_part_by_part(a.drop_last(), Seq::empty(), c, by);
        assert(a.drop_last() + seq![a.last()] =~= a);
    }
}

/// A text that is cut keeps its beginning, and all of it where it is short enough.
pub proof fn cutting_keeps_the_beginning(s: Seq<char>, n: int)
    requires
        0 <= n,
    ensures
        cut(s, n).len() <= n,
        s.len() <= n ==> cut(s, n) == s,
        s.len() > n ==> cut(s, n).len() == n,
        cut(s, n) == s.take(cut(s, n).len() as int),
{
    assert(s.take(s.len() as int) =~= s);
}

proof fn later_words(x: Seq<char>, b: Seq<char>, start: int, i: int)
    requires
        0 <= start <= i <= b.len(),
    ensures
        words_from(x + b, x.len() + start, x.len() + i) == words_from(b, start, i),
    decreases b.len() - i,
{
    let s = x + b;
    assert(s.subrange(x.len() + start, x.len() + i) =~= b.subrange(start, i));
    if i < b.len() {
        assert(s[x.len() + i] == b[i]);
        if is_space(b[i]) {
            later_words(x, b, i + 1, i + 1);
        } else {
            later_words(x, b, start, i + 1);
        }
    }
}

proof fn first_word(w: Seq<char>, c: char, b: Seq<char>, i: int)
    requires
        0 <= i <= w.len(),
        is_space(c),
        forall|k: int| 0 <= k < w.len() ==> !is_space(#[trigger] w[k]),
    ensures
        words_from(w.push(c) + b, 0, i) == (if w.len() > 0 {
            seq![w]
        } else {
            Seq::empty()
        }) + words(b),
        words_from(w, 0, i) == (if w.len() > 0 {
            seq![w]
        } else {
            Seq::empty()
        }),
    decreases w.len() - i,
{
    let s = w.push(c) + b;
    if i < w.len() {
        assert(s[i] == w[i]);
        assert(!is_space(w[i]));
        first_word(w, c, b, i + 1);
    } else {
        assert(s[i] == c);
        later_words(w.push(c), b, 0, 0);
        assert(s.subrange(0, i) =~= w);
        assert(w.subrange(0, i) =~= w);
    }
}

/// The words of a text are what stands between white space: a word at the beginning comes first, then
/// those of the rest, and white space adds none.
pub proof fn words_stand_between_space(w: Seq<char>, c: char, b: Seq<char>)
    requires
        is_space(c),
        forall|k: int| 0 <= k < w.len() ==> !is_space(#[trigger] w[k]),
    ensures
        w.len() > 0 ==> words(w.push(c) + b) == seq![w] + words(b),
        w.len() == 0 ==> words(w.push(c) + b) == words(b),
        w.len() > 0 ==> words(w) == seq![w],
        w.len() == 0 ==> words(w) == Seq::<Seq<char>>::empty(),
{
    first_word(w, c, b, 0);
    assert(Seq::<Seq<char>>::empty() + words(b) =~= words(b));
}

/// The first place of a part is the first one at which it stands.
pub proof fn first_places_come_first(s: Seq<char>, part: Seq<char>, at: int)
    requires
        0 <= at,
    ensures
        place_from(s, part, at) is Some <==> exists|k: int|
            at <= k && #[trigger] occurs_at(s, part, k),
        place_from(s, part, at) matches Some(k) ==> at <= k && occurs_at(s, part, k) && forall|j: int|
            at <= j < k ==> !#[trigger] occurs_at(s, part, j),
    decreases s.len() + 1 - at,
{
    if at + part.len() <= s.len() {
        first_places_come_first(s, part, at + 1);
        if s.subrange(at, at + part.len()) == part {
            assert(occurs_at(s, part, at));
        }
    }
}

/// The last place of a part is the last one at which it stands.
pub proof fn last_places_come_last(s: Seq<char>, part: Seq<char>)
    ensures
        last_place(s, part) is Some <==> exists|k: int| #[trigger] occurs_at(s, part, k),
        last_place(s, part) matches Some(k) ==> occurs_at(s, part, k) && forall|j: int|
            j > k ==> !#[trigger] occurs_at(s, part, j),
{
    placed_back(s, part, s.len() - part.len());
}

proof fn placed_back(s: Seq<char>, part: Seq<char>, at: int)
    ensures
        place_back(s, part, at) is Some <==> exists|k: int| k <= at && #[trigger] occurs_at(s, part, k),
        place_back(s, part, at) matches Some(k) ==> k <= at && occurs_at(s, part, k) && forall|j: int|
            k < j <= at ==> !#[trigger] occurs_at(s, part, j),
    decreases at + 1,
{
    if at >= 0 {
        placed_back(s, part, at - 1);
    }
}

/// White space among the first 128 characters is exactly the blank and what stands between tab and
/// carriage return, and none of it is a letter or a digit.
pub proof fn plain_white_space(c: char)
    requires
        (c as u32) < 128,
    ensures
        is_space(c) <==> c == ' ' || c == '\t' || c == '\n' || c == '\u{b}' || c == '\u{c}' || c
            == '\r',
        is_space(c) ==> !is_alphanumeric(c),
{
}

} // verus!
