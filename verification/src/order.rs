//! Texts in order.

use crate::text;
use vstd::multiset::Multiset;
use vstd::prelude::*;

verus! {

/// The order of texts by their characters.
pub open spec fn precedes(a: Seq<char>, b: Seq<char>) -> bool
    decreases a.len(),
{
    if b.len() == 0 {
        false
    } else if a.len() == 0 {
        true
    } else if a[0] != b[0] {
        (a[0] as u32) < (b[0] as u32)
    } else {
        precedes(a.skip(1), b.skip(1))
    }
}

pub fn less(a: &str, b: &str) -> (r: bool)
    ensures
        r == precedes(a@, b@),
{
    let x = text::chars(a);
    let y = text::chars(b);
    let mut i: usize = 0;
    assert(x@.skip(0) =~= x@);
    assert(y@.skip(0) =~= y@);
    while i < x.len() && i < y.len()
        invariant
            i <= x@.len(),
            i <= y@.len(),
            precedes(a@, b@) == precedes(x@.skip(i as int), y@.skip(i as int)),
        decreases x@.len() - i,
    {
        if x[i] != y[i] {
            return (x[i] as u32) < (y[i] as u32);
        }
        assert(x@.skip(i as int).skip(1) =~= x@.skip(i + 1));
        assert(y@.skip(i as int).skip(1) =~= y@.skip(i + 1));
        i += 1;
    }
    i < y.len()
}

/// Every two texts are equal or in one order.
pub proof fn precedes_is_total(a: Seq<char>, b: Seq<char>)
    ensures
        a == b || precedes(a, b) || precedes(b, a),
        !(precedes(a, b) && precedes(b, a)),
        !precedes(a, a),
    decreases a.len(),
{
    if a.len() > 0 && b.len() > 0 && a[0] == b[0] {
        precedes_is_total(a.skip(1), b.skip(1));
        if a.skip(1) == b.skip(1) {
            assert(a =~= seq![a[0]] + a.skip(1));
            assert(b =~= seq![b[0]] + b.skip(1));
        }
    } else if a.len() > 0 && b.len() > 0 {
        let x: char = a[0];
        let y: char = b[0];
        vstd::utf8::char_u32_cast(x, x as u32);
        vstd::utf8::char_u32_cast(y, y as u32);
        assert(x as u32 != y as u32);
    } else if a.len() == 0 && b.len() == 0 {
        assert(a =~= b);
    }
    if a.len() > 0 {
        precedes_is_total(a.skip(1), a.skip(1));
    }
}

/// What precedes a text precedes everything that this precedes.
pub proof fn precedes_is_transitive(a: Seq<char>, b: Seq<char>, c: Seq<char>)
    requires
        precedes(a, b),
        precedes(b, c),
    ensures
        precedes(a, c),
    decreases a.len(),
{
    if a.len() > 0 && b.len() > 0 && c.len() > 0 && a[0] == b[0] && b[0] == c[0] {
        precedes_is_transitive(a.skip(1), b.skip(1), c.skip(1));
    }
}

/// Something that is found by a text.
pub trait Keyed {
    spec fn key(&self) -> Seq<char>;

    fn key_text(&self) -> (r: &String)
        ensures
            r@ == self.key(),
    ;
}

/// Items in the order of their keys.
pub open spec fn in_order<T: Keyed>(entries: Seq<T>) -> bool {
    forall|i: int, j: int|
        0 <= i < j < entries.len() ==> !precedes(
            (#[trigger] entries[j]).key(),
            (#[trigger] entries[i]).key(),
        )
}

/// Puts items in order.
pub fn sort<T: Keyed>(entries: Vec<T>) -> (r: Vec<T>)
    ensures
        in_order(r@),
        r@.to_multiset() == entries@.to_multiset(),
{
    broadcast use vstd::seq_lib::group_to_multiset_ensures;

    let mut rest = entries;
    let ghost all = rest@.to_multiset();
    let mut out: Vec<T> = Vec::new();
    assert(out@.to_multiset() =~= Multiset::empty());
    assert(all =~= rest@.to_multiset().add(out@.to_multiset()));
    while rest.len() > 0
        invariant
            in_order(out@),
            all == rest@.to_multiset().add(out@.to_multiset()),
        decreases rest@.len(),
    {
        let ghost before = rest@;
        let entry = rest.pop().unwrap();
        assert(before =~= rest@.push(entry));
        let mut i: usize = 0;
        while i < out.len() && less(out[i].key_text().as_str(), entry.key_text().as_str())
            invariant
                i <= out@.len(),
                forall|j: int|
                    0 <= j < i ==> precedes((#[trigger] out@[j]).key(), entry.key()),
            decreases out@.len() - i,
        {
            i += 1;
        }
        let ghost old_out = out@;
        out.insert(i, entry);
        proof {
            assert forall|a: int, b: int| 0 <= a < b < out@.len() implies !precedes(
                (#[trigger] out@[b]).key(),
                (#[trigger] out@[a]).key(),
            ) by {
                let x = out@[a].key();
                let y = out@[b].key();
                if a < i && b < i {
                    assert(out@[a] == old_out[a] && out@[b] == old_out[b]);
                } else if a < i && b == i {
                    assert(out@[a] == old_out[a]);
                    precedes_is_total(x, y);
                } else if a < i {
                    assert(out@[a] == old_out[a] && out@[b] == old_out[b - 1]);
                } else if a == i {
                    assert(out@[b] == old_out[b - 1]);
                    if b - 1 > i {
                        assert(out@[i + 1] == old_out[i as int]);
                        assert(!precedes(old_out[b - 1].key(), old_out[i as int].key()));
                        if precedes(y, x) {
                            let z = old_out[i as int].key();
                            precedes_is_total(z, x);
                            if z != x {
                                precedes_is_transitive(y, x, z);
                            }
                        }
                    }
                } else {
                    assert(out@[a] == old_out[a - 1] && out@[b] == old_out[b - 1]);
                }
            }
            broadcast use vstd::seq_lib::group_to_multiset_ensures;

            assert(out@.remove(i as int) =~= old_out);
            vstd::seq_lib::to_multiset_remove(out@, i as int);
            assert(out@[i as int] == entry);
            assert(out@.contains(entry));
            assert(out@.to_multiset().count(entry) > 0);
            assert(out@.to_multiset() =~= old_out.to_multiset().insert(entry));
            assert(before.to_multiset() =~= rest@.to_multiset().insert(entry));
            assert(all =~= rest@.to_multiset().add(out@.to_multiset()));
        }
    }
    assert(rest@ =~= Seq::<T>::empty());
    assert(all =~= out@.to_multiset());
    out
}

/// A list in order with one more text in its place.
pub open spec fn inserted(list: Seq<Seq<char>>, s: Seq<char>) -> Seq<Seq<char>>
    decreases list.len(),
{
    if list.len() > 0 && precedes(s, list.last()) {
        inserted(list.drop_last(), s).push(list.last())
    } else {
        list.push(s)
    }
}

/// The first `n` texts in order.
pub open spec fn sorted(list: Seq<Seq<char>>, n: int) -> Seq<Seq<char>>
    decreases n,
{
    if n <= 0 {
        Seq::empty()
    } else {
        inserted(sorted(list, n - 1), list[n - 1])
    }
}

/// Texts of which none precedes an earlier one.
pub open spec fn is_ordered(list: Seq<Seq<char>>) -> bool {
    forall|i: int, j: int|
        0 <= i < j < list.len() ==> !precedes(#[trigger] list[j], #[trigger] list[i])
}

proof fn inserting_keeps_order(list: Seq<Seq<char>>, s: Seq<char>)
    requires
        is_ordered(list),
    ensures
        is_ordered(inserted(list, s)),
        inserted(list, s).len() == list.len() + 1,
        forall|i: int|
            0 <= i < inserted(list, s).len() ==> (#[trigger] inserted(list, s)[i] == s
                || list.contains(inserted(list, s)[i])),
    decreases list.len(),
{
    let result = inserted(list, s);
    if list.len() > 0 && precedes(s, list.last()) {
        let init = list.drop_last();
        let inner = inserted(init, s);
        assert(is_ordered(init)) by {
            assert forall|i: int, j: int| 0 <= i < j < init.len() implies !precedes(
                #[trigger] init[j],
                #[trigger] init[i],
            ) by {
                assert(init[i] == list[i] && init[j] == list[j]);
            }
        }
        inserting_keeps_order(init, s);
        assert forall|i: int| 0 <= i < result.len() implies (#[trigger] result[i] == s
            || list.contains(result[i])) by {
            if i < inner.len() {
                assert(result[i] == inner[i]);
                if inner[i] != s {
                    assert(init.contains(inner[i]));
                    let k = choose|k: int| 0 <= k < init.len() && init[k] == inner[i];
                    assert(list[k] == result[i]);
                }
            } else {
                assert(result[i] == list[list.len() - 1]);
            }
        }
        assert forall|i: int, j: int| 0 <= i < j < result.len() implies !precedes(
            #[trigger] result[j],
            #[trigger] result[i],
        ) by {
            if j < inner.len() {
                assert(result[i] == inner[i] && result[j] == inner[j]);
            } else {
                assert(result[j] == list.last());
                assert(result[i] == inner[i]);
                if inner[i] == s {
                    precedes_is_total(s, list.last());
                } else {
                    assert(init.contains(inner[i]));
                    let k = choose|k: int| 0 <= k < init.len() && init[k] == inner[i];
                    assert(list[k] == inner[i]);
                    assert(!precedes(list[list.len() - 1], list[k]));
                }
            }
        }
    } else {
        assert forall|i: int| 0 <= i < result.len() implies (#[trigger] result[i] == s
            || list.contains(result[i])) by {
            if i < list.len() {
                assert(result[i] == list[i]);
            }
        }
        assert forall|i: int, j: int| 0 <= i < j < result.len() implies !precedes(
            #[trigger] result[j],
            #[trigger] result[i],
        ) by {
            if j < list.len() {
                assert(result[i] == list[i] && result[j] == list[j]);
            } else {
                assert(result[j] == s);
                assert(result[i] == list[i]);
                let last = list[list.len() - 1];
                assert(!precedes(s, last));
                if i < list.len() - 1 {
                    assert(!precedes(last, list[i]));
                }
                if precedes(s, list[i]) {
                    precedes_is_total(list[i], last);
                    if list[i] != last {
                        precedes_is_transitive(s, list[i], last);
                    }
                }
            }
        }
    }
}

/// Sorted texts are in order, and are as many as before.
pub proof fn sorting_orders(list: Seq<Seq<char>>, n: int)
    requires
        0 <= n <= list.len(),
    ensures
        is_ordered(sorted(list, n)),
        sorted(list, n).len() == n,
    decreases n,
{
    if n > 0 {
        sorting_orders(list, n - 1);
        inserting_keeps_order(sorted(list, n - 1), list[n - 1]);
    }
}

fn insert_text(list: &mut Vec<String>, s: &String)
    ensures
        text::texts(final(list)@) == inserted(text::texts(old(list)@), s@),
{
    let ghost whole = text::texts(list@);
    let mut i: usize = list.len();
    assert(whole.take(whole.len() as int) =~= whole);
    assert(whole.skip(whole.len() as int) =~= Seq::<Seq<char>>::empty());
    assert(inserted(whole, s@) =~= inserted(whole.take(i as int), s@) + whole.skip(i as int));
    while i > 0 && less(s.as_str(), list[i - 1].as_str())
        invariant
            whole == text::texts(list@),
            i <= list@.len(),
            inserted(whole, s@) == inserted(whole.take(i as int), s@) + whole.skip(i as int),
        decreases i,
    {
        i -= 1;
        proof {
            assert(whole.take(i + 1).drop_last() =~= whole.take(i as int));
            assert(whole.take(i + 1).last() == list@[i as int]@);
            assert(inserted(whole.take(i as int), s@).push(whole[i as int]) + whole.skip(i + 1)
                =~= inserted(whole.take(i as int), s@) + whole.skip(i as int));
        }
    }
    proof {
        if i > 0 {
            assert(whole.take(i as int).last() == list@[i - 1]@);
        }
        assert(inserted(whole.take(i as int), s@) == whole.take(i as int).push(s@));
    }
    list.insert(i, s.clone());
    assert(text::texts(list@) =~= whole.take(i as int).push(s@) + whole.skip(i as int));
}

/// Puts texts in order.
pub fn sort_texts(list: &Vec<String>) -> (r: Vec<String>)
    ensures
        text::texts(r@) == sorted(text::texts(list@), list@.len() as int),
{
    let ghost all = text::texts(list@);
    let mut out: Vec<String> = Vec::new();
    let mut i: usize = 0;
    assert(text::texts(out@) =~= sorted(all, 0));
    while i < list.len()
        invariant
            all == text::texts(list@),
            i <= list@.len(),
            text::texts(out@) == sorted(all, i as int),
        decreases list@.len() - i,
    {
        assert(all[i as int] == list@[i as int]@);
        insert_text(&mut out, &list[i]);
        i += 1;
    }
    out
}

/// The first character in which two texts differ decides their order, and a text comes before all
/// that continue it.
pub proof fn the_first_difference_decides(a: Seq<char>, b: Seq<char>, i: int)
    requires
        0 <= i <= a.len(),
        i <= b.len(),
        a.take(i) == b.take(i),
    ensures
        i < a.len() && i < b.len() && a[i] != b[i] ==> precedes(a, b) == ((a[i] as u32) < (
        b[i] as u32)),
        i == a.len() && i < b.len() ==> precedes(a, b) && !precedes(b, a),
    decreases i,
{
    if i > 0 {
        assert(a[0] == a.take(i)[0]);
        assert(b[0] == b.take(i)[0]);
        assert(a.skip(1).take(i - 1) =~= a.take(i).skip(1));
        assert(b.skip(1).take(i - 1) =~= b.take(i).skip(1));
        the_first_difference_decides(a.skip(1), b.skip(1), i - 1);
    }
}

proof fn inserting_keeps_all(list: Seq<Seq<char>>, s: Seq<char>)
    ensures
        inserted(list, s).to_multiset() == list.to_multiset().insert(s),
    decreases list.len(),
{
    broadcast use vstd::seq_lib::group_to_multiset_ensures;

    if list.len() > 0 && precedes(s, list.last()) {
        inserting_keeps_all(list.drop_last(), s);
        assert(list.drop_last().push(list.last()) =~= list);
        assert(list.to_multiset() =~= list.drop_last().to_multiset().insert(list.last()));
        assert(inserted(list, s).to_multiset() =~= list.to_multiset().insert(s));
    }
}

/// Sorting loses nothing and adds nothing: the texts are the same, as often as before.
pub proof fn sorting_keeps_all(list: Seq<Seq<char>>, n: int)
    requires
        0 <= n <= list.len(),
    ensures
        sorted(list, n).to_multiset() == list.take(n).to_multiset(),
    decreases n,
{
    broadcast use vstd::seq_lib::group_to_multiset_ensures;

    if n > 0 {
        sorting_keeps_all(list, n - 1);
        inserting_keeps_all(sorted(list, n - 1), list[n - 1]);
        assert(list.take(n) =~= list.take(n - 1).push(list[n - 1]));
    } else {
        assert(list.take(0) =~= Seq::empty());
    }
}

} // verus!
