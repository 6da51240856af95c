//! Sorted lists without repetition, which stand for sets.
use crate::text::{self, str_eq, str_less};
use vstd::prelude::*;

verus! {

/// Whether a list of numbers rises strictly.
pub open spec fn rising(list: Seq<usize>) -> bool {
    forall|i: int, j: int| 0 <= i < j < list.len() ==> list[i] < list[j]
}

/// Adds a number to a rising list, unless the list holds it.
pub fn add_number(list: &mut Vec<usize>, x: usize)
    requires
        rising(old(list)@),
    ensures
        rising(final(list)@),
        forall|y: usize| #[trigger] final(list)@.contains(y) == (old(list)@.contains(y) || y == x),
{
    let mut at: usize = 0;
    while at < list.len() && list[at] < x
        invariant
            at <= list@.len(),
            rising(list@),
            list@ == old(list)@,
            forall|i: int| 0 <= i < at ==> list@[i] < x,
        decreases list@.len() - at,
    {
        at += 1;
    }
    if at < list.len() && list[at] == x {
        assert(list@[at as int] == x);
        return;
    }
    let ghost before = list@;
    list.insert(at, x);
    proof {
        assert(list@[at as int] == x);
        assert forall|y: usize| #[trigger] list@.contains(y) == (before.contains(y) || y == x) by {
            if before.contains(y) {
                let i = choose|i: int| 0 <= i < before.len() && before[i] == y;
                if i < at {
                    assert(list@[i] == y);
                } else {
                    assert(list@[i + 1] == y);
                }
            }
            if list@.contains(y) && y != x {
                let i = choose|i: int| 0 <= i < list@.len() && list@[i] == y;
                if i < at {
                    assert(before[i] == y);
                } else {
                    assert(before[i - 1] == y);
                }
            }
        }
    }
}

/// Whether a list of texts rises strictly in lexical order. Such a list is the sorted
/// list of a set of texts.
pub open spec fn ascending(list: Seq<Seq<char>>) -> bool {
    forall|i: int, j: int| 0 <= i < j < list.len() ==> text::text_less(list[i], list[j])
}

/// An ascending list holds no text twice.
pub proof fn ascending_has_no_duplicates(list: Seq<Seq<char>>)
    requires
        ascending(list),
    ensures
        list.no_duplicates(),
{
    assert forall|i: int, j: int| 0 <= i < list.len() && 0 <= j < list.len() && i != j implies list[i]
        != list[j] by {
        text::text_less_irreflexive(list[i]);
        if i < j {
            assert(text::text_less(list[i], list[j]));
        } else {
            assert(text::text_less(list[j], list[i]));
        }
    }
}

/// Two ascending lists that hold the same texts are the same list.
pub proof fn ascending_is_determined(a: Seq<Seq<char>>, b: Seq<Seq<char>>)
    requires
        ascending(a),
        ascending(b),
        forall|t: Seq<char>| a.contains(t) == b.contains(t),
    ensures
        a == b,
    decreases a.len(),
{
    if a.len() == 0 {
        if b.len() > 0 {
            assert(b.contains(b[0]));
        }
        assert(a =~= b);
    } else {
        assert(a.contains(a[0]));
        assert(b.contains(a[0]));
        assert(b.contains(b[0]));
        assert(a.contains(b[0]));
        let i = choose|i: int| 0 <= i < a.len() && a[i] == b[0];
        let j = choose|j: int| 0 <= j < b.len() && b[j] == a[0];
        text::text_less_irreflexive(a[0]);
        if i > 0 && j > 0 {
            assert(text::text_less(a[0], a[i]));
            assert(text::text_less(b[0], b[j]));
            text::text_less_transitive(a[0], b[0], a[0]);
        }
        assert(a[0] == b[0]);
        let x = a.drop_first();
        let y = b.drop_first();
        assert forall|p: int, q: int| 0 <= p < q < x.len() implies text::text_less(x[p], x[q]) by {
            assert(text::text_less(a[p + 1], a[q + 1]));
        }
        assert forall|p: int, q: int| 0 <= p < q < y.len() implies text::text_less(y[p], y[q]) by {
            assert(text::text_less(b[p + 1], b[q + 1]));
        }
        ascending_has_no_duplicates(a);
        ascending_has_no_duplicates(b);
        assert forall|t: Seq<char>| x.contains(t) == y.contains(t) by {
            if x.contains(t) {
                let k = choose|k: int| 0 <= k < x.len() && x[k] == t;
                assert(a[k + 1] == t);
                assert(a.contains(t));
                let m = choose|m: int| 0 <= m < b.len() && b[m] == t;
                assert(m != 0);
                assert(y[m - 1] == t);
            }
            if y.contains(t) {
                let k = choose|k: int| 0 <= k < y.len() && y[k] == t;
                assert(b[k + 1] == t);
                assert(b.contains(t));
                let m = choose|m: int| 0 <= m < a.len() && a[m] == t;
                assert(m != 0);
                assert(x[m - 1] == t);
            }
        }
        ascending_is_determined(x, y);
        assert(a =~= seq![a[0]] + x);
        assert(b =~= seq![b[0]] + y);
    }
}

/// Adds a text to an ascending list, unless the list holds it.
pub fn add_text(list: &mut Vec<String>, x: String)
    requires
        ascending(text::texts(old(list)@)),
    ensures
        ascending(text::texts(final(list)@)),
        forall|t: Seq<char>| #[trigger]
            text::texts(final(list)@).contains(t) == (text::texts(old(list)@).contains(t) || t == x@),
{
    let ghost before = text::texts(list@);
    let mut at: usize = 0;
    while at < list.len() && str_less(list[at].as_str(), x.as_str())
        invariant
            at <= list@.len(),
            list@ == old(list)@,
            forall|i: int| 0 <= i < at ==> text::text_less(#[trigger] text::texts(list@)[i], x@),
        decreases list@.len() - at,
    {
        assert(text::texts(list@)[at as int] == list@[at as int]@);
        at += 1;
    }
    if at < list.len() && str_eq(list[at].as_str(), x.as_str()) {
        assert(text::texts(list@)[at as int] == x@);
        return;
    }
    let ghost added = x@;
    proof {
        if at < list@.len() {
            assert(before[at as int] == list@[at as int]@);
            text::text_less_total(before[at as int], added);
        }
    }
    list.insert(at, x);
    proof {
        let after = text::texts(list@);
        assert(after =~= before.insert(at as int, added));
        assert(after[at as int] == added);
        assert forall|i: int, j: int| 0 <= i < j < after.len() implies text::text_less(
            after[i],
            after[j],
        ) by {
            let old_of = |k: int| if k < at { k } else { k - 1 };
            if i == at {
                assert(after[j] == before[j - 1]);
                if j - 1 > at {
                    assert(text::text_less(before[at as int], before[j - 1]));
                    text::text_less_transitive(added, before[at as int], before[j - 1]);
                }
            } else if j == at {
                assert(after[i] == before[i]);
            } else {
                assert(after[i] == before[old_of(i)]);
                assert(after[j] == before[old_of(j)]);
                assert(text::text_less(before[old_of(i)], before[old_of(j)]));
            }
        }
        assert forall|t: Seq<char>| #[trigger]
            after.contains(t) == (before.contains(t) || t == added) by {
            if before.contains(t) {
                let i = choose|i: int| 0 <= i < before.len() && before[i] == t;
                if i < at {
                    assert(after[i] == t);
                } else {
                    assert(after[i + 1] == t);
                }
            }
            if after.contains(t) && t != added {
                let i = choose|i: int| 0 <= i < after.len() && after[i] == t;
                if i < at {
                    assert(before[i] == t);
                } else {
                    assert(before[i - 1] == t);
                }
            }
        }
    }
}

/// Removes a text from an ascending list.
pub fn remove_text(list: &Vec<String>, x: &str) -> (r: Vec<String>)
    requires
        ascending(text::texts(list@)),
    ensures
        ascending(text::texts(r@)),
        forall|t: Seq<char>| #[trigger]
            text::texts(r@).contains(t) == (text::texts(list@).contains(t) && t != x@),
{
    let mut out: Vec<String> = Vec::new();
    let mut i: usize = 0;
    while i < list.len()
        invariant
            i <= list@.len(),
            ascending(text::texts(list@)),
            ascending(text::texts(out@)),
            forall|t: Seq<char>| #[trigger]
                text::texts(out@).contains(t) == (text::texts(list@).take(i as int).contains(t) && t
                    != x@),
        decreases list@.len() - i,
    {
        let ghost all = text::texts(list@);
        let ghost before = text::texts(out@);
        let ghost item = all[i as int];
        assert(item == list@[i as int]@);
        assert(all.take(i + 1) =~= all.take(i as int).push(item));
        assert forall|t: Seq<char>| #[trigger]
            all.take(i + 1).contains(t) == (all.take(i as int).contains(t) || t == item) by {
            if all.take(i as int).contains(t) {
                let k = choose|k: int| 0 <= k < i && all.take(i as int)[k] == t;
                assert(all.take(i + 1)[k] == t);
            }
            if t == item {
                assert(all.take(i + 1)[i as int] == t);
            }
        }
        if !str_eq(list[i].as_str(), x) {
            out.push(list[i].clone());
            proof {
                let after = text::texts(out@);
                assert(after =~= before.push(item));
                assert forall|p: int, q: int| 0 <= p < q < after.len() implies text::text_less(
                    after[p],
                    after[q],
                ) by {
                    if q < before.len() {
                        assert(text::text_less(before[p], before[q]));
                    } else {
                        assert(before.contains(before[p]));
                        assert(all.take(i as int).contains(before[p]));
                        let k = choose|k: int| 0 <= k < i && all.take(i as int)[k] == before[p];
                        assert(text::text_less(all[k], all[i as int]));
                    }
                }
                assert forall|t: Seq<char>| #[trigger]
                    after.contains(t) == (before.contains(t) || t == item) by {
                    if before.contains(t) {
                        let k = choose|k: int| 0 <= k < before.len() && before[k] == t;
                        assert(after[k] == t);
                    }
                    if t == item {
                        assert(after[before.len() as int] == t);
                    }
                }
            }
        }
        i += 1;
    }
    assert(text::texts(list@).take(i as int) =~= text::texts(list@));
    out
}

/// Adding a text to a sorted list keeps it sorted, and adds that text and no other.
pub proof fn lists_stay_sorted(
    list: &mut Vec<String>,
    x: String,
    t: Seq<char>,
    i: int,
    j: int,
    a: &str,
    b: &str,
    less: bool,
)
    requires
        ascending(text::texts(old(list)@)),
        call_ensures(add_text, (list, x), ()),
        0 <= i < j < final(list)@.len(),
        a@ == final(list)@[i]@,
        b@ == final(list)@[j]@,
        call_ensures(str_less, (a, b), less),
    ensures
        less,
        text::texts(final(list)@).contains(x@),
        t != x@ ==> (text::texts(final(list)@).contains(t) <==> text::texts(old(list)@).contains(t)),
{
    let args = (list, x);
    let after = text::texts(final(list)@);
    assert(after[i] == a@ && after[j] == b@);
    assert(text::text_less(after[i], after[j]));
    assert(after.contains(x@) == (text::texts(old(list)@).contains(x@) || x@ == x@));
    assert(after.contains(t) == (text::texts(old(list)@).contains(t) || t == x@));
}

/// Removing a text from a sorted list leaves every other one, and that one is gone.
pub proof fn only_one_text_is_removed(list: &Vec<String>, x: &str, r: Vec<String>, t: Seq<char>)
    requires
        ascending(text::texts(list@)),
        call_ensures(remove_text, (list, x), r),
    ensures
        !text::texts(r@).contains(x@),
        t != x@ ==> (text::texts(r@).contains(t) <==> text::texts(list@).contains(t)),
{
    let args = (list, x);
    assert(text::texts(r@).contains(x@) == (text::texts(args.0@).contains(x@) && x@ != args.1@));
    assert(text::texts(r@).contains(t) == (text::texts(args.0@).contains(t) && t != args.1@));
}

} // verus!
