//! Ordered sets kept as sequences: removing a member, and what stays.

use vstd::prelude::*;

verus! {

/// `s` without every occurrence of `x`, the rest in its order.
pub open spec fn without<T>(s: Seq<T>, x: T) -> Seq<T>
    decreases s.len(),
{
    if s.len() == 0 {
        s
    } else if s.last() == x {
        without(s.drop_last(), x)
    } else {
        without(s.drop_last(), x).push(s.last())
    }
}

/// What `without` keeps: the members of `s` other than `x`.
pub proof fn lemma_without_members<T>(s: Seq<T>, x: T)
    ensures
        forall|y: T| #[trigger] without(s, x).contains(y) <==> (s.contains(y) && y != x),
        without(s, x).len() <= s.len(),
    decreases s.len(),
{
    if s.len() > 0 {
        let head = s.drop_last();
        let w = without(head, x);
        let last = s.last();
        lemma_without_members(head, x);
        assert forall|y: T| #[trigger] without(s, x).contains(y) <==> (s.contains(y) && y
            != x) by {
            // what the head keeps is kept
            if w.contains(y) {
                let i = choose|i: int| 0 <= i < w.len() && w[i] == y;
                if last == x {
                    assert(without(s, x) == w);
                } else {
                    assert(without(s, x) == w.push(last));
                    assert(without(s, x)[i] == y);
                }
                assert(head.contains(y));
                let j = choose|j: int| 0 <= j < head.len() && head[j] == y;
                assert(s[j] == y);
            }
            // the last member is kept unless it is `x`
            if last != x && y == last {
                assert(without(s, x) == w.push(last));
                assert(without(s, x)[w.len() as int] == y);
                assert(s[s.len() - 1] == y);
            }
            if without(s, x).contains(y) {
                let i = choose|i: int| 0 <= i < without(s, x).len() && without(s, x)[i] == y;
                if last == x {
                    assert(without(s, x) == w);
                    assert(w[i] == y);
                } else {
                    assert(without(s, x) == w.push(last));
                    if i < w.len() {
                        assert(w[i] == y);
                    }
                }
            }
            if s.contains(y) && y != x {
                let j = choose|j: int| 0 <= j < s.len() && s[j] == y;
                if j < s.len() - 1 {
                    assert(head[j] == y);
                    assert(head.contains(y));
                }
            }
        }
    }
}

/// Removing what is not there changes nothing.
pub proof fn lemma_without_absent<T>(s: Seq<T>, x: T)
    requires
        !s.contains(x),
    ensures
        without(s, x) == s,
    decreases s.len(),
{
    if s.len() > 0 {
        let head = s.drop_last();
        assert(s[s.len() - 1] != x);
        assert forall|i: int| 0 <= i < head.len() implies head[i] != x by {
            assert(s[i] == head[i]);
        }
        lemma_without_absent(head, x);
        assert(head.push(s.last()) =~= s);
    }
}

/// Adding a member at the end and removing it again gives the sequence
/// without that member.
pub proof fn lemma_without_pushed<T>(s: Seq<T>, x: T)
    ensures
        without(s.push(x), x) == without(s, x),
{
    assert(s.push(x).drop_last() =~= s);
}

/// Removing a member keeps a sequence free of repeats.
pub proof fn lemma_without_no_duplicates<T>(s: Seq<T>, x: T)
    requires
        s.no_duplicates(),
    ensures
        without(s, x).no_duplicates(),
    decreases s.len(),
{
    if s.len() > 0 {
        let head = s.drop_last();
        lemma_without_no_duplicates(head, x);
        lemma_without_members(head, x);
        if s.last() != x {
            let w = without(head, x);
            assert(!w.contains(s.last())) by {
                if head.contains(s.last()) {
                    let j = choose|j: int| 0 <= j < head.len() && head[j] == s.last();
                    assert(s[j] == s[s.len() - 1]);
                }
            }
            assert forall|i: int, j: int|
                0 <= i < w.push(s.last()).len() && 0 <= j < w.push(s.last()).len() && i
                    != j implies w.push(s.last())[i] != w.push(s.last())[j] by {
                if i == w.len() {
                    assert(w.contains(w[j]));
                } else if j == w.len() {
                    assert(w.contains(w[i]));
                }
            }
        }
    }
}

/// A member is in `s.push(x)` where it is in `s` or is `x`.
pub proof fn lemma_push_contains<T>(s: Seq<T>, x: T, y: T)
    ensures
        s.push(x).contains(y) <==> (s.contains(y) || y == x),
{
    if s.push(x).contains(y) {
        let i = choose|i: int| 0 <= i < s.push(x).len() && s.push(x)[i] == y;
        if i < s.len() {
            assert(s[i] == y);
        }
    }
    if s.contains(y) {
        let i = choose|i: int| 0 <= i < s.len() && s[i] == y;
        assert(s.push(x)[i] == y);
    }
    if y == x {
        assert(s.push(x)[s.len() as int] == y);
    }
}

/// Adding a new member at the end keeps a sequence free of repeats.
pub proof fn lemma_push_no_duplicates<T>(s: Seq<T>, x: T)
    requires
        s.no_duplicates(),
        !s.contains(x),
    ensures
        s.push(x).no_duplicates(),
{
    assert forall|i: int, j: int|
        0 <= i < s.push(x).len() && 0 <= j < s.push(x).len() && i != j implies s.push(x)[i]
        != s.push(x)[j] by {
        if i == s.len() {
            assert(s.contains(s[j]));
        } else if j == s.len() {
            assert(s.contains(s[i]));
        }
    }
}

/// Whether `x` is a member of `list`.
pub fn contains_id(list: &Vec<u128>, x: u128) -> (r: bool)
    ensures
        r == list@.contains(x),
{
    let mut i: usize = 0;
    while i < list.len()
        invariant
            i <= list@.len(),
            forall|k: int| 0 <= k < i ==> list@[k] != x,
        decreases list@.len() - i,
    {
        if list[i] == x {
            return true;
        }
        i += 1;
    }
    false
}

/// A copy of `list`.
pub fn copy_ids(list: &Vec<u128>) -> (r: Vec<u128>)
    ensures
        r@ == list@,
{
    let mut copy: Vec<u128> = Vec::new();
    let mut i: usize = 0;
    while i < list.len()
        invariant
            i <= list@.len(),
            copy@ == list@.take(i as int),
        decreases list@.len() - i,
    {
        copy.push(list[i]);
        assert(list@.take(i + 1) =~= list@.take(i as int).push(list@[i as int]));
        i += 1;
    }
    assert(list@.take(i as int) =~= list@);
    copy
}

/// `list` without every occurrence of `x`.
pub fn remove_id(list: &Vec<u128>, x: u128) -> (r: Vec<u128>)
    ensures
        r@ == without(list@, x),
{
    let mut kept: Vec<u128> = Vec::new();
    let mut i: usize = 0;
    assert(list@.take(0) =~= Seq::<u128>::empty());
    while i < list.len()
        invariant
            i <= list@.len(),
            kept@ == without(list@.take(i as int), x),
        decreases list@.len() - i,
    {
        assert(list@.take(i + 1).drop_last() =~= list@.take(i as int));
        if list[i] != x {
            kept.push(list[i]);
        }
        i += 1;
    }
    assert(list@.take(i as int) =~= list@);
    kept
}

/// Whether a list of texts holds `x`.
pub fn contains_text(list: &Vec<String>, x: &str) -> (r: bool)
    ensures
        r == crate::text::texts(list@).contains(x@),
{
    let ghost all = crate::text::texts(list@);
    let mut i: usize = 0;
    while i < list.len()
        invariant
            i <= list@.len(),
            all == crate::text::texts(list@),
            forall|k: int| 0 <= k < i ==> all[k] != x@,
        decreases list@.len() - i,
    {
        if crate::text::str_equal(list[i].as_str(), x) {
            assert(all[i as int] == x@);
            return true;
        }
        i += 1;
    }
    false
}

/// A list of texts without every occurrence of `x`.
pub fn remove_text(list: &Vec<String>, x: &str) -> (r: Vec<String>)
    ensures
        crate::text::texts(r@) == without(crate::text::texts(list@), x@),
{
    let ghost all = crate::text::texts(list@);
    let mut kept: Vec<String> = Vec::new();
    let mut i: usize = 0;
    assert(all.take(0) =~= Seq::<Seq<char>>::empty());
    assert(crate::text::texts(kept@) =~= Seq::<Seq<char>>::empty());
    while i < list.len()
        invariant
            i <= list@.len(),
            all == crate::text::texts(list@),
            crate::text::texts(kept@) == without(all.take(i as int), x@),
        decreases list@.len() - i,
    {
        let ghost before = crate::text::texts(kept@);
        assert(all.take(i + 1).drop_last() =~= all.take(i as int));
        assert(all.take(i + 1).last() == list@[i as int]@);
        if !crate::text::str_equal(list[i].as_str(), x) {
            kept.push(list[i].clone());
            assert(crate::text::texts(kept@) =~= before.push(list@[i as int]@));
        }
        i += 1;
    }
    assert(all.take(i as int) =~= all);
    kept
}

} // verus!
