//! Moving a selection through a list, and finding things in one.

use vstd::arithmetic::div_mod::{
    lemma_add_mod_noop, lemma_mod_add_multiples_vanish, lemma_mod_bound, lemma_mod_self_0,
    lemma_small_mod,
};
use vstd::prelude::*;

verus! {

/// The selection before `idx` in a list of `n` items; before the first comes the
/// last.
pub open spec fn previous_of(idx: int, n: int) -> int {
    (idx + n - 1) % n
}

/// The selection after `idx` in a list of `n` items; after the last comes the
/// first.
pub open spec fn next_of(idx: int, n: int) -> int {
    (idx + 1) % n
}

/// Moves a selection up. An index beyond the list counts modulo its length.
pub fn previous(idx: usize, n: usize) -> (res: usize)
    requires
        n > 0,
    ensures
        res == previous_of(idx as int, n as int),
        res < n,
{
    let at: usize = idx % n;
    proof {
        lemma_add_mod_noop(idx as int, n - 1, n as int);
        lemma_small_mod((n - 1) as nat, n as nat);
        if at == 0 {
            lemma_small_mod((n - 1) as nat, n as nat);
        } else {
            lemma_small_mod((at - 1) as nat, n as nat);
            lemma_mod_add_multiples_vanish(at - 1, n as int);
        }
    }
    if at == 0 {
        n - 1
    } else {
        at - 1
    }
}

/// Moves a selection down. An index beyond the list counts modulo its length.
pub fn next(idx: usize, n: usize) -> (res: usize)
    requires
        n > 0,
    ensures
        res == next_of(idx as int, n as int),
        res < n,
{
    let at: usize = idx % n;
    proof {
        lemma_add_mod_noop(idx as int, 1, n as int);
        if n == 1 {
            assert(idx as int % 1 == 0);
            assert((idx as int + 1) % 1 == 0);
        } else {
            lemma_small_mod(1, n as nat);
            if at + 1 < n {
                lemma_small_mod((at + 1) as nat, n as nat);
            } else {
                lemma_mod_self_0(n as int);
            }
        }
    }
    if at + 1 == n {
        0
    } else {
        at + 1
    }
}

/// A moved selection is one of the items.
pub proof fn lemma_moved_in_range(idx: int, n: int)
    requires
        n > 0,
    ensures
        0 <= previous_of(idx, n) < n,
        0 <= next_of(idx, n) < n,
{
    lemma_mod_bound(idx + n - 1, n);
    lemma_mod_bound(idx + 1, n);
}

/// The position of the first item that `p` picks, or the length where it picks
/// none.
pub open spec fn first_position<A>(s: Seq<A>, p: spec_fn(A) -> bool) -> int
    decreases s.len(),
{
    if s.len() == 0 || p(s.first()) {
        0
    } else {
        1 + first_position(s.drop_first(), p)
    }
}

/// An item that `p` picks, with none picked before it, is the first one.
pub proof fn lemma_first_position<A>(s: Seq<A>, p: spec_fn(A) -> bool, n: int)
    requires
        0 <= n <= s.len(),
        forall|j: int| 0 <= j < n ==> !p(#[trigger] s[j]),
        n < s.len() ==> p(s[n]),
    ensures
        first_position(s, p) == n,
    decreases s.len(),
{
    if n > 0 {
        assert(!p(s[0]));
        assert forall|j: int| 0 <= j < n - 1 implies !p(#[trigger] s.drop_first()[j]) by {
            assert(!p(s[j + 1]));
        }
        lemma_first_position(s.drop_first(), p, n - 1);
    }
}

/// What the first position is: nothing before it is picked, and it is picked
/// itself unless nothing is.
pub proof fn lemma_first_position_is_first<A>(s: Seq<A>, p: spec_fn(A) -> bool)
    ensures
        0 <= first_position(s, p) <= s.len(),
        forall|j: int| 0 <= j < first_position(s, p) ==> !p(#[trigger] s[j]),
        first_position(s, p) < s.len() ==> p(s[first_position(s, p)]),
    decreases s.len(),
{
    if s.len() > 0 && !p(s.first()) {
        lemma_first_position_is_first(s.drop_first(), p);
        assert forall|j: int| 0 <= j < first_position(s, p) implies !p(#[trigger] s[j]) by {
            if j > 0 {
                assert(!p(s.drop_first()[j - 1]));
            }
        }
    }
}

/// The position of the last item that `p` picks, or -1 where it picks none.
pub open spec fn last_position<A>(s: Seq<A>, p: spec_fn(A) -> bool) -> int
    decreases s.len(),
{
    if s.len() == 0 {
        -1
    } else if p(s.last()) {
        s.len() - 1
    } else {
        last_position(s.drop_last(), p)
    }
}

/// What the last position is: nothing behind it is picked, and it is picked itself
/// unless nothing is.
pub proof fn lemma_last_position_is_last<A>(s: Seq<A>, p: spec_fn(A) -> bool)
    ensures
        -1 <= last_position(s, p) < s.len(),
        forall|j: int| last_position(s, p) < j < s.len() ==> !p(#[trigger] s[j]),
        last_position(s, p) >= 0 ==> p(s[last_position(s, p)]),
    decreases s.len(),
{
    if s.len() > 0 && !p(s.last()) {
        lemma_last_position_is_last(s.drop_last(), p);
        assert forall|j: int| last_position(s, p) < j < s.len() implies !p(#[trigger] s[j]) by {
            if j < s.len() - 1 {
                assert(!p(s.drop_last()[j]));
            }
        }
    }
}

} // verus!
