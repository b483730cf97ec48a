//! Laws that every container of `containers` obeys, stated over whole histories of
//! calls.
use vstd::prelude::*;
use crate::containers::{
    added,
    added_all,
    insertion_point,
    peek_result,
    remove_result,
    DataStructure,
    Policy,
};

verus! {

/// Contents after running `ops` on a container of policy `p` that holds `s`:
/// `Some(e)` adds `e`, `None` removes the next element if there is one.
pub open spec fn run(p: Policy, s: Seq<i32>, ops: Seq<Option<i32>>) -> Seq<i32>
    decreases ops.len(),
{
    if ops.len() == 0 {
        s
    } else {
        let t = run(p, s, ops.drop_last());
        match ops.last() {
            Some(e) => added(p, t, e),
            None => if t.len() > 0 {
                t.drop_last()
            } else {
                t
            },
        }
    }
}

/// Every removal in `ops` finds an element to remove.
pub open spec fn removals_succeed(p: Policy, s: Seq<i32>, ops: Seq<Option<i32>>) -> bool {
    forall|i: int| 0 <= i < ops.len() && #[trigger] ops[i] is None ==> run(p, s, ops.take(i)).len() > 0
}

/// The values that `ops` adds, in the order added.
pub open spec fn adds_of(ops: Seq<Option<i32>>) -> Seq<i32>
    decreases ops.len(),
{
    if ops.len() == 0 {
        Seq::empty()
    } else {
        match ops.last() {
            Some(e) => adds_of(ops.drop_last()).push(e),
            None => adds_of(ops.drop_last()),
        }
    }
}

/// How many removals `ops` makes.
pub open spec fn removals_of(ops: Seq<Option<i32>>) -> int
    decreases ops.len(),
{
    if ops.len() == 0 {
        0
    } else {
        match ops.last() {
            Some(_) => removals_of(ops.drop_last()),
            None => removals_of(ops.drop_last()) + 1,
        }
    }
}

proof fn lemma_insertion_point_bounds(s: Seq<i32>, e: i32)
    ensures
        0 <= insertion_point(s, e) <= s.len(),
    decreases s.len(),
{
    if s.len() > 0 {
        lemma_insertion_point_bounds(s.drop_last(), e);
    }
}

/// Adding an element makes a container hold one more element, whatever its policy.
pub proof fn lemma_added_len(p: Policy, s: Seq<i32>, e: i32)
    ensures
        added(p, s, e).len() == s.len() + 1,
{
    lemma_insertion_point_bounds(s, e);
}

proof fn lemma_prefix_succeeds(p: Policy, s: Seq<i32>, ops: Seq<Option<i32>>)
    requires
        ops.len() > 0,
        removals_succeed(p, s, ops),
    ensures
        removals_succeed(p, s, ops.drop_last()),
        ops.last() is None ==> run(p, s, ops.drop_last()).len() > 0,
{
    let q = ops.drop_last();
    assert forall|i: int| 0 <= i < q.len() && #[trigger] q[i] is None implies run(
        p,
        s,
        q.take(i),
    ).len() > 0 by {
        assert(q.take(i) =~= ops.take(i));
        assert(ops[i] is None);
    }
    if ops.last() is None {
        assert(ops.take(ops.len() - 1) =~= q);
        assert(ops[ops.len() - 1] is None);
    }
}

/// Size accounting: after any history whose removals all succeed, a container holds
/// what it started with, plus one element per add, minus one per removal.
pub proof fn lemma_size_accounting(p: Policy, s: Seq<i32>, ops: Seq<Option<i32>>)
    requires
        removals_succeed(p, s, ops),
    ensures
        run(p, s, ops).len() == s.len() + adds_of(ops).len() - removals_of(ops),
    decreases ops.len(),
{
    if ops.len() > 0 {
        lemma_prefix_succeeds(p, s, ops);
        lemma_size_accounting(p, s, ops.drop_last());
        let t = run(p, s, ops.drop_last());
        match ops.last() {
            Some(e) => lemma_added_len(p, t, e),
            None => {},
        }
    }
}

/// A last-in-first-out container lists its elements in the order they were added, so
/// after a run of adds the next element to leave is the last one added.
pub proof fn lemma_lifo_returns_latest(s: Seq<i32>, xs: Seq<i32>)
    ensures
        added_all(Policy::Lifo, s, xs) == s + xs,
        xs.len() > 0 ==> added_all(Policy::Lifo, s, xs).last() == xs.last(),
    decreases xs.len(),
{
    if xs.len() > 0 {
        lemma_lifo_returns_latest(s, xs.drop_last());
        assert((s + xs.drop_last()).push(xs.last()) =~= s + xs);
    }
}

/// A first-in-first-out container created empty holds, after any history whose
/// removals all succeed, exactly the added values that were not yet removed, the
/// earliest of them next to leave.
pub proof fn lemma_fifo_returns_earliest(ops: Seq<Option<i32>>)
    requires
        removals_succeed(Policy::Fifo, Seq::empty(), ops),
    ensures
        0 <= removals_of(ops) <= adds_of(ops).len(),
        run(Policy::Fifo, Seq::empty(), ops) == adds_of(ops).skip(removals_of(ops)).reverse(),
        removals_of(ops) < adds_of(ops).len() ==> run(Policy::Fifo, Seq::empty(), ops).last()
            == adds_of(ops)[removals_of(ops)],
    decreases ops.len(),
{
    let a = adds_of(ops);
    let c = removals_of(ops);
    lemma_size_accounting(Policy::Fifo, Seq::empty(), ops);
    lemma_removals_nonneg(ops);
    if ops.len() == 0 {
        assert(a.skip(c).reverse() =~= Seq::<i32>::empty());
    } else {
        lemma_prefix_succeeds(Policy::Fifo, Seq::empty(), ops);
        let q = ops.drop_last();
        lemma_fifo_returns_earliest(q);
        let a0 = adds_of(q);
        let c0 = removals_of(q);
        let t = run(Policy::Fifo, Seq::empty(), q);
        match ops.last() {
            Some(e) => {
                assert(a == a0.push(e));
                assert(a.skip(c).reverse() =~= seq![e] + a0.skip(c0).reverse());
            },
            None => {
                assert(t.len() > 0);
                assert(a.skip(c).reverse() =~= t.drop_last());
            },
        }
    }
}

proof fn lemma_removals_nonneg(ops: Seq<Option<i32>>)
    ensures
        removals_of(ops) >= 0,
    decreases ops.len(),
{
    if ops.len() > 0 {
        lemma_removals_nonneg(ops.drop_last());
    }
}

/// On a non-empty container, `peek` followed by `remove` yields the same element twice.
pub proof fn lemma_peek_then_remove(
    s: Seq<i32>,
    peeked: Result<i32, String>,
    removed: Result<i32, String>,
    after: Seq<i32>,
)
    requires
        s.len() > 0,
        peek_result(s, peeked),
        remove_result(s, removed, after),
    ensures
        peeked is Ok,
        peeked == removed,
{
}

/// On an empty container, `peek` and `remove` both fail and leave it as it was.
pub proof fn lemma_empty_fails(
    s: Seq<i32>,
    peeked: Result<i32, String>,
    removed: Result<i32, String>,
    after: Seq<i32>,
)
    requires
        s.len() == 0,
        peek_result(s, peeked),
        remove_result(s, removed, after),
    ensures
        peeked is Err,
        removed is Err,
        after == s,
{
}

/// `is_empty` depends on the contents alone: two calls with no change between them
/// agree.
pub proof fn lemma_is_empty_stable<D: DataStructure>(d: &D, first: bool, second: bool)
    requires
        first == (d.contents().len() == 0),
        second == (d.contents().len() == 0),
    ensures
        first == second,
{
}

} // verus!
