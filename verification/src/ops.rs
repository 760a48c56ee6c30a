use vstd::prelude::*;

use crate::bar::Bar;

verus! {

/// One mutation of a medium's buffer, as `swap` and `set` perform it.
/// Out-of-range indices leave the buffer unchanged (a real medium rules
/// them out by precondition).
pub enum MediumOp {
    Swap(usize, usize),
    Store(usize, Bar),
}

/// The `position` keys of a buffer, in order.
pub open spec fn positions(s: Seq<Bar>) -> Seq<usize> {
    s.map_values(|b: Bar| b.position)
}

/// The buffer after one operation.
pub open spec fn apply_op(s: Seq<Bar>, op: MediumOp) -> Seq<Bar> {
    match op {
        MediumOp::Swap(i, j) => if i < s.len() && j < s.len() {
            s.update(i as int, s[j as int]).update(j as int, s[i as int])
        } else {
            s
        },
        MediumOp::Store(i, b) => if i < s.len() {
            s.update(i as int, b)
        } else {
            s
        },
    }
}

/// The buffer after a whole run of operations, applied left to right.
pub open spec fn apply_ops(s: Seq<Bar>, ops: Seq<MediumOp>) -> Seq<Bar>
    decreases ops.len(),
{
    if ops.len() == 0 {
        s
    } else {
        apply_ops(apply_op(s, ops[0]), ops.drop_first())
    }
}

/// The position values that a run of operations explicitly writes.
pub open spec fn written_positions(ops: Seq<MediumOp>) -> Set<usize> {
    Set::new(
        |p: usize|
            exists|k: int|
                0 <= k < ops.len() && ((#[trigger] ops[k]) matches MediumOp::Store(_, b)
                    && b.position == p),
    )
}

/// Exchanging two in-range elements of a sequence preserves its multiset.
pub proof fn lemma_swap_to_multiset<A>(s: Seq<A>, i: int, j: int)
    requires
        0 <= i < s.len(),
        0 <= j < s.len(),
    ensures
        s.update(i, s[j]).update(j, s[i]).to_multiset() == s.to_multiset(),
{
    broadcast use vstd::seq_lib::group_to_multiset_ensures;
    broadcast use vstd::multiset::group_multiset_axioms;

    let s1 = s.update(i, s[j]);
    assert(s1[j] == s[j]);
    assert(s.contains(s[i]));
    assert(s.to_multiset().count(s[i]) > 0);
    assert(s1.update(j, s[i]).to_multiset() =~= s.to_multiset());
}

/// Updating an element of a buffer updates its position sequence in the
/// same place.
pub proof fn lemma_positions_update(s: Seq<Bar>, i: int, b: Bar)
    requires
        0 <= i < s.len(),
    ensures
        positions(s.update(i, b)) == positions(s).update(i, b.position),
{
    assert(positions(s.update(i, b)) =~= positions(s).update(i, b.position));
}

/// A run made only of swaps permutes the buffer: the multiset of `position`
/// values afterwards equals the multiset before, with counts included.
pub proof fn lemma_swaps_preserve_positions(s: Seq<Bar>, ops: Seq<MediumOp>)
    requires
        forall|k: int| 0 <= k < ops.len() ==> (#[trigger] ops[k]) is Swap,
    ensures
        positions(apply_ops(s, ops)).to_multiset() == positions(s).to_multiset(),
    decreases ops.len(),
{
    if ops.len() > 0 {
        let s1 = apply_op(s, ops[0]);
        assert(ops[0] is Swap);
        if let MediumOp::Swap(i, j) = ops[0] {
            if i < s.len() && j < s.len() {
                lemma_positions_update(s, i as int, s[j as int]);
                lemma_positions_update(
                    s.update(i as int, s[j as int]),
                    j as int,
                    s[i as int],
                );
                assert(positions(s1) == positions(s).update(
                    i as int,
                    positions(s)[j as int],
                ).update(j as int, positions(s)[i as int]));
                lemma_swap_to_multiset(positions(s), i as int, j as int);
            }
        }
        assert(positions(s1).to_multiset() == positions(s).to_multiset());
        assert(forall|k: int|
            0 <= k < ops.drop_first().len() ==> (#[trigger] ops.drop_first()[k]) is Swap);
        lemma_swaps_preserve_positions(s1, ops.drop_first());
    }
}

/// No run of swaps and sets invents a position value: every position in the
/// resulting buffer was either in the original buffer or explicitly written
/// by one of the `Store` operations.
pub proof fn lemma_no_invented_positions(s: Seq<Bar>, ops: Seq<MediumOp>)
    ensures
        forall|p: usize|
            #[trigger] positions(apply_ops(s, ops)).to_multiset().contains(p) ==> positions(
                s,
            ).to_multiset().contains(p) || written_positions(ops).contains(p),
    decreases ops.len(),
{
    broadcast use vstd::seq_lib::group_to_multiset_ensures;
    broadcast use vstd::multiset::group_multiset_axioms;

    if ops.len() > 0 {
        let s1 = apply_op(s, ops[0]);
        lemma_no_invented_positions(s1, ops.drop_first());
        assert forall|p: usize| #[trigger]
            positions(s1).to_multiset().contains(p) implies positions(s).to_multiset().contains(p)
            || written_positions(ops).contains(p) by {
            assert(positions(s1).contains(p));
            let x = choose|x: int| 0 <= x < positions(s1).len() && positions(s1)[x] == p;
            match ops[0] {
                MediumOp::Swap(i, j) => {
                    assert(s1[x].position == p);
                    if i < s.len() && j < s.len() {
                        assert(s1[x] == s[x] || s1[x] == s[i as int] || s1[x] == s[j as int]);
                    }
                    assert(s.contains(s1[x]));
                    let y = choose|y: int| 0 <= y < s.len() && s[y] == s1[x];
                    assert(positions(s)[y] == p);
                    assert(positions(s).contains(p));
                },
                MediumOp::Store(i, b) => {
                    assert(s1[x].position == p);
                    if i < s.len() && x == i {
                        assert(s1[x] == b);
                        assert(written_positions(ops).contains(p));
                    } else {
                        assert(s1[x] == s[x]);
                        assert(positions(s)[x] == p);
                        assert(positions(s).contains(p));
                    }
                },
            }
        };
        assert forall|p: usize|
            written_positions(ops.drop_first()).contains(p) implies written_positions(
            ops,
        ).contains(p) by {
            let k = choose|k: int|
                0 <= k < ops.drop_first().len() && ((#[trigger] ops.drop_first()[k]) matches
                    MediumOp::Store(_, b) && b.position == p);
            assert(ops[k + 1] == ops.drop_first()[k]);
        };
        assert forall|p: usize| #[trigger]
            positions(apply_ops(s, ops)).to_multiset().contains(p) implies positions(
            s,
        ).to_multiset().contains(p) || written_positions(ops).contains(p) by {
            assert(apply_ops(s, ops) == apply_ops(s1, ops.drop_first()));
            assert(positions(apply_ops(s1, ops.drop_first())).to_multiset().contains(p));
        };
    }
}

} // verus!
