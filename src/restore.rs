//! What a restore pass does to the cache, stated over sequences, and the
//! laws that follow from it.
use vstd::prelude::*;
use crate::geometry::{move_for, MoveRequest, WindowSnapshot};

verus! {

/// No two snapshots share a window id.
pub open spec fn ids_unique(s: Seq<WindowSnapshot>) -> bool {
    forall|i: int, j: int| 0 <= i < j < s.len() ==> s[i].id != s[j].id
}

/// The snapshots of `c` whose window still exists (`e[i]` for `c[i]`),
/// in their order.
pub open spec fn kept(c: Seq<WindowSnapshot>, e: Seq<bool>) -> Seq<WindowSnapshot>
    decreases c.len(),
{
    if c.len() == 0 {
        Seq::empty()
    } else {
        let rest = kept(c.drop_first(), e.drop_first());
        if e[0] {
            seq![c[0]] + rest
        } else {
            rest
        }
    }
}

/// The moves of a restore pass over `c`: one for each snapshot whose window
/// still exists, from the most recently added entry to the least.
pub open spec fn restore_moves(c: Seq<WindowSnapshot>, e: Seq<bool>) -> Seq<MoveRequest>
    decreases c.len(),
{
    if c.len() == 0 {
        Seq::empty()
    } else {
        let rest = restore_moves(c.drop_first(), e.drop_first());
        if e[0] {
            rest.push(move_for(c[0]))
        } else {
            rest
        }
    }
}

/// `x` is the snapshot of `c` at some index `i` for which `e[i]` holds.
pub open spec fn from_existing<T>(c: Seq<WindowSnapshot>, e: Seq<bool>, x: T, f: spec_fn(WindowSnapshot) -> T) -> bool {
    exists|i: int| 0 <= i < c.len() && e[i] && x == f(#[trigger] c[i])
}

/// Every kept snapshot is one of `c` whose window exists.
pub proof fn lemma_kept_from_existing(c: Seq<WindowSnapshot>, e: Seq<bool>)
    requires
        c.len() == e.len(),
    ensures
        forall|k: int|
            0 <= k < kept(c, e).len() ==> from_existing(c, e, #[trigger] kept(c, e)[k], |s| s),
    decreases c.len(),
{
    if c.len() > 0 {
        lemma_kept_from_existing(c.drop_first(), e.drop_first());
        let rest = kept(c.drop_first(), e.drop_first());
        assert forall|k: int| 0 <= k < kept(c, e).len() implies from_existing(
            c,
            e,
            #[trigger] kept(c, e)[k],
            |s| s,
        ) by {
            if e[0] {
                if k == 0 {
                    assert(kept(c, e)[k] == c[0]);
                } else {
                    assert(kept(c, e)[k] == rest[k - 1]);
                    let j = choose|j: int|
                        0 <= j < c.len() - 1 && e.drop_first()[j] && rest[k - 1]
                            == #[trigger] c.drop_first()[j];
                    assert(kept(c, e)[k] == c[j + 1]);
                }
            } else {
                assert(kept(c, e)[k] == rest[k]);
                let j = choose|j: int|
                    0 <= j < c.len() - 1 && e.drop_first()[j] && rest[k]
                        == #[trigger] c.drop_first()[j];
                assert(kept(c, e)[k] == c[j + 1]);
            }
        }
    } else {
        assert(kept(c, e).len() == 0);
    }
}

/// Every move of a restore pass is for a snapshot of `c` whose window exists.
pub proof fn lemma_moves_from_existing(c: Seq<WindowSnapshot>, e: Seq<bool>)
    requires
        c.len() == e.len(),
    ensures
        forall|k: int|
            0 <= k < restore_moves(c, e).len() ==> from_existing(
                c,
                e,
                #[trigger] restore_moves(c, e)[k],
                |s| move_for(s),
            ),
    decreases c.len(),
{
    if c.len() > 0 {
        lemma_moves_from_existing(c.drop_first(), e.drop_first());
        let rest = restore_moves(c.drop_first(), e.drop_first());
        assert forall|k: int| 0 <= k < restore_moves(c, e).len() implies from_existing(
            c,
            e,
            #[trigger] restore_moves(c, e)[k],
            |s| move_for(s),
        ) by {
            if e[0] && k == rest.len() {
                assert(restore_moves(c, e)[k] == move_for(c[0]));
            } else {
                assert(k < rest.len());
                assert(restore_moves(c, e)[k] == rest[k]);
                let j = choose|j: int|
                    0 <= j < c.len() - 1 && e.drop_first()[j] && rest[k]
                        == move_for(#[trigger] c.drop_first()[j]);
                assert(restore_moves(c, e)[k] == move_for(c[j + 1]));
            }
        }
    } else {
        assert(restore_moves(c, e).len() == 0);
    }
}

/// Keeping a part of a cache whose ids are unique leaves them unique.
pub proof fn lemma_kept_unique(c: Seq<WindowSnapshot>, e: Seq<bool>)
    requires
        c.len() == e.len(),
        ids_unique(c),
    ensures
        ids_unique(kept(c, e)),
    decreases c.len(),
{
    if c.len() > 0 {
        let t = c.drop_first();
        let f = e.drop_first();
        lemma_kept_unique(t, f);
        lemma_kept_from_existing(t, f);
        let rest = kept(t, f);
        if e[0] {
            let r = kept(c, e);
            assert forall|i: int, j: int| 0 <= i < j < r.len() implies r[i].id != r[j].id by {
                assert(r[j] == rest[j - 1]);
                if i > 0 {
                    assert(r[i] == rest[i - 1]);
                } else {
                    let jj = choose|jj: int|
                        0 <= jj < t.len() && f[jj] && rest[j - 1] == #[trigger] t[jj];
                    assert(rest[j - 1] == c[jj + 1]);
                }
            }
        }
    }
}

/// A restore pass never moves a window that no longer exists, and keeps no
/// snapshot of one: neither the moves nor the pruned cache mention its id.
pub proof fn lemma_restore_skips_missing(c: Seq<WindowSnapshot>, e: Seq<bool>)
    requires
        c.len() == e.len(),
        ids_unique(c),
    ensures
        forall|i: int, k: int|
            0 <= i < c.len() && !e[i] && 0 <= k < restore_moves(c, e).len()
                ==> #[trigger] restore_moves(c, e)[k].id != #[trigger] c[i].id,
        forall|i: int, k: int|
            0 <= i < c.len() && !e[i] && 0 <= k < kept(c, e).len()
                ==> #[trigger] kept(c, e)[k].id != #[trigger] c[i].id,
{
    lemma_moves_from_existing(c, e);
    lemma_kept_from_existing(c, e);
}

/// A restore pass is idempotent: run again over the pruned cache, with every
/// remaining window still there, it keeps the whole cache and issues exactly
/// the same moves, so window positions end up the same.
pub proof fn lemma_restore_idempotent(c: Seq<WindowSnapshot>, e: Seq<bool>)
    requires
        c.len() == e.len(),
    ensures
        kept(kept(c, e), Seq::new(kept(c, e).len(), |k: int| true)) == kept(c, e),
        restore_moves(kept(c, e), Seq::new(kept(c, e).len(), |k: int| true))
            == restore_moves(c, e),
    decreases c.len(),
{
    let k = kept(c, e);
    let all = Seq::new(k.len(), |k: int| true);
    if c.len() > 0 {
        let t = c.drop_first();
        let f = e.drop_first();
        lemma_restore_idempotent(t, f);
        let rest = kept(t, f);
        let all_rest = Seq::new(rest.len(), |k: int| true);
        if e[0] {
            assert(k.drop_first() =~= rest);
            assert(all.drop_first() =~= all_rest);
        } else {
            assert(all =~= all_rest);
        }
    }
}

} // verus!
