//! The board's round-trip laws: rolling back `Garbage` and `LineClear`
//! applications in exact reverse order restores the exact prior state.
//!
//! The laws are stated over the mathematical transitions [`apply_kind`] and
//! [`rollback_kind`] that `Board::apply_action` and `Board::rollback_action`
//! realise exactly. `Reposition` and `Cell` are deliberately excluded: their
//! forward transitions overwrite state without retaining it, so no exact
//! inverse exists for them.

use vstd::prelude::*;

use crate::action::ActionKind;
use crate::board::{
    apply_kind, kind_applicable, lemma_apply_kind_wf, rollback_kind, BoardView,
};
use crate::storage::empty_row;

verus! {

/// The actions whose rollback is an exact inverse of their forward
/// application.
pub open spec fn invertible(k: ActionKind) -> bool {
    match k {
        ActionKind::Garbage { .. } => true,
        ActionKind::LineClear { .. } => true,
        _ => false,
    }
}

/// A forward application of `k` on `v` that rollback undoes exactly: the
/// action is in bounds, and a garbage injection only scrolls all-empty rows
/// off the end of the row list (rollback writes empty rows back in their
/// place).
pub open spec fn safe_apply(v: BoardView, k: ActionKind) -> bool {
    &&& kind_applicable(v, k)
    &&& match k {
        ActionKind::Garbage { column: _, height } => forall|i: int|
            v.grid.len() - height as int <= i < v.grid.len() ==> (#[trigger] v.grid[i])
                == empty_row(v.columns as nat),
        _ => true,
    }
}

/// Rolling back one invertible action immediately after applying it restores
/// the exact prior board state.
pub proof fn lemma_roundtrip_one(v: BoardView, k: ActionKind)
    requires
        v.wf(),
        invertible(k),
        safe_apply(v, k),
    ensures
        rollback_kind(apply_kind(v, k), k) == v,
{
    let a = apply_kind(v, k);
    let b = rollback_kind(a, k);
    match k {
        ActionKind::Garbage { column: _, height } => {
            let h = height as int;
            let n = v.grid.len() as int;
            assert(a.grid.skip(h) =~= v.grid.take(n - h));
            assert(b.grid =~~= v.grid);
            assert(b =~~= v);
        },
        ActionKind::LineClear { row } => {
            let r = row as int;
            assert(a.cleared.last() == v.grid[r]);
            assert(a.cleared.drop_last() =~= v.cleared);
            assert(a.grid.drop_last() =~= v.grid.remove(r));
            assert(b.grid =~~= v.grid);
            assert(b =~~= v);
        },
        _ => {},
    }
}

/// The state after applying the actions of `s` in order, first element first.
pub open spec fn apply_kind_seq(v: BoardView, s: Seq<ActionKind>) -> BoardView
    decreases s.len(),
{
    if s.len() == 0 {
        v
    } else {
        apply_kind_seq(apply_kind(v, s[0]), s.skip(1))
    }
}

/// The state after rolling back the actions of `s` in exact reverse order:
/// the tail (applied later) is undone first, then the first action.
pub open spec fn rollback_kind_seq_rev(v: BoardView, s: Seq<ActionKind>) -> BoardView
    decreases s.len(),
{
    if s.len() == 0 {
        v
    } else {
        rollback_kind(rollback_kind_seq_rev(v, s.skip(1)), s[0])
    }
}

/// Every step of `s`, applied in order from `v`, is invertible and safe in
/// the sense of [`safe_apply`].
pub open spec fn safe_apply_seq(v: BoardView, s: Seq<ActionKind>) -> bool
    decreases s.len(),
{
    s.len() == 0 || (invertible(s[0]) && safe_apply(v, s[0]) && safe_apply_seq(
        apply_kind(v, s[0]),
        s.skip(1),
    ))
}

/// Round-trip law: for any sequence of `Garbage` and `LineClear` actions
/// applied in order from a well-formed state, rolling them back in exact
/// reverse order restores the state that held before the first application —
/// grid contents, undo stack, pieces and counter alike.
pub proof fn lemma_roundtrip_seq(v: BoardView, s: Seq<ActionKind>)
    requires
        v.wf(),
        safe_apply_seq(v, s),
    ensures
        rollback_kind_seq_rev(apply_kind_seq(v, s), s) == v,
    decreases s.len(),
{
    if s.len() > 0 {
        let v1 = apply_kind(v, s[0]);
        lemma_apply_kind_wf(v, s[0]);
        lemma_roundtrip_seq(v1, s.skip(1));
        lemma_roundtrip_one(v, s[0]);
    }
}

/// Appending one action to a batch applies it last.
pub proof fn lemma_apply_kind_seq_snoc(v: BoardView, s: Seq<ActionKind>, k: ActionKind)
    ensures
        apply_kind_seq(v, s.push(k)) == apply_kind(apply_kind_seq(v, s), k),
    decreases s.len(),
{
    if s.len() == 0 {
        assert(s.push(k)[0] == k);
        assert(s.push(k).skip(1) =~= Seq::<ActionKind>::empty());
        assert(apply_kind_seq(v, s.push(k)) == apply_kind_seq(
            apply_kind(v, k),
            Seq::<ActionKind>::empty(),
        ));
        assert(apply_kind_seq(apply_kind(v, k), Seq::<ActionKind>::empty()) == apply_kind(v, k));
        assert(apply_kind_seq(v, s) == v);
    } else {
        let v1 = apply_kind(v, s[0]);
        assert(s.push(k)[0] == s[0]);
        assert(s.push(k).skip(1) =~= s.skip(1).push(k));
        assert(apply_kind_seq(v, s.push(k)) == apply_kind_seq(v1, s.skip(1).push(k)));
        lemma_apply_kind_seq_snoc(v1, s.skip(1), k);
        assert(apply_kind_seq(v, s) == apply_kind_seq(v1, s.skip(1)));
    }
}

} // verus!
