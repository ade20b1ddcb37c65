//! The guarantees of the tick protocol, stated and proved once, over the
//! same specification functions that the executable functions' contracts
//! use.
//!
//! The conflict-resolution laws speak of `resolve_spec`, the resolution
//! stage of an update (after the cell's own diff, before spawn-in): spawn-in
//! draws may deliberately override any resolved outcome, so the laws about
//! resolution hold unconditionally only of that stage, and lift to a whole
//! update when the tick draws nothing.

use vstd::prelude::*;

use crate::brain::NetworkEventsView;
use crate::cell::{give_spec, Block, CellView, LifeView};
use crate::engine::{
    apply_move_spec, apply_moves_spec, n_drop, n_enter, n_incubate, resolve_spec, update_spec,
    DiffView, MoveView, TickDrawsView,
};

verus! {

/// After an update a cell is one thing only: the cell model makes an
/// organism, a bare block, and an empty cell mutually exclusive, so no cell
/// is ever simultaneously an organism and a bare block.
pub proof fn lemma_update_cell_exclusive(
    c: CellView,
    d: DiffView,
    moves: Seq<MoveView>,
    draws: TickDrawsView,
    plan: NetworkEventsView,
)
    ensures
        !(update_spec(c, d, moves, draws, plan) is Life && update_spec(c, d, moves, draws, plan)
            is Block),
{
}

/// When more than one proposal claims a cell, resolution obliterates it:
/// the cell comes out empty, and no claimant is privileged.
pub proof fn lemma_collision_obliterates(c: CellView, moves: Seq<MoveView>)
    requires
        n_incubate(moves) + n_drop(moves) + n_enter(moves) > 1,
    ensures
        resolve_spec(c, moves) == CellView::Empty,
{
}

/// The obliteration law lifted to a whole update: on a tick that draws no
/// spawn-in event, a contended cell ends the update empty.
pub proof fn lemma_collision_update(
    c: CellView,
    d: DiffView,
    moves: Seq<MoveView>,
    draws: TickDrawsView,
    plan: NetworkEventsView,
)
    requires
        n_incubate(moves) + n_drop(moves) + n_enter(moves) > 1,
        draws.spawn_life is None,
        !draws.give_birth,
        !draws.give_death,
    ensures
        update_spec(c, d, moves, draws, plan) == CellView::Empty,
{
}

/// Landing on a death block is always fatal: when exactly one organism
/// enters a cell that was a death block, resolution leaves the cell empty,
/// whatever else arrived.
pub proof fn lemma_death_block_fatal(c: CellView, moves: Seq<MoveView>)
    requires
        c == CellView::Block(Block::Death),
        n_enter(moves) == 1,
    ensures
        resolve_spec(c, moves) == CellView::Empty,
{
}

/// An inbox with no proposal of any kind holds only `Nothing` and leaves the
/// cell as it was.
pub proof fn lemma_no_proposals_inert(
    c: CellView,
    moves: Seq<MoveView>,
    was_birth: bool,
    was_occupied: bool,
)
    requires
        n_incubate(moves) == 0,
        n_drop(moves) == 0,
        n_enter(moves) == 0,
    ensures
        apply_moves_spec(c, moves, was_birth, was_occupied) == c,
    decreases moves.len(),
{
    if moves.len() > 0 {
        lemma_no_proposals_inert(c, moves.drop_last(), was_birth, was_occupied);
    }
}

/// Incubation succeeds exactly on a birth block reached by one lone
/// incubation proposal: the block becomes a fresh organism carrying the
/// proposed brain and an empty inventory.  With no proposal at all the
/// block stays; with two or more incubations the cell is obliterated.
pub proof fn lemma_incubation(c: CellView, moves: Seq<MoveView>, dd: int)
    requires
        c == CellView::Block(Block::Birth),
    ensures
        (n_incubate(moves) == 1 && n_drop(moves) == 0 && n_enter(moves) == 0 && 0 <= dd
            < moves.len() && moves[dd] is Incubate) ==> resolve_spec(c, moves) == CellView::Life(
            LifeView { brain: moves[dd]->Incubate_0, holding: None },
        ),
        n_incubate(moves) >= 2 ==> resolve_spec(c, moves) == CellView::Empty,
        (n_incubate(moves) == 0 && n_drop(moves) == 0 && n_enter(moves) == 0) ==> resolve_spec(
            c,
            moves,
        ) == c,
{
    if n_incubate(moves) == 1 && n_drop(moves) == 0 && n_enter(moves) == 0 && 0 <= dd
        < moves.len() && moves[dd] is Incubate {
        lemma_lone_proposal(c, moves, dd, true, c is Life);
    }
    if n_incubate(moves) == 0 && n_drop(moves) == 0 && n_enter(moves) == 0 {
        lemma_no_proposals_inert(c, moves, true, c is Life);
    }
}

/// The converse direction: the only way a birth block resolves into an
/// organism with an empty inventory is a lone incubation.  (A lone entering
/// organism picks the block up as inventory, a lone drop leaves a bare
/// block, and any contention obliterates.)
pub proof fn lemma_incubation_complete(c: CellView, moves: Seq<MoveView>)
    requires
        c == CellView::Block(Block::Birth),
    ensures
        (resolve_spec(c, moves) matches CellView::Life(l) && l.holding is None) ==> (n_incubate(
            moves,
        ) == 1 && n_drop(moves) == 0 && n_enter(moves) == 0),
{
    let total = n_incubate(moves) + n_drop(moves) + n_enter(moves);
    if total > 1 {
        // Obliterated: the result is empty, not an organism.
    } else if total == 0 {
        lemma_no_proposals_inert(c, moves, true, false);
    } else if n_enter(moves) == 1 {
        let dd = lemma_counted_has_witness_enter(moves);
        lemma_lone_proposal(c, moves, dd, true, false);
        // The entering organism picks the birth block up: inventory is full.
    } else if n_drop(moves) == 1 {
        let dd = lemma_counted_has_witness_drop(moves);
        lemma_lone_proposal(c, moves, dd, true, false);
        // The drop leaves a bare block, not an organism.
    }
}

/// Applying an inbox that holds exactly one proposal, standing at `dd`,
/// applies exactly that proposal.
proof fn lemma_lone_proposal(
    c: CellView,
    moves: Seq<MoveView>,
    dd: int,
    was_birth: bool,
    was_occupied: bool,
)
    requires
        n_incubate(moves) + n_drop(moves) + n_enter(moves) == 1,
        0 <= dd < moves.len(),
        !(moves[dd] is Nothing),
    ensures
        apply_moves_spec(c, moves, was_birth, was_occupied) == apply_move_spec(
            c,
            moves[dd],
            was_birth,
            was_occupied,
        ),
    decreases moves.len(),
{
    let prefix = moves.drop_last();
    if dd == moves.len() - 1 {
        assert(moves.last() == moves[dd]);
        lemma_no_proposals_inert(c, prefix, was_birth, was_occupied);
    } else {
        assert(prefix[dd] == moves[dd]);
        lemma_proposal_counted(prefix, dd);
        assert(moves.last() is Nothing);
        lemma_lone_proposal(c, prefix, dd, was_birth, was_occupied);
    }
}

/// An inbox holding a proposal of some kind counts at least one of it.
proof fn lemma_proposal_counted(s: Seq<MoveView>, i: int)
    requires
        0 <= i < s.len(),
    ensures
        s[i] is Incubate ==> n_incubate(s) >= 1,
        s[i] is Drop ==> n_drop(s) >= 1,
        s[i] is Life ==> n_enter(s) >= 1,
    decreases s.len(),
{
    if i < s.len() - 1 {
        lemma_proposal_counted(s.drop_last(), i);
    }
}

/// An inbox counting an entering organism holds one at some slot.
proof fn lemma_counted_has_witness_enter(s: Seq<MoveView>) -> (i: int)
    requires
        n_enter(s) >= 1,
    ensures
        0 <= i < s.len(),
        s[i] is Life,
    decreases s.len(),
{
    if s.last() is Life {
        s.len() - 1
    } else {
        lemma_counted_has_witness_enter(s.drop_last())
    }
}

/// An inbox counting a drop holds one at some slot.
proof fn lemma_counted_has_witness_drop(s: Seq<MoveView>) -> (i: int)
    requires
        n_drop(s) >= 1,
    ensures
        0 <= i < s.len(),
        s[i] is Drop,
    decreases s.len(),
{
    if s.last() is Drop {
        s.len() - 1
    } else {
        lemma_counted_has_witness_drop(s.drop_last())
    }
}

/// Give semantics: giving a block to an organism sets its inventory and
/// leaves it the same organism; giving a block to an empty cell or to a bare
/// block makes the cell that bare block.
pub proof fn lemma_give_semantics(c: CellView, b: Block)
    ensures
        c matches CellView::Life(l) ==> give_spec(c, b) == CellView::Life(
            LifeView { brain: l.brain, holding: Some(b) },
        ),
        c !is Life ==> give_spec(c, b) == CellView::Block(b),
{
}

} // verus!
