//! The two-phase tick protocol: the read-only step phase that turns a cell
//! and its neighbourhood into a local diff and eight outgoing move
//! proposals, and the mutating update phase that resolves the proposals
//! addressed to a cell.
//!
//! The numeric kernel (the recurrent forward pass) and every random draw
//! happen outside this crate; their results enter here as plain values: the
//! freshly computed hidden state for the step phase, and the spawn-in draws
//! and mutation events for the update phase.  Given those values, both
//! phases are deterministic and their results are pinned exactly.
//!
//! Directions are the indices 0 to 7.  The driver assigns them a fixed
//! geometric order of its choosing and must use that same order everywhere:
//! for the neighbour list handed to [`EvoBlock::step_inputs`], for the
//! decision-zone entries of the output vector, for the emitted move
//! proposals, and for the inbox handed to [`EvoBlock::update`].

use vstd::prelude::*;

use crate::brain::{
    hiddens_wf, net_apply_spec, net_events_wf, output_spec, Hiddens, HiddensView, NetworkEvents,
    HIDDEN_LEN,
};
use crate::cell::{
    brain_wf, cell_wf, give_spec, holding_signal, holding_signal_spec, life_wf, signal_spec, Block,
    Brain, BrainView, Cell, CellView, Life, LifeView,
};
use crate::decode::{
    choose_direction, chooser_spec, flags_spec, zone_flags, zone_spec, DIRECTIONS,
    DROP_ZONE_START, INCUBATE_ZONE_START, MOVE_ZONE_START,
};

verus! {

/// Mathematical model of a step-phase diff.
#[verifier::ext_equal]
pub enum DiffView {
    Update(HiddensView, Option<Block>),
    Destroy,
    Nothing,
}

/// The local instruction a step emits for its own cell: refresh the hidden
/// state and inventory, vacate the cell, or leave it alone.
#[derive(Debug, Clone, PartialEq)]
pub enum Diff {
    Update(Hiddens, Option<Block>),
    Destroy,
    Nothing,
}

impl View for Diff {
    type V = DiffView;

    open spec fn view(&self) -> DiffView {
        match self {
            Diff::Update(h, holding) => DiffView::Update(h@, *holding),
            Diff::Destroy => DiffView::Destroy,
            Diff::Nothing => DiffView::Nothing,
        }
    }
}

pub open spec fn diff_wf(d: DiffView) -> bool {
    d matches DiffView::Update(h, _) ==> hiddens_wf(h)
}

/// Mathematical model of a move proposal.
#[verifier::ext_equal]
pub enum MoveView {
    Life(LifeView),
    Incubate(BrainView),
    Drop(Block),
    Nothing,
}

/// A proposal sent to one specific neighbour: enter it as an organism, found
/// a fresh organism on its birth block, deposit a block on it, or nothing.
#[derive(Debug, Clone, PartialEq)]
pub enum Move {
    Life(Life),
    Incubate(Brain),
    Drop(Block),
    Nothing,
}

impl View for Move {
    type V = MoveView;

    open spec fn view(&self) -> MoveView {
        match self {
            Move::Life(l) => MoveView::Life(l@),
            Move::Incubate(b) => MoveView::Incubate(b@),
            Move::Drop(b) => MoveView::Drop(*b),
            Move::Nothing => MoveView::Nothing,
        }
    }
}

pub open spec fn move_wf(m: MoveView) -> bool {
    match m {
        MoveView::Life(l) => life_wf(l),
        MoveView::Incubate(b) => brain_wf(b),
        _ => true,
    }
}

/// The views of a vector of cells.
pub open spec fn cells_view(v: Seq<Cell>) -> Seq<CellView> {
    v.map_values(|c: Cell| c@)
}

/// The views of a vector of move proposals.
pub open spec fn moves_view(v: Seq<Move>) -> Seq<MoveView> {
    v.map_values(|m: Move| m@)
}

/// A full, well-formed inbox: one proposal per direction.
pub open spec fn moves_wf(s: Seq<MoveView>) -> bool {
    &&& s.len() == DIRECTIONS
    &&& forall|i: int| 0 <= i < s.len() ==> move_wf(#[trigger] s[i])
}

/// The move proposals of a cell that proposes nothing.
pub open spec fn inert_moves() -> Seq<MoveView> {
    Seq::new(DIRECTIONS as nat, |d: int| MoveView::Nothing)
}

/// The sensor vector an organism reads: one signal per neighbour direction
/// followed by its own held-block scalar.
pub open spec fn inputs_spec(l: LifeView, neigh: Seq<CellView>) -> Seq<u32> {
    Seq::new(
        (DIRECTIONS + 1) as nat,
        |i: int|
            if i < DIRECTIONS {
                signal_spec(neigh[i])
            } else {
                holding_signal_spec(l.holding)
            },
    )
}

/// The proposal an organism sends toward direction `d`, given its decoded
/// decisions.  A chosen move claims the slot first and carries the inventory
/// unless a drop is chosen at the same time; a chosen drop claims it next,
/// when there is inventory to drop; an incubation flag claims it last.
pub open spec fn step_move_spec(
    d: int,
    l: LifeView,
    h: HiddensView,
    mv: Option<usize>,
    dr: Option<usize>,
    inc: Seq<bool>,
) -> MoveView {
    if mv == Some(d as usize) {
        MoveView::Life(
            LifeView {
                brain: BrainView { network: l.brain.network, hiddens: h },
                holding: if dr is Some {
                    None
                } else {
                    l.holding
                },
            },
        )
    } else if dr == Some(d as usize) {
        match l.holding {
            Some(b) => MoveView::Drop(b),
            None => MoveView::Nothing,
        }
    } else if inc[d] {
        MoveView::Incubate(BrainView { network: l.brain.network, hiddens: h })
    } else {
        MoveView::Nothing
    }
}

/// The step phase of an organism, after the numeric kernel has produced its
/// fresh hidden state `h`: decode the decision zones of `h`'s output, emit
/// the eight proposals, and instruct the origin cell to vacate when a move
/// was chosen or to refresh itself otherwise.
pub open spec fn life_step_spec(l: LifeView, h: HiddensView) -> (DiffView, Seq<MoveView>) {
    let out = output_spec(h);
    let mv = chooser_spec(zone_spec(out, MOVE_ZONE_START as int));
    let inc = flags_spec(zone_spec(out, INCUBATE_ZONE_START as int));
    let dr = chooser_spec(zone_spec(out, DROP_ZONE_START as int));
    let moves = Seq::new(DIRECTIONS as nat, |d: int| step_move_spec(d, l, h, mv, dr, inc));
    let diff = if mv is Some {
        DiffView::Destroy
    } else {
        DiffView::Update(
            h,
            if dr is Some {
                None
            } else {
                l.holding
            },
        )
    };
    (diff, moves)
}

/// Mathematical model of a tick's random draws.
#[verifier::ext_equal]
pub struct TickDrawsView {
    pub spawn_life: Option<LifeView>,
    pub give_birth: bool,
    pub give_death: bool,
}

/// The spawn-in draws of one update call, made by an external source of
/// randomness: an optional freshly initialised organism, and one coin per
/// block kind.
#[derive(Debug, Clone, PartialEq)]
pub struct TickDraws {
    pub spawn_life: Option<Life>,
    pub give_birth: bool,
    pub give_death: bool,
}

impl View for TickDraws {
    type V = TickDrawsView;

    open spec fn view(&self) -> TickDrawsView {
        TickDrawsView {
            spawn_life: match self.spawn_life {
                Some(l) => Some(l@),
                None => None,
            },
            give_birth: self.give_birth,
            give_death: self.give_death,
        }
    }
}

pub open spec fn draws_wf(d: TickDrawsView) -> bool {
    d.spawn_life matches Some(l) ==> life_wf(l)
}

/// A cell after its own diff: only an organism has one to apply.
pub open spec fn apply_diff_spec(c: CellView, d: DiffView) -> CellView {
    match c {
        CellView::Life(l) => match d {
            DiffView::Update(h, holding) => CellView::Life(
                LifeView { brain: BrainView { network: l.brain.network, hiddens: h }, holding },
            ),
            DiffView::Destroy => CellView::Empty,
            DiffView::Nothing => c,
        },
        _ => c,
    }
}

/// Number of incubation proposals in an inbox.
pub open spec fn n_incubate(s: Seq<MoveView>) -> nat
    decreases s.len(),
{
    if s.len() == 0 {
        0
    } else {
        n_incubate(s.drop_last()) + if s.last() is Incubate {
            1nat
        } else {
            0nat
        }
    }
}

/// Number of drop proposals in an inbox.
pub open spec fn n_drop(s: Seq<MoveView>) -> nat
    decreases s.len(),
{
    if s.len() == 0 {
        0
    } else {
        n_drop(s.drop_last()) + if s.last() is Drop {
            1nat
        } else {
            0nat
        }
    }
}

/// Number of entering organisms in an inbox.
pub open spec fn n_enter(s: Seq<MoveView>) -> nat
    decreases s.len(),
{
    if s.len() == 0 {
        0
    } else {
        n_enter(s.drop_last()) + if s.last() is Life {
            1nat
        } else {
            0nat
        }
    }
}

/// A cell after one proposal, with the cell's classification from before any
/// arrival.  An entering organism converts a bare block into an organism
/// holding that block, or occupies the cell if no organism already stood
/// there.  An incubation is honoured only on a birth block and founds an
/// organism with empty inventory.  A drop deposits its block.
pub open spec fn apply_move_spec(
    c: CellView,
    m: MoveView,
    was_birth: bool,
    was_occupied: bool,
) -> CellView {
    match m {
        MoveView::Life(l) => match c {
            CellView::Block(b) => CellView::Life(LifeView { brain: l.brain, holding: Some(b) }),
            _ => if !was_occupied {
                CellView::Life(l)
            } else {
                c
            },
        },
        MoveView::Incubate(b) => if was_birth {
            CellView::Life(LifeView { brain: b, holding: None })
        } else {
            c
        },
        MoveView::Drop(b) => give_spec(c, b),
        MoveView::Nothing => c,
    }
}

/// A cell after every proposal of its inbox, applied in direction order.
pub open spec fn apply_moves_spec(
    c: CellView,
    s: Seq<MoveView>,
    was_birth: bool,
    was_occupied: bool,
) -> CellView
    decreases s.len(),
{
    if s.len() == 0 {
        c
    } else {
        apply_move_spec(
            apply_moves_spec(c, s.drop_last(), was_birth, was_occupied),
            s.last(),
            was_birth,
            was_occupied,
        )
    }
}

/// Conflict resolution for one cell, after its own diff: when more than one
/// proposal claims the cell, or exactly one organism enters a death block,
/// the cell is obliterated, privileging no direction; otherwise the lone
/// proposal, if any, is applied.
pub open spec fn resolve_spec(c: CellView, moves: Seq<MoveView>) -> CellView {
    let was_death = c == CellView::Block(Block::Death);
    let was_birth = c == CellView::Block(Block::Birth);
    let was_occupied = c is Life;
    if n_incubate(moves) + n_drop(moves) + n_enter(moves) > 1 || (n_enter(moves) == 1
        && was_death) {
        CellView::Empty
    } else {
        apply_moves_spec(c, moves, was_birth, was_occupied)
    }
}

/// A cell after the tick's spawn-in draws, applied in order: a spawned
/// organism overwrites the cell, then a birth block and a death block may
/// each be given to it.
pub open spec fn spawn_spec(c: CellView, d: TickDrawsView) -> CellView {
    let c1 = match d.spawn_life {
        Some(l) => CellView::Life(l),
        None => c,
    };
    let c2 = if d.give_birth {
        give_spec(c1, Block::Birth)
    } else {
        c1
    };
    if d.give_death {
        give_spec(c2, Block::Death)
    } else {
        c2
    }
}

/// A cell after the tick's mutation: an organism's network receives the
/// drawn mutation events, its hidden state and inventory untouched.
pub open spec fn mutate_cell_spec(c: CellView, e: crate::brain::NetworkEventsView) -> CellView {
    match c {
        CellView::Life(l) => CellView::Life(
            LifeView {
                brain: BrainView {
                    network: net_apply_spec(l.brain.network, e),
                    hiddens: l.brain.hiddens,
                },
                holding: l.holding,
            },
        ),
        _ => c,
    }
}

/// One whole update call: diff, conflict resolution, spawn-in, mutation.
pub open spec fn update_spec(
    c: CellView,
    d: DiffView,
    moves: Seq<MoveView>,
    draws: TickDrawsView,
    plan: crate::brain::NetworkEventsView,
) -> CellView {
    mutate_cell_spec(spawn_spec(resolve_spec(apply_diff_spec(c, d), moves), draws), plan)
}

/// The tick protocol: the step and update phases, invoked once per cell per
/// tick by an external driver.
pub struct EvoBlock;

impl EvoBlock {
    /// Step phase.  A non-organism cell computes nothing and proposes
    /// nothing.  An organism decodes the hidden state `fresh` that the
    /// numeric kernel computed for it this tick and emits its diff and its
    /// eight proposals.
    pub fn step(cell: &Cell, fresh: Option<Hiddens>) -> (r: (Diff, Vec<Move>))
        requires
            cell_wf(cell@),
            cell@ is Life ==> fresh is Some,
            fresh matches Some(h) ==> hiddens_wf(h@),
        ensures
            r.1@.len() == DIRECTIONS,
            cell@ matches CellView::Life(l) ==> (r.0@, moves_view(r.1@)) == life_step_spec(
                l,
                fresh.unwrap()@,
            ),
            cell@ !is Life ==> r.0@ == DiffView::Nothing && moves_view(r.1@) == inert_moves(),
            moves_wf(moves_view(r.1@)),
            diff_wf(r.0@),
    {
        match cell {
            Cell::Life(l) => {
                let h = fresh.unwrap();
                let ghost lv = l@;
                let ghost hv = h@;
                assert(output_spec(hv).len() == HIDDEN_LEN);
                let mv = choose_direction(h.output(), MOVE_ZONE_START);
                let inc = zone_flags(h.output(), INCUBATE_ZONE_START);
                let dr = choose_direction(h.output(), DROP_ZONE_START);
                let ghost mv_s = chooser_spec(zone_spec(output_spec(hv), MOVE_ZONE_START as int));
                let ghost inc_s = flags_spec(zone_spec(output_spec(hv), INCUBATE_ZONE_START as int));
                let ghost dr_s = chooser_spec(zone_spec(output_spec(hv), DROP_ZONE_START as int));
                let mut moves: Vec<Move> = Vec::new();
                let mut d: usize = 0;
                while d < DIRECTIONS
                    invariant
                        d <= DIRECTIONS,
                        moves@.len() == d,
                        mv == mv_s,
                        dr == dr_s,
                        inc@.len() == DIRECTIONS,
                        forall|k: int| 0 <= k < DIRECTIONS ==> inc@[k] == inc_s[k],
                        forall|k: int|
                            0 <= k < d ==> #[trigger] moves@[k]@ == step_move_spec(
                                k,
                                lv,
                                hv,
                                mv_s,
                                dr_s,
                                inc_s,
                            ),
                        l@ == lv,
                        h@ == hv,
                        hiddens_wf(hv),
                        life_wf(lv),
                    decreases DIRECTIONS - d,
                {
                    let chose_move = match mv {
                        Some(x) => x == d,
                        None => false,
                    };
                    let chose_drop = match dr {
                        Some(x) => x == d,
                        None => false,
                    };
                    let m = if chose_move {
                        Move::Life(
                            Life {
                                brain: Brain {
                                    network: l.brain.network.duplicate(),
                                    hiddens: h.duplicate(),
                                },
                                holding: if dr.is_some() {
                                    None
                                } else {
                                    l.holding
                                },
                            },
                        )
                    } else if chose_drop {
                        match l.holding {
                            Some(b) => Move::Drop(b),
                            None => Move::Nothing,
                        }
                    } else if inc[d] {
                        Move::Incubate(
                            Brain {
                                network: l.brain.network.duplicate(),
                                hiddens: h.duplicate(),
                            },
                        )
                    } else {
                        Move::Nothing
                    };
                    assert(m@ == step_move_spec(d as int, lv, hv, mv_s, dr_s, inc_s));
                    moves.push(m);
                    d = d + 1;
                }
                let diff = if mv.is_some() {
                    Diff::Destroy
                } else {
                    Diff::Update(
                        h,
                        if dr.is_some() {
                            None
                        } else {
                            l.holding
                        },
                    )
                };
                proof {
                    assert(moves_view(moves@) =~= Seq::new(
                        DIRECTIONS as nat,
                        |d: int| step_move_spec(d, lv, hv, mv_s, dr_s, inc_s),
                    ));
                }
                (diff, moves)
            },
            _ => {
                let mut moves: Vec<Move> = Vec::new();
                let mut d: usize = 0;
                while d < DIRECTIONS
                    invariant
                        d <= DIRECTIONS,
                        moves@.len() == d,
                        forall|k: int| 0 <= k < d ==> #[trigger] moves@[k]@ == MoveView::Nothing,
                    decreases DIRECTIONS - d,
                {
                    moves.push(Move::Nothing);
                    d = d + 1;
                }
                proof {
                    assert(moves_view(moves@) =~= inert_moves());
                }
                (Diff::Nothing, moves)
            },
        }
    }

    /// Update phase.  Applies the cell's own diff, resolves the eight
    /// incoming proposals under the obliteration rule, applies the tick's
    /// spawn-in draws, and mutates the surviving organism's network with the
    /// tick's mutation events.
    pub fn update(
        cell: &mut Cell,
        diff: Diff,
        moves: &Vec<Move>,
        draws: TickDraws,
        plan: &NetworkEvents,
    )
        requires
            cell_wf(old(cell)@),
            diff_wf(diff@),
            moves_wf(moves_view(moves@)),
            draws_wf(draws@),
            net_events_wf(plan@),
        ensures
            final(cell)@ == update_spec(old(cell)@, diff@, moves_view(moves@), draws@, plan@),
            cell_wf(final(cell)@),
    {
        let ghost c0 = old(cell)@;
        let ghost mseq = moves_view(moves@);
        // Apply the cell's own diff: only an organism has one to apply.
        match diff {
            Diff::Update(h, holding) => {
                if let Cell::Life(l) = cell {
                    l.brain.hiddens = h;
                    l.holding = holding;
                }
            },
            Diff::Destroy => {
                let vacate = if let Cell::Life(_) = cell {
                    true
                } else {
                    false
                };
                if vacate {
                    *cell = Cell::Empty;
                }
            },
            Diff::Nothing => {},
        }
        let ghost c1 = apply_diff_spec(c0, diff@);
        assert(cell@ == c1);
        assert(cell_wf(c1));

        // Classify the cell before arrivals.
        let was_death = if let Cell::Block(Block::Death) = cell {
            true
        } else {
            false
        };
        let was_birth = if let Cell::Block(Block::Birth) = cell {
            true
        } else {
            false
        };
        let was_occupied = if let Cell::Life(_) = cell {
            true
        } else {
            false
        };

        // Tally the incoming proposals.
        let mut incubate_count: usize = 0;
        let mut drop_count: usize = 0;
        let mut enter_count: usize = 0;
        let mut k: usize = 0;
        while k < moves.len()
            invariant
                k <= mseq.len(),
                mseq == moves_view(moves@),
                mseq.len() == DIRECTIONS,
                incubate_count == n_incubate(mseq.subrange(0, k as int)),
                drop_count == n_drop(mseq.subrange(0, k as int)),
                enter_count == n_enter(mseq.subrange(0, k as int)),
                incubate_count <= k && drop_count <= k && enter_count <= k,
            decreases mseq.len() - k,
        {
            match &moves[k] {
                Move::Incubate(_) => incubate_count = incubate_count + 1,
                Move::Drop(_) => drop_count = drop_count + 1,
                Move::Life(_) => enter_count = enter_count + 1,
                Move::Nothing => {},
            }
            proof {
                let prefix = mseq.subrange(0, k as int);
                let next = mseq.subrange(0, k + 1 as int);
                assert(next.drop_last() =~= prefix);
                assert(next.last() == mseq[k as int]);
            }
            k = k + 1;
        }
        proof {
            assert(mseq.subrange(0, mseq.len() as int) =~= mseq);
        }

        // Obliteration rule: contention, or an organism landing on a death
        // block, clears the cell with no directional bias.
        if incubate_count + drop_count + enter_count > 1 || (enter_count == 1 && was_death) {
            *cell = Cell::Empty;
        } else {
            let mut d: usize = 0;
            while d < moves.len()
                invariant
                    d <= mseq.len(),
                    mseq == moves_view(moves@),
                    moves_wf(mseq),
                    cell@ == apply_moves_spec(c1, mseq.subrange(0, d as int), was_birth, was_occupied),
                    cell_wf(cell@),
                decreases mseq.len() - d,
            {
                match &moves[d] {
                    Move::Life(life) => {
                        let entered_block = if let Cell::Block(b) = cell {
                            Some(*b)
                        } else {
                            None
                        };
                        if let Some(b) = entered_block {
                            *cell = Cell::Life(
                                Life { brain: life.brain.duplicate(), holding: Some(b) },
                            );
                        } else if !was_occupied {
                            *cell = Cell::Life(life.duplicate());
                        }
                    },
                    Move::Incubate(brain) => {
                        if was_birth {
                            *cell = Cell::Life(Life { brain: brain.duplicate(), holding: None });
                        }
                    },
                    Move::Drop(block) => {
                        let b = *block;
                        cell.give(b);
                    },
                    Move::Nothing => {},
                }
                proof {
                    let prefix = mseq.subrange(0, d as int);
                    let next = mseq.subrange(0, d + 1 as int);
                    assert(next.drop_last() =~= prefix);
                    assert(next.last() == mseq[d as int]);
                }
                d = d + 1;
            }
            proof {
                assert(mseq.subrange(0, mseq.len() as int) =~= mseq);
            }
        }
        let ghost c2 = resolve_spec(c1, mseq);
        assert(cell@ == c2);

        // Spawn-in: each draw is unconditional and may override the resolved
        // outcome, reseeding diversity.
        if let Some(l) = draws.spawn_life {
            *cell = Cell::Life(l);
        }
        if draws.give_birth {
            cell.give(Block::Birth);
        }
        if draws.give_death {
            cell.give(Block::Death);
        }
        let ghost c3 = spawn_spec(c2, draws@);
        assert(cell@ == c3);
        assert(cell_wf(c3));

        // Mutation: whatever organism survived the tick drifts.
        if let Cell::Life(l) = cell {
            proof {
                crate::brain::lemma_net_events_wf_fit(plan@, l.brain.network@);
                crate::brain::lemma_net_apply_wf(l.brain.network@, plan@);
            }
            l.brain.network.mutate(plan);
        }
        assert(cell@ == mutate_cell_spec(c3, plan@));
    }

    /// The sensor vector for an organism's step: each neighbour's signal in
    /// direction order, then the organism's own held-block scalar.
    pub fn step_inputs(life: &Life, neighbors: &Vec<Cell>) -> (r: Vec<u32>)
        requires
            neighbors@.len() == DIRECTIONS,
            forall|i: int| 0 <= i < neighbors@.len() ==> cell_wf(#[trigger] neighbors@[i]@),
        ensures
            r@ == inputs_spec(life@, cells_view(neighbors@)),
    {
        let mut r: Vec<u32> = Vec::new();
        let mut i: usize = 0;
        while i < DIRECTIONS
            invariant
                i <= DIRECTIONS,
                neighbors@.len() == DIRECTIONS,
                forall|k: int| 0 <= k < neighbors@.len() ==> cell_wf(#[trigger] neighbors@[k]@),
                r@.len() == i,
                forall|k: int| 0 <= k < i ==> r@[k] == signal_spec(#[trigger] neighbors@[k]@),
            decreases DIRECTIONS - i,
        {
            r.push(neighbors[i].signal());
            i = i + 1;
        }
        r.push(holding_signal(&life.holding));
        assert(r@ =~= inputs_spec(life@, cells_view(neighbors@)));
        r
    }
}

} // verus!
