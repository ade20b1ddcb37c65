//! Grid cells: empty, a passive block, or an organism carrying a brain and an
//! optional held block.

use vstd::prelude::*;

use crate::brain::{
    hiddens_wf, network_wf, output_spec, Hiddens, HiddensView, Network, NetworkView, HALF_CODE,
};

verus! {

/// Sensor code of a birth block, the bit pattern of -0.1.
pub const BIRTH_SIGNAL_CODE: u32 = 0xBDCC_CCCD;

/// Sensor code of a death block, the bit pattern of -0.2.
pub const DEATH_SIGNAL_CODE: u32 = 0xBE4C_CCCD;

/// Sensor code of an empty cell, the bit pattern of -1.0.
pub const EMPTY_SIGNAL_CODE: u32 = 0xBF80_0000;

/// Held-block code while holding a birth block, the bit pattern of 1.0.
pub const HOLDING_BIRTH_CODE: u32 = 0x3F80_0000;

/// Held-block code while holding a death block, the bit pattern of 0.5.
pub const HOLDING_DEATH_CODE: u32 = HALF_CODE;

/// Held-block code while holding nothing, the bit pattern of 0.0.
pub const HOLDING_NONE_CODE: u32 = 0x0000_0000;

/// A passive block: an incubation site, or a marker lethal to organisms that
/// enter the cell it lies on.
#[derive(Clone, Copy, PartialEq, Eq, Structural, Debug)]
pub enum Block {
    Birth,
    Death,
}

/// Mathematical model of a brain.
#[verifier::ext_equal]
pub struct BrainView {
    pub network: NetworkView,
    pub hiddens: HiddensView,
}

/// An organism's brain: immutable network configuration plus the per-tick
/// hidden state that always travels with it.
#[derive(Debug, Clone, PartialEq)]
pub struct Brain {
    pub network: Network,
    pub hiddens: Hiddens,
}

impl View for Brain {
    type V = BrainView;

    open spec fn view(&self) -> BrainView {
        BrainView { network: self.network@, hiddens: self.hiddens@ }
    }
}

pub open spec fn brain_wf(b: BrainView) -> bool {
    &&& network_wf(b.network)
    &&& hiddens_wf(b.hiddens)
}

impl Brain {
    /// Structural copy of the network and the hidden state.
    pub fn duplicate(&self) -> (r: Brain)
        ensures
            r@ == self@,
    {
        let r = Brain { network: self.network.duplicate(), hiddens: self.hiddens.duplicate() };
        assert(r@ =~= self@);
        r
    }
}

/// Mathematical model of an organism.
#[verifier::ext_equal]
pub struct LifeView {
    pub brain: BrainView,
    pub holding: Option<Block>,
}

/// An organism: a brain and at most one held block, distinct from any block
/// the organism may stand on.
#[derive(Debug, Clone, PartialEq)]
pub struct Life {
    pub brain: Brain,
    pub holding: Option<Block>,
}

impl View for Life {
    type V = LifeView;

    open spec fn view(&self) -> LifeView {
        LifeView { brain: self.brain@, holding: self.holding }
    }
}

pub open spec fn life_wf(l: LifeView) -> bool {
    brain_wf(l.brain)
}

impl Life {
    /// Structural copy of the organism.
    pub fn duplicate(&self) -> (r: Life)
        ensures
            r@ == self@,
    {
        let r = Life { brain: self.brain.duplicate(), holding: self.holding };
        assert(r@ =~= self@);
        r
    }
}

/// Mathematical model of a cell.  The shape makes the cell invariant plain: a
/// cell is exactly one of an organism, a bare block, or empty, never an
/// organism and a bare block at once.
#[verifier::ext_equal]
pub enum CellView {
    Life(LifeView),
    Block(Block),
    Empty,
}

/// One grid cell.
#[derive(Debug, Clone, PartialEq)]
pub enum Cell {
    Life(Life),
    Block(Block),
    Empty,
}

impl View for Cell {
    type V = CellView;

    open spec fn view(&self) -> CellView {
        match self {
            Cell::Life(l) => CellView::Life(l@),
            Cell::Block(b) => CellView::Block(*b),
            Cell::Empty => CellView::Empty,
        }
    }
}

pub open spec fn cell_wf(c: CellView) -> bool {
    c matches CellView::Life(l) ==> life_wf(l)
}

/// The scalar a neighbouring organism senses from a cell: an organism shows
/// the designated entry of its decision vector, while blocks and empty cells
/// show fixed sentinel codes.
pub open spec fn signal_spec(c: CellView) -> u32 {
    match c {
        CellView::Life(l) => output_spec(l.brain.hiddens)[0],
        CellView::Block(Block::Birth) => BIRTH_SIGNAL_CODE,
        CellView::Block(Block::Death) => DEATH_SIGNAL_CODE,
        CellView::Empty => EMPTY_SIGNAL_CODE,
    }
}

/// The extra sensor scalar encoding an organism's held-block state.
pub open spec fn holding_signal_spec(holding: Option<Block>) -> u32 {
    match holding {
        Some(Block::Birth) => HOLDING_BIRTH_CODE,
        Some(Block::Death) => HOLDING_DEATH_CODE,
        None => HOLDING_NONE_CODE,
    }
}

/// A cell after a block is given to it: an organism takes the block as its
/// inventory and stays an organism; any other cell becomes that bare block,
/// replacing whatever block was there.
pub open spec fn give_spec(c: CellView, block: Block) -> CellView {
    match c {
        CellView::Life(l) => CellView::Life(LifeView { brain: l.brain, holding: Some(block) }),
        _ => CellView::Block(block),
    }
}

impl Cell {
    /// The scalar this cell shows to neighbouring organisms.
    pub fn signal(&self) -> (r: u32)
        requires
            cell_wf(self@),
        ensures
            r == signal_spec(self@),
    {
        match self {
            Cell::Life(l) => {
                let out = l.brain.hiddens.output();
                out[0]
            },
            Cell::Block(Block::Birth) => BIRTH_SIGNAL_CODE,
            Cell::Block(Block::Death) => DEATH_SIGNAL_CODE,
            Cell::Empty => EMPTY_SIGNAL_CODE,
        }
    }

    /// Gives a block to this cell.
    pub fn give(&mut self, block: Block)
        ensures
            final(self)@ == give_spec(old(self)@, block),
    {
        if let Cell::Life(l) = self {
            l.holding = Some(block);
        } else {
            *self = Cell::Block(block);
        }
    }

    /// Structural copy of the cell.
    pub fn duplicate(&self) -> (r: Cell)
        ensures
            r@ == self@,
    {
        match self {
            Cell::Life(l) => Cell::Life(l.duplicate()),
            Cell::Block(b) => Cell::Block(*b),
            Cell::Empty => Cell::Empty,
        }
    }
}

impl Default for Cell {
    /// A fresh grid starts empty.
    fn default() -> (r: Cell)
        ensures
            r@ == CellView::Empty,
    {
        Cell::Empty
    }
}

/// The extra sensor scalar for an organism's held block.
pub fn holding_signal(holding: &Option<Block>) -> (r: u32)
    ensures
        r == holding_signal_spec(*holding),
{
    match holding {
        Some(Block::Birth) => HOLDING_BIRTH_CODE,
        Some(Block::Death) => HOLDING_DEATH_CODE,
        None => HOLDING_NONE_CODE,
    }
}

} // verus!
