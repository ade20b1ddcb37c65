use evoblock::brain::{Gate, Hiddens, Network, MGRU, MGRUInput};
use evoblock::cell::{holding_signal, Block, Brain, Cell, Life};

fn gate(in_len: usize) -> Gate {
    Gate {
        hidden_weights: vec![0u32; 1024],
        input_weights: vec![0u32; 32 * in_len],
        biases: vec![0u32; 32],
    }
}

fn network() -> Network {
    Network {
        input_gru: MGRUInput { forget_gate: gate(9), output_gate: gate(9) },
        internal_grus: vec![
            MGRU { forget_gate: gate(32), output_gate: gate(32) },
            MGRU { forget_gate: gate(32), output_gate: gate(32) },
        ],
    }
}

fn organism(holding: Option<Block>) -> Cell {
    Cell::Life(Life { brain: Brain { network: network(), hiddens: Hiddens::default() }, holding })
}

#[test]
fn give_to_empty_yields_block() {
    let mut c = Cell::Empty;
    c.give(Block::Birth);
    assert_eq!(c, Cell::Block(Block::Birth));
}

#[test]
fn give_to_block_replaces_block() {
    let mut c = Cell::Block(Block::Birth);
    c.give(Block::Death);
    assert_eq!(c, Cell::Block(Block::Death));
}

#[test]
fn give_to_organism_sets_inventory() {
    let mut c = organism(None);
    c.give(Block::Death);
    match c {
        Cell::Life(l) => {
            assert_eq!(l.holding, Some(Block::Death));
            assert_eq!(l.brain.hiddens, Hiddens::default());
        }
        _ => panic!("organism was replaced"),
    }
}

#[test]
fn give_to_organism_overwrites_inventory() {
    let mut c = organism(Some(Block::Birth));
    c.give(Block::Death);
    match c {
        Cell::Life(l) => assert_eq!(l.holding, Some(Block::Death)),
        _ => panic!("organism was replaced"),
    }
}

#[test]
fn block_and_empty_signals_are_the_sentinels() {
    assert_eq!(Cell::Block(Block::Birth).signal(), (-0.1f32).to_bits());
    assert_eq!(Cell::Block(Block::Death).signal(), (-0.2f32).to_bits());
    assert_eq!(Cell::Empty.signal(), (-1.0f32).to_bits());
}

#[test]
fn organism_signal_is_first_output_entry() {
    let mut h = Hiddens::default();
    h.internal_hiddens[1][0] = 0.7f32.to_bits();
    let c = Cell::Life(Life { brain: Brain { network: network(), hiddens: h }, holding: None });
    assert_eq!(c.signal(), 0.7f32.to_bits());
}

#[test]
fn holding_signal_values() {
    assert_eq!(holding_signal(&Some(Block::Birth)), 1.0f32.to_bits());
    assert_eq!(holding_signal(&Some(Block::Death)), 0.5f32.to_bits());
    assert_eq!(holding_signal(&None), 0.0f32.to_bits());
}

#[test]
fn default_cell_is_empty() {
    assert_eq!(Cell::default(), Cell::Empty);
}
