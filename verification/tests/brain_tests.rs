use evoblock::brain::{
    Gate, GateEvents, Hiddens, MguEvents, MutEvent, Network, NetworkEvents, MGRU, MGRUInput,
};

fn gate(in_len: usize) -> Gate {
    Gate {
        hidden_weights: vec![0u32; 1024],
        input_weights: vec![0u32; 32 * in_len],
        biases: vec![0u32; 32],
    }
}

fn network() -> Network {
    Network {
        input_gru: MGRUInput { forget_gate: gate(9), output_gate: gate(9) },
        internal_grus: vec![
            MGRU { forget_gate: gate(32), output_gate: gate(32) },
            MGRU { forget_gate: gate(32), output_gate: gate(32) },
        ],
    }
}

fn no_gate_events() -> GateEvents {
    GateEvents { hidden: vec![], input: vec![], bias: vec![] }
}

fn no_mgu_events() -> MguEvents {
    MguEvents { forget: no_gate_events(), output: no_gate_events() }
}

fn empty_plan() -> NetworkEvents {
    NetworkEvents { input_layer: no_mgu_events(), internal: vec![no_mgu_events(), no_mgu_events()] }
}

#[test]
fn default_hiddens_are_neutral() {
    let h = Hiddens::default();
    assert_eq!(h.input_hiddens, vec![0.5f32.to_bits(); 32]);
    assert_eq!(h.internal_hiddens.len(), 2);
    for layer in &h.internal_hiddens {
        assert_eq!(*layer, vec![0.5f32.to_bits(); 32]);
    }
}

#[test]
fn output_is_the_last_internal_layer() {
    let mut h = Hiddens::default();
    h.internal_hiddens[1][7] = 0.9f32.to_bits();
    assert_eq!(h.output()[7], 0.9f32.to_bits());
    assert_eq!(h.output(), &h.internal_hiddens[1]);
}

#[test]
fn output_falls_back_to_the_input_layer() {
    let h = Hiddens {
        input_hiddens: vec![0.25f32.to_bits(); 32],
        internal_hiddens: vec![],
    };
    assert_eq!(h.output(), &vec![0.25f32.to_bits(); 32]);
}

#[test]
fn empty_plan_leaves_the_network_unchanged() {
    let mut n = network();
    let before = n.clone();
    n.mutate(&empty_plan());
    assert_eq!(n, before);
}

#[test]
fn mutated_without_events_reports_unchanged() {
    let unit = MGRU { forget_gate: gate(32), output_gate: gate(32) };
    assert_eq!(unit.mutated(&no_mgu_events()), None);
    let input_unit = MGRUInput { forget_gate: gate(9), output_gate: gate(9) };
    assert_eq!(input_unit.mutated(&no_mgu_events()), None);
}

#[test]
fn mutated_with_an_event_reports_the_change() {
    let unit = MGRU { forget_gate: gate(32), output_gate: gate(32) };
    let mut events = no_mgu_events();
    events.forget.hidden.push(MutEvent { index: 17, value: 0xDEAD_BEEF });
    let mutated = unit.mutated(&events).expect("an event was drawn");
    assert_eq!(mutated.forget_gate.hidden_weights[17], 0xDEAD_BEEF);
    assert_eq!(mutated.output_gate, unit.output_gate);
    // The original unit is untouched: clones sharing it keep their view.
    assert_eq!(unit.forget_gate.hidden_weights[17], 0);
}

#[test]
fn mutate_replaces_exactly_the_targeted_entries() {
    let mut n = network();
    let mut plan = empty_plan();
    plan.input_layer.output.bias.push(MutEvent { index: 3, value: 0x4100_0000 });
    plan.internal[1].forget.input.push(MutEvent { index: 900, value: 0x1234_5678 });
    n.mutate(&plan);
    let reference = network();
    assert_eq!(n.input_gru.output_gate.biases[3], 0x4100_0000);
    assert_eq!(n.internal_grus[1].forget_gate.input_weights[900], 0x1234_5678);
    assert_eq!(n.input_gru.forget_gate, reference.input_gru.forget_gate);
    assert_eq!(n.internal_grus[0], reference.internal_grus[0]);
    assert_eq!(n.internal_grus[1].output_gate, reference.internal_grus[1].output_gate);
}

#[test]
fn later_events_overwrite_earlier_ones() {
    let mut g = gate(9);
    let events = GateEvents {
        hidden: vec![
            MutEvent { index: 5, value: 1 },
            MutEvent { index: 5, value: 2 },
        ],
        input: vec![],
        bias: vec![],
    };
    let changed = g.apply_events(&events);
    assert!(changed);
    assert_eq!(g.hidden_weights[5], 2);
}

#[test]
fn apply_events_reports_unchanged_for_empty_lists() {
    let mut g = gate(9);
    let before = g.clone();
    let changed = g.apply_events(&no_gate_events());
    assert!(!changed);
    assert_eq!(g, before);
}

#[test]
fn duplicate_is_equal_and_independent() {
    let n = network();
    let mut copy = n.duplicate();
    assert_eq!(copy, n);
    let mut plan = empty_plan();
    plan.input_layer.forget.hidden.push(MutEvent { index: 0, value: 7 });
    copy.mutate(&plan);
    assert_eq!(n.input_gru.forget_gate.hidden_weights[0], 0);
    assert_eq!(copy.input_gru.forget_gate.hidden_weights[0], 7);
}
