use evoblock::decode::{
    choose_direction, zone_flags, DROP_ZONE_START, INCUBATE_ZONE_START, MOVE_ZONE_START,
};

fn out_with(entries: &[(usize, f32)]) -> Vec<u32> {
    let mut out = vec![0.0f32.to_bits(); 32];
    for &(i, v) in entries {
        out[i] = v.to_bits();
    }
    out
}

#[test]
fn nothing_above_threshold_selects_nothing() {
    let out = out_with(&[(8, 0.2), (12, 0.4)]);
    assert_eq!(choose_direction(&out, MOVE_ZONE_START), None);
}

#[test]
fn exactly_one_half_does_not_exceed_the_threshold() {
    let out = out_with(&[(10, 0.5)]);
    assert_eq!(choose_direction(&out, MOVE_ZONE_START), None);
}

#[test]
fn single_qualifier_is_selected() {
    let out = out_with(&[(11, 0.9)]);
    assert_eq!(choose_direction(&out, MOVE_ZONE_START), Some(3));
}

#[test]
fn greatest_activation_wins() {
    let out = out_with(&[(9, 0.6), (13, 0.95), (15, 0.7)]);
    assert_eq!(choose_direction(&out, MOVE_ZONE_START), Some(5));
}

#[test]
fn lowest_index_wins_ties() {
    let out = out_with(&[(9, 0.8), (12, 0.8)]);
    assert_eq!(choose_direction(&out, MOVE_ZONE_START), Some(1));
}

#[test]
fn zones_are_independent() {
    let out = out_with(&[(8, 0.9), (24 + 6, 0.8)]);
    assert_eq!(choose_direction(&out, MOVE_ZONE_START), Some(0));
    assert_eq!(choose_direction(&out, DROP_ZONE_START), Some(6));
}

#[test]
fn flags_threshold_each_direction_independently() {
    let out = out_with(&[(16, 0.9), (18, 0.51), (19, 0.5), (23, 0.7)]);
    let flags = zone_flags(&out, INCUBATE_ZONE_START);
    assert_eq!(
        flags,
        vec![true, false, true, false, false, false, false, true],
    );
}
