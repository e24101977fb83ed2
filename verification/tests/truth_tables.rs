use bit_logic::gates::and;
use bit_logic::gates::not;
use bit_logic::gates::or;
use bit_logic::if_logic::if_then_else;

#[test]
fn not_flips_each_bit() {
    assert_eq!(not(0), 1);
    assert_eq!(not(1), 0);
}

#[test]
fn and_is_1_only_when_both_inputs_are_1() {
    assert_eq!(and(0, 0), 0);
    assert_eq!(and(0, 1), 0);
    assert_eq!(and(1, 0), 0);
    assert_eq!(and(1, 1), 1);
}

#[test]
fn or_is_1_when_at_least_one_input_is_1() {
    assert_eq!(or(0, 0), 0);
    assert_eq!(or(0, 1), 1);
    assert_eq!(or(1, 0), 1);
    assert_eq!(or(1, 1), 1);
}

#[test]
fn if_then_else_selects_b_when_a_is_1() {
    assert_eq!(if_then_else(1, 0, 0), 0);
    assert_eq!(if_then_else(1, 0, 1), 0);
    assert_eq!(if_then_else(1, 1, 0), 1);
    assert_eq!(if_then_else(1, 1, 1), 1);
}

#[test]
fn if_then_else_selects_c_when_a_is_0() {
    assert_eq!(if_then_else(0, 0, 0), 0);
    assert_eq!(if_then_else(0, 0, 1), 1);
    assert_eq!(if_then_else(0, 1, 0), 0);
    assert_eq!(if_then_else(0, 1, 1), 1);
}
