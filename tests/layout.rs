use leeward::layout::{diagonal, jacobian, sensitivity, stack};
use leeward::partial::{Dimension, Partial, Variable};

fn code(i: usize, d: Dimension, v: Variable) -> (usize, Dimension, Variable) {
    (i, d, v)
}

#[test]
fn jacobian_rows_and_columns() {
    let variables = [Variable::BoresightRoll, Variable::BoresightPitch, Variable::BoresightYaw];
    let j = jacobian(2, &variables, code);
    assert_eq!(18, j.len());
    assert_eq!((0, Dimension::X, Variable::BoresightRoll), j[0]);
    assert_eq!((0, Dimension::X, Variable::BoresightYaw), j[2]);
    assert_eq!((0, Dimension::Y, Variable::BoresightRoll), j[3]);
    assert_eq!((1, Dimension::X, Variable::BoresightPitch), j[10]);
    assert_eq!((1, Dimension::Z, Variable::BoresightYaw), j[17]);
}

#[test]
fn jacobian_of_no_measurements_is_empty() {
    let j = jacobian(0, &[Variable::LeverArmX], code);
    assert!(j.is_empty());
}

#[test]
fn jacobian_of_identity_partials() {
    let variables = [Variable::GnssX, Variable::GnssY, Variable::GnssZ];
    let j = jacobian(1, &variables, |_, d, v| match (d, v) {
        (Dimension::X, Variable::GnssX) | (Dimension::Y, Variable::GnssY) | (Dimension::Z, Variable::GnssZ) => 1.0,
        _ => 0.0,
    });
    assert_eq!(vec![1.0, 0.0, 0.0, 0.0, 1.0, 0.0, 0.0, 0.0, 1.0], j);
}

#[test]
fn sensitivity_follows_partial_order() {
    let s = sensitivity(|v, d| Partial(d, v));
    assert_eq!(Partial::all(), s);
}

#[test]
fn stack_residuals() {
    let s = stack(&[[1, 2, 3], [4, 5, 6]]);
    assert_eq!(vec![1, 2, 3, 4, 5, 6], s);
    let empty: [[i32; 3]; 0] = [];
    assert!(stack(&empty).is_empty());
}

#[test]
fn diagonal_matrix() {
    assert_eq!(vec![1, 0, 0, 0, 2, 0, 0, 0, 3], diagonal(&[1, 2, 3], 0));
    assert_eq!(vec![7], diagonal(&[7], 0));
    assert!(diagonal(&[] as &[i32], 0).is_empty());
}

