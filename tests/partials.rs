use leeward::partial::{Dimension, Partial, Variable};

#[test]
fn dimension_iter_hands_out_x_y_z() {
    let mut iter = Dimension::iter();
    assert_eq!(Some(Dimension::X), iter.next());
    assert_eq!(Some(Dimension::Y), iter.next());
    assert_eq!(Some(Dimension::Z), iter.next());
    assert_eq!(None, iter.next());
    assert_eq!(None, iter.next());
}

#[test]
fn dimension_all_has_three() {
    assert_eq!(vec![Dimension::X, Dimension::Y, Dimension::Z], Dimension::all());
}

#[test]
fn variable_all_has_fourteen_in_order() {
    let all = Variable::all();
    assert_eq!(14, all.len());
    assert_eq!(Variable::Range, all[0]);
    assert_eq!(Variable::ScanAngle, all[1]);
    assert_eq!(Variable::BoresightRoll, all[2]);
    assert_eq!(Variable::LeverArmX, all[5]);
    assert_eq!(Variable::ImuRoll, all[8]);
    assert_eq!(Variable::GnssZ, all[13]);
}

#[test]
fn variable_iter_matches_all() {
    let mut iter = Variable::iter();
    let mut seen = Vec::new();
    while let Some(v) = iter.next() {
        seen.push(v);
    }
    assert_eq!(Variable::all(), seen);
    assert_eq!(None, iter.next());
}

#[test]
fn is_angle() {
    assert!(Variable::BoresightRoll.is_angle());
    assert!(Variable::ScanAngle.is_angle());
    assert!(Variable::ImuYaw.is_angle());
    assert!(!Variable::LeverArmX.is_angle());
    assert!(!Variable::Range.is_angle());
    assert!(!Variable::GnssZ.is_angle());
    let angles = Variable::all().into_iter().filter(|v| v.is_angle()).count();
    assert_eq!(7, angles);
}

#[test]
fn partial_all_is_variable_major() {
    let all = Partial::all();
    assert_eq!(14 * 3, all.len());
    assert_eq!(Partial(Dimension::X, Variable::Range), all[0]);
    assert_eq!(Partial(Dimension::Y, Variable::Range), all[1]);
    assert_eq!(Partial(Dimension::Z, Variable::Range), all[2]);
    assert_eq!(Partial(Dimension::X, Variable::ScanAngle), all[3]);
    assert_eq!(Partial(Dimension::Z, Variable::GnssZ), all[41]);
}

#[test]
fn partial_iter_matches_all() {
    let mut iter = Partial::iter();
    let mut seen = Vec::new();
    while let Some(p) = iter.next() {
        seen.push(p);
    }
    assert_eq!(Partial::all(), seen);
}

#[test]
fn names() {
    assert_eq!("Z", Dimension::Z.name());
    assert_eq!("BoresightPitch", Variable::BoresightPitch.name());
    assert_eq!("ImuRoll", Variable::ImuRoll.name());
    assert_eq!("dX/dBoresightRoll", Partial(Dimension::X, Variable::BoresightRoll).name());
    assert_eq!("dZ/dGnssZ", Partial(Dimension::Z, Variable::GnssZ).name());
}
