use leeward::batch::{adjusted_variables, check_batch};
use leeward::calibration::Calibration;
use leeward::error::Error;
use leeward::partial::Variable;

fn calibration() -> Calibration<f64> {
    Calibration {
        boresight_roll: -1.5707963267948966,
        boresight_pitch: 0.0,
        boresight_yaw: -1.5707963267948966,
        lever_arm_x: 0.0,
        lever_arm_y: 0.0,
        lever_arm_z: 0.0,
    }
}

#[test]
fn no_measurements() {
    let configs: Vec<Calibration<f64>> = vec![];
    assert!(check_batch(&configs).is_err());
    assert_eq!(Err(Error::NoMeasurements), check_batch(&configs));
}

#[test]
fn different_config() {
    let mut configs = vec![calibration(); 4];
    configs[0].lever_arm_x = configs[0].lever_arm_x + 1.;
    assert!(check_batch(&configs).is_err());
    assert_eq!(Err(Error::ConfigMismatch(1)), check_batch(&configs));
}

#[test]
fn mismatch_names_first_differing_position() {
    let mut configs = vec![calibration(); 5];
    configs[3].boresight_pitch = 0.001;
    configs[4].lever_arm_z = 2.0;
    assert_eq!(Err(Error::ConfigMismatch(3)), check_batch(&configs));
}

#[test]
fn same_config_accepted() {
    assert_eq!(Ok(()), check_batch(&vec![calibration(); 3]));
    assert_eq!(Ok(()), check_batch(&[calibration()]));
}

#[test]
fn solver_variable_sets() {
    assert_eq!(
        vec![Variable::BoresightRoll, Variable::BoresightPitch, Variable::BoresightYaw],
        adjusted_variables(false)
    );
    assert_eq!(
        vec![Variable::LeverArmX, Variable::LeverArmY, Variable::LeverArmZ],
        adjusted_variables(true)
    );
}

#[test]
fn error_messages() {
    assert_eq!("cannot create adjust with no measurements", Error::NoMeasurements.message());
    assert_eq!("not all measurements have the same config", Error::ConfigMismatch(2).message());
    assert_eq!("unsupported variable: GnssX", Error::UnsupportedVariable(Variable::GnssX).message());
    assert_eq!("no inverse found", Error::NoInverse.message());
}
