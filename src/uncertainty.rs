use crate::partial::Variable;
use vstd::prelude::*;

verus! {

/// A standard deviation for each variable of the lidar equation, each held as a value of
/// the scalar type `T`.
#[derive(Clone, Copy, Debug, PartialEq)]
pub struct Uncertainty<T> {
    pub gnss_x: T,
    pub gnss_y: T,
    pub gnss_z: T,
    pub roll: T,
    pub pitch: T,
    pub yaw: T,
    pub boresight_roll: T,
    pub boresight_pitch: T,
    pub boresight_yaw: T,
    pub lever_arm_x: T,
    pub lever_arm_y: T,
    pub lever_arm_z: T,
    pub range: T,
    pub scan_angle: T,
}

impl<T> Uncertainty<T> {
    /// The standard deviation held for `v`.
    pub open spec fn spec_error(self, v: Variable) -> T {
        match v {
            Variable::GnssX => self.gnss_x,
            Variable::GnssY => self.gnss_y,
            Variable::GnssZ => self.gnss_z,
            Variable::ImuRoll => self.roll,
            Variable::ImuPitch => self.pitch,
            Variable::ImuYaw => self.yaw,
            Variable::BoresightRoll => self.boresight_roll,
            Variable::BoresightPitch => self.boresight_pitch,
            Variable::BoresightYaw => self.boresight_yaw,
            Variable::LeverArmX => self.lever_arm_x,
            Variable::LeverArmY => self.lever_arm_y,
            Variable::LeverArmZ => self.lever_arm_z,
            Variable::Range => self.range,
            Variable::ScanAngle => self.scan_angle,
        }
    }
}

impl<T: Copy> Uncertainty<T> {
    /// The same standard deviation for every variable.
    pub fn uniform(x: T) -> (r: Uncertainty<T>)
        ensures
            forall|v: Variable| #[trigger] r.spec_error(v) == x,
    {
        Uncertainty {
            gnss_x: x,
            gnss_y: x,
            gnss_z: x,
            roll: x,
            pitch: x,
            yaw: x,
            boresight_roll: x,
            boresight_pitch: x,
            boresight_yaw: x,
            lever_arm_x: x,
            lever_arm_y: x,
            lever_arm_z: x,
            range: x,
            scan_angle: x,
        }
    }

    /// The standard deviation configured for `v`.
    pub fn error(&self, v: Variable) -> (r: T)
        ensures
            r == self.spec_error(v),
    {
        match v {
            Variable::GnssX => self.gnss_x,
            Variable::GnssY => self.gnss_y,
            Variable::GnssZ => self.gnss_z,
            Variable::ImuRoll => self.roll,
            Variable::ImuPitch => self.pitch,
            Variable::ImuYaw => self.yaw,
            Variable::BoresightRoll => self.boresight_roll,
            Variable::BoresightPitch => self.boresight_pitch,
            Variable::BoresightYaw => self.boresight_yaw,
            Variable::LeverArmX => self.lever_arm_x,
            Variable::LeverArmY => self.lever_arm_y,
            Variable::LeverArmZ => self.lever_arm_z,
            Variable::Range => self.range,
            Variable::ScanAngle => self.scan_angle,
        }
    }
}

} // verus!
