//! Calibration bookkeeping for the lidar equation: the variables and partials of the
//! equation, the calibration quantities a solver adjusts, batch checks, the layout of
//! Jacobian and sensitivity matrices, and a time-bucket index of trajectory poses.

pub mod batch;
pub mod calibration;
pub mod cli;
pub mod error;
pub mod index;
pub mod layout;
pub mod partial;
pub mod uncertainty;
