//! Closed-loop control of a two-jawed gripper from one myoelectric channel.
//!
//! Every quantity is an exact fixed-point integer:
//! activations, maximum angles, deadzones, responsiveness and gains are counted in
//! thousandths; angles are counted in millionths of a radian (the product of a
//! thousandth of activation and a thousandth of a radian); torques are counted in
//! billionths (a thousandth of gain times a millionth of a radian); timestamps are
//! counted in microseconds.
pub mod claw;
pub mod control;
pub mod samples;
pub mod tick;
