use vstd::prelude::*;

verus! {

/// Proportional controller of one jaw's joint.
pub struct ClawController {
    kp: i32,
    target_angle: i64,
}

proof fn lemma_torque_bound(kp: int, error: int)
    requires
        -0x8000_0000 <= kp <= 0x8000_0000,
        -0x1_0000_0000_0000_0000 <= error <= 0x1_0000_0000_0000_0000,
    ensures
        -0x1_0000_0000_0000_0000_0000_0000 <= kp * error <= 0x1_0000_0000_0000_0000_0000_0000,
{
    assert(-0x1_0000_0000_0000_0000_0000_0000 <= kp * error <= 0x1_0000_0000_0000_0000_0000_0000)
        by (nonlinear_arith)
        requires
            -0x8000_0000 <= kp <= 0x8000_0000,
            -0x1_0000_0000_0000_0000 <= error <= 0x1_0000_0000_0000_0000,
    ;
}

impl ClawController {
    /// Proportional gain, in thousandths of torque per radian.
    pub closed spec fn spec_gain(&self) -> int {
        self.kp as int
    }

    /// The angle the joint is driven toward, in millionths of a radian.
    pub closed spec fn spec_target(&self) -> int {
        self.target_angle as int
    }

    /// A controller with gain `kp` that holds the joint at angle zero.
    pub fn new(kp: i32) -> (r: Self)
        ensures
            r.spec_gain() == kp,
            r.spec_target() == 0,
    {
        ClawController { kp, target_angle: 0 }
    }

    pub fn set_target(&mut self, angle: i64)
        ensures
            final(self).spec_gain() == old(self).spec_gain(),
            final(self).spec_target() == angle,
    {
        self.target_angle = angle;
    }

    pub fn target(&self) -> (r: i64)
        ensures
            r == self.spec_target(),
    {
        self.target_angle
    }

    /// Torque, in billionths, that drives the joint from `current_angle` toward the target:
    /// the gain times the angle error, without clamping.
    pub fn compute_torque(&self, current_angle: i64) -> (r: i128)
        ensures
            r == self.spec_gain() * (self.spec_target() - current_angle),
            current_angle == self.spec_target() ==> r == 0,
    {
        let error = self.target_angle as i128 - current_angle as i128;
        proof {
            lemma_torque_bound(self.kp as int, error as int);
        }
        self.kp as i128 * error
    }
}

} // verus!
