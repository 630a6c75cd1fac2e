use vstd::prelude::*;

verus! {

/// Number of fixed-point steps in one whole unit of a configuration value.
pub const MILLI: i32 = 1000;

/// Largest magnitude of any angle a control law produces: `2^62` millionths of a radian,
/// the largest product of two `i32` values.
pub const ANGLE_BOUND: i64 = 0x4000_0000_0000_0000;

/// The deadzone-proportional rule: activations strictly beyond `±deadzone` map to
/// `|activation| * max_angle`, everything else to zero.
pub open spec fn deadzone_target(activation: int, max_angle: int, deadzone: int) -> int {
    if activation > deadzone {
        activation * max_angle
    } else if activation < -deadzone {
        -activation * max_angle
    } else {
        0
    }
}

/// One step of the exponential moving average `(1 - r) * last + r * desired`, with `r`
/// given in thousandths. The move from `last` toward `desired` is rounded toward zero, so the
/// result never overshoots.
pub open spec fn smoothed(last: int, desired: int, responsiveness: int) -> int {
    if desired >= last {
        last + (responsiveness * (desired - last)) / 1000
    } else {
        last - (responsiveness * (last - desired)) / 1000
    }
}

proof fn lemma_product_bound(a: int, b: int)
    requires
        -0x8000_0000 <= a <= 0x8000_0000,
        -0x8000_0000 <= b <= 0x8000_0000,
    ensures
        -0x4000_0000_0000_0000 <= a * b <= 0x4000_0000_0000_0000,
{
    assert(-0x4000_0000_0000_0000 <= a * b <= 0x4000_0000_0000_0000) by (nonlinear_arith)
        requires
            -0x8000_0000 <= a <= 0x8000_0000,
            -0x8000_0000 <= b <= 0x8000_0000,
    ;
}

proof fn lemma_partial_step(r: int, x: int)
    requires
        0 < r <= 1000,
        0 <= x,
    ensures
        0 <= (r * x) / 1000 <= x,
        r == 1000 ==> (r * x) / 1000 == x,
{
    assert(0 <= r * x <= 1000 * x) by (nonlinear_arith)
        requires
            0 < r <= 1000,
            0 <= x,
    ;
    vstd::arithmetic::div_mod::lemma_div_is_ordered(r * x, 1000 * x, 1000);
    vstd::arithmetic::div_mod::lemma_div_by_multiple(x, 1000);
    vstd::arithmetic::div_mod::lemma_div_pos_is_pos(r * x, 1000);
}

/// The deadzone-proportional rule on fixed-point values.
fn deadzone_angle(activation: i32, max_angle: i32, deadzone: i32) -> (r: i64)
    ensures
        r == deadzone_target(activation as int, max_angle as int, deadzone as int),
        -ANGLE_BOUND <= r <= ANGLE_BOUND,
{
    let a = activation as i64;
    let m = max_angle as i64;
    let d = deadzone as i64;
    proof {
        lemma_product_bound(a as int, m as int);
        lemma_product_bound(-a, m as int);
    }
    if a > d {
        a * m
    } else if a < -d {
        -a * m
    } else {
        0
    }
}

/// Proportional control with a deadzone and no damping.
pub struct Control1 {
    max_angle: i32,
    deadzone: i32,
}

impl Control1 {
    /// Angle reached at a full activation of one, in thousandths of a radian.
    pub closed spec fn spec_max_angle(&self) -> int {
        self.max_angle as int
    }

    /// Half-width of the band of activations that map to zero, in thousandths.
    pub closed spec fn spec_deadzone(&self) -> int {
        self.deadzone as int
    }

    pub fn new(max_angle: i32, deadzone: i32) -> (r: Self)
        ensures
            r.spec_max_angle() == max_angle,
            r.spec_deadzone() == deadzone,
    {
        Control1 { max_angle, deadzone }
    }

    /// Target angle, in millionths of a radian, for an activation in thousandths.
    pub fn compute_target_angle(&self, emg_value: i32) -> (r: i64)
        ensures
            r == deadzone_target(emg_value as int, self.spec_max_angle(), self.spec_deadzone()),
            -self.spec_deadzone() <= emg_value <= self.spec_deadzone() ==> r == 0,
            emg_value > self.spec_deadzone() ==> r == emg_value * self.spec_max_angle(),
            self.spec_deadzone() >= 0 && emg_value < -self.spec_deadzone() ==> r == -emg_value
                * self.spec_max_angle(),
            -ANGLE_BOUND <= r <= ANGLE_BOUND,
    {
        deadzone_angle(emg_value, self.max_angle, self.deadzone)
    }
}

/// Why a controller configuration was refused.
#[derive(Debug, Clone, Copy, PartialEq, Eq, Structural)]
pub enum ConfigError {
    /// The responsiveness is not in `(0, 1]`, that is not in `1..=1000` thousandths.
    ResponsivenessOutOfRange,
}

/// Proportional control with a deadzone, damped by an exponential moving average.
pub struct Control2 {
    max_angle: i32,
    deadzone: i32,
    responsiveness: i32,
    last_angle: i64,
}

impl Control2 {
    pub closed spec fn spec_max_angle(&self) -> int {
        self.max_angle as int
    }

    pub closed spec fn spec_deadzone(&self) -> int {
        self.deadzone as int
    }

    /// Weight of the newest desired angle, in thousandths.
    pub closed spec fn spec_responsiveness(&self) -> int {
        self.responsiveness as int
    }

    /// The angle returned by the latest call, zero before the first.
    pub closed spec fn spec_last_angle(&self) -> int {
        self.last_angle as int
    }

    pub closed spec fn wf(&self) -> bool {
        &&& 0 < self.responsiveness <= MILLI
        &&& -ANGLE_BOUND <= self.last_angle <= ANGLE_BOUND
    }

    /// The deadzone-proportional angle this controller aims at for `emg_value`.
    pub open spec fn desired(&self, emg_value: int) -> int {
        deadzone_target(emg_value, self.spec_max_angle(), self.spec_deadzone())
    }

    /// The angle returned by a call on `emg_value`.
    pub open spec fn output(&self, emg_value: int) -> int {
        smoothed(self.spec_last_angle(), self.desired(emg_value), self.spec_responsiveness())
    }

    /// The controller after a call on `emg_value`: the configuration stays, the held angle
    /// becomes the call's result.
    pub closed spec fn after(self, emg_value: int) -> Self {
        Control2 { last_angle: self.output(emg_value) as i64, ..self }
    }

    /// Builds a damped controller at rest, or refuses a responsiveness outside `(0, 1]`.
    pub fn new(max_angle: i32, deadzone: i32, responsiveness: i32) -> (r: Result<Self, ConfigError>)
        ensures
            r is Ok <==> 0 < responsiveness <= MILLI,
            r matches Ok(c) ==> {
                &&& c.wf()
                &&& c.spec_max_angle() == max_angle
                &&& c.spec_deadzone() == deadzone
                &&& c.spec_responsiveness() == responsiveness
                &&& c.spec_last_angle() == 0
            },
            r matches Err(e) ==> e == ConfigError::ResponsivenessOutOfRange,
    {
        if 0 < responsiveness && responsiveness <= MILLI {
            Ok(Control2 { max_angle, deadzone, responsiveness, last_angle: 0 })
        } else {
            Err(ConfigError::ResponsivenessOutOfRange)
        }
    }

    /// Moves the held angle toward the deadzone-proportional target of `emg_value` and
    /// returns the new held angle.
    pub fn compute_target_angle(&mut self, emg_value: i32) -> (r: i64)
        requires
            old(self).wf(),
        ensures
            final(self).wf(),
            *final(self) == old(self).after(emg_value as int),
            final(self).spec_max_angle() == old(self).spec_max_angle(),
            final(self).spec_deadzone() == old(self).spec_deadzone(),
            final(self).spec_responsiveness() == old(self).spec_responsiveness(),
            r == final(self).spec_last_angle(),
            r == smoothed(
                old(self).spec_last_angle(),
                deadzone_target(emg_value as int, old(self).spec_max_angle(), old(self).spec_deadzone()),
                old(self).spec_responsiveness(),
            ),
            ({
                let desired = deadzone_target(
                    emg_value as int,
                    old(self).spec_max_angle(),
                    old(self).spec_deadzone(),
                );
                let last = old(self).spec_last_angle();
                &&& (last <= desired ==> last <= r <= desired)
                &&& (desired <= last ==> desired <= r <= last)
                &&& (old(self).spec_responsiveness() == MILLI ==> r == desired)
            }),
    {
        let desired = deadzone_angle(emg_value, self.max_angle, self.deadzone);
        let last = self.last_angle as i128;
        let goal = desired as i128;
        let weight = self.responsiveness as i128;
        let next: i128 = if goal >= last {
            proof {
                lemma_partial_step(weight as int, goal - last);
            }
            last + (weight * (goal - last)) / 1000
        } else {
            proof {
                lemma_partial_step(weight as int, last - goal);
            }
            last - (weight * (last - goal)) / 1000
        };
        self.last_angle = next as i64;
        self.last_angle
    }
}

/// The control law of a gripper: one of the two controllers, chosen at construction.
pub enum ControlLaw {
    Undamped(Control1),
    Damped(Control2),
}

impl ControlLaw {
    pub open spec fn wf(&self) -> bool {
        match self {
            ControlLaw::Undamped(_) => true,
            ControlLaw::Damped(c) => c.wf(),
        }
    }

    /// The angle returned by a call on `emg_value`.
    pub open spec fn output(&self, emg_value: int) -> int {
        match self {
            ControlLaw::Undamped(c) => deadzone_target(
                emg_value,
                c.spec_max_angle(),
                c.spec_deadzone(),
            ),
            ControlLaw::Damped(c) => c.output(emg_value),
        }
    }

    /// The law after a call on `emg_value`; only the damped one carries state.
    pub open spec fn after(self, emg_value: int) -> Self {
        match self {
            ControlLaw::Undamped(c) => ControlLaw::Undamped(c),
            ControlLaw::Damped(c) => ControlLaw::Damped(c.after(emg_value)),
        }
    }

    pub fn compute_target_angle(&mut self, emg_value: i32) -> (r: i64)
        requires
            old(self).wf(),
        ensures
            final(self).wf(),
            *final(self) == old(self).after(emg_value as int),
            r == old(self).output(emg_value as int),
            -ANGLE_BOUND <= r <= ANGLE_BOUND,
    {
        match self {
            ControlLaw::Undamped(c) => c.compute_target_angle(emg_value),
            ControlLaw::Damped(c) => c.compute_target_angle(emg_value),
        }
    }
}

/// Angles returned by successive calls of an undamped controller on `inputs`.
pub open spec fn undamped_outputs(c: Control1, inputs: Seq<i32>) -> Seq<int> {
    inputs.map_values(|a: i32| deadzone_target(a as int, c.spec_max_angle(), c.spec_deadzone()))
}

/// Angles returned by successive calls of a damped controller on `inputs`.
pub open spec fn damped_outputs(c: Control2, inputs: Seq<i32>) -> Seq<int>
    decreases inputs.len(),
{
    if inputs.len() == 0 {
        Seq::empty()
    } else {
        seq![c.output(inputs[0] as int)] + damped_outputs(
            c.after(inputs[0] as int),
            inputs.drop_first(),
        )
    }
}

/// A damped controller with full responsiveness has no lag: on every sequence of inputs it
/// returns what the undamped controller of the same maximum angle and deadzone returns.
pub proof fn lemma_full_responsiveness_is_undamped(c2: Control2, c1: Control1, inputs: Seq<i32>)
    requires
        c2.wf(),
        c2.spec_responsiveness() == MILLI,
        c1.spec_max_angle() == c2.spec_max_angle(),
        c1.spec_deadzone() == c2.spec_deadzone(),
    ensures
        damped_outputs(c2, inputs) == undamped_outputs(c1, inputs),
    decreases inputs.len(),
{
    if inputs.len() > 0 {
        let a = inputs[0] as int;
        let desired = c2.desired(a);
        let last = c2.spec_last_angle();
        if desired >= last {
            lemma_partial_step(1000, desired - last);
        } else {
            lemma_partial_step(1000, last - desired);
        }
        lemma_product_bound(a, c2.spec_max_angle());
        lemma_product_bound(-a, c2.spec_max_angle());
        lemma_full_responsiveness_is_undamped(c2.after(a), c1, inputs.drop_first());
        assert(damped_outputs(c2, inputs) =~= undamped_outputs(c1, inputs));
    } else {
        assert(damped_outputs(c2, inputs) =~= undamped_outputs(c1, inputs));
    }
}

} // verus!
