use vstd::prelude::*;
use crate::claw::ClawController;
use crate::control::{ControlLaw, ANGLE_BOUND};
use crate::samples::{EMGOutput, EMGSample};

verus! {

/// How often each joint's torque is applied before one simulation step.
#[derive(Debug, Clone, Copy, PartialEq, Eq, Structural)]
pub enum TorqueApplication {
    Single,
    Double,
}

impl TorqueApplication {
    pub open spec fn spec_count(self) -> int {
        match self {
            TorqueApplication::Single => 1,
            TorqueApplication::Double => 2,
        }
    }

    pub fn count(&self) -> (r: u8)
        ensures
            r == self.spec_count(),
    {
        match self {
            TorqueApplication::Single => 1,
            TorqueApplication::Double => 2,
        }
    }
}

/// One of the two jaws.
#[derive(Debug, Clone, Copy, PartialEq, Eq, Structural)]
pub enum Joint {
    Left,
    Right,
}

/// Where the loop stands.
#[derive(Debug, Clone, Copy, PartialEq, Eq, Structural)]
pub enum Phase {
    /// Waiting for the next sample.
    Ready,
    /// Working on the tick of this sample: torques are applied, then the simulation steps.
    Ticking(EMGSample),
    /// The sample source is exhausted; nothing changes any more.
    Drained,
}

/// What the caller does for the tick of a sample.
#[derive(Debug, Clone, Copy, PartialEq, Eq, Structural)]
pub struct TickPlan {
    /// Microseconds to hold before working on the tick.
    pub delay: u64,
    /// The control law's angle; the left jaw aims at it and the right jaw at its negation.
    pub target_angle: i64,
    /// How many times each joint's torque is applied before the one simulation step.
    pub applications: u8,
}

/// The observable state of a control loop.
pub struct LoopView {
    pub phase: Phase,
    pub last_time: int,
    pub records: Seq<EMGOutput>,
}

/// The hold before the tick of a sample stamped `time`: the time since the previous sample,
/// and none for a sample that is not later.
pub open spec fn pacing_delay(last_time: int, time: int) -> int {
    if time > last_time {
        time - last_time
    } else {
        0
    }
}

/// A sample arrives: only a ready loop starts a tick.
pub open spec fn on_sample(v: LoopView, sample: EMGSample) -> LoopView {
    match v.phase {
        Phase::Ready => LoopView { phase: Phase::Ticking(sample), ..v },
        _ => v,
    }
}

/// The record of the tick of `sample`, with the joint angles measured after the step.
pub open spec fn record_of(sample: EMGSample, left: i64, right: i64) -> EMGOutput {
    EMGOutput { time: sample.time, emg: sample.emg, left, right }
}

/// The simulation has stepped: a tick in progress is recorded and closed.
pub open spec fn on_stepped(v: LoopView, left: i64, right: i64) -> LoopView {
    match v.phase {
        Phase::Ticking(s) => LoopView {
            phase: Phase::Ready,
            last_time: s.time as int,
            records: v.records.push(record_of(s, left, right)),
        },
        _ => v,
    }
}

/// The sample source has no more samples: a ready loop is drained.
pub open spec fn on_exhausted(v: LoopView) -> LoopView {
    match v.phase {
        Phase::Ready => LoopView { phase: Phase::Drained, ..v },
        _ => v,
    }
}

/// A whole run: each sample in turn starts a tick that closes with the angles measured after
/// its step, and then the source is found exhausted.
pub open spec fn run(v: LoopView, samples: Seq<EMGSample>, angles: Seq<(i64, i64)>) -> LoopView
    decreases samples.len(),
{
    if samples.len() == 0 {
        on_exhausted(v)
    } else {
        run(
            on_stepped(on_sample(v, samples[0]), angles[0].0, angles[0].1),
            samples.drop_first(),
            angles.drop_first(),
        )
    }
}

/// A run over a whole sample source ends drained, having appended exactly one record per
/// sample, in input order, each echoing its sample's timestamp and activation.
pub proof fn lemma_run_records(v: LoopView, samples: Seq<EMGSample>, angles: Seq<(i64, i64)>)
    requires
        v.phase == Phase::Ready,
        angles.len() == samples.len(),
    ensures
        run(v, samples, angles).phase == Phase::Drained,
        run(v, samples, angles).records.len() == v.records.len() + samples.len(),
        run(v, samples, angles).records.subrange(0, v.records.len() as int) == v.records,
        forall|i: int|
            0 <= i < samples.len() ==> #[trigger] run(v, samples, angles).records[v.records.len()
                + i] == record_of(samples[i], angles[i].0, angles[i].1),
        forall|i: int|
            0 <= i < samples.len() ==> #[trigger] run(v, samples, angles).records[v.records.len()
                + i].time == samples[i].time,
    decreases samples.len(),
{
    if samples.len() > 0 {
        let next = on_stepped(on_sample(v, samples[0]), angles[0].0, angles[0].1);
        lemma_run_records(next, samples.drop_first(), angles.drop_first());
        let end = run(v, samples, angles);
        assert(end == run(next, samples.drop_first(), angles.drop_first()));
        assert(next.records == v.records.push(record_of(samples[0], angles[0].0, angles[0].1)));
        assert(end.records.subrange(0, v.records.len() as int) =~= v.records) by {
            assert(end.records.subrange(0, next.records.len() as int) == next.records);
            assert forall|j: int| 0 <= j < v.records.len() implies end.records[j] == v.records[j] by {
                assert(end.records.subrange(0, next.records.len() as int)[j] == next.records[j]);
            }
        }
        assert forall|i: int| 0 <= i < samples.len() implies #[trigger] end.records[v.records.len()
            + i] == record_of(samples[i], angles[i].0, angles[i].1) by {
            if i == 0 {
                assert(end.records.subrange(0, next.records.len() as int)[v.records.len() as int]
                    == next.records[v.records.len() as int]);
            } else {
                assert(samples.drop_first()[i - 1] == samples[i]);
                assert(angles.drop_first()[i - 1] == angles[i]);
                assert(end.records[next.records.len() + (i - 1)] == record_of(
                    samples.drop_first()[i - 1],
                    angles.drop_first()[i - 1].0,
                    angles.drop_first()[i - 1].1,
                ));
            }
        }
    }
}

/// The decisions of the control loop of a two-jawed gripper. The caller owns the sample
/// source, the clock and the simulation, and reports to the loop what happened.
pub struct ControlLoop {
    law: ControlLaw,
    left: ClawController,
    right: ClawController,
    mode: TorqueApplication,
    last_time: i64,
    records: Vec<EMGOutput>,
    phase: Phase,
}

impl View for ControlLoop {
    type V = LoopView;

    closed spec fn view(&self) -> LoopView {
        LoopView { phase: self.phase, last_time: self.last_time as int, records: self.records@ }
    }
}

impl ControlLoop {
    pub closed spec fn spec_law(&self) -> ControlLaw {
        self.law
    }

    pub closed spec fn spec_left(&self) -> ClawController {
        self.left
    }

    pub closed spec fn spec_right(&self) -> ClawController {
        self.right
    }

    pub closed spec fn spec_mode(&self) -> TorqueApplication {
        self.mode
    }

    pub open spec fn spec_claw(&self, joint: Joint) -> ClawController {
        match joint {
            Joint::Left => self.spec_left(),
            Joint::Right => self.spec_right(),
        }
    }

    pub closed spec fn wf(&self) -> bool {
        self.law.wf()
    }

    /// A ready loop with no records, whose jaws start aimed at angle zero.
    pub fn new(law: ControlLaw, left_gain: i32, right_gain: i32, mode: TorqueApplication) -> (r:
        Self)
        requires
            law.wf(),
        ensures
            r.wf(),
            r@.phase == Phase::Ready,
            r@.last_time == 0,
            r@.records.len() == 0,
            r.spec_law() == law,
            r.spec_left().spec_gain() == left_gain,
            r.spec_left().spec_target() == 0,
            r.spec_right().spec_gain() == right_gain,
            r.spec_right().spec_target() == 0,
            r.spec_mode() == mode,
    {
        ControlLoop {
            law,
            left: ClawController::new(left_gain),
            right: ClawController::new(right_gain),
            mode,
            last_time: 0,
            records: Vec::new(),
            phase: Phase::Ready,
        }
    }

    /// Starts the tick of `sample` on a ready loop: the control law turns the activation into
    /// a target angle, the left jaw aims at it and the right jaw at its mirror image. On a loop
    /// that is not ready nothing changes and the result is `None`.
    pub fn begin_tick(&mut self, sample: EMGSample) -> (r: Option<TickPlan>)
        requires
            old(self).wf(),
        ensures
            final(self).wf(),
            final(self)@ == on_sample(old(self)@, sample),
            r is Some <==> old(self)@.phase == Phase::Ready,
            final(self).spec_mode() == old(self).spec_mode(),
            final(self).spec_left().spec_gain() == old(self).spec_left().spec_gain(),
            final(self).spec_right().spec_gain() == old(self).spec_right().spec_gain(),
            r is None ==> {
                &&& final(self).spec_law() == old(self).spec_law()
                &&& final(self).spec_left() == old(self).spec_left()
                &&& final(self).spec_right() == old(self).spec_right()
            },
            r matches Some(plan) ==> {
                &&& plan.delay == pacing_delay(old(self)@.last_time, sample.time as int)
                &&& plan.target_angle == old(self).spec_law().output(sample.emg as int)
                &&& plan.applications == old(self).spec_mode().spec_count()
                &&& final(self).spec_law() == old(self).spec_law().after(sample.emg as int)
                &&& final(self).spec_left().spec_target() == plan.target_angle
                &&& final(self).spec_right().spec_target() == -plan.target_angle
            },
    {
        match self.phase {
            Phase::Ready => {
                let delay: u64 = if sample.time > self.last_time {
                    (sample.time as i128 - self.last_time as i128) as u64
                } else {
                    0
                };
                let target_angle = self.law.compute_target_angle(sample.emg);
                self.left.set_target(target_angle);
                self.right.set_target(-target_angle);
                self.phase = Phase::Ticking(sample);
                Some(TickPlan { delay, target_angle, applications: self.mode.count() })
            },
            _ => None,
        }
    }

    /// The torque impulse for `joint` at the measured angle `measured_angle`.
    pub fn torque(&self, joint: Joint, measured_angle: i64) -> (r: i128)
        ensures
            r == self.spec_claw(joint).spec_gain() * (self.spec_claw(joint).spec_target()
                - measured_angle),
    {
        match joint {
            Joint::Left => self.left.compute_torque(measured_angle),
            Joint::Right => self.right.compute_torque(measured_angle),
        }
    }

    /// How many times each joint's torque is applied before one simulation step.
    pub fn applications(&self) -> (r: u8)
        ensures
            r == self.spec_mode().spec_count(),
    {
        self.mode.count()
    }

    /// Closes the tick in progress with the joint angles measured after the simulation step,
    /// and reports whether there was one.
    pub fn end_tick(&mut self, left_angle: i64, right_angle: i64) -> (r: bool)
        requires
            old(self).wf(),
        ensures
            final(self).wf(),
            final(self)@ == on_stepped(old(self)@, left_angle, right_angle),
            r <==> old(self)@.phase is Ticking,
            final(self).spec_law() == old(self).spec_law(),
            final(self).spec_left() == old(self).spec_left(),
            final(self).spec_right() == old(self).spec_right(),
            final(self).spec_mode() == old(self).spec_mode(),
    {
        match self.phase {
            Phase::Ticking(sample) => {
                self.records.push(
                    EMGOutput { time: sample.time, emg: sample.emg, left: left_angle, right: right_angle },
                );
                self.last_time = sample.time;
                self.phase = Phase::Ready;
                true
            },
            _ => false,
        }
    }

    /// Marks the sample source as exhausted; only a ready loop is drained by it, and the
    /// result says whether it was.
    pub fn exhaust(&mut self) -> (r: bool)
        requires
            old(self).wf(),
        ensures
            final(self).wf(),
            final(self)@ == on_exhausted(old(self)@),
            r <==> old(self)@.phase == Phase::Ready,
            final(self).spec_law() == old(self).spec_law(),
            final(self).spec_left() == old(self).spec_left(),
            final(self).spec_right() == old(self).spec_right(),
            final(self).spec_mode() == old(self).spec_mode(),
    {
        match self.phase {
            Phase::Ready => {
                self.phase = Phase::Drained;
                true
            },
            _ => false,
        }
    }

    pub fn phase(&self) -> (r: Phase)
        ensures
            r == self@.phase,
    {
        self.phase
    }

    /// The records of every closed tick, in order.
    pub fn records(&self) -> (r: &Vec<EMGOutput>)
        ensures
            r@ == self@.records,
    {
        &self.records
    }

    pub fn target_angle(&self, joint: Joint) -> (r: i64)
        ensures
            r == self.spec_claw(joint).spec_target(),
    {
        match joint {
            Joint::Left => self.left.target(),
            Joint::Right => self.right.target(),
        }
    }
}

} // verus!
