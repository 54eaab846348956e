//! Demonstration: the field is held a quarter turn ahead of the rotor while
//! its power ramps up and down, and the side on which it leads changes each
//! time the power has come down to nothing.

use vstd::prelude::*;
use crate::action::{Action, ActionList};
use crate::error::Error;
use crate::magnet_controller::{spec_duty_command, DutyCommand};
use crate::math::{PI1_2, PI2};
use crate::position_sensor::PositionSensor;

verus! {

/// The power at which the ramp turns upward.
pub const MIN: i64 = 0;

/// The power at which the ramp turns downward.
pub const MAX: i64 = 200_000_000;

/// The change of power in one step.
pub const ACCEL: i64 = 100_000;

/// A demonstration as the contracts see it.
pub struct DemoView {
    /// The change of power in the step to come: `ACCEL` up or down.
    pub accel: int,
    /// The power that was commanded last.
    pub power: int,
    /// How far the field leads the rotor: a quarter turn either way.
    pub angle: int,
}

impl DemoView {
    /// The ramp is one step at most outside `[MIN, MAX]`, and outside it
    /// points further out: the step to come turns it round.
    pub open spec fn wf(self) -> bool {
        &&& self.accel == ACCEL || self.accel == -ACCEL
        &&& self.angle == PI1_2 || self.angle == -PI1_2
        &&& MIN - ACCEL <= self.power <= MAX + ACCEL
        &&& self.power > MAX ==> self.accel == ACCEL
        &&& self.power < MIN ==> self.accel == -ACCEL
    }
}

/// A fresh demonstration, and the actions that begin it: the gates are
/// enabled and the field is switched off.
pub open spec fn spec_new() -> (DemoView, Seq<Action>) {
    (
        DemoView { accel: ACCEL as int, power: MIN as int, angle: PI1_2 as int },
        seq![Action::EnableGate, Action::Command(spec_duty_command(0, 0))],
    )
}

/// One step of a demonstration, given the rotor's electrical angle as the
/// position sensor had it. Outside `[MIN, MAX]` the ramp turns round; below
/// `MIN` the lead changes sides too. Then the power moves by the ramp and
/// the field is commanded ahead of the rotor by the lead.
pub open spec fn spec_step(pre: DemoView, phase_angle: Result<i64, Error>) -> (
    DemoView,
    Result<Seq<Action>, Error>,
) {
    match phase_angle {
        Err(e) => (pre, Err(e)),
        Ok(phase_angle) => {
            let accel = if pre.power > MAX || pre.power < MIN {
                -pre.accel
            } else {
                pre.accel
            };
            let angle = if pre.power < MIN {
                -pre.angle
            } else {
                pre.angle
            };
            let power = pre.power + accel;
            (
                DemoView { accel, power, angle },
                Ok(seq![Action::Command(spec_duty_command(phase_angle + angle, power))]),
            )
        },
    }
}

/// The demonstration of both directions of torque.
pub struct DemoMode {
    accel: i64,
    power: i64,
    angle: i64,
}

impl View for DemoMode {
    type V = DemoView;

    closed spec fn view(&self) -> DemoView {
        DemoView { accel: self.accel as int, power: self.power as int, angle: self.angle as int }
    }
}

impl DemoMode {
    #[verifier::type_invariant]
    spec fn inv(&self) -> bool {
        self@.wf()
    }

    /// Begins a demonstration.
    pub fn new() -> (r: (DemoMode, ActionList))
        ensures
            (r.0@, r.1@) == spec_new(),
    {
        let mut actions = ActionList::new();
        actions.push(Action::EnableGate);
        actions.push(Action::Command(DutyCommand::new(0, 0)));
        assert(actions@ =~= spec_new().1);
        (DemoMode { accel: ACCEL, power: MIN, angle: PI1_2 }, actions)
    }

    pub fn accel(&self) -> (r: i64)
        ensures
            r == self@.accel,
    {
        self.accel
    }

    pub fn power(&self) -> (r: i64)
        ensures
            r == self@.power,
            self@.wf(),
    {
        proof {
            use_type_invariant(self);
        }
        self.power
    }

    pub fn angle(&self) -> (r: i64)
        ensures
            r == self@.angle,
    {
        self.angle
    }

    /// Advances the demonstration by one step. `reply` is the sensor's reply
    /// to a read of its angle.
    pub fn step(&mut self, position_sensor: &PositionSensor, reply: u16) -> (r: Result<
        ActionList,
        Error,
    >)
        ensures
            (final(self)@, crate::action::spec_outcome(r)) == spec_step(
                old(self)@,
                position_sensor.spec_read_phase_angle(reply),
            ),
            final(self)@.wf(),
    {
        proof {
            use_type_invariant(&*self);
        }
        let phase_pos = position_sensor.read_phase_angle(reply)?;
        let mut accel = self.accel;
        let mut angle = self.angle;
        if self.power > MAX || self.power < MIN {
            accel = -accel;
        }
        if self.power < MIN {
            angle = -angle;
        }
        let power = self.power + accel;
        *self = DemoMode { accel, power, angle };
        let mut actions = ActionList::new();
        actions.push(Action::Command(DutyCommand::new(phase_pos + angle, power)));
        proof {
            let expected = spec_step(old(self)@, position_sensor.spec_read_phase_angle(reply));
            assert(match expected.1 {
                Ok(expected_actions) => actions@ =~= expected_actions,
                Err(_) => false,
            });
        }
        Ok(actions)
    }
}

/// A step keeps the ramp within a step of `[MIN, MAX]`.
pub proof fn lemma_step_wf(pre: DemoView, phase_angle: Result<i64, Error>)
    requires
        pre.wf(),
    ensures
        spec_step(pre, phase_angle).0.wf(),
{
}

/// The power that a step commands is the ramp's power where that is not
/// negative, and never more than a step above `MAX`; the angle it commands
/// is a quarter turn from the rotor's.
pub proof fn lemma_step_command(pre: DemoView, phase_angle: i64)
    requires
        pre.wf(),
    ensures
        ({
            let (post, outcome) = spec_step(pre, Ok(phase_angle));
            &&& outcome matches Ok(actions)
            &&& actions.len() == 1
            &&& actions[0] matches Action::Command(command)
            &&& command.wf()
            &&& command.power_scale == if post.power < 0 {
                0
            } else {
                post.power
            }
            &&& command.power_scale <= MAX + ACCEL
            &&& command.angle_u == (phase_angle + post.angle) % (PI2 as int)
        }),
{
}

} // verus!
