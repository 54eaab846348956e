//! The three-phase field: which stator vector is commanded, and how strongly.
//!
//! The controller drives three half-bridges whose duty cycles follow three
//! cosines a third of a turn apart. This module decides the three angles and
//! the common power scale; the cosine itself is taken where the timer is.

use vstd::prelude::*;
use crate::math::{
    lemma_norm_rads, lemma_norm_rads_sub, norm_rads, spec_norm_rads, PI2, PI2_3, PI4_3, UNIT,
};

verus! {

/// The power scale that a request is accepted as: the request itself inside
/// `[0, UNIT]`, and the nearer end of that interval outside.
pub open spec fn spec_clamp_power(power_scale: int) -> int {
    if power_scale < 0 {
        0
    } else if power_scale > UNIT {
        UNIT as int
    } else {
        power_scale
    }
}

/// What the timer is to put out: for each of the channels U, V and W the
/// angle whose cosine shapes the duty cycle, and the scale common to all
/// three. The duty cycle of a channel is `(cos(angle) / 2 + 1/2) * power_scale`.
#[derive(Clone, Copy, Debug, PartialEq, Eq, Structural)]
pub struct DutyCommand {
    pub angle_u: i64,
    pub angle_v: i64,
    pub angle_w: i64,
    pub power_scale: i64,
}

/// The command that a request for `phase_angle` at `power_scale` becomes:
/// channel U at the normalised angle, V and W one and two thirds of a turn
/// behind it, the power clamped.
pub open spec fn spec_duty_command(phase_angle: int, power_scale: int) -> DutyCommand {
    let u = spec_norm_rads(phase_angle);
    DutyCommand {
        angle_u: u as i64,
        angle_v: spec_norm_rads(u - PI2_3) as i64,
        angle_w: spec_norm_rads(u - PI4_3) as i64,
        power_scale: spec_clamp_power(power_scale) as i64,
    }
}

impl DutyCommand {
    /// Every angle lies in one turn and the power in `[0, UNIT]`.
    pub open spec fn wf(&self) -> bool {
        &&& 0 <= self.angle_u < PI2
        &&& 0 <= self.angle_v < PI2
        &&& 0 <= self.angle_w < PI2
        &&& 0 <= self.power_scale <= UNIT
    }

    /// Clamps the power into `[0, UNIT]`, normalises the angle, and places
    /// the three channels a third of a turn apart.
    pub fn new(phase_angle: i64, power_scale: i64) -> (r: DutyCommand)
        ensures
            r == spec_duty_command(phase_angle as int, power_scale as int),
            r.wf(),
    {
        let pa = norm_rads(phase_angle);
        let ps: i64 = if power_scale < 0 {
            0
        } else if power_scale > UNIT {
            UNIT
        } else {
            power_scale
        };
        DutyCommand {
            angle_u: pa,
            angle_v: norm_rads(pa - PI2_3),
            angle_w: norm_rads(pa - PI4_3),
            power_scale: ps,
        }
    }
}

/// The field as last commanded.
#[derive(Clone, Copy, Debug, PartialEq, Eq, Structural)]
pub struct MagnetController {
    pub phase_angle: i64,
    pub power_scale: i64,
}

impl MagnetController {
    /// The stored angle lies in one turn and the stored power in `[0, UNIT]`.
    pub open spec fn wf(&self) -> bool {
        &&& 0 <= self.phase_angle < PI2
        &&& 0 <= self.power_scale <= UNIT
    }

    /// A controller at angle zero with no power.
    pub fn new() -> (r: MagnetController)
        ensures
            r.phase_angle == 0,
            r.power_scale == 0,
            r.wf(),
    {
        MagnetController { phase_angle: 0, power_scale: 0 }
    }

    pub fn get_phase_angle(&self) -> (r: i64)
        ensures
            r == self.phase_angle,
    {
        self.phase_angle
    }

    pub fn get_power_scale(&self) -> (r: i64)
        ensures
            r == self.power_scale,
    {
        self.power_scale
    }

    /// The controller after `command` went out.
    pub open spec fn spec_apply(self, command: DutyCommand) -> MagnetController {
        MagnetController { phase_angle: command.angle_u, power_scale: command.power_scale }
    }

    /// Records a command that went out to the timer.
    pub fn apply(&mut self, command: DutyCommand)
        ensures
            *final(self) == old(self).spec_apply(command),
            command.wf() ==> final(self).wf(),
    {
        self.phase_angle = command.angle_u;
        self.power_scale = command.power_scale;
    }

    /// Commands a new angle and power, stores what was accepted of them and
    /// returns the command for the timer, which depends on nothing but the
    /// stored pair.
    pub fn set_phase_angle_and_power(&mut self, phase_angle: i64, power_scale: i64) -> (r:
        DutyCommand)
        ensures
            r == spec_duty_command(phase_angle as int, power_scale as int),
            r == spec_duty_command(final(self).phase_angle as int, final(self).power_scale as int),
            final(self).phase_angle == spec_norm_rads(phase_angle as int),
            final(self).power_scale == spec_clamp_power(power_scale as int),
            final(self).wf(),
    {
        let command = DutyCommand::new(phase_angle, power_scale);
        self.apply(command);
        command
    }

    /// Commands a new angle at the power in force.
    pub fn set_phase_angle(&mut self, phase_angle: i64) -> (r: DutyCommand)
        ensures
            r == spec_duty_command(phase_angle as int, old(self).power_scale as int),
            final(self).phase_angle == spec_norm_rads(phase_angle as int),
            final(self).power_scale == spec_clamp_power(old(self).power_scale as int),
            final(self).wf(),
    {
        let power_scale = self.power_scale;
        self.set_phase_angle_and_power(norm_rads(phase_angle), power_scale)
    }

    /// Commands a new power at the angle in force.
    pub fn set_power_scale(&mut self, power_scale: i64) -> (r: DutyCommand)
        ensures
            r == spec_duty_command(old(self).phase_angle as int, power_scale as int),
            final(self).phase_angle == spec_norm_rads(old(self).phase_angle as int),
            final(self).power_scale == spec_clamp_power(power_scale as int),
            final(self).wf(),
    {
        let phase_angle = self.phase_angle;
        self.set_phase_angle_and_power(phase_angle, power_scale)
    }
}

/// The command for an angle and a power: channel U stands at the angle,
/// V and W a third and two thirds of a turn behind it, each taken into one
/// turn. A power in `[0, UNIT]` is taken as it is; one below becomes zero and
/// one above becomes `UNIT`. Whole turns in the angle make no difference.
pub proof fn lemma_duty_command(phase_angle: int, power_scale: int)
    ensures
        ({
            let command = spec_duty_command(phase_angle, power_scale);
            &&& command.wf()
            &&& command.angle_u == spec_norm_rads(phase_angle)
            &&& command.angle_v == spec_norm_rads(phase_angle - PI2_3)
            &&& command.angle_w == spec_norm_rads(phase_angle - PI4_3)
            &&& 0 <= power_scale <= UNIT ==> command.power_scale == power_scale
            &&& power_scale < 0 ==> command.power_scale == 0
            &&& power_scale > UNIT ==> command.power_scale == UNIT
            &&& command == spec_duty_command(phase_angle + PI2, power_scale)
            &&& command == spec_duty_command(
                spec_norm_rads(phase_angle),
                spec_clamp_power(power_scale),
            )
        }),
{
    let u = spec_norm_rads(phase_angle);
    lemma_norm_rads(phase_angle);
    lemma_norm_rads(u - PI2_3);
    lemma_norm_rads(u - PI4_3);
    lemma_norm_rads_sub(phase_angle, PI2_3 as int);
    lemma_norm_rads_sub(phase_angle, PI4_3 as int);
}

} // verus!
