//! The supervisor: it watches the driver's warnings, holds the modes back
//! while there are any, and lets the mode in force take its step otherwise.

use vstd::prelude::*;
use crate::action::{
    lemma_apply_all_add, lemma_apply_all_frame, lemma_apply_all_push, spec_commands_wf,
    spec_outcome, Action, ActionList, Peripherals, Report,
};
use crate::drv_8305::{lemma_filter_push, Drv8305, WarningFlag, Warnings};
use crate::error::Error;
use crate::magnet_controller::{spec_duty_command, MagnetController};
use crate::modes::calibration::{CalibrationMode, CalibrationView, Phase, HOLD_POWER};
use crate::modes::demo::{DemoMode, DemoView};
use crate::modes::recovery::RecoveryMode;
use crate::position_sensor::PositionSensor;
use crate::spi::Transfers;

verus! {

/// What the controller is occupied with.
pub enum Mode {
    /// Nothing yet: the first step begins the calibration.
    Start,
    Calibrate(CalibrationMode),
    Demo(DemoMode),
}

/// A mode as the contracts see it.
pub enum ModeView {
    Start,
    Calibrate(CalibrationView),
    Demo(DemoView),
}

impl View for Mode {
    type V = ModeView;

    open spec fn view(&self) -> ModeView {
        match self {
            Mode::Start => ModeView::Start,
            Mode::Calibrate(calibration) => ModeView::Calibrate(calibration@),
            Mode::Demo(demo) => ModeView::Demo(demo@),
        }
    }
}

impl ModeView {
    /// Whether a step of the mode takes a sample from the position sensor.
    pub open spec fn reads_encoder(self) -> bool {
        match self {
            ModeView::Start => false,
            ModeView::Calibrate(calibration) => calibration.reads_encoder(),
            ModeView::Demo(_) => true,
        }
    }
}

/// The controller as the contracts see it.
pub struct BldcView {
    /// The pause that is in force while the driver warns.
    pub recovery_mode: Option<RecoveryMode>,
    pub num_magnet_pairs: u32,
    pub mode: ModeView,
    pub peripherals: Peripherals,
}

/// The line for each flag.
pub open spec fn spec_warning_reports(flags: Seq<WarningFlag>) -> Seq<Action> {
    flags.map_values(|flag: WarningFlag| Action::Report(Report::Warning(flag)))
}

/// A controller before its first step: no pause, no mode, the gates off, the
/// field at zero without power, the sensor without offset.
pub open spec fn spec_new(num_magnet_pairs: u32) -> BldcView {
    BldcView {
        recovery_mode: None,
        num_magnet_pairs,
        mode: ModeView::Start,
        peripherals: Peripherals {
            drv_8305: Drv8305 { en_gate: false, last_command: crate::drv_8305::Command::Nop },
            magnet_controller: MagnetController { phase_angle: 0, power_scale: 0 },
            position_sensor: PositionSensor {
                num_magnet_pairs,
                offset: 0,
                last_command: crate::position_sensor::Command::Nop,
            },
        },
    }
}

/// What a snapshot of the warning register does to the controller. The
/// all-ones word is an error and changes nothing. A snapshot of zero ends a
/// pause. Any other begins one: the gates are disabled, and each flag that
/// is set is reported.
pub open spec fn spec_handle_drv_8305_errors(pre: BldcView, reply: u16) -> (
    BldcView,
    Result<Seq<Action>, Error>,
) {
    match Warnings::spec_decode(reply) {
        Err(e) => (pre, Err(e)),
        Ok(warnings) => if warnings.data == 0 {
            (BldcView { recovery_mode: None, ..pre }, Ok(seq![]))
        } else {
            let actions = seq![Action::DisableGate] + spec_warning_reports(warnings.spec_flags());
            (
                BldcView {
                    recovery_mode: Some(RecoveryMode {  }),
                    peripherals: pre.peripherals.spec_apply_all(actions),
                    ..pre
                },
                Ok(actions),
            )
        },
    }
}

/// The step of whatever is in force. A pause lets the step pass. `Start`
/// gives way to a fresh calibration. A calibration takes its step, and when
/// that was its last, a demonstration begins in the same step. A
/// demonstration takes its step. The peripherals are as the actions leave
/// them; a step that fails changes nothing.
pub open spec fn spec_dispatch(pre: BldcView, reply: u16) -> (
    BldcView,
    Result<Seq<Action>, Error>,
) {
    if pre.recovery_mode is Some {
        (pre, Ok(seq![]))
    } else {
        match pre.mode {
            ModeView::Start => (
                BldcView { mode: ModeView::Calibrate(crate::modes::calibration::spec_new()), ..pre },
                Ok(seq![]),
            ),
            ModeView::Calibrate(calibration) => {
                let (stepped, outcome) = crate::modes::calibration::spec_step(
                    calibration,
                    pre.peripherals.magnet_controller.power_scale,
                    pre.peripherals.position_sensor.spec_read_absolute_angle(reply),
                );
                match outcome {
                    Err(e) => (pre, Err(e)),
                    Ok(actions) => if stepped.phase == Phase::Done {
                        let (demo, begin) = crate::modes::demo::spec_new();
                        (
                            BldcView {
                                mode: ModeView::Demo(demo),
                                peripherals: pre.peripherals.spec_apply_all(actions + begin),
                                ..pre
                            },
                            Ok(actions + begin),
                        )
                    } else {
                        (
                            BldcView {
                                mode: ModeView::Calibrate(stepped),
                                peripherals: pre.peripherals.spec_apply_all(actions),
                                ..pre
                            },
                            Ok(actions),
                        )
                    },
                }
            },
            ModeView::Demo(demo) => {
                let (stepped, outcome) = crate::modes::demo::spec_step(
                    demo,
                    pre.peripherals.position_sensor.spec_read_phase_angle(reply),
                );
                match outcome {
                    Err(e) => (pre, Err(e)),
                    Ok(actions) => (
                        BldcView {
                            mode: ModeView::Demo(stepped),
                            peripherals: pre.peripherals.spec_apply_all(actions),
                            ..pre
                        },
                        Ok(actions),
                    ),
                }
            },
        }
    }
}

/// One step of the controller: the warnings are handled, then the mode is
/// dispatched. `warnings` is the driver's reply to a read of its warning
/// register and `reply` the sensor's reply to a read of its angle.
pub open spec fn spec_step(pre: BldcView, warnings: u16, reply: u16) -> (
    BldcView,
    Result<Seq<Action>, Error>,
) {
    let (handled, first) = spec_handle_drv_8305_errors(pre, warnings);
    match first {
        Err(e) => (handled, Err(e)),
        Ok(first) => {
            let (dispatched, second) = spec_dispatch(handled, reply);
            match second {
                Err(e) => (dispatched, Err(e)),
                Ok(second) => (dispatched, Ok(first + second)),
            }
        },
    }
}

/// Whether a step on the snapshot `warnings` uses the sensor's reply: the
/// snapshot is zero and the mode in force takes a sample.
pub open spec fn spec_reads_encoder(pre: BldcView, warnings: u16) -> bool {
    warnings == 0 && pre.mode.reads_encoder()
}

/// The brake: the field keeps its angle and loses its power, and the gates
/// are disabled.
pub open spec fn spec_safemode(pre: BldcView) -> (BldcView, Seq<Action>) {
    let actions = seq![
        Action::Command(
            spec_duty_command(pre.peripherals.magnet_controller.phase_angle as int, 0),
        ),
        Action::DisableGate,
    ];
    (BldcView { peripherals: pre.peripherals.spec_apply_all(actions), ..pre }, actions)
}

/// The controller.
pub struct Bldc {
    recovery_mode: Option<RecoveryMode>,
    num_magnet_pairs: u32,
    mode: Mode,
    peripherals: Peripherals,
}

impl View for Bldc {
    type V = BldcView;

    closed spec fn view(&self) -> BldcView {
        BldcView {
            recovery_mode: self.recovery_mode,
            num_magnet_pairs: self.num_magnet_pairs,
            mode: self.mode@,
            peripherals: self.peripherals,
        }
    }
}

impl Bldc {
    /// A controller for a rotor with `num_magnet_pairs` pole pairs.
    pub fn new(num_magnet_pairs: u32) -> (r: Bldc)
        ensures
            r@ == spec_new(num_magnet_pairs),
    {
        Bldc {
            recovery_mode: None,
            num_magnet_pairs,
            mode: Mode::Start,
            peripherals: Peripherals {
                drv_8305: Drv8305::new(),
                magnet_controller: MagnetController::new(),
                position_sensor: PositionSensor::new(num_magnet_pairs),
            },
        }
    }

    /// Whether a pause is in force.
    pub fn is_recovering(&self) -> (r: bool)
        ensures
            r == (self@.recovery_mode is Some),
    {
        self.recovery_mode.is_some()
    }

    pub fn num_magnet_pairs(&self) -> (r: u32)
        ensures
            r == self@.num_magnet_pairs,
    {
        self.num_magnet_pairs
    }

    /// The mode in force.
    pub fn mode(&self) -> (r: &Mode)
        ensures
            r@ == self@.mode,
    {
        &self.mode
    }

    /// The record of the peripherals.
    pub fn peripherals(&self) -> (r: Peripherals)
        ensures
            r == self@.peripherals,
    {
        self.peripherals
    }

    /// The transfers that fetch a snapshot of the driver's warnings.
    pub fn read_warnings(&mut self) -> (r: Transfers)
        ensures
            r@ == crate::drv_8305::spec_read_frames(
                old(self)@.peripherals.drv_8305.last_command,
                crate::drv_8305::ReadCommand::Warnings,
            ),
            final(self)@ == (BldcView {
                peripherals: Peripherals {
                    drv_8305: Drv8305 {
                        last_command: crate::drv_8305::Command::Read(
                            crate::drv_8305::ReadCommand::Warnings,
                        ),
                        ..old(self)@.peripherals.drv_8305
                    },
                    ..old(self)@.peripherals
                },
                ..old(self)@
            }),
    {
        self.peripherals.drv_8305.read_warnings()
    }

    /// The transfers that fetch the position sensor's angle.
    pub fn read_angle(&mut self) -> (r: Transfers)
        ensures
            r@ == crate::position_sensor::spec_read_frames(
                old(self)@.peripherals.position_sensor.last_command,
                crate::position_sensor::ReadCommand::Angle,
            ),
            final(self)@ == (BldcView {
                peripherals: Peripherals {
                    position_sensor: PositionSensor {
                        last_command: crate::position_sensor::Command::Read(
                            crate::position_sensor::ReadCommand::Angle,
                        ),
                        ..old(self)@.peripherals.position_sensor
                    },
                    ..old(self)@.peripherals
                },
                ..old(self)@
            }),
    {
        self.peripherals.position_sensor.read(crate::position_sensor::ReadCommand::Angle)
    }

    /// Whether a step on the snapshot `warnings` uses the sensor's reply.
    /// Where it does not, the sensor need not be read for the step.
    pub fn reads_encoder(&self, warnings: u16) -> (r: bool)
        ensures
            r == spec_reads_encoder(self@, warnings),
    {
        warnings == 0 && match &self.mode {
            Mode::Start => false,
            Mode::Calibrate(calibration) => calibration.reads_encoder(),
            Mode::Demo(_) => true,
        }
    }

    /// Takes a snapshot of the driver's warnings: begins or ends a pause.
    pub fn handle_drv_8305_errors(&mut self, reply: u16) -> (r: Result<ActionList, Error>)
        ensures
            (final(self)@, spec_outcome(r)) == spec_handle_drv_8305_errors(old(self)@, reply),
    {
        let warnings = Warnings::decode(reply)?;
        let mut actions = ActionList::new();
        if warnings.ok() {
            self.recovery_mode = None;
        } else {
            actions.push(Action::DisableGate);
            self.recovery_mode = Some(RecoveryMode::new());
            let all = WarningFlag::all();
            let ghost set = |flag: WarningFlag| warnings@.contains(flag);
            let mut i: usize = 0;
            assert(all@.take(0) =~= Seq::<WarningFlag>::empty());
            assert(actions@ =~= seq![Action::DisableGate] + spec_warning_reports(
                all@.take(0).filter(set),
            ));
            while i < 10
                invariant
                    i <= 10,
                    all@ == WarningFlag::spec_all(),
                    set == (|flag: WarningFlag| warnings@.contains(flag)),
                    actions@ == seq![Action::DisableGate] + spec_warning_reports(
                        all@.take(i as int).filter(set),
                    ),
                decreases 10 - i,
            {
                let flag = all[i];
                proof {
                    all@.take(i as int).lemma_filter_len(set);
                    lemma_filter_push(all@.take(i as int), flag, set);
                    assert(all@.take(i as int).push(flag) =~= all@.take(i + 1));
                }
                if warnings.has(flag) {
                    actions.push(Action::Report(Report::Warning(flag)));
                    assert(actions@ =~= seq![Action::DisableGate] + spec_warning_reports(
                        all@.take(i + 1).filter(set),
                    ));
                }
                i = i + 1;
            }
            assert(all@.take(10) =~= all@);
            self.peripherals.apply_all(&actions);
        }
        Ok(actions)
    }

    /// Lets the pause or the mode in force take its step.
    pub fn dispatch(&mut self, reply: u16) -> (r: Result<ActionList, Error>)
        ensures
            (final(self)@, spec_outcome(r)) == spec_dispatch(old(self)@, reply),
    {
        match &mut self.recovery_mode {
            Some(recovery_mode) => {
                return recovery_mode.step();
            },
            None => {},
        }
        let mut begin_demo = false;
        let mut actions = match &mut self.mode {
            Mode::Start => {
                self.mode = Mode::Calibrate(CalibrationMode::new());
                return Ok(ActionList::new());
            },
            Mode::Calibrate(calibration) => {
                let actions = calibration.step(
                    &self.peripherals.magnet_controller,
                    &self.peripherals.position_sensor,
                    reply,
                )?;
                begin_demo = calibration.is_done();
                actions
            },
            Mode::Demo(demo) => demo.step(&self.peripherals.position_sensor, reply)?,
        };
        if begin_demo {
            let (demo, begin) = DemoMode::new();
            self.mode = Mode::Demo(demo);
            actions.append(&begin);
        }
        self.peripherals.apply_all(&actions);
        Ok(actions)
    }

    /// Takes one step: handles the driver's warnings, then lets the pause or
    /// the mode in force take its step. `warnings` is the driver's reply to
    /// a read of its warning register and `reply` the sensor's reply to a
    /// read of its angle, which is used only where `reads_encoder` says so.
    pub fn step(&mut self, warnings: u16, reply: u16) -> (r: Result<ActionList, Error>)
        ensures
            (final(self)@, spec_outcome(r)) == spec_step(old(self)@, warnings, reply),
    {
        let mut actions = self.handle_drv_8305_errors(warnings)?;
        let more = self.dispatch(reply)?;
        actions.append(&more);
        Ok(actions)
    }

    /// Brakes: asks for the field to lose its power and the gates to be
    /// disabled. The mode is left as it is.
    pub fn safemode(&mut self) -> (r: ActionList)
        ensures
            (final(self)@, r@) == spec_safemode(old(self)@),
    {
        let mut actions = ActionList::new();
        let mut magnet_controller = self.peripherals.magnet_controller;
        actions.push(Action::Command(magnet_controller.set_power_scale(0)));
        actions.push(Action::DisableGate);
        assert(actions@ =~= spec_safemode(old(self)@).1);
        self.peripherals.apply_all(&actions);
        actions
    }

    /// Whether the controller is to go on: it always is.
    pub fn should_continue(&self) -> (r: Result<bool, Error>)
        ensures
            r == Ok::<bool, Error>(true),
    {
        Ok(true)
    }
}

/// After the brake the field has no power and the gates are disabled: the
/// command that went out last carries power zero, and that is the power on
/// record. The pause and the mode are as they were.
pub proof fn lemma_safemode(pre: BldcView)
    ensures
        ({
            let (post, actions) = spec_safemode(pre);
            &&& actions.len() == 2
            &&& actions[0] matches Action::Command(command) && command.power_scale == 0
            &&& actions[1] == Action::DisableGate
            &&& post.peripherals.magnet_controller.power_scale == 0
            &&& !post.peripherals.drv_8305.en_gate
            &&& post.mode == pre.mode
            &&& post.recovery_mode == pre.recovery_mode
            &&& post.peripherals.position_sensor == pre.peripherals.position_sensor
        }),
{
    let (post, actions) = spec_safemode(pre);
    let empty = Seq::<Action>::empty();
    assert(actions =~= empty.push(actions[0]).push(actions[1]));
    lemma_apply_all_push(pre.peripherals, empty, actions[0]);
    lemma_apply_all_push(pre.peripherals, empty.push(actions[0]), actions[1]);
}

/// A snapshot with a warning begins a pause whatever the mode: the gates are
/// disabled and each flag that is set is reported, in the order of the bits.
/// The mode, the field and the sensor's zero stay as they were, and the
/// sensor's reply plays no part.
pub proof fn lemma_step_warning(pre: BldcView, warnings: u16, reply: u16)
    requires
        warnings != 0,
        warnings != crate::error::OFFLINE_REPLY,
    ensures
        ({
            let (post, outcome) = spec_step(pre, warnings, reply);
            &&& outcome == Ok::<Seq<Action>, Error>(
                seq![Action::DisableGate] + spec_warning_reports(
                    (Warnings { data: warnings }).spec_flags(),
                ),
            )
            &&& post.recovery_mode is Some
            &&& !post.peripherals.drv_8305.en_gate
            &&& post.mode == pre.mode
            &&& post.peripherals.magnet_controller == pre.peripherals.magnet_controller
            &&& post.peripherals.position_sensor == pre.peripherals.position_sensor
        }),
{
    let reports = spec_warning_reports((Warnings { data: warnings }).spec_flags());
    let actions = seq![Action::DisableGate] + reports;
    let first = seq![Action::DisableGate];
    lemma_apply_all_add(pre.peripherals, first, reports);
    assert(first =~= Seq::<Action>::empty().push(Action::DisableGate));
    lemma_apply_all_push(pre.peripherals, Seq::<Action>::empty(), Action::DisableGate);
    lemma_apply_all_frame(pre.peripherals.spec_apply_all(first), reports);
    assert(actions + Seq::<Action>::empty() =~= actions);
}

/// A snapshot of zero ends a pause, and the step is the step of the mode.
pub proof fn lemma_step_clear(pre: BldcView, reply: u16)
    ensures
        spec_step(pre, 0, reply) == spec_dispatch(BldcView { recovery_mode: None, ..pre }, reply),
{
    let (post, outcome) = spec_dispatch(BldcView { recovery_mode: None, ..pre }, reply);
    if let Ok(actions) = outcome {
        assert(Seq::<Action>::empty() + actions =~= actions);
    }
}

/// After a step that succeeds, a pause is in force exactly if the snapshot
/// had a bit set, and the gates are disabled while it is.
pub proof fn lemma_step_pause(pre: BldcView, warnings: u16, reply: u16)
    ensures
        ({
            let (post, outcome) = spec_step(pre, warnings, reply);
            outcome is Ok ==> {
                &&& post.recovery_mode is Some <==> warnings != 0
                &&& post.recovery_mode is Some ==> !post.peripherals.drv_8305.en_gate
            }
        }),
{
    if warnings != 0 && warnings != crate::error::OFFLINE_REPLY {
        lemma_step_warning(pre, warnings, reply);
    }
}

/// The all-ones word in place of a snapshot fails the step and changes
/// nothing.
pub proof fn lemma_step_offline(pre: BldcView, reply: u16)
    ensures
        spec_step(pre, crate::error::OFFLINE_REPLY, reply) == (
            pre,
            Err::<Seq<Action>, Error>(Error::Drv8305Offline),
        ),
{
}

/// Where `spec_reads_encoder` is false, the step is the same whatever the
/// sensor replied.
pub proof fn lemma_step_ignores_reply(pre: BldcView, warnings: u16, reply: u16, other: u16)
    requires
        !spec_reads_encoder(pre, warnings),
    ensures
        spec_step(pre, warnings, reply) == spec_step(pre, warnings, other),
{
}

/// A step that succeeds leaves the peripherals as its actions leave them,
/// and a step that fails leaves them and the mode as they were.
pub proof fn lemma_step_peripherals(pre: BldcView, warnings: u16, reply: u16)
    ensures
        ({
            let (post, outcome) = spec_step(pre, warnings, reply);
            &&& outcome matches Ok(actions) ==> post.peripherals == pre.peripherals.spec_apply_all(
                actions,
            )
            &&& outcome is Err ==> post.peripherals == pre.peripherals && post.mode == pre.mode
            &&& post.num_magnet_pairs == pre.num_magnet_pairs
        }),
{
    let (handled, first) = spec_handle_drv_8305_errors(pre, warnings);
    if let Ok(first) = first {
        let (post, second) = spec_dispatch(handled, reply);
        if let Ok(second) = second {
            lemma_apply_all_add(pre.peripherals, first, second);
            assert(handled.peripherals == pre.peripherals.spec_apply_all(first));
            assert(post.peripherals == handled.peripherals.spec_apply_all(second)) by {
                if handled.recovery_mode is None && handled.mode is Start {
                    assert(second =~= Seq::<Action>::empty());
                }
            }
        } else {
            assert(first =~= Seq::<Action>::empty());
        }
    }
}

/// Every command that a step asks for has its angles in one turn and its
/// power in `[0, UNIT]`, so a field on record in that range stays in it.
pub proof fn lemma_step_commands(pre: BldcView, warnings: u16, reply: u16)
    ensures
        ({
            let (post, outcome) = spec_step(pre, warnings, reply);
            &&& outcome matches Ok(actions) ==> spec_commands_wf(actions)
            &&& pre.peripherals.magnet_controller.wf() ==> post.peripherals.magnet_controller.wf()
        }),
{
    let (post, outcome) = spec_step(pre, warnings, reply);
    lemma_step_peripherals(pre, warnings, reply);
    if let Ok(actions) = outcome {
        let (handled, first) = spec_handle_drv_8305_errors(pre, warnings);
        let (_, second) = spec_dispatch(handled, reply);
        assert(spec_commands_wf(first->Ok_0));
        assert(spec_commands_wf(second->Ok_0));
        lemma_apply_all_frame(pre.peripherals, actions);
    }
}

/// The step that begins a calibration's hold starts the driver, enables the
/// gates and leaves the field at angle zero with `HOLD_POWER`. The step in
/// which the rotor is found at rest for the first time installs the mean of
/// the window as the sensor's offset, so that the samples after it are
/// measured from there.
pub proof fn lemma_step_calibration(pre: BldcView, calibration: CalibrationView, reply: u16)
    requires
        pre.mode == ModeView::Calibrate(calibration),
    ensures
        ({
            let (post, outcome) = spec_step(pre, 0, reply);
            &&& outcome is Ok ==> post.mode is Calibrate || post.mode is Demo
            &&& calibration.phase == Phase::Start ==> {
                &&& outcome is Ok
                &&& post.peripherals.drv_8305.en_gate
                &&& post.peripherals.magnet_controller == (MagnetController {
                    phase_angle: 0,
                    power_scale: HOLD_POWER,
                })
            }
            &&& calibration.phase == Phase::Settle ==> (post.mode matches ModeView::Calibrate(
                stepped,
            ) && (stepped.phase == Phase::ForwardTurn ==> {
                &&& outcome == Ok::<Seq<Action>, Error>(
                    seq![
                        Action::SetOffset(stepped.zero),
                        Action::Report(Report::FoundZero(stepped.zero)),
                    ],
                )
                &&& post.peripherals.position_sensor.offset == stepped.zero
                &&& post.peripherals.magnet_controller == pre.peripherals.magnet_controller
                &&& post.peripherals.drv_8305 == pre.peripherals.drv_8305
            }))
        }),
{
    let cleared = BldcView { recovery_mode: None, ..pre };
    lemma_step_clear(pre, reply);
    let (post, outcome) = spec_dispatch(cleared, reply);
    if let Ok(actions) = outcome {
        if calibration.phase == Phase::Start {
            let empty = Seq::<Action>::empty();
            assert(actions =~= empty.push(actions[0]).push(actions[1]).push(actions[2]));
            lemma_apply_all_push(pre.peripherals, empty, actions[0]);
            lemma_apply_all_push(pre.peripherals, empty.push(actions[0]), actions[1]);
            lemma_apply_all_push(
                pre.peripherals,
                empty.push(actions[0]).push(actions[1]),
                actions[2],
            );
        }
        if calibration.phase == Phase::Settle && actions.len() > 0 {
            let empty = Seq::<Action>::empty();
            assert(actions =~= empty.push(actions[0]).push(actions[1]));
            lemma_apply_all_push(pre.peripherals, empty, actions[0]);
            lemma_apply_all_push(pre.peripherals, empty.push(actions[0]), actions[1]);
        }
    }
}

/// The modes follow each other in one order: a step leaves the mode's kind
/// as it is, or moves from `Start` to a calibration, or from a calibration
/// to a demonstration.
pub proof fn lemma_step_mode_order(pre: BldcView, warnings: u16, reply: u16)
    ensures
        ({
            let post = spec_step(pre, warnings, reply).0;
            match pre.mode {
                ModeView::Start => post.mode is Start || post.mode == ModeView::Calibrate(
                    crate::modes::calibration::spec_new(),
                ),
                ModeView::Calibrate(_) => post.mode is Calibrate || post.mode == ModeView::Demo(
                    crate::modes::demo::spec_new().0,
                ),
                ModeView::Demo(_) => post.mode is Demo,
            }
        }),
{
}

} // verus!
