//! Calibration: finding the rotor's zero and how far it travels each way.
//!
//! The rotor is held at the zero of the field until it rests, turned forward
//! by a fixed electrical angle until it rests again, and turned back. Rest is
//! judged by a window of the latest position samples.

use vstd::prelude::*;
use crate::action::{Action, ActionList, Report};
use crate::error::Error;
use crate::magnet_controller::{spec_duty_command, DutyCommand, MagnetController};
use crate::position_sensor::PositionSensor;

verus! {

/// How far a sample may lie from the mean of a window at rest.
pub const MAX_DEVIATION: i64 = 628_318;

/// Samples in a window.
pub const NUM_SAMPLES: usize = 500;

/// The electrical angle by which a turn advances in one step.
pub const SPEED: i64 = 2_000_000;

/// The electrical angle of the forward turn: two full turns.
pub const MAX_TURN: i64 = 12_566_360_000;

/// The power at which the rotor is held and turned.
pub const HOLD_POWER: i64 = 100_000_000;

/// Whether the rotor rests, and where.
#[derive(Clone, Copy, Debug, PartialEq, Eq, Structural)]
pub enum SettleState {
    Settled(i64),
    NotSettled,
}

/// The sum of the samples.
pub open spec fn spec_sum(samples: Seq<i64>) -> int
    decreases samples.len(),
{
    if samples.len() == 0 {
        0
    } else {
        spec_sum(samples.drop_last()) + samples.last()
    }
}

/// The arithmetic mean of the samples, rounded down.
pub open spec fn spec_mean(samples: Seq<i64>) -> int {
    spec_sum(samples) / (samples.len() as int)
}

/// Whether every sample lies within `MAX_DEVIATION` of `mean`.
pub open spec fn spec_within(samples: Seq<i64>, mean: int) -> bool {
    forall|i: int|
        0 <= i < samples.len() ==> -MAX_DEVIATION <= mean - #[trigger] samples[i] <= MAX_DEVIATION
}

/// The verdict on a window: settled at its mean when it is full and every
/// sample lies within `MAX_DEVIATION` of the mean.
pub open spec fn spec_settle_state(samples: Seq<i64>) -> SettleState {
    if samples.len() >= NUM_SAMPLES && spec_within(samples, spec_mean(samples)) {
        SettleState::Settled(spec_mean(samples) as i64)
    } else {
        SettleState::NotSettled
    }
}

/// The latest `n` of the samples, or all of them if there are fewer.
pub open spec fn spec_latest(samples: Seq<i64>, n: nat) -> Seq<i64> {
    if samples.len() > n {
        samples.skip(samples.len() - n)
    } else {
        samples
    }
}

/// The window after one more sample: the sample is appended, and the oldest
/// leaves a full window.
pub open spec fn spec_add_sample(samples: Seq<i64>, sample: i64) -> Seq<i64> {
    spec_latest(samples.push(sample), NUM_SAMPLES as nat)
}

/// The sum of samples lies between the sums of as many least and greatest
/// values.
pub proof fn lemma_sum_bounds(samples: Seq<i64>)
    ensures
        samples.len() * i64::MIN <= spec_sum(samples) <= samples.len() * i64::MAX,
    decreases samples.len(),
{
    if samples.len() > 0 {
        lemma_sum_bounds(samples.drop_last());
    }
}

/// The window after the samples of `history` have gone, oldest first, into
/// an empty window.
pub open spec fn spec_window_after(history: Seq<i64>) -> Seq<i64>
    decreases history.len(),
{
    if history.len() == 0 {
        Seq::empty()
    } else {
        spec_add_sample(spec_window_after(history.drop_last()), history.last())
    }
}

/// The window holds the latest `NUM_SAMPLES` samples of all that went into
/// it, in their order.
pub proof fn lemma_window_is_latest(history: Seq<i64>)
    ensures
        spec_window_after(history) == spec_latest(history, NUM_SAMPLES as nat),
    decreases history.len(),
{
    if history.len() > 0 {
        let before = history.drop_last();
        lemma_window_is_latest(before);
        assert(history =~= before.push(history.last()));
        assert(spec_add_sample(spec_latest(before, NUM_SAMPLES as nat), history.last())
            =~= spec_latest(history, NUM_SAMPLES as nat));
    } else {
        assert(spec_latest(history, NUM_SAMPLES as nat) =~= Seq::<i64>::empty());
    }
}

/// A window reports the rotor settled exactly when at least `NUM_SAMPLES`
/// samples went into it and each of the latest `NUM_SAMPLES` lies within
/// `MAX_DEVIATION` of their mean; it then reports that mean.
pub proof fn lemma_settled_iff(history: Seq<i64>)
    ensures
        ({
            let latest = spec_latest(history, NUM_SAMPLES as nat);
            let verdict = spec_settle_state(spec_window_after(history));
            &&& verdict is Settled <==> history.len() >= NUM_SAMPLES && spec_within(
                latest,
                spec_mean(latest),
            )
            &&& verdict matches SettleState::Settled(mean) ==> mean == spec_mean(latest)
            &&& history.len() < NUM_SAMPLES ==> verdict == SettleState::NotSettled
        }),
{
    lemma_window_is_latest(history);
    let latest = spec_latest(history, NUM_SAMPLES as nat);
    if history.len() >= NUM_SAMPLES {
        lemma_sum_bounds(latest);
        assert(latest.len() == NUM_SAMPLES);
        assert(i64::MIN <= spec_mean(latest) <= i64::MAX);
    }
}

/// In a settled window no two samples lie further apart than twice
/// `MAX_DEVIATION`, and the mean that is reported is the sum divided by the
/// number of samples, rounded down.
pub proof fn lemma_settled_spread(samples: Seq<i64>, i: int, j: int)
    requires
        spec_settle_state(samples) is Settled,
        0 <= i < samples.len(),
        0 <= j < samples.len(),
    ensures
        samples[i] - samples[j] <= 2 * MAX_DEVIATION,
        spec_settle_state(samples) == SettleState::Settled(spec_mean(samples) as i64),
        spec_mean(samples) * samples.len() <= spec_sum(samples) < (spec_mean(samples) + 1)
            * samples.len(),
        i64::MIN <= spec_mean(samples) <= i64::MAX,
{
    lemma_sum_bounds(samples);
    let n = samples.len() as int;
    let sum = spec_sum(samples);
    assert(n >= NUM_SAMPLES);
    assert((sum / n) * n <= sum < (sum / n + 1) * n) by (nonlinear_arith)
        requires
            n > 0,
    ;
    assert(i64::MIN <= sum / n <= i64::MAX) by (nonlinear_arith)
        requires
            n > 0,
            n * i64::MIN <= sum <= n * i64::MAX,
            (sum / n) * n <= sum < (sum / n + 1) * n,
    ;
}

/// A window of the latest `NUM_SAMPLES` samples, oldest first.
pub struct Settler {
    samples_collected: usize,
    next: usize,
    samples: [i64; 500],
}

impl View for Settler {
    type V = Seq<i64>;

    /// The samples in the window, oldest first.
    closed spec fn view(&self) -> Seq<i64> {
        Seq::new(
            self.samples_collected as nat,
            |i: int|
                self.samples@[(self.next + NUM_SAMPLES - self.samples_collected + i) % (
                NUM_SAMPLES as int)],
        )
    }
}

impl Settler {
    #[verifier::type_invariant]
    spec fn inv(&self) -> bool {
        self.samples_collected <= NUM_SAMPLES && self.next < NUM_SAMPLES
    }

    /// An empty window.
    pub fn new() -> (r: Settler)
        ensures
            r@ == Seq::<i64>::empty(),
    {
        let r = Settler { samples_collected: 0, next: 0, samples: [0i64; 500] };
        assert(r@ =~= Seq::<i64>::empty());
        r
    }

    /// The number of samples in the window.
    pub fn samples_collected(&self) -> (r: usize)
        ensures
            r == self@.len(),
            r <= NUM_SAMPLES,
        no_unwind
    {
        proof {
            use_type_invariant(self);
        }
        self.samples_collected
    }

    /// The sample that came last, or zero before the first.
    pub fn last_sample(&self) -> (r: i64)
        ensures
            r == if self@.len() == 0 {
                0
            } else {
                self@.last()
            },
    {
        proof {
            use_type_invariant(self);
        }
        if self.samples_collected == 0 {
            0
        } else {
            self.sample_at(self.samples_collected - 1)
        }
    }

    fn sample_at(&self, i: usize) -> (r: i64)
        requires
            i < self@.len(),
        ensures
            r == self@[i as int],
        no_unwind
    {
        proof {
            use_type_invariant(self);
        }
        self.samples[(self.next + NUM_SAMPLES - self.samples_collected + i) % NUM_SAMPLES]
    }

    fn sum(&self) -> (r: i128)
        ensures
            r == spec_sum(self@),
        no_unwind
    {
        proof {
            use_type_invariant(self);
        }
        let n = self.samples_collected;
        let mut sum: i128 = 0;
        let mut i: usize = 0;
        assert(self@.take(0) =~= Seq::<i64>::empty());
        while i < n
            invariant
                i <= n,
                n == self@.len(),
                n <= NUM_SAMPLES,
                sum == spec_sum(self@.take(i as int)),
            decreases n - i,
        {
            proof {
                lemma_sum_bounds(self@.take(i as int));
                assert(self@.take(i + 1).drop_last() =~= self@.take(i as int));
            }
            sum = sum + self.sample_at(i) as i128;
            i = i + 1;
        }
        assert(self@.take(n as int) =~= self@);
        sum
    }

    fn insert(&mut self, sample: i64)
        ensures
            final(self)@ == spec_add_sample(old(self)@, sample),
        no_unwind
    {
        proof {
            use_type_invariant(&*self);
        }
        let ghost before = self@;
        self.samples[self.next] = sample;
        self.next = (self.next + 1) % NUM_SAMPLES;
        if self.samples_collected < NUM_SAMPLES {
            self.samples_collected = self.samples_collected + 1;
        }
        assert(self@ =~= spec_add_sample(before, sample));
    }

    /// Judges the window as it stands.
    pub fn settle_state(&self) -> (r: SettleState)
        ensures
            r == spec_settle_state(self@),
        no_unwind
    {
        if self.samples_collected() < NUM_SAMPLES {
            return SettleState::NotSettled;
        }
        let sum = self.sum();
        proof {
            lemma_sum_bounds(self@);
        }
        // The sum is lifted above zero before it is divided, so that the
        // division rounds down for negative sums too.
        let lift: i128 = 0x8000_0000_0000_0000;
        let lifted: u128 = (sum + 500 * lift) as u128;
        let mean: i128 = (lifted / 500) as i128 - lift;
        assert(mean == spec_mean(self@));
        let mut i: usize = 0;
        while i < NUM_SAMPLES
            invariant
                i <= NUM_SAMPLES,
                self@.len() == NUM_SAMPLES,
                mean == spec_mean(self@),
                i64::MIN <= mean <= i64::MAX,
                forall|j: int|
                    0 <= j < i ==> -MAX_DEVIATION <= mean - #[trigger] self@[j] <= MAX_DEVIATION,
            decreases NUM_SAMPLES - i,
        {
            let deviation = mean - self.sample_at(i) as i128;
            if deviation > MAX_DEVIATION as i128 || deviation < -(MAX_DEVIATION as i128) {
                return SettleState::NotSettled;
            }
            i = i + 1;
        }
        SettleState::Settled(mean as i64)
    }

    /// Takes a sample into the window and judges the window.
    pub fn add_sample(&mut self, sample: i64) -> (r: SettleState)
        ensures
            final(self)@ == spec_add_sample(old(self)@, sample),
            r == spec_settle_state(final(self)@),
        no_unwind
    {
        self.insert(sample);
        self.settle_state()
    }
}

/// The stations of a calibration, in the order in which they are passed.
#[derive(Clone, Copy, Debug, PartialEq, Eq, Structural)]
pub enum Phase {
    Start,
    Settle,
    ForwardTurn,
    ForwardSettle,
    BackwardTurn,
    BackwardSettle,
    Done,
}

/// A calibration as the contracts see it.
pub struct CalibrationView {
    pub phase: Phase,
    /// The raw angle at which the rotor came to rest at the field's zero.
    pub zero: i64,
    /// Where the rotor came to rest after the forward turn.
    pub forward_extent: i64,
    /// Where the rotor came to rest after the turn back.
    pub backward_extent: i64,
    /// The settle window, oldest sample first.
    pub samples: Seq<i64>,
    /// The electrical angle turned through so far.
    pub cumulative_phase_angle: int,
}

impl CalibrationView {
    /// The turned angle is where the phase can have left it: zero until the
    /// forward turn, below `MAX_TURN` during it, a step at most above
    /// `MAX_TURN` after it, and a step at most below zero after the turn back.
    pub open spec fn wf(self) -> bool {
        &&& self.samples.len() <= NUM_SAMPLES
        &&& match self.phase {
            Phase::Start | Phase::Settle => self.cumulative_phase_angle == 0,
            Phase::ForwardTurn => 0 <= self.cumulative_phase_angle < MAX_TURN,
            Phase::ForwardSettle => MAX_TURN <= self.cumulative_phase_angle < MAX_TURN + SPEED,
            Phase::BackwardTurn => 0 < self.cumulative_phase_angle < MAX_TURN + SPEED,
            Phase::BackwardSettle | Phase::Done => -SPEED < self.cumulative_phase_angle <= 0,
        }
    }

    /// Whether a step in this phase takes a sample from the position sensor.
    pub open spec fn reads_encoder(self) -> bool {
        self.phase == Phase::Settle || self.phase == Phase::ForwardSettle || self.phase
            == Phase::BackwardSettle
    }
}

/// A fresh calibration.
pub open spec fn spec_new() -> CalibrationView {
    CalibrationView {
        phase: Phase::Start,
        zero: 0,
        forward_extent: 0,
        backward_extent: 0,
        samples: Seq::empty(),
        cumulative_phase_angle: 0,
    }
}

/// One step of a calibration: the calibration after it, and the actions it
/// asks for. `power_scale` is the power that the field is commanded at, and
/// `sample` what the position sensor gave; a phase that takes no sample
/// ignores it.
///
/// - `Start` starts the driver, enables the gates and holds the rotor at
///   angle zero.
/// - The three settle phases take a sample into the window. Once the window
///   is settled, its mean becomes the zero, the forward extent or the
///   backward extent. The zero is installed as the sensor's offset; after
///   the backward extent the field is switched off and the gates disabled.
/// - The two turns move the field by `SPEED`, forward until `MAX_TURN` is
///   reached and back until zero is, and then empty the window.
pub open spec fn spec_step(pre: CalibrationView, power_scale: i64, sample: Result<i64, Error>) -> (
    CalibrationView,
    Result<Seq<Action>, Error>,
) {
    match pre.phase {
        Phase::Start => (
            CalibrationView { phase: Phase::Settle, ..pre },
            Ok(
                seq![
                    Action::StartDriver,
                    Action::EnableGate,
                    Action::Command(spec_duty_command(0, HOLD_POWER as int)),
                ],
            ),
        ),
        Phase::Settle => match sample {
            Err(e) => (pre, Err(e)),
            Ok(sample) => {
                let samples = spec_add_sample(pre.samples, sample);
                match spec_settle_state(samples) {
                    SettleState::Settled(zero) => (
                        CalibrationView { phase: Phase::ForwardTurn, zero, samples, ..pre },
                        Ok(seq![Action::SetOffset(zero), Action::Report(Report::FoundZero(zero))]),
                    ),
                    SettleState::NotSettled => (CalibrationView { samples, ..pre }, Ok(seq![])),
                }
            },
        },
        Phase::ForwardTurn => {
            let angle = pre.cumulative_phase_angle + SPEED;
            let command = Action::Command(spec_duty_command(angle, power_scale as int));
            if angle >= MAX_TURN {
                (
                    CalibrationView {
                        phase: Phase::ForwardSettle,
                        samples: Seq::empty(),
                        cumulative_phase_angle: angle,
                        ..pre
                    },
                    Ok(
                        seq![
                            command,
                            Action::Command(spec_duty_command(MAX_TURN as int, power_scale as int)),
                        ],
                    ),
                )
            } else {
                (CalibrationView { cumulative_phase_angle: angle, ..pre }, Ok(seq![command]))
            }
        },
        Phase::ForwardSettle => match sample {
            Err(e) => (pre, Err(e)),
            Ok(sample) => {
                let samples = spec_add_sample(pre.samples, sample);
                match spec_settle_state(samples) {
                    SettleState::Settled(forward_extent) => (
                        CalibrationView {
                            phase: Phase::BackwardTurn,
                            forward_extent,
                            samples,
                            ..pre
                        },
                        Ok(seq![Action::Report(Report::FoundForwardExtent(forward_extent))]),
                    ),
                    SettleState::NotSettled => (CalibrationView { samples, ..pre }, Ok(seq![])),
                }
            },
        },
        Phase::BackwardTurn => {
            let angle = pre.cumulative_phase_angle - SPEED;
            let command = Action::Command(spec_duty_command(angle, power_scale as int));
            if angle <= 0 {
                (
                    CalibrationView {
                        phase: Phase::BackwardSettle,
                        samples: Seq::empty(),
                        cumulative_phase_angle: angle,
                        ..pre
                    },
                    Ok(seq![command]),
                )
            } else {
                (CalibrationView { cumulative_phase_angle: angle, ..pre }, Ok(seq![command]))
            }
        },
        Phase::BackwardSettle => match sample {
            Err(e) => (pre, Err(e)),
            Ok(sample) => {
                let samples = spec_add_sample(pre.samples, sample);
                match spec_settle_state(samples) {
                    SettleState::Settled(backward_extent) => (
                        CalibrationView { phase: Phase::Done, backward_extent, samples, ..pre },
                        Ok(
                            seq![
                                Action::Report(Report::FoundBackwardExtent(backward_extent)),
                                Action::Command(spec_duty_command(0, 0)),
                                Action::DisableGate,
                            ],
                        ),
                    ),
                    SettleState::NotSettled => (CalibrationView { samples, ..pre }, Ok(seq![])),
                }
            },
        },
        Phase::Done => (pre, Ok(seq![])),
    }
}

/// The calibration procedure.
pub struct CalibrationMode {
    phase: Phase,
    zero: i64,
    forward_extent: i64,
    backward_extent: i64,
    settler: Settler,
    cumulative_phase_angle: i64,
}

impl View for CalibrationMode {
    type V = CalibrationView;

    closed spec fn view(&self) -> CalibrationView {
        CalibrationView {
            phase: self.phase,
            zero: self.zero,
            forward_extent: self.forward_extent,
            backward_extent: self.backward_extent,
            samples: self.settler@,
            cumulative_phase_angle: self.cumulative_phase_angle as int,
        }
    }
}

impl CalibrationMode {
    #[verifier::type_invariant]
    spec fn inv(&self) -> bool {
        self@.wf()
    }

    /// A calibration that has not begun.
    pub fn new() -> (r: CalibrationMode)
        ensures
            r@ == spec_new(),
    {
        CalibrationMode {
            phase: Phase::Start,
            zero: 0,
            forward_extent: 0,
            backward_extent: 0,
            settler: Settler::new(),
            cumulative_phase_angle: 0,
        }
    }

    pub fn phase(&self) -> (r: Phase)
        ensures
            r == self@.phase,
    {
        self.phase
    }

    pub fn zero(&self) -> (r: i64)
        ensures
            r == self@.zero,
    {
        self.zero
    }

    pub fn forward_extent(&self) -> (r: i64)
        ensures
            r == self@.forward_extent,
    {
        self.forward_extent
    }

    pub fn backward_extent(&self) -> (r: i64)
        ensures
            r == self@.backward_extent,
    {
        self.backward_extent
    }

    pub fn cumulative_phase_angle(&self) -> (r: i64)
        ensures
            r == self@.cumulative_phase_angle,
            self@.wf(),
    {
        proof {
            use_type_invariant(self);
        }
        self.cumulative_phase_angle
    }

    /// Whether the calibration has run to its end.
    pub fn is_done(&self) -> (r: bool)
        ensures
            r == (self@.phase == Phase::Done),
    {
        match self.phase {
            Phase::Done => true,
            _ => false,
        }
    }

    /// Whether the next step takes a sample from the position sensor.
    pub fn reads_encoder(&self) -> (r: bool)
        ensures
            r == self@.reads_encoder(),
    {
        match self.phase {
            Phase::Settle | Phase::ForwardSettle | Phase::BackwardSettle => true,
            _ => false,
        }
    }

    /// Advances the calibration by one step. `reply` is the sensor's reply
    /// to a read of its angle; a phase that takes no sample ignores it.
    pub fn step(
        &mut self,
        magnet_controller: &MagnetController,
        position_sensor: &PositionSensor,
        reply: u16,
    ) -> (r: Result<ActionList, Error>)
        ensures
            (final(self)@, crate::action::spec_outcome(r)) == spec_step(
                old(self)@,
                magnet_controller.power_scale,
                position_sensor.spec_read_absolute_angle(reply),
            ),
            final(self)@.wf(),
    {
        proof {
            use_type_invariant(&*self);
        }
        let power_scale = magnet_controller.get_power_scale();
        let mut actions = ActionList::new();
        match self.phase {
            Phase::Start => {
                actions.push(Action::StartDriver);
                actions.push(Action::EnableGate);
                actions.push(Action::Command(DutyCommand::new(0, HOLD_POWER)));
                self.phase = Phase::Settle;
            },
            Phase::Settle => {
                let sample = position_sensor.read_absolute_angle(reply)?;
                if let SettleState::Settled(zero) = self.settler.add_sample(sample) {
                    self.zero = zero;
                    actions.push(Action::SetOffset(zero));
                    actions.push(Action::Report(Report::FoundZero(zero)));
                    self.phase = Phase::ForwardTurn;
                }
            },
            Phase::ForwardTurn => {
                let angle = self.cumulative_phase_angle + SPEED;
                actions.push(Action::Command(DutyCommand::new(angle, power_scale)));
                if angle >= MAX_TURN {
                    actions.push(Action::Command(DutyCommand::new(MAX_TURN, power_scale)));
                    *self = CalibrationMode {
                        phase: Phase::ForwardSettle,
                        zero: self.zero,
                        forward_extent: self.forward_extent,
                        backward_extent: self.backward_extent,
                        settler: Settler::new(),
                        cumulative_phase_angle: angle,
                    };
                } else {
                    self.cumulative_phase_angle = angle;
                }
            },
            Phase::ForwardSettle => {
                let sample = position_sensor.read_absolute_angle(reply)?;
                if let SettleState::Settled(forward_extent) = self.settler.add_sample(sample) {
                    self.forward_extent = forward_extent;
                    actions.push(Action::Report(Report::FoundForwardExtent(forward_extent)));
                    self.phase = Phase::BackwardTurn;
                }
            },
            Phase::BackwardTurn => {
                let angle = self.cumulative_phase_angle - SPEED;
                actions.push(Action::Command(DutyCommand::new(angle, power_scale)));
                if angle <= 0 {
                    *self = CalibrationMode {
                        phase: Phase::BackwardSettle,
                        zero: self.zero,
                        forward_extent: self.forward_extent,
                        backward_extent: self.backward_extent,
                        settler: Settler::new(),
                        cumulative_phase_angle: angle,
                    };
                } else {
                    self.cumulative_phase_angle = angle;
                }
            },
            Phase::BackwardSettle => {
                let sample = position_sensor.read_absolute_angle(reply)?;
                if let SettleState::Settled(backward_extent) = self.settler.add_sample(sample) {
                    self.backward_extent = backward_extent;
                    actions.push(Action::Report(Report::FoundBackwardExtent(backward_extent)));
                    self.phase = Phase::Done;
                    actions.push(Action::Command(DutyCommand::new(0, 0)));
                    actions.push(Action::DisableGate);
                }
            },
            Phase::Done => {},
        }
        proof {
            let expected = spec_step(
                old(self)@,
                magnet_controller.power_scale,
                position_sensor.spec_read_absolute_angle(reply),
            );
            assert(match expected.1 {
                Ok(expected_actions) => actions@ =~= expected_actions,
                Err(_) => false,
            });
            assert(self@ =~= expected.0);
        }
        Ok(actions)
    }
}

/// A step keeps the turned angle where the phase can have left it.
pub proof fn lemma_step_wf(pre: CalibrationView, power_scale: i64, sample: Result<i64, Error>)
    requires
        pre.wf(),
    ensures
        spec_step(pre, power_scale, sample).0.wf(),
{
}

/// The phase after `phase` in a calibration; `Done` is the last.
pub open spec fn spec_next_phase(phase: Phase) -> Phase {
    match phase {
        Phase::Start => Phase::Settle,
        Phase::Settle => Phase::ForwardTurn,
        Phase::ForwardTurn => Phase::ForwardSettle,
        Phase::ForwardSettle => Phase::BackwardTurn,
        Phase::BackwardTurn => Phase::BackwardSettle,
        Phase::BackwardSettle => Phase::Done,
        Phase::Done => Phase::Done,
    }
}

/// A step stays in its phase or moves on to the next, and it moves on from
/// a settle phase exactly when the window with the new sample is settled.
/// A step that fails changes nothing.
pub proof fn lemma_step_phase(pre: CalibrationView, power_scale: i64, sample: Result<i64, Error>)
    ensures
        ({
            let (post, outcome) = spec_step(pre, power_scale, sample);
            &&& post.phase == pre.phase || post.phase == spec_next_phase(pre.phase)
            &&& outcome is Err ==> post == pre
            &&& outcome is Err <==> pre.reads_encoder() && sample is Err
            &&& pre.reads_encoder() && sample is Ok ==> (post.phase != pre.phase
                <==> spec_settle_state(spec_add_sample(pre.samples, sample->Ok_0)) is Settled)
        }),
{
}

} // verus!
