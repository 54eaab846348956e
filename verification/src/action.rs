//! What the controller asks of the hardware around it.
//!
//! A step of the controller returns a list of actions. Whoever owns the
//! hardware carries them out in order. The controller takes each action as
//! done when it asks for it; if one of them fails, the run is over and only
//! `Bldc::safemode` may follow.

use vstd::prelude::*;
use crate::drv_8305::{Drv8305, WarningFlag};
use crate::error::Error;
use crate::magnet_controller::{DutyCommand, MagnetController};
use crate::position_sensor::PositionSensor;

verus! {

/// A line for the diagnostic channel.
#[derive(Clone, Copy, Debug, PartialEq, Eq, Structural)]
pub enum Report {
    /// `Found zero at <angle> radians`
    FoundZero(i64),
    /// `Found forward extent at <angle> radians`
    FoundForwardExtent(i64),
    /// `Found backward extent at <angle> radians`
    FoundBackwardExtent(i64),
    /// The line of a warning flag (`WarningFlag::line`).
    Warning(WarningFlag),
}

impl Report {
    /// The text of `label`.
    pub open spec fn spec_label(&self) -> Seq<char> {
        match self {
            Report::FoundZero(_) => "Found zero at"@,
            Report::FoundForwardExtent(_) => "Found forward extent at"@,
            Report::FoundBackwardExtent(_) => "Found backward extent at"@,
            Report::Warning(flag) => flag.spec_line(),
        }
    }

    /// The words of the line. A warning's line is its label; the line of a
    /// find is its label, the angle in radians and the word `radians`, with a
    /// space between each.
    pub fn label(&self) -> (r: &'static str)
        ensures
            r@ == self.spec_label(),
    {
        match self {
            Report::FoundZero(_) => "Found zero at",
            Report::FoundForwardExtent(_) => "Found forward extent at",
            Report::FoundBackwardExtent(_) => "Found backward extent at",
            Report::Warning(flag) => flag.line(),
        }
    }

    /// What `angle` returns.
    pub open spec fn spec_angle(&self) -> Option<i64> {
        match self {
            Report::FoundZero(angle) => Some(*angle),
            Report::FoundForwardExtent(angle) => Some(*angle),
            Report::FoundBackwardExtent(angle) => Some(*angle),
            Report::Warning(_) => None,
        }
    }

    /// The angle that the line of a find carries.
    pub fn angle(&self) -> (r: Option<i64>)
        ensures
            r == self.spec_angle(),
    {
        match self {
            Report::FoundZero(angle) => Some(*angle),
            Report::FoundForwardExtent(angle) => Some(*angle),
            Report::FoundBackwardExtent(angle) => Some(*angle),
            Report::Warning(_) => None,
        }
    }
}

/// One thing for the hardware to do.
#[derive(Clone, Copy, Debug, PartialEq, Eq, Structural)]
pub enum Action {
    /// Release the driver's chip select and start its bus.
    StartDriver,
    /// Drive the enable line of the gates high.
    EnableGate,
    /// Drive the enable line of the gates low.
    DisableGate,
    /// Write the three duty cycles of the command to the timer.
    Command(DutyCommand),
    /// Take the angle as the sensor's zero from now on, and put the line
    /// `SET OFFSET` on the diagnostic channel.
    SetOffset(i64),
    /// Put a line on the diagnostic channel.
    Report(Report),
}

/// The most actions that a list holds.
pub const MAX_ACTIONS: usize = 16;

/// A list of actions, in the order in which they are to be carried out. It
/// holds up to `MAX_ACTIONS` of them in place, and so needs no heap.
#[derive(Clone, Copy, Debug)]
pub struct ActionList {
    len: usize,
    items: [Action; 16],
}

impl View for ActionList {
    type V = Seq<Action>;

    /// The actions, first to last.
    closed spec fn view(&self) -> Seq<Action> {
        self.items@.take(self.len as int)
    }
}

impl ActionList {
    #[verifier::type_invariant]
    spec fn inv(&self) -> bool {
        self.len <= MAX_ACTIONS
    }

    /// A list without actions.
    pub fn new() -> (r: ActionList)
        ensures
            r@ == Seq::<Action>::empty(),
    {
        let r = ActionList { len: 0, items: [Action::StartDriver; 16] };
        assert(r@ =~= Seq::<Action>::empty());
        r
    }

    /// The number of actions in the list.
    pub fn len(&self) -> (r: usize)
        ensures
            r == self@.len(),
            r <= MAX_ACTIONS,
    {
        proof {
            use_type_invariant(self);
        }
        self.len
    }

    pub fn is_empty(&self) -> (r: bool)
        ensures
            r == (self@.len() == 0),
    {
        proof {
            use_type_invariant(self);
        }
        self.len == 0
    }

    /// The action at place `i`, counted from zero, if the list is that long.
    pub fn get(&self, i: usize) -> (r: Option<Action>)
        ensures
            r == if i < self@.len() {
                Some(self@[i as int])
            } else {
                None
            },
    {
        proof {
            use_type_invariant(self);
        }
        if i < self.len {
            Some(self.items[i])
        } else {
            None
        }
    }

    fn at(&self, i: usize) -> (r: Action)
        requires
            i < self@.len(),
        ensures
            r == self@[i as int],
    {
        proof {
            use_type_invariant(self);
        }
        self.items[i]
    }

    /// Puts an action at the end of the list.
    pub fn push(&mut self, action: Action)
        requires
            old(self)@.len() < MAX_ACTIONS,
        ensures
            final(self)@ == old(self)@.push(action),
    {
        proof {
            use_type_invariant(&*self);
        }
        let ghost before = self@;
        self.items[self.len] = action;
        self.len = self.len + 1;
        assert(self@ =~= before.push(action));
    }

    /// Puts the actions of `other` at the end of the list.
    pub fn append(&mut self, other: &ActionList)
        requires
            old(self)@.len() + other@.len() <= MAX_ACTIONS,
        ensures
            final(self)@ == old(self)@ + other@,
    {
        let n = other.len();
        let mut i: usize = 0;
        assert(self@ + other@.take(0) =~= self@);
        while i < n
            invariant
                i <= n,
                n == other@.len(),
                old(self)@.len() + n <= MAX_ACTIONS,
                self@ == old(self)@ + other@.take(i as int),
            decreases n - i,
        {
            let action = other.at(i);
            assert((old(self)@ + other@.take(i as int)).push(action) =~= old(self)@
                + other@.take(i + 1));
            self.push(action);
            i = i + 1;
        }
        assert(other@.take(n as int) =~= other@);
    }
}

/// The result of a step with its list of actions as a sequence.
pub open spec fn spec_outcome(r: Result<ActionList, Error>) -> Result<Seq<Action>, Error> {
    match r {
        Ok(actions) => Ok(actions@),
        Err(e) => Err(e),
    }
}

/// The controller's record of its three peripherals.
#[derive(Clone, Copy, Debug, PartialEq, Eq, Structural)]
pub struct Peripherals {
    pub drv_8305: Drv8305,
    pub magnet_controller: MagnetController,
    pub position_sensor: PositionSensor,
}

impl Peripherals {
    /// The record after `action`: the enable line follows the two actions
    /// on it, the field a command, and the sensor's zero an offset.
    pub open spec fn spec_apply(self, action: Action) -> Peripherals {
        match action {
            Action::StartDriver => self,
            Action::EnableGate => Peripherals {
                drv_8305: Drv8305 { en_gate: true, ..self.drv_8305 },
                ..self
            },
            Action::DisableGate => Peripherals {
                drv_8305: Drv8305 { en_gate: false, ..self.drv_8305 },
                ..self
            },
            Action::Command(command) => Peripherals {
                magnet_controller: self.magnet_controller.spec_apply(command),
                ..self
            },
            Action::SetOffset(offset) => Peripherals {
                position_sensor: PositionSensor { offset, ..self.position_sensor },
                ..self
            },
            Action::Report(_) => self,
        }
    }

    /// The record after the actions, first to last.
    pub open spec fn spec_apply_all(self, actions: Seq<Action>) -> Peripherals
        decreases actions.len(),
    {
        if actions.len() == 0 {
            self
        } else {
            self.spec_apply_all(actions.drop_last()).spec_apply(actions.last())
        }
    }

    /// Records one action.
    pub fn apply(&mut self, action: Action)
        ensures
            *final(self) == old(self).spec_apply(action),
    {
        match action {
            Action::StartDriver => {},
            Action::EnableGate => self.drv_8305.enable_gate(),
            Action::DisableGate => self.drv_8305.disable_gate(),
            Action::Command(command) => self.magnet_controller.apply(command),
            Action::SetOffset(offset) => self.position_sensor.set_offset(offset),
            Action::Report(_) => {},
        }
    }

    /// Records the actions, first to last.
    pub fn apply_all(&mut self, actions: &ActionList)
        ensures
            *final(self) == old(self).spec_apply_all(actions@),
    {
        let n = actions.len();
        let mut i: usize = 0;
        assert(actions@.take(0) =~= Seq::<Action>::empty());
        while i < n
            invariant
                i <= n,
                n == actions@.len(),
                *self == old(self).spec_apply_all(actions@.take(i as int)),
            decreases n - i,
        {
            assert(actions@.take(i + 1).drop_last() =~= actions@.take(i as int));
            self.apply(actions.at(i));
            i = i + 1;
        }
        assert(actions@.take(n as int) =~= actions@);
    }
}

/// Recording two lists of actions one after the other records the two as
/// one list.
pub proof fn lemma_apply_all_add(p: Peripherals, first: Seq<Action>, second: Seq<Action>)
    ensures
        p.spec_apply_all(first + second) == p.spec_apply_all(first).spec_apply_all(second),
    decreases second.len(),
{
    if second.len() == 0 {
        assert(first + second =~= first);
    } else {
        lemma_apply_all_add(p, first, second.drop_last());
        assert((first + second).drop_last() =~= first + second.drop_last());
    }
}

/// Recording a list with one more action records the list and then the
/// action.
pub proof fn lemma_apply_all_push(p: Peripherals, actions: Seq<Action>, action: Action)
    ensures
        p.spec_apply_all(actions.push(action)) == p.spec_apply_all(actions).spec_apply(action),
{
    assert(actions.push(action).drop_last() =~= actions);
}

/// Whether every command in the list keeps its angles in one turn and its
/// power in `[0, UNIT]`.
pub open spec fn spec_commands_wf(actions: Seq<Action>) -> bool {
    forall|i: int|
        0 <= i < actions.len() ==> (#[trigger] actions[i] matches Action::Command(command)
            ==> command.wf())
}

/// Recording actions leaves alone what none of them is about: the enable
/// line without an action on it, the field without a command, the zero
/// without an offset. The bus records and the number of pole pairs it leaves
/// alone in any case, and a field in range stays in range under commands in
/// range.
pub proof fn lemma_apply_all_frame(p: Peripherals, actions: Seq<Action>)
    ensures
        ({
            let q = p.spec_apply_all(actions);
            &&& q.drv_8305.last_command == p.drv_8305.last_command
            &&& q.position_sensor.last_command == p.position_sensor.last_command
            &&& q.position_sensor.num_magnet_pairs == p.position_sensor.num_magnet_pairs
            &&& (forall|i: int|
                0 <= i < actions.len() ==> #[trigger] actions[i] != Action::EnableGate
                    && actions[i] != Action::DisableGate) ==> q.drv_8305 == p.drv_8305
            &&& (forall|i: int| 0 <= i < actions.len() ==> !(#[trigger] actions[i] is Command))
                ==> q.magnet_controller == p.magnet_controller
            &&& (forall|i: int| 0 <= i < actions.len() ==> !(#[trigger] actions[i] is SetOffset))
                ==> q.position_sensor == p.position_sensor
            &&& p.magnet_controller.wf() && spec_commands_wf(actions) ==> q.magnet_controller.wf()
        }),
    decreases actions.len(),
{
    if actions.len() > 0 {
        let before = actions.drop_last();
        lemma_apply_all_frame(p, before);
        assert(forall|i: int| 0 <= i < before.len() ==> before[i] == actions[i]);
        let last = actions[actions.len() - 1];
        assert(last == actions.last());
    }
}

} // verus!
