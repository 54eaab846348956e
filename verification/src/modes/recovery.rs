//! Recovery: what the controller does while the driver reports a warning,
//! which is to wait.

use vstd::prelude::*;
use crate::action::{Action, ActionList};
use crate::error::Error;

verus! {

/// The pause that holds the other modes back until the warnings clear.
#[derive(Clone, Copy, Debug, PartialEq, Eq, Structural)]
pub struct RecoveryMode {}

impl RecoveryMode {
    pub fn new() -> (r: RecoveryMode)
        ensures
            r == (RecoveryMode {  }),
    {
        RecoveryMode {  }
    }

    /// Lets a step pass: asks for nothing and changes nothing.
    pub fn step(&mut self) -> (r: Result<ActionList, Error>)
        ensures
            *final(self) == *old(self),
            r matches Ok(actions) && actions@ == Seq::<Action>::empty(),
    {
        Ok(ActionList::new())
    }
}

} // verus!
