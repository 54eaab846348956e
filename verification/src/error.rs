//! What can go wrong inside the controller core.

use vstd::prelude::*;

verus! {

/// A reply that no live peripheral sends: the bus read back all ones.
#[derive(Clone, Copy, Debug, PartialEq, Eq, Structural)]
pub enum Error {
    /// The driver answered `0xFFFF`.
    Drv8305Offline,
    /// The position sensor answered `0xFFFF`.
    PositionSensorOffline,
}

/// The word that an absent peripheral leaves on the bus.
pub const OFFLINE_REPLY: u16 = 0xFFFF;

impl Error {
    /// The text of `message`.
    pub open spec fn spec_message(&self) -> Seq<char> {
        match self {
            Error::Drv8305Offline => "Drv8305 offline"@,
            Error::PositionSensorOffline => "Position sensor offline"@,
        }
    }

    /// A short description for the operator.
    pub fn message(&self) -> (r: &'static str)
        ensures
            r@ == self.spec_message(),
    {
        match self {
            Error::Drv8305Offline => "Drv8305 offline",
            Error::PositionSensorOffline => "Position sensor offline",
        }
    }
}

} // verus!
