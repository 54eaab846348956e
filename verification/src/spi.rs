//! What goes over the bus of a peripheral.
//!
//! Both peripherals answer a frame with the value of the register that the
//! frame before it selected. A read therefore sends the frame of its register
//! once, if that register was selected by the transfer before, and twice
//! otherwise.

use vstd::prelude::*;

verus! {

/// One frame, sent `count` times in a row. The reply to the last transfer is
/// the one that counts.
#[derive(Clone, Copy, Debug, PartialEq, Eq, Structural)]
pub struct Transfers {
    pub frame: u16,
    pub count: usize,
}

impl View for Transfers {
    type V = Seq<u16>;

    /// The frames in the order in which they go over the bus.
    open spec fn view(&self) -> Seq<u16> {
        Seq::new(self.count as nat, |i: int| self.frame)
    }
}

} // verus!
