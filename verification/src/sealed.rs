//! The sealed part of the `Pin` trait. This module is private to the crate,
//! so no type outside of it can implement `Pin`.
use vstd::prelude::*;

use crate::gpio::{Bank, PinId};

verus! {

/// Sealed part of `Pin`: it cannot be implemented outside of this crate, so
/// every pin reports a number below 32.
pub trait SealedPin: Sized {
    /// The bank and number of this pin.
    spec fn pin_id(&self) -> PinId;

    /// Returns the bank of this pin.
    fn pin_bank(&self) -> (r: Bank)
        ensures
            r == self.pin_id().bank,
    ;

    /// Returns the pin number within its bank.
    fn pin_number(&self) -> (r: u8)
        ensures
            r == self.pin_id().number,
            r < 32,
    ;
}

} // verus!
