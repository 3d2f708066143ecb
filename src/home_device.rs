//! What every kind of device can do.

use vstd::prelude::*;

verus! {

/// A device that describes its own state in one line of text.
pub trait HomeDevice {
    /// The line that describes the device's current state.
    spec fn line(&self) -> Seq<char>;

    fn report(&self) -> (r: String)
        ensures
            r@ == self.line(),
    ;
}

} // verus!
