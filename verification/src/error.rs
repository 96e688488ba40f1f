//! Driver-level error: every bus-transport failure collapses into one kind.

use vstd::prelude::*;

verus! {

/// Error returned by every operation that touches the bus.
#[derive(Clone, Copy, Debug, PartialEq, Eq, Structural)]
pub enum Error {
    /// A bus transaction (write or write-then-read) failed.
    I2cError,
}

} // verus!
