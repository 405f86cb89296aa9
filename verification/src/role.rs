//! The fixed role a radio task runs under.

use vstd::prelude::*;

verus! {

/// Which side of the radio link a core drives. A role is fixed for the
/// lifetime of a task; there are no runtime transitions between roles.
#[derive(Clone, Copy, Debug, PartialEq, Eq, Structural)]
pub enum Role {
    Transmitter,
    Receiver,
}

} // verus!
