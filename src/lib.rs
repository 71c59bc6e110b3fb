//! The parameter synchronisation core of a one-parameter gain plugin: the committed
//! gain, the channel pair between the host side and the GUI, the GUI's drag state
//! machine and the editor's open/close lifecycle. Gain is held in fixed point.
use vstd::prelude::*;

pub mod channel;
pub mod gain;
pub mod gui;
pub mod host;

verus! {

} // verus!
