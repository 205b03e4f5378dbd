//! Messages a user interface sends the recording state machine.

use vstd::prelude::*;

verus! {

/// A user-interface event: the record button, or a clock tick carrying
/// the current time in milliseconds.
#[derive(Clone, Copy, Debug)]
pub enum Message {
    OnBtnRecord,
    Tick(u64),
}

} // verus!
