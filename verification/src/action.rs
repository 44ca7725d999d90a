//! Messages from the commands to the subscription listener.

use vstd::prelude::*;

verus! {

/// What the subscription listener is asked to do with a streamer.
#[derive(Clone, Copy, PartialEq, Eq, Structural, Debug)]
pub enum Action {
    /// Follow the streamer (one more guild follows it).
    Add,
    /// Stop following the streamer for one guild.
    Remove,
    /// Stop listening altogether; the name is ignored.
    Abort,
}

/// A streamer name and what to do with it.
pub type StreamerMessage = (String, Action);

} // verus!
