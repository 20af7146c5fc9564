use vstd::prelude::*;

use crate::protocol::status::Status;

verus! {

/// The errors that the decisions of this library can end in.
#[derive(Debug, Clone, PartialEq, Eq)]
pub enum Error {
    /// StellwerkSim answered with a status code other than the one the protocol expects.
    InvalidResponse(Status),
    /// A channel between the parts of the plugin failed; the text says what was lost.
    ChannelError(String),
}

} // verus!
