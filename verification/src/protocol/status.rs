use vstd::prelude::*;

verus! {

/// A status reply of StellwerkSim (`<status code='...'>text</status>`).
#[derive(Debug, Clone, PartialEq, Eq)]
pub struct Status {
    /// The status code.
    pub code: u16,
    /// The human readable text that accompanies the code.
    pub text: String,
}

/// The code with which StellwerkSim greets a freshly connected plugin.
pub const GREETING_CODE: u16 = 300;

/// The code with which StellwerkSim accepts a plugin's registration.
pub const REGISTERED_CODE: u16 = 220;

} // verus!
