//! The connection handshake: StellwerkSim greets the plugin, the plugin registers, and
//! StellwerkSim accepts the registration.

use vstd::prelude::*;

use crate::error::Error;
use crate::protocol::status::{GREETING_CODE, REGISTERED_CODE, Status};

verus! {

/// How far the handshake has come.
#[derive(Debug, Clone, Copy, PartialEq, Eq, Structural)]
pub enum Handshake {
    /// Connected; waiting for StellwerkSim's greeting.
    AwaitingGreeting,
    /// Greeted; the plugin sends its registration and waits for the answer.
    AwaitingRegistration,
    /// Registered; the plugin is ready.
    Registered,
}

/// The state after a status with `code` arrives in `state`, or `None` where the code is
/// not the one the protocol expects there.
pub open spec fn next_state(state: Handshake, code: u16) -> Option<Handshake> {
    match state {
        Handshake::AwaitingGreeting => if code == GREETING_CODE {
            Some(Handshake::AwaitingRegistration)
        } else {
            None
        },
        Handshake::AwaitingRegistration => if code == REGISTERED_CODE {
            Some(Handshake::Registered)
        } else {
            None
        },
        Handshake::Registered => None,
    }
}

/// The state after the statuses with `codes` arrive one after another from `state`, or
/// `None` where one of them is refused.
pub open spec fn run(state: Handshake, codes: Seq<u16>) -> Option<Handshake>
    decreases codes.len(),
{
    if codes.len() == 0 {
        Some(state)
    } else {
        match next_state(state, codes[0]) {
            Some(s) => run(s, codes.drop_first()),
            None => None,
        }
    }
}

impl Handshake {
    /// The state of a fresh connection.
    pub fn start() -> (r: Handshake)
        ensures
            r == Handshake::AwaitingGreeting,
    {
        Handshake::AwaitingGreeting
    }

    /// Takes the status that StellwerkSim sent in this state. A status with another code
    /// than the one expected here is refused with `InvalidResponse` and that status.
    pub fn step(self, status: Status) -> (r: Result<Handshake, Error>)
        requires
            self != Handshake::Registered,
        ensures
            match next_state(self, status.code) {
                Some(s) => r == Ok::<Handshake, Error>(s),
                None => r == Err::<Handshake, Error>(Error::InvalidResponse(status)),
            },
    {
        match self {
            Handshake::AwaitingGreeting => {
                if status.code == GREETING_CODE {
                    Ok(Handshake::AwaitingRegistration)
                } else {
                    Err(Error::InvalidResponse(status))
                }
            },
            _ => {
                if status.code == REGISTERED_CODE {
                    Ok(Handshake::Registered)
                } else {
                    Err(Error::InvalidResponse(status))
                }
            },
        }
    }
}

/// A plugin ends up registered exactly when StellwerkSim first greets it with code 300
/// and then accepts its registration with code 220; any other pair of statuses stops the
/// handshake, and so does any status after registration.
pub proof fn lemma_registered_iff_greeted_then_accepted(codes: Seq<u16>)
    ensures
        run(Handshake::AwaitingGreeting, codes) == Some(Handshake::Registered) <==> codes
            == seq![GREETING_CODE, REGISTERED_CODE],
{
    let s = Handshake::AwaitingGreeting;
    if codes.len() >= 1 && codes[0] == GREETING_CODE {
        let c1 = codes.drop_first();
        assert(run(s, codes) == run(Handshake::AwaitingRegistration, c1));
        if c1.len() >= 1 && c1[0] == REGISTERED_CODE {
            let c2 = c1.drop_first();
            assert(run(Handshake::AwaitingRegistration, c1) == run(Handshake::Registered, c2));
            if c2.len() > 0 {
                assert(run(Handshake::Registered, c2) is None);
                assert(codes.len() > 2);
            } else {
                assert(codes =~= seq![GREETING_CODE, REGISTERED_CODE]);
            }
        } else {
            if c1.len() == 0 {
                assert(run(Handshake::AwaitingRegistration, c1) == Some(Handshake::AwaitingRegistration));
            } else {
                assert(run(Handshake::AwaitingRegistration, c1) is None);
            }
            assert(codes != seq![GREETING_CODE, REGISTERED_CODE] || c1[0] == REGISTERED_CODE);
        }
    } else {
        if codes.len() == 0 {
            assert(run(s, codes) == Some(s));
        } else {
            assert(run(s, codes) is None);
        }
        assert(codes != seq![GREETING_CODE, REGISTERED_CODE] || codes[0] == GREETING_CODE);
    }
}

} // verus!
