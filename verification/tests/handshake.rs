use stellwerksim::error::Error;
use stellwerksim::handshake::Handshake;
use stellwerksim::protocol::status::Status;

fn status(code: u16) -> Status {
    Status { code, text: "text".to_string() }
}

#[test]
fn greeting_then_acceptance_registers() {
    let s = Handshake::start();
    assert_eq!(s, Handshake::AwaitingGreeting);
    let s = s.step(status(300)).unwrap();
    assert_eq!(s, Handshake::AwaitingRegistration);
    let s = s.step(status(220)).unwrap();
    assert_eq!(s, Handshake::Registered);
}

#[test]
fn wrong_greeting_is_refused() {
    let r = Handshake::start().step(status(220));
    assert_eq!(r, Err(Error::InvalidResponse(status(220))));
}

#[test]
fn refused_registration_is_an_error() {
    let r = Handshake::AwaitingRegistration.step(status(400));
    assert_eq!(r, Err(Error::InvalidResponse(status(400))));
}
