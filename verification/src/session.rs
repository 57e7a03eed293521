//! The interface to a session: the provider of devices that tells when the
//! session is paused and when it is active again.

use vstd::prelude::*;
use std::fmt::Debug;
use nix::fcntl::OFlag;

verus! {

/// The flags with which a device is opened. They are handed through to the
/// session as they are.
#[verifier::external_type_specification]
#[verifier::external_body]
pub struct ExOFlag(OFlag);

/// An error that may stand for an error number.
pub trait AsErrno: Debug {
    /// The error number that this error stands for, if there is one.
    fn as_errno(&self) -> Option<i32>;
}

impl AsErrno for () {
    fn as_errno(&self) -> (errno: Option<i32>)
        ensures
            errno is None,
    {
        None
    }
}

/// A session: it opens and closes devices and changes the active virtual
/// terminal.
pub trait Session {
    /// The error of the session.
    type Error: AsErrno;

    /// Opens the device at `path` with `flags`. Returns its file descriptor.
    fn open(&mut self, path: &str, flags: OFlag) -> Result<i32, Self::Error>;

    /// Closes a file descriptor that `open` returned.
    fn close(&mut self, fd: i32) -> Result<(), Self::Error>;

    /// Changes the active virtual terminal.
    fn change_vt(&mut self, vt: i32) -> Result<(), Self::Error>;

    /// Whether the session is active.
    fn is_active(&self) -> bool;

    /// The seat of the session.
    fn seat(&self) -> String;
}

/// What a session tells its devices.
#[derive(Clone, Copy, Debug, PartialEq, Eq, Structural)]
pub enum Event {
    /// The session is paused: every device is to be taken as inactive.
    PauseSession,
    /// The session is active again.
    ActivateSession,
}

impl Event {
    /// Whether devices are active after this event.
    pub open spec fn spec_activates(self) -> bool {
        self == Event::ActivateSession
    }

    /// Whether devices are active after this event.
    #[verifier::when_used_as_spec(spec_activates)]
    pub fn activates(self) -> (b: bool)
        ensures
            b == self.spec_activates(),
    {
        match self {
            Event::PauseSession => false,
            Event::ActivateSession => true,
        }
    }
}

/// The session that is none: it opens nothing, is never active, and sits on
/// the first seat.
impl Session for () {
    type Error = ();

    fn open(&mut self, _path: &str, _flags: OFlag) -> (res: Result<i32, ()>)
        ensures
            res == Err::<i32, ()>(()),
    {
        Err(())
    }

    fn close(&mut self, _fd: i32) -> (res: Result<(), ()>)
        ensures
            res == Err::<(), ()>(()),
    {
        Err(())
    }

    fn change_vt(&mut self, _vt: i32) -> (res: Result<(), ()>)
        ensures
            res == Err::<(), ()>(()),
    {
        Err(())
    }

    fn is_active(&self) -> (active: bool)
        ensures
            !active,
    {
        false
    }

    fn seat(&self) -> (seat: String)
        ensures
            seat@ == "seat0"@,
    {
        "seat0".to_owned()
    }
}

} // verus!
