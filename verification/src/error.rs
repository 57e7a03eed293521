//! Failures of surface operations and the classification of kernel errors.

use vstd::prelude::*;
use crate::mode::Mode;

verus! {

/// Operation not permitted.
pub const EPERM: i32 = 1;

/// Permission denied.
pub const EACCES: i32 = 13;

/// Device or resource busy.
pub const EBUSY: i32 = 16;

/// Invalid argument.
pub const EINVAL: i32 = 22;

/// The kernel calls a surface asks for, as labels of failures.
#[derive(Clone, Copy, Debug, PartialEq, Eq, Structural)]
pub enum Operation {
    /// An atomic commit flagged test-only.
    AtomicTest,
    /// An atomic commit that may reconfigure the timing.
    AtomicCommit,
    /// An atomic commit that may not reconfigure the timing.
    AtomicPageFlip,
    /// An atomic commit that disables one plane.
    ClearPlane,
    /// A legacy modeset.
    SetCrtc,
    /// A legacy modeset performed to try a buffer.
    TestBuffer,
    /// A legacy page flip.
    PageFlip,
    /// The legacy request for an event at the next vertical blank.
    VblankRequest,
}

impl Operation {
    /// Whether the operation leaves the pipeline as it was when it succeeds.
    pub open spec fn spec_is_test(self) -> bool {
        self == Operation::AtomicTest
    }

    /// Whether the operation leaves the pipeline as it was when it succeeds.
    #[verifier::when_used_as_spec(spec_is_test)]
    pub fn is_test(self) -> (b: bool)
        ensures
            b == self.spec_is_test(),
    {
        self == Operation::AtomicTest
    }
}

/// Why a surface operation failed.
#[derive(Clone, Copy, Debug, PartialEq, Eq, Structural)]
pub enum Error {
    /// A kernel call failed.
    Access {
        /// The call that failed.
        operation: Operation,
        /// The kernel's error number.
        errno: i32,
    },
    /// The session is paused or the right to configure the device is lost.
    DeviceInactive,
    /// No plane state was given.
    NoPlane,
    /// The primary plane was needed and this plane was given.
    NonPrimaryPlane(u32),
    /// This plane has no configuration where it needs one.
    NoFramebuffer(u32),
    /// The engine or the driver cannot express this plane's configuration.
    UnsupportedPlaneConfiguration(u32),
    /// No encoder links this connector to the CRTC.
    IncompatibleEncoder(u32),
    /// A connector does not list this mode.
    ModeNotSuitable(Mode),
    /// The kernel rejected the tested state of this CRTC.
    TestFailed(u32),
}

/// The failure that stands for error number `errno` of `operation` on the
/// CRTC `crtc`.
///
/// A lost right to configure the device is reported as an inactive device
/// whatever the call was. An invalid argument on a test means that the tested
/// state is rejected. Everything else is an access failure that carries the
/// error number, a busy device on a commit among them.
pub open spec fn spec_classify(operation: Operation, crtc: u32, errno: i32) -> Error {
    if errno == EACCES || errno == EPERM {
        Error::DeviceInactive
    } else if operation.spec_is_test() && errno == EINVAL {
        Error::TestFailed(crtc)
    } else {
        Error::Access { operation, errno }
    }
}

/// The failure that stands for error number `errno` of `operation` on the
/// CRTC `crtc`.
#[verifier::when_used_as_spec(spec_classify)]
pub fn classify(operation: Operation, crtc: u32, errno: i32) -> (e: Error)
    ensures
        e == spec_classify(operation, crtc, errno),
{
    if errno == EACCES || errno == EPERM {
        Error::DeviceInactive
    } else if operation.is_test() && errno == EINVAL {
        Error::TestFailed(crtc)
    } else {
        Error::Access { operation, errno }
    }
}

impl Error {
    /// Whether the failure tells the caller to try the same commit again
    /// later: the kernel was busy with an earlier flip.
    pub open spec fn spec_is_retry_later(&self) -> bool {
        match *self {
            Error::Access { operation, errno } => errno == EBUSY && !operation.spec_is_test(),
            _ => false,
        }
    }

    /// Whether the failure tells the caller to try the same commit again
    /// later.
    #[verifier::when_used_as_spec(spec_is_retry_later)]
    pub fn is_retry_later(&self) -> (b: bool)
        ensures
            b == self.spec_is_retry_later(),
    {
        match *self {
            Error::Access { operation, errno } => errno == EBUSY && !operation.is_test(),
            _ => false,
        }
    }

    /// The kernel's error number, where the failure carries one.
    pub open spec fn spec_errno(&self) -> Option<i32> {
        match *self {
            Error::Access { errno, .. } => Some(errno),
            _ => None,
        }
    }
}

} // verus!
