//! Core of a KMS scan-out surface: the state a display pipeline keeps about
//! one CRTC, its planes, connectors and mode, and the rules by which requests
//! become kernel calls.
//!
//! The crate performs no I/O. Every operation that needs the kernel comes as
//! a pair: a function that validates the request and returns the calls to
//! perform, and a function that takes the kernel's reply and updates the
//! shadow state.

pub mod atomic;
pub mod blob;
pub mod claim;
pub mod connectors;
pub mod damage;
pub mod error;
pub mod format;
pub mod geometry;
pub mod kernel;
pub mod legacy;
pub mod mode;
pub mod plane;
pub mod properties;
pub mod request;
pub mod resources;
pub mod session;
pub mod state;
pub mod surface;
pub mod validity;

pub use crate::claim::{PlaneClaim, PlaneClaimStorage};
pub use crate::damage::PlaneDamageClips;
pub use crate::error::Error;
pub use crate::format::Format;
pub use crate::kernel::{KernelCall, KernelReply};
pub use crate::mode::Mode;
pub use crate::plane::{PlaneConfig, PlaneState, Planes, Transform};
pub use crate::session::{AsErrno, Event, Session};
pub use crate::surface::{DrmSurface, DrmSurfaceInternal};
