//! The calls that a surface asks its caller to make, and the kernel's reply.

use vstd::prelude::*;
use crate::mode::Mode;
use crate::request::PropertyAssignment;

verus! {

/// One call into the kernel.
#[derive(Clone, Debug, PartialEq, Eq)]
pub enum KernelCall {
    /// An atomic commit of `properties` with `flags`.
    Atomic { flags: u32, properties: Vec<PropertyAssignment> },
    /// A legacy modeset: `framebuffer` is shown at the origin of `crtc`, on
    /// `connectors`, in `mode`.
    SetCrtc { crtc: u32, framebuffer: Option<u32>, connectors: Vec<u32>, mode: Option<Mode> },
    /// A legacy page flip of `crtc` to the framebuffer `target`, with an event when it
    /// is done if `event` is set.
    PageFlip { crtc: u32, target: u32, event: bool },
}

/// A call as a value.
#[verifier::ext_equal]
pub enum KernelCallView {
    Atomic { flags: u32, properties: Seq<PropertyAssignment> },
    SetCrtc { crtc: u32, framebuffer: Option<u32>, connectors: Seq<u32>, mode: Option<Mode> },
    PageFlip { crtc: u32, target: u32, event: bool },
}

impl View for KernelCall {
    type V = KernelCallView;

    open spec fn view(&self) -> KernelCallView {
        match *self {
            KernelCall::Atomic { flags, properties } => KernelCallView::Atomic {
                flags,
                properties: properties@,
            },
            KernelCall::SetCrtc { crtc, framebuffer, connectors, mode } => KernelCallView::SetCrtc {
                crtc,
                framebuffer,
                connectors: connectors@,
                mode,
            },
            KernelCall::PageFlip { crtc, target, event } => KernelCallView::PageFlip {
                crtc,
                target,
                event,
            },
        }
    }
}

/// The calls of a list as values.
pub open spec fn calls_view(calls: Seq<KernelCall>) -> Seq<KernelCallView> {
    Seq::new(calls.len(), |i: int| calls[i]@)
}

/// What became of the calls that a surface asked for. The caller makes them
/// in their order and stops at the first that fails.
#[derive(Clone, Copy, Debug, PartialEq, Eq, Structural)]
pub enum KernelReply {
    /// Every call succeeded.
    Done,
    /// The call at index `step` failed with the error number `errno`. The
    /// calls before it succeeded, those after it were not made.
    Failed { step: usize, errno: i32 },
}

} // verus!
