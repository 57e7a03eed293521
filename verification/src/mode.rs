//! Display timings.

use vstd::prelude::*;

verus! {

/// A display timing: pixel clock, horizontal and vertical timings, flags.
///
/// Two modes are the same mode exactly if all their fields agree.
#[derive(Clone, Copy, Debug, PartialEq, Eq, Structural)]
pub struct Mode {
    /// Pixel clock in kHz.
    pub clock: u32,
    pub hdisplay: u16,
    pub hsync_start: u16,
    pub hsync_end: u16,
    pub htotal: u16,
    pub hskew: u16,
    pub vdisplay: u16,
    pub vsync_start: u16,
    pub vsync_end: u16,
    pub vtotal: u16,
    pub vscan: u16,
    /// Vertical refresh rate in Hz.
    pub vrefresh: u32,
    pub flags: u32,
    pub mode_type: u32,
}

impl Mode {
    /// The mode with every field zero, which stands for "no mode".
    pub open spec fn spec_zeroed() -> Mode {
        Mode {
            clock: 0,
            hdisplay: 0,
            hsync_start: 0,
            hsync_end: 0,
            htotal: 0,
            hskew: 0,
            vdisplay: 0,
            vsync_start: 0,
            vsync_end: 0,
            vtotal: 0,
            vscan: 0,
            vrefresh: 0,
            flags: 0,
            mode_type: 0,
        }
    }

    /// The mode with every field zero.
    #[verifier::when_used_as_spec(spec_zeroed)]
    pub fn zeroed() -> (m: Mode)
        ensures
            m == Mode::spec_zeroed(),
    {
        Mode {
            clock: 0,
            hdisplay: 0,
            hsync_start: 0,
            hsync_end: 0,
            htotal: 0,
            hskew: 0,
            vdisplay: 0,
            vsync_start: 0,
            vsync_end: 0,
            vtotal: 0,
            vscan: 0,
            vrefresh: 0,
            flags: 0,
            mode_type: 0,
        }
    }

    /// The resolution: active width and height in pixels.
    pub fn size(&self) -> (s: (u16, u16))
        ensures
            s == (self.hdisplay, self.vdisplay),
    {
        (self.hdisplay, self.vdisplay)
    }
}

/// Whether `modes` lists `mode`.
pub fn modes_contain(modes: &Vec<Mode>, mode: &Mode) -> (b: bool)
    ensures
        b == modes@.contains(*mode),
{
    let mut i: usize = 0;
    while i < modes.len()
        invariant
            i <= modes@.len(),
            forall|k: int| 0 <= k < i ==> modes@[k] != *mode,
        decreases modes@.len() - i,
    {
        if modes[i] == *mode {
            assert(modes@[i as int] == *mode);
            return true;
        }
        i = i + 1;
    }
    false
}

} // verus!
