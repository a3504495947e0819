//! The model a coordinator keeps of its playback window: the two mirrored
//! channel selectors and the volume control.

use vstd::prelude::*;

verus! {

/// A volume control in integer units: the current value, the range it is
/// clamped to, and the step one remote keystroke moves it by.
#[derive(Clone, Copy, Debug, PartialEq, Eq, Structural)]
pub struct VolumeControl {
    pub value: u32,
    pub lower: u32,
    pub upper: u32,
    pub step: u32,
}

/// Where one upward step from `v` lands: clamped at the upper bound.
pub open spec fn spec_volume_up(v: VolumeControl) -> int {
    if v.value + v.step < v.upper {
        v.value + v.step
    } else {
        v.upper as int
    }
}

/// Where one downward step from `v` lands: clamped at the lower bound.
pub open spec fn spec_volume_down(v: VolumeControl) -> int {
    if v.value - v.step > v.lower {
        v.value - v.step
    } else {
        v.lower as int
    }
}

impl VolumeControl {
    pub open spec fn wf(self) -> bool {
        self.lower <= self.value <= self.upper
    }

    /// Step the volume up, clamping at the upper bound.
    pub fn volume_up(&mut self)
        requires
            old(self).wf(),
        ensures
            final(self).wf(),
            final(self).value == spec_volume_up(*old(self)),
            final(self).lower == old(self).lower,
            final(self).upper == old(self).upper,
            final(self).step == old(self).step,
    {
        if self.upper - self.value > self.step {
            self.value = self.value + self.step;
        } else {
            self.value = self.upper;
        }
    }

    /// Step the volume down, clamping at the lower bound.
    pub fn volume_down(&mut self)
        requires
            old(self).wf(),
        ensures
            final(self).wf(),
            final(self).value == spec_volume_down(*old(self)),
            final(self).lower == old(self).lower,
            final(self).upper == old(self).upper,
            final(self).step == old(self).step,
    {
        if self.value - self.lower > self.step {
            self.value = self.value - self.step;
        } else {
            self.value = self.lower;
        }
    }
}

/// What the coordinator knows of a live playback window: the window's own
/// channel selector, the fullscreen variant's selector, and the volume
/// control. The playback engine itself belongs to the window.
#[derive(Clone, Copy, Debug, PartialEq, Eq, Structural)]
pub struct FrontendWindow {
    pub channel_selector: u32,
    pub fullscreen_channel_selector: u32,
    pub volume: VolumeControl,
}

impl FrontendWindow {
    pub open spec fn wf(self) -> bool {
        self.volume.wf()
    }
}

} // verus!
