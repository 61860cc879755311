//! Controllers: a peripheral held together with its kind, which is asked of
//! the device once, when the controller is made.
use vstd::prelude::*;
use crate::driver::{AudioDevice, AudioInfo, DisplayDevice, DisplayInfo, InputDevice, InputInfo};

verus! {

/// An input device and its kind.
pub struct Input<I: InputDevice> {
    info: InputInfo,
    src: I,
}

impl<I: InputDevice> Input<I> {
    /// The kind that the controller holds.
    pub closed spec fn info(&self) -> InputInfo {
        self.info
    }

    /// The device that the controller holds.
    pub closed spec fn src(&self) -> I {
        self.src
    }

    /// The kind that the controller holds is that of its device.
    pub open spec fn wf(&self) -> bool {
        self.info() == self.src().kind()
    }

    /// Takes the device and asks it for its kind.
    pub fn init(src: I) -> (input: Self)
        ensures
            input.wf(),
            input.src() == src,
    {
        Input { info: src.device_info(), src }
    }
}

/// A display device and its kind.
pub struct Display<D: DisplayDevice> {
    info: DisplayInfo,
    src: D,
}

impl<D: DisplayDevice> Display<D> {
    /// The kind that the controller holds.
    pub closed spec fn info(&self) -> DisplayInfo {
        self.info
    }

    /// The device that the controller holds.
    pub closed spec fn src(&self) -> D {
        self.src
    }

    /// The kind that the controller holds is that of its device.
    pub open spec fn wf(&self) -> bool {
        self.info() == self.src().kind()
    }

    /// Takes the device and asks it for its kind.
    pub fn init(src: D) -> (display: Self)
        ensures
            display.wf(),
            display.src() == src,
    {
        Display { info: src.device_info(), src }
    }

    /// Has the device show the frame that it took last.
    pub fn output(&mut self)
        requires
            old(self).wf(),
        ensures
            final(self).wf(),
            final(self).info() == old(self).info(),
            old(self).src().driven(&final(self).src()),
    {
        self.src.drive_display()
    }
}

/// An audio device and its kind.
pub struct Audio<A: AudioDevice> {
    info: AudioInfo,
    src: A,
}

impl<A: AudioDevice> Audio<A> {
    /// The kind that the controller holds.
    pub closed spec fn info(&self) -> AudioInfo {
        self.info
    }

    /// The device that the controller holds.
    pub closed spec fn src(&self) -> A {
        self.src
    }

    /// The kind that the controller holds is that of its device.
    pub open spec fn wf(&self) -> bool {
        self.info() == self.src().kind()
    }

    /// Takes the device and asks it for its kind.
    pub fn init(src: A) -> (audio: Self)
        ensures
            audio.wf(),
            audio.src() == src,
    {
        Audio { info: src.device_info(), src }
    }

    /// Has the device play the tone that it took last.
    pub fn output(&mut self)
        requires
            old(self).wf(),
        ensures
            final(self).wf(),
            final(self).info() == old(self).info(),
            old(self).src().played(&final(self).src()),
    {
        self.src.play_sound()
    }
}

} // verus!
