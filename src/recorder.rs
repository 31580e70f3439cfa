//! The draw recorder: a command sequence scoped to one framebuffer.
use vstd::prelude::*;

verus! {

/// Width and height of a drawable area, in pixels.
#[derive(Clone, Copy, PartialEq, Eq, Structural, Debug)]
pub struct Extent {
    pub width: u32,
    pub height: u32,
}

impl Extent {
    /// Both axes are positive: a target of this size can be built.
    pub open spec fn has_area(self) -> bool {
        self.width > 0 && self.height > 0
    }

    pub fn is_drawable(&self) -> (r: bool)
        ensures
            r == self.has_area(),
    {
        self.width > 0 && self.height > 0
    }
}

/// A colour with 8 bits per channel, used to clear the target.
#[derive(Clone, Copy, PartialEq, Eq, Structural, Debug)]
pub struct Rgba {
    pub r: u8,
    pub g: u8,
    pub b: u8,
    pub a: u8,
}

/// One framebuffer of a render-target set: the swapchain image it binds and
/// the size it was built at.
#[derive(Clone, Copy, PartialEq, Eq, Structural, Debug)]
pub struct Framebuffer {
    pub image: usize,
    pub extent: Extent,
}

/// One draw: a primitive, drawn with a viewport of the given size.
#[derive(Debug)]
pub struct DrawCommand<T> {
    pub primitive: T,
    pub viewport: Extent,
}

/// The draw commands that `prims` become with the given viewport, in order.
pub open spec fn draws_of<T>(prims: Seq<T>, viewport: Extent) -> Seq<DrawCommand<T>> {
    Seq::new(prims.len(), |i: int| DrawCommand { primitive: prims[i], viewport })
}

/// A command sequence being recorded: it binds one framebuffer, clears it,
/// and collects draws in the order they are appended.
pub struct DrawRecorder<T> {
    framebuffer: Framebuffer,
    clear: Rgba,
    draws: Vec<DrawCommand<T>>,
}

/// A finished, immutable command sequence, ready to be submitted.
#[derive(Debug)]
pub struct CommandSequence<T> {
    pub framebuffer: Framebuffer,
    pub clear: Rgba,
    pub draws: Vec<DrawCommand<T>>,
}

impl<T> DrawRecorder<T> {
    pub closed spec fn target(&self) -> Framebuffer {
        self.framebuffer
    }

    pub closed spec fn clear_color(&self) -> Rgba {
        self.clear
    }

    pub closed spec fn draws(&self) -> Seq<DrawCommand<T>> {
        self.draws@
    }

    /// Begins recording against `framebuffer`, clearing it to `clear`.
    pub fn open(framebuffer: Framebuffer, clear: Rgba) -> (r: Self)
        ensures
            r.target() == framebuffer,
            r.clear_color() == clear,
            r.draws() == Seq::<DrawCommand<T>>::empty(),
    {
        DrawRecorder { framebuffer, clear, draws: Vec::new() }
    }

    /// Appends one draw after those already recorded.
    pub fn record(&mut self, draw: DrawCommand<T>)
        ensures
            final(self).target() == old(self).target(),
            final(self).clear_color() == old(self).clear_color(),
            final(self).draws() == old(self).draws().push(draw),
    {
        self.draws.push(draw);
    }

    /// Ends the pass and hands out the recorded sequence.
    pub fn close(self) -> (r: CommandSequence<T>)
        ensures
            r.framebuffer == self.target(),
            r.clear == self.clear_color(),
            r.draws@ == self.draws(),
    {
        CommandSequence { framebuffer: self.framebuffer, clear: self.clear, draws: self.draws }
    }
}

} // verus!
