//! The render-target set: the swapchain's images and one framebuffer each.
use vstd::prelude::*;
use crate::recorder::{Extent, Framebuffer};

verus! {

/// The images of the current swapchain, with a framebuffer built for each.
/// The render pass, and so the colour format, survives every rebuild.
pub struct RenderTargets {
    dimensions: Extent,
    format: u32,
    framebuffers: Vec<Framebuffer>,
}

/// The framebuffers of a set of `count` images made at `dimensions`.
pub open spec fn framebuffers_for(count: nat, dimensions: Extent) -> Seq<Framebuffer> {
    Seq::new(count, |i: int| Framebuffer { image: i as usize, extent: dimensions })
}

impl RenderTargets {
    pub closed spec fn dimensions(&self) -> Extent {
        self.dimensions
    }

    pub closed spec fn format(&self) -> u32 {
        self.format
    }

    pub closed spec fn framebuffers(&self) -> Seq<Framebuffer> {
        self.framebuffers@
    }

    /// One framebuffer per image, each bound to its image at the set's size.
    pub closed spec fn wf(&self) -> bool {
        self.framebuffers@ == framebuffers_for(self.framebuffers@.len(), self.dimensions)
    }

    /// The framebuffers of a well-formed set are those of its images.
    pub proof fn lemma_layout(&self)
        requires
            self.wf(),
        ensures
            self.framebuffers() == framebuffers_for(self.image_count(), self.dimensions()),
    {
    }

    pub open spec fn image_count(&self) -> nat {
        self.framebuffers().len()
    }

    fn build(count: usize, dimensions: Extent) -> (r: Vec<Framebuffer>)
        ensures
            r@ == framebuffers_for(count as nat, dimensions),
    {
        let mut framebuffers: Vec<Framebuffer> = Vec::new();
        let mut i: usize = 0;
        while i < count
            invariant
                i <= count,
                framebuffers@ == framebuffers_for(i as nat, dimensions),
            decreases count - i,
        {
            framebuffers.push(Framebuffer { image: i, extent: dimensions });
            i = i + 1;
            assert(framebuffers@ =~= framebuffers_for(i as nat, dimensions));
        }
        framebuffers
    }

    /// A set of `count` images of the given size and colour format.
    pub fn new(count: usize, dimensions: Extent, format: u32) -> (r: Self)
        ensures
            r.wf(),
            r.dimensions() == dimensions,
            r.format() == format,
            r.image_count() == count,
    {
        RenderTargets { dimensions, format, framebuffers: Self::build(count, dimensions) }
    }

    /// Replaces the images by `count` new ones of the given size and rebuilds
    /// every framebuffer with them; the format stays. A size without area is
    /// never built: the rebuild waits until the surface has one.
    pub fn rebuild(&mut self, count: usize, dimensions: Extent)
        requires
            dimensions.has_area(),
        ensures
            final(self).wf(),
            final(self).dimensions() == dimensions,
            final(self).format() == old(self).format(),
            final(self).image_count() == count,
    {
        self.framebuffers = Self::build(count, dimensions);
        self.dimensions = dimensions;
    }

    /// The colour format the render pass was made for.
    pub fn current_format(&self) -> (r: u32)
        ensures
            r == self.format(),
    {
        self.format
    }

    pub fn current_dimensions(&self) -> (r: Extent)
        ensures
            r == self.dimensions(),
    {
        self.dimensions
    }

    pub fn len(&self) -> (r: usize)
        ensures
            r == self.image_count(),
    {
        self.framebuffers.len()
    }

    /// The framebuffer of image `image`.
    pub fn framebuffer(&self, image: usize) -> (r: Framebuffer)
        requires
            image < self.image_count(),
        ensures
            r == self.framebuffers()[image as int],
    {
        self.framebuffers[image]
    }
}

} // verus!
