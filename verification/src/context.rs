//! The view state of one window: its size, its pixel buffer, and whether the
//! buffer still shows the current view.

use vstd::prelude::*;
use crate::geometry::{pixel_count, valid_dimensions};

verus! {

/// Width of the viewport a new context starts with.
pub const WIDTH: usize = 640;

/// Height of the viewport a new context starts with.
pub const HEIGHT: usize = 360;

/// A buffer of `count` black pixels.
pub open spec fn blank_spec(count: nat) -> Seq<u32> {
    Seq::new(count, |i: int| 0u32)
}

/// The size of the viewport, the frame last drawn for it, and the flag that
/// a new frame is due. Where the viewport looks in the complex plane is kept
/// by the caller, who reports each change of it with `invalidate` and each
/// frame shown with `mark_rendered`.
#[derive(Debug)]
pub struct FractalContext {
    /// Width and height of the viewport in pixels.
    pub dimensions: (usize, usize),
    /// True when the buffer does not show the current view.
    pub updated: bool,
    /// One packed RGB value per pixel, rows laid end to end.
    pub pixels: Vec<u32>,
}

impl FractalContext {
    /// The viewport is not empty and the buffer has one slot for each of its pixels.
    pub open spec fn wf(&self) -> bool {
        &&& valid_dimensions(self.dimensions.0 as nat, self.dimensions.1 as nat)
        &&& self.pixels@.len() == self.dimensions.0 * self.dimensions.1
    }

    /// A context for the starting viewport, black and due for a first frame.
    pub fn new() -> (ctx: FractalContext)
        ensures
            ctx.wf(),
            ctx.dimensions == (WIDTH, HEIGHT),
            ctx.updated,
            ctx.pixels@ == blank_spec((WIDTH * HEIGHT) as nat),
    {
        let pixels = vec![0u32; WIDTH * HEIGHT];
        assert(pixels@ =~= blank_spec((WIDTH * HEIGHT) as nat));
        FractalContext { dimensions: (WIDTH, HEIGHT), updated: true, pixels }
    }

    /// Whether a new frame is due.
    pub fn needs_render(&self) -> (due: bool)
        ensures
            due == self.updated,
    {
        self.updated
    }

    /// Takes a new viewport size. The old frame is dropped for a black one of
    /// the new size, and a new frame is due.
    pub fn resize(&mut self, new_width: usize, new_height: usize)
        requires
            valid_dimensions(new_width as nat, new_height as nat),
        ensures
            final(self).wf(),
            final(self).dimensions == (new_width, new_height),
            final(self).updated,
            final(self).pixels@.len() == new_width * new_height,
            final(self).pixels@ == blank_spec((new_width * new_height) as nat),
    {
        let count = pixel_count(new_width, new_height);
        let pixels = vec![0u32; count];
        assert(pixels@ =~= blank_spec(count as nat));
        self.dimensions = (new_width, new_height);
        self.pixels = pixels;
        self.updated = true;
    }

    /// Follows the window: where its size is not the viewport's, the
    /// viewport is resized to it; where it is, nothing changes.
    pub fn sync_size(&mut self, width: usize, height: usize) -> (changed: bool)
        requires
            valid_dimensions(width as nat, height as nat),
        ensures
            changed == (old(self).dimensions != (width, height)),
            !changed ==> *final(self) == *old(self),
            changed ==> final(self).updated && final(self).pixels@ == blank_spec(
                (width * height) as nat,
            ),
            final(self).dimensions == (width, height),
            old(self).wf() || changed ==> final(self).wf(),
    {
        if self.dimensions.0 != width || self.dimensions.1 != height {
            self.resize(width, height);
            true
        } else {
            false
        }
    }

    /// Records that the frame in the buffer has been shown: no new frame is
    /// due until the view moves again. Size and buffer stay.
    pub fn mark_rendered(&mut self)
        ensures
            !final(self).updated,
            final(self).dimensions == old(self).dimensions,
            final(self).pixels == old(self).pixels,
    {
        self.updated = false;
    }

    /// Records that the view has moved: a new frame is due. Size and buffer stay.
    pub fn invalidate(&mut self)
        ensures
            final(self).updated,
            final(self).dimensions == old(self).dimensions,
            final(self).pixels == old(self).pixels,
    {
        self.updated = true;
    }
}

} // verus!
