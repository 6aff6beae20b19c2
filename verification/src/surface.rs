//! The surface manager: the pixel buffer and the size it is kept at.

use crate::raster::convert;
use crate::raster::filled;
use crate::raster::DecodedImage;
use vstd::prelude::*;

verus! {

/// A width and a height in pixels.
#[derive(Clone, Copy, Debug, PartialEq, Eq, Structural)]
pub struct Size {
    pub width: u32,
    pub height: u32,
}

impl Size {
    /// The bytes that an RGBA8 buffer of this size takes.
    pub open spec fn byte_len(self) -> nat {
        (self.width as nat) * (self.height as nat) * 4
    }

    /// Whether a buffer of this size can be addressed on this machine.
    pub open spec fn fits(self) -> bool {
        self.byte_len() <= usize::MAX
    }

    /// The bytes that an RGBA8 buffer of this size takes, where that many can
    /// be addressed.
    pub fn buffer_len(&self) -> (len: Option<usize>)
        ensures
            self.fits() <==> len is Some,
            len is Some ==> len.unwrap() == self.byte_len(),
    {
        assert((self.width as u64) * (self.height as u64) <= 0xffff_ffff * 0xffff_ffff)
            by (nonlinear_arith)
            requires
                self.width <= 0xffff_ffff,
                self.height <= 0xffff_ffff,
        ;
        let pixels: u64 = (self.width as u64) * (self.height as u64);
        if pixels > (usize::MAX / 4) as u64 {
            None
        } else {
            Some((pixels as usize) * 4)
        }
    }
}

/// What a surface manager is to its users: a size and the bytes of its pixel
/// buffer.
pub struct SurfaceModel {
    pub size: Size,
    pub frame: Seq<u8>,
}

impl SurfaceModel {
    /// The buffer has exactly the bytes that the size asks for.
    pub open spec fn well_formed(self) -> bool {
        &&& self.size.fits()
        &&& self.frame.len() == self.size.byte_len()
    }

    /// A surface of the given size whose buffer was just allocated: all zero.
    pub open spec fn blank(size: Size) -> SurfaceModel {
        SurfaceModel { size, frame: Seq::new(size.byte_len(), |i: int| 0u8) }
    }

    /// The surface after a resize to `new_size`: itself where the size is the
    /// one it has, else a blank one of the new size.
    pub open spec fn resized(self, new_size: Size) -> SurfaceModel {
        if new_size == self.size {
            self
        } else {
            SurfaceModel::blank(new_size)
        }
    }

    /// Whether a resize to `new_size` has to allocate.
    pub open spec fn resize_outcome(self, new_size: Size) -> ResizeOutcome {
        if new_size == self.size {
            ResizeOutcome::Unchanged
        } else {
            ResizeOutcome::Reallocated
        }
    }

    /// The surface after an image was loaded into it.
    pub open spec fn loaded(self) -> SurfaceModel {
        SurfaceModel { size: self.size, frame: filled(self.size.byte_len()) }
    }
}

/// Whether a resize had to give the surface a new buffer.
#[derive(Clone, Copy, Debug, PartialEq, Eq, Structural)]
pub enum ResizeOutcome {
    /// The size was the current one: nothing was touched.
    Unchanged,
    /// The buffer was allocated anew at the new size.
    Reallocated,
}

/// The steps of one present, in the order in which they run: the pixel buffer
/// is copied to the surface, the overlay draws over it, and the frame is
/// handed to the platform.
#[derive(Clone, Copy, Debug, PartialEq, Eq)]
pub enum PresentStep {
    /// Copy the pixel buffer to the surface.
    Blit,
    /// Let the overlay draw into the surface, over what is there.
    DrawOverlay,
    /// Hand the finished frame to the platform.
    Submit,
}

impl PresentStep {
    /// The step that follows this one, if the present is not over with it.
    pub open spec fn following(self) -> Option<PresentStep> {
        match self {
            PresentStep::Blit => Some(PresentStep::DrawOverlay),
            PresentStep::DrawOverlay => Some(PresentStep::Submit),
            PresentStep::Submit => None,
        }
    }

    /// The step that follows this one, if the present is not over with it.
    pub fn next(self) -> (step: Option<PresentStep>)
        ensures
            step == self.following(),
    {
        match self {
            PresentStep::Blit => Some(PresentStep::DrawOverlay),
            PresentStep::DrawOverlay => Some(PresentStep::Submit),
            PresentStep::Submit => None,
        }
    }
}

/// Owns the pixel buffer and keeps it at the size of the window.
pub struct SurfaceManager {
    size: Size,
    frame: Vec<u8>,
}

impl View for SurfaceManager {
    type V = SurfaceModel;

    closed spec fn view(&self) -> SurfaceModel {
        SurfaceModel { size: self.size, frame: self.frame@ }
    }
}

impl SurfaceManager {
    #[verifier::type_invariant]
    closed spec fn inv(self) -> bool {
        self@.well_formed()
    }

    /// A surface manager with a zeroed pixel buffer of `initial_size`.
    pub fn new(initial_size: Size) -> (surface: SurfaceManager)
        requires
            initial_size.fits(),
        ensures
            surface@ == SurfaceModel::blank(initial_size),
    {
        let len: usize = initial_size.buffer_len().unwrap();
        let frame: Vec<u8> = vec![0u8; len];
        assert(frame@ =~= Seq::new(initial_size.byte_len(), |i: int| 0u8));
        SurfaceManager { size: initial_size, frame }
    }

    /// Brings the pixel buffer to `new_size`. With the size it already has,
    /// nothing is allocated and the content stays. With another size the
    /// buffer is allocated anew and zeroed: the image is not drawn again.
    pub fn resize(&mut self, new_size: Size) -> (outcome: ResizeOutcome)
        requires
            new_size.fits(),
        ensures
            final(self)@ == old(self)@.resized(new_size),
            final(self)@.well_formed(),
            final(self)@.size == new_size,
            final(self)@.frame.len() == new_size.width * new_size.height * 4,
            outcome == old(self)@.resize_outcome(new_size),
    {
        proof {
            use_type_invariant(&*self);
        }
        if new_size == self.size {
            ResizeOutcome::Unchanged
        } else {
            *self = SurfaceManager::new(new_size);
            ResizeOutcome::Reallocated
        }
    }

    /// Populates the pixel buffer from a decoded image.
    pub fn load(&mut self, image: DecodedImage)
        ensures
            final(self)@ == old(self)@.loaded(),
            final(self)@.well_formed(),
    {
        proof {
            use_type_invariant(&*self);
        }
        let size = self.size;
        *self = SurfaceManager { size, frame: convert(image, size) };
    }

    /// The size that the pixel buffer is kept at.
    pub fn size(&self) -> (size: Size)
        ensures
            size == self@.size,
            self@.well_formed(),
    {
        proof {
            use_type_invariant(self);
        }
        self.size
    }

    /// The pixel buffer: RGBA8, row by row from the top.
    pub fn frame(&self) -> (frame: &[u8])
        ensures
            frame@ == self@.frame,
            self@.well_formed(),
    {
        proof {
            use_type_invariant(self);
        }
        self.frame.as_slice()
    }
}

/// In a present the overlay is drawn after the blit, and only then: the
/// overlay's draw follows the blit and no other step, the submission follows
/// the overlay's draw and no other step, and nothing leads back to the blit.
pub proof fn lemma_overlay_follows_blit(step: PresentStep)
    ensures
        step.following() == Some(PresentStep::DrawOverlay) <==> step == PresentStep::Blit,
        step.following() == Some(PresentStep::Submit) <==> step == PresentStep::DrawOverlay,
        step.following() != Some(PresentStep::Blit),
{
}

/// Resizing twice to one size: the second call allocates nothing and leaves
/// the surface, the length of its buffer included, as the first call left it.
pub proof fn lemma_resize_twice(surface: SurfaceModel, size: Size)
    ensures
        surface.resized(size).resize_outcome(size) == ResizeOutcome::Unchanged,
        surface.resized(size).resized(size) == surface.resized(size),
        surface.resized(size).resized(size).frame.len() == surface.resized(size).frame.len(),
{
}

/// A resize keeps the buffer at the length that the size asks for.
pub proof fn lemma_resize_keeps_well_formed(surface: SurfaceModel, size: Size)
    requires
        surface.well_formed(),
        size.fits(),
    ensures
        surface.resized(size).well_formed(),
        surface.resized(size).size == size,
        surface.resized(size).frame.len() == size.width * size.height * 4,
{
}

} // verus!
