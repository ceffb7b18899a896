use vstd::prelude::*;
use crate::dispatch::{Action, Event, LoopState, Phase};

verus! {

/// The largest width or height a raster surface can have.
pub const MAX_DIMENSION: u32 = 2147483647;

/// The rasterization target built on the context's bound framebuffer: the
/// framebuffer object, its pixel size, and the negotiated sample and stencil
/// counts. The color layout is always 8-bit RGBA.
#[derive(PartialEq, Eq, Structural, Clone, Copy, Debug)]
pub struct RasterTarget {
    pub fboid: u32,
    pub width: i32,
    pub height: i32,
    pub samples: usize,
    pub stencil: usize,
}

/// Why a raster surface could not be described.
#[derive(PartialEq, Eq, Structural, Clone, Copy, Debug)]
pub enum SurfaceBindError {
    /// The context reported a negative framebuffer binding.
    InvalidFramebuffer,
    /// Width or height is zero.
    EmptySize,
    /// Width or height does not fit the rasterizer's signed sizes.
    SizeOutOfRange,
}

/// The target for a framebuffer binding `raw_fbo`, as the GL context reports
/// it, at a physical size of `width` by `height`.
pub open spec fn target_of(raw_fbo: i32, width: u32, height: u32, samples: usize, stencil: usize) -> Result<
    RasterTarget,
    SurfaceBindError,
> {
    if raw_fbo < 0 {
        Err(SurfaceBindError::InvalidFramebuffer)
    } else if width == 0 || height == 0 {
        Err(SurfaceBindError::EmptySize)
    } else if width > MAX_DIMENSION || height > MAX_DIMENSION {
        Err(SurfaceBindError::SizeOutOfRange)
    } else {
        Ok(
            RasterTarget {
                fboid: raw_fbo as u32,
                width: width as i32,
                height: height as i32,
                samples,
                stencil,
            },
        )
    }
}

/// Describes the raster surface to wrap around the bound framebuffer.
pub fn framebuffer_target(raw_fbo: i32, width: u32, height: u32, samples: usize, stencil: usize) -> (r:
    Result<RasterTarget, SurfaceBindError>)
    ensures
        r == target_of(raw_fbo, width, height, samples, stencil),
{
    if raw_fbo < 0 {
        return Err(SurfaceBindError::InvalidFramebuffer);
    }
    if width == 0 || height == 0 {
        return Err(SurfaceBindError::EmptySize);
    }
    if width > MAX_DIMENSION || height > MAX_DIMENSION {
        return Err(SurfaceBindError::SizeOutOfRange);
    }
    Ok(
        RasterTarget {
            fboid: raw_fbo as u32,
            width: width as i32,
            height: height as i32,
            samples,
            stencil,
        },
    )
}

/// A described target has exactly the size it was asked for.
pub proof fn lemma_target_has_requested_size(
    raw_fbo: i32,
    width: u32,
    height: u32,
    samples: usize,
    stencil: usize,
)
    ensures
        target_of(raw_fbo, width, height, samples, stencil) matches Ok(t) ==> t.width == width
            && t.height == height && t.fboid == raw_fbo && t.samples == samples && t.stencil
            == stencil,
        target_of(raw_fbo, width, height, samples, stencil) is Ok <==> (raw_fbo >= 0 && 0 < width
            <= MAX_DIMENSION && 0 < height <= MAX_DIMENSION),
{
}

/// A resize to another size drops the bound surface and asks for a redraw;
/// that redraw asks for a bind at exactly the new size, a successful bind
/// records that size as bound, and the target described for it has exactly
/// that size.
pub proof fn lemma_resize_rebinds_at_new_size(
    s: LoopState,
    w2: u32,
    h2: u32,
    raw_fbo: i32,
    samples: usize,
    stencil: usize,
)
    requires
        s.wf(),
        s.phase == Phase::Idle,
        (w2, h2) != s.size,
    ensures
        ({
            let (s1, a1) = s.on_event(Event::Resized(w2, h2));
            let (s2, a2) = s1.on_event(Event::RedrawRequested);
            let (s3, a3) = s2.on_bind(true);
            &&& a1 == Action::RequestRedraw
            &&& s1.bound is None
            &&& a2 == Action::Bind(w2, h2)
            &&& a3 == Action::Paint
            &&& s3.bound == Some((w2, h2))
            &&& target_of(raw_fbo, w2, h2, samples, stencil) matches Ok(t) ==> t.width == w2
                && t.height == h2
        }),
{
    lemma_target_has_requested_size(raw_fbo, w2, h2, samples, stencil);
}

} // verus!
