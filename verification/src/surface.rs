//! The presentable surface: its size, the choice of its colour format, and
//! what to do when it fails to hand out an image.

use vstd::prelude::*;

verus! {

/// `wgpu::TextureFormat`, a colour format of textures and surfaces. Nothing
/// is known of a value but what [`format_is_srgb`] says.
#[verifier::external_type_specification]
#[verifier::external_body]
pub struct ExTextureFormat(wgpu::TextureFormat);

/// `wgpu::SurfaceError`, what a surface fails with when asked for an image.
/// Nothing is known of a value.
#[verifier::external_type_specification]
#[verifier::external_body]
pub struct ExSurfaceError(wgpu::SurfaceError);

/// What `wgpu::TextureFormat::is_srgb` answers for a format.
pub uninterp spec fn format_is_srgb(format: wgpu::TextureFormat) -> bool;

/// `wgpu::TextureFormat::is_srgb`: whether the format stores its colours
/// sRGB-encoded. The answer depends on the format alone.
#[verifier::external_body]
fn is_srgb(format: &wgpu::TextureFormat) -> (srgb: bool)
    ensures
        srgb == format_is_srgb(*format),
{
    format.is_srgb()
}

/// Which of its four variants a `wgpu::SurfaceError` is.
pub uninterp spec fn surface_error_variant(error: wgpu::SurfaceError) -> AcquireError;

/// Tells the variants of `wgpu::SurfaceError` apart: each is handed on as
/// the variant of the same name.
#[verifier::external_body]
fn surface_error_kind(error: &wgpu::SurfaceError) -> (kind: AcquireError)
    ensures
        kind == surface_error_variant(*error),
{
    match error {
        wgpu::SurfaceError::Timeout => AcquireError::Timeout,
        wgpu::SurfaceError::Outdated => AcquireError::Outdated,
        wgpu::SurfaceError::Lost => AcquireError::Lost,
        wgpu::SurfaceError::OutOfMemory => AcquireError::OutOfMemory,
    }
}

/// Why the surface handed out no image for a frame.
#[derive(Clone, Copy, Debug, PartialEq, Eq, Structural)]
pub enum AcquireError {
    /// No image came in time.
    Timeout,
    /// The surface has changed under its configuration.
    Outdated,
    /// The surface is gone and has to be configured again.
    Lost,
    /// No memory is left for another image.
    OutOfMemory,
}

/// What the frame loop does after a frame.
#[derive(Clone, Copy, Debug, PartialEq, Eq, Structural)]
pub enum FrameAction {
    /// The frame was shown: go on.
    Continue,
    /// Configure the surface again with the configuration it had, and go on.
    Reconfigure,
    /// The frame is lost, the next one will do: report it and go on.
    Skip,
    /// End the session.
    Quit,
}

/// The format picked among those a surface supports.
#[derive(Clone, Copy, Debug, PartialEq, Eq, Structural)]
pub struct FormatChoice {
    /// Where the format stands in the list.
    pub index: usize,
    /// Whether every format of the list is sRGB, so that the first one was
    /// taken and colours will come out too bright.
    pub srgb_fallback: bool,
}

/// Width and height of the surface in pixels, neither ever 0.
#[derive(Clone, Copy, Debug)]
pub struct SurfaceConfig {
    width: u32,
    height: u32,
}

/// What is to be done after a frame that ended in `result`.
pub open spec fn action_after(result: Result<(), AcquireError>) -> FrameAction {
    match result {
        Ok(()) => FrameAction::Continue,
        Err(AcquireError::Lost) => FrameAction::Reconfigure,
        Err(AcquireError::OutOfMemory) => FrameAction::Quit,
        Err(AcquireError::Timeout) => FrameAction::Skip,
        Err(AcquireError::Outdated) => FrameAction::Skip,
    }
}

/// What the frame loop does after a frame that ended in `result`: a lost
/// surface is configured again, memory running out ends the session, a
/// timeout or an outdated surface costs this frame only.
pub fn after_frame(result: Result<(), AcquireError>) -> (action: FrameAction)
    ensures
        action == action_after(result),
{
    match result {
        Ok(()) => FrameAction::Continue,
        Err(AcquireError::Lost) => FrameAction::Reconfigure,
        Err(AcquireError::OutOfMemory) => FrameAction::Quit,
        Err(AcquireError::Timeout) => FrameAction::Skip,
        Err(AcquireError::Outdated) => FrameAction::Skip,
    }
}

/// What the frame loop does after the surface failed with `error`: what
/// [`after_frame`] does after the failure of that name.
pub fn after_surface_error(error: &wgpu::SurfaceError) -> (action: FrameAction)
    ensures
        action == action_after(Err(surface_error_variant(*error))),
        action != FrameAction::Continue,
{
    let kind = surface_error_kind(error);
    after_frame(Err(kind))
}

/// Whether `index` is where the first format that is not sRGB stands.
pub open spec fn first_linear(formats: Seq<wgpu::TextureFormat>, index: int) -> bool {
    &&& 0 <= index < formats.len()
    &&& !format_is_srgb(formats[index])
    &&& forall|j: int| 0 <= j < index ==> format_is_srgb(#[trigger] formats[j])
}

/// Picks the surface's colour format among those it supports: the first
/// that is not sRGB, or, where all are, the first of the list.
pub fn select_format(formats: &Vec<wgpu::TextureFormat>) -> (choice: FormatChoice)
    requires
        formats@.len() > 0,
    ensures
        choice.index < formats@.len(),
        !choice.srgb_fallback ==> first_linear(formats@, choice.index as int),
        choice.srgb_fallback ==> choice.index == 0 && forall|j: int|
            0 <= j < formats@.len() ==> format_is_srgb(#[trigger] formats@[j]),
{
    let mut i: usize = 0;
    while i < formats.len()
        invariant
            i <= formats@.len(),
            forall|j: int| 0 <= j < i ==> format_is_srgb(#[trigger] formats@[j]),
        decreases formats@.len() - i,
    {
        if !is_srgb(&formats[i]) {
            return FormatChoice { index: i, srgb_fallback: false };
        }
        i += 1;
    }
    FormatChoice { index: 0, srgb_fallback: true }
}

impl SurfaceConfig {
    pub closed spec fn width_px(self) -> int {
        self.width as int
    }

    pub closed spec fn height_px(self) -> int {
        self.height as int
    }

    #[verifier::type_invariant]
    closed spec fn inv(self) -> bool {
        self.width > 0 && self.height > 0
    }

    /// Whether a size can be configured: neither dimension is 0.
    pub open spec fn accepts(size: (u32, u32)) -> bool {
        size.0 > 0 && size.1 > 0
    }

    /// Whether a size can be configured: neither dimension is 0.
    pub fn can_configure(size: (u32, u32)) -> (ok: bool)
        ensures
            ok == SurfaceConfig::accepts(size),
    {
        size.0 > 0 && size.1 > 0
    }

    /// The configuration of a surface of this size.
    pub fn new(size: (u32, u32)) -> (c: SurfaceConfig)
        requires
            SurfaceConfig::accepts(size),
        ensures
            c.width_px() == size.0,
            c.height_px() == size.1,
    {
        SurfaceConfig { width: size.0, height: size.1 }
    }

    pub fn width(&self) -> (w: u32)
        ensures
            w == self.width_px(),
            w > 0,
    {
        proof {
            use_type_invariant(self);
        }
        self.width
    }

    pub fn height(&self) -> (h: u32)
        ensures
            h == self.height_px(),
            h > 0,
    {
        proof {
            use_type_invariant(self);
        }
        self.height
    }

    /// Takes a new size. A size with a dimension of 0 is what a minimised
    /// window reports: it is passed over and nothing changes, not even the
    /// other dimension. Returns whether the size was taken, and so whether
    /// the surface is to be configured again.
    pub fn resize(&mut self, new_size: (u32, u32)) -> (taken: bool)
        ensures
            taken == SurfaceConfig::accepts(new_size),
            taken ==> final(self).width_px() == new_size.0 && final(self).height_px() == new_size.1,
            !taken ==> final(self).width_px() == old(self).width_px() && final(self).height_px()
                == old(self).height_px(),
            final(self).width_px() > 0,
            final(self).height_px() > 0,
    {
        proof {
            use_type_invariant(&*self);
        }
        if SurfaceConfig::can_configure(new_size) {
            self.width = new_size.0;
            self.height = new_size.1;
            true
        } else {
            false
        }
    }
}

} // verus!
