//! Choosing how a window surface is configured: its texture format, its alpha
//! mode and the way the rendered scene is copied onto it; and the surface's
//! configuration as it is resized and its present mode changes.

use vstd::prelude::*;

use crate::gpu::{
    CompositeAlphaMode, PresentMode, SurfaceConfig, TextureFormat, TextureUsages,
    RENDER_ATTACHMENT_BIT,
};

verus! {

#[verifier::external_type_specification]
#[verifier::external_body]
pub struct ExCreateSurfaceError(wgpu::CreateSurfaceError);

/// Why a render surface could not be created.
#[derive(Debug)]
pub enum RenderSurfaceError {
    /// The platform refused to create a surface for the window.
    CreateSurface(wgpu::CreateSurfaceError),
    /// No adapter that supports the surface gave a device.
    NoCompatibleDevice,
    /// The surface supports neither of the formats that rendering can use.
    UnsupportedSurfaceFormat,
}

impl RenderSurfaceError {
    /// The error's message.
    pub fn describe(&self) -> (r: String)
        ensures
            self is CreateSurface ==> exists|t: Seq<char>| r@ == "creating surface failed: "@ + t,
            self is NoCompatibleDevice ==> r@ == "no compatible WGPU device found"@,
            self is UnsupportedSurfaceFormat ==> r@ == "unsupported surface format"@,
    {
        match self {
            RenderSurfaceError::CreateSurface(err) => {
                let detail = create_surface_error_text(err);
                create_surface_message(detail.as_str())
            },
            RenderSurfaceError::NoCompatibleDevice => String::from_str("no compatible WGPU device found"),
            RenderSurfaceError::UnsupportedSurfaceFormat => String::from_str("unsupported surface format"),
        }
    }
}

/// The message of a failed surface creation whose platform error reads
/// `detail`.
pub fn create_surface_message(detail: &str) -> (r: String)
    ensures
        r@ == "creating surface failed: "@ + detail@,
{
    let mut text = String::from_str("creating surface failed: ");
    text.append(detail);
    text
}

/// A surface's creation, with a platform refusal turned into this library's
/// error.
pub fn surface_or_error<S>(created: Result<S, wgpu::CreateSurfaceError>) -> (r: Result<S, RenderSurfaceError>)
    ensures
        created matches Ok(s) ==> r == Ok::<S, RenderSurfaceError>(s),
        created matches Err(e) ==> (r matches Err(RenderSurfaceError::CreateSurface(f)) && f == e),
{
    match created {
        Ok(s) => Ok(s),
        Err(e) => Err(RenderSurfaceError::CreateSurface(e)),
    }
}

/// The device a surface renders with: the index found or created, or
/// `NoCompatibleDevice` when there is none.
pub fn device_or_error(device: Option<usize>) -> (r: Result<usize, RenderSurfaceError>)
    ensures
        device matches Some(i) ==> (r matches Ok(j) && j == i),
        device is None ==> (r matches Err(e) && e is NoCompatibleDevice),
{
    match device {
        Some(i) => Ok(i),
        None => Err(RenderSurfaceError::NoCompatibleDevice),
    }
}

/// Wraps `ToString::to_string` on `wgpu::CreateSurfaceError`, its `Display`
/// text. Nothing is claimed of the text: it comes from the platform's errors,
/// and where several backends failed it lists them in the order of a hash map
/// whose seed differs from process to process.
#[verifier::external_body]
fn create_surface_error_text(err: &wgpu::CreateSurfaceError) -> String {
    err.to_string()
}

/// The rendering can draw into this surface format.
pub open spec fn usable_format(f: TextureFormat) -> bool {
    f == TextureFormat::Rgba8Unorm || f == TextureFormat::Bgra8Unorm
}

/// The first format from index `i` on that rendering can use, if any.
pub open spec fn first_usable_from(formats: Seq<TextureFormat>, i: int) -> Option<TextureFormat>
    decreases formats.len() - i,
{
    if i < 0 || i >= formats.len() {
        None
    } else if usable_format(formats[i]) {
        Some(formats[i])
    } else {
        first_usable_from(formats, i + 1)
    }
}

/// The first format in `formats` that rendering can use, if any.
pub open spec fn first_usable(formats: Seq<TextureFormat>) -> Option<TextureFormat> {
    first_usable_from(formats, 0)
}

/// Picks the surface's format: the first of the surface's supported formats,
/// in the order the surface lists them, that is RGBA8 or BGRA8 unsigned
/// normalized; an error when there is none.
pub fn select_surface_format(formats: &Vec<TextureFormat>) -> (r: Result<TextureFormat, RenderSurfaceError>)
    ensures
        match first_usable(formats@) {
            Some(f) => r matches Ok(g) && g == f,
            None => r matches Err(e) && e is UnsupportedSurfaceFormat,
        },
{
    let mut i: usize = 0;
    while i < formats.len()
        invariant
            i <= formats@.len(),
            first_usable(formats@) == first_usable_from(formats@, i as int),
        decreases formats.len() - i,
    {
        let f = formats[i];
        if f == TextureFormat::Rgba8Unorm || f == TextureFormat::Bgra8Unorm {
            return Ok(f);
        }
        i += 1;
    }
    Err(RenderSurfaceError::UnsupportedSurfaceFormat)
}

/// How the rendered scene is copied onto the surface.
#[derive(Clone, Copy, Debug, PartialEq, Eq, Structural)]
pub enum BlitterKind {
    /// A plain copy.
    Plain,
    /// A copy that blends with premultiplied alpha: alpha is replaced, colour
    /// is scaled by the source alpha.
    Premultiplied,
}

/// The alpha mode and copy for a surface that supports `alpha_modes`:
/// post-multiplied alpha with a plain copy when supported, else premultiplied
/// alpha with a premultiplying copy when supported, else the automatic mode
/// with a premultiplying copy where `premultiplied_fallback` asks for it and a
/// plain copy otherwise.
pub open spec fn alpha_mode_spec(alpha_modes: Seq<CompositeAlphaMode>, premultiplied_fallback: bool) -> (
    CompositeAlphaMode,
    BlitterKind,
) {
    if alpha_modes.contains(CompositeAlphaMode::PostMultiplied) {
        (CompositeAlphaMode::PostMultiplied, BlitterKind::Plain)
    } else if alpha_modes.contains(CompositeAlphaMode::PreMultiplied) {
        (CompositeAlphaMode::PreMultiplied, BlitterKind::Premultiplied)
    } else if premultiplied_fallback {
        (CompositeAlphaMode::Auto, BlitterKind::Premultiplied)
    } else {
        (CompositeAlphaMode::Auto, BlitterKind::Plain)
    }
}

/// Post-multiplied alpha is chosen, with a plain copy, whenever the surface
/// supports it, whatever else it supports and whatever the fallback says;
/// otherwise premultiplied alpha with a premultiplying copy whenever that is
/// supported; otherwise the automatic mode, with the premultiplying copy
/// exactly when the fallback asks for it. Adding post-multiplied support to
/// any list makes it the choice.
pub proof fn lemma_alpha_mode_priority(alpha_modes: Seq<CompositeAlphaMode>, fallback: bool)
    ensures
        alpha_modes.contains(CompositeAlphaMode::PostMultiplied) ==> alpha_mode_spec(alpha_modes, fallback)
            == (CompositeAlphaMode::PostMultiplied, BlitterKind::Plain),
        !alpha_modes.contains(CompositeAlphaMode::PostMultiplied) && alpha_modes.contains(
            CompositeAlphaMode::PreMultiplied,
        ) ==> alpha_mode_spec(alpha_modes, fallback) == (
            CompositeAlphaMode::PreMultiplied,
            BlitterKind::Premultiplied,
        ),
        !alpha_modes.contains(CompositeAlphaMode::PostMultiplied) && !alpha_modes.contains(
            CompositeAlphaMode::PreMultiplied,
        ) ==> alpha_mode_spec(alpha_modes, fallback) == (
            CompositeAlphaMode::Auto,
            if fallback {
                BlitterKind::Premultiplied
            } else {
                BlitterKind::Plain
            },
        ),
        alpha_mode_spec(alpha_modes.push(CompositeAlphaMode::PostMultiplied), fallback) == (
            CompositeAlphaMode::PostMultiplied,
            BlitterKind::Plain,
        ),
{
    assert(alpha_modes.push(CompositeAlphaMode::PostMultiplied)[alpha_modes.len() as int]
        == CompositeAlphaMode::PostMultiplied);
}

/// Whether the list holds the mode.
fn contains_mode(modes: &Vec<CompositeAlphaMode>, mode: CompositeAlphaMode) -> (r: bool)
    ensures
        r == modes@.contains(mode),
{
    let mut i: usize = 0;
    while i < modes.len()
        invariant
            i <= modes@.len(),
            forall|j: int| 0 <= j < i ==> modes@[j] != mode,
        decreases modes.len() - i,
    {
        if modes[i] == mode {
            assert(modes@[i as int] == mode);
            return true;
        }
        i += 1;
    }
    false
}

/// Picks the alpha mode and the copy for a surface that supports
/// `alpha_modes`, as `alpha_mode_spec` says.
pub fn select_alpha_mode(alpha_modes: &Vec<CompositeAlphaMode>, premultiplied_fallback: bool) -> (r: (
    CompositeAlphaMode,
    BlitterKind,
))
    ensures
        r == alpha_mode_spec(alpha_modes@, premultiplied_fallback),
{
    if contains_mode(alpha_modes, CompositeAlphaMode::PostMultiplied) {
        (CompositeAlphaMode::PostMultiplied, BlitterKind::Plain)
    } else if contains_mode(alpha_modes, CompositeAlphaMode::PreMultiplied) {
        (CompositeAlphaMode::PreMultiplied, BlitterKind::Premultiplied)
    } else if premultiplied_fallback {
        (CompositeAlphaMode::Auto, BlitterKind::Premultiplied)
    } else {
        (CompositeAlphaMode::Auto, BlitterKind::Plain)
    }
}

/// `needle` occurs in `haystack` as a contiguous run of characters.
pub open spec fn contains_str(haystack: Seq<char>, needle: Seq<char>) -> bool {
    exists|i: int| 0 <= i && i + needle.len() <= haystack.len() && #[trigger] haystack.subrange(i, i + needle.len()) == needle
}

/// Wraps `str::contains` with a string pattern, which tells whether the
/// pattern occurs in the string as a contiguous substring.
#[verifier::external_body]
fn str_contains(haystack: &str, needle: &str) -> (r: bool)
    ensures
        r == contains_str(haystack@, needle@),
{
    haystack.contains(needle)
}

/// On Windows, AMD graphics need the premultiplying copy even on opaque
/// surfaces: the fallback applies when running on Windows with an adapter
/// whose name contains "AMD".
pub fn premultiplied_fallback(on_windows: bool, adapter_name: &str) -> (r: bool)
    ensures
        r == (on_windows && contains_str(adapter_name@, "AMD"@)),
{
    on_windows && str_contains(adapter_name, "AMD")
}

/// The number of frames that may be queued ahead of the one being shown.
pub const FRAME_LATENCY: u32 = 2;

/// The configuration of a new surface: used as a render attachment, with the
/// chosen format, size, present mode and alpha mode, and a frame latency of 2.
pub fn surface_configuration(
    format: TextureFormat,
    width: u32,
    height: u32,
    present_mode: PresentMode,
    alpha_mode: CompositeAlphaMode,
) -> (r: SurfaceConfig)
    ensures
        r.usage.bits == RENDER_ATTACHMENT_BIT,
        r.format == format,
        r.width == width,
        r.height == height,
        r.present_mode == present_mode,
        r.desired_maximum_frame_latency == FRAME_LATENCY,
        r.alpha_mode == alpha_mode,
{
    SurfaceConfig {
        usage: TextureUsages { bits: RENDER_ATTACHMENT_BIT },
        format,
        width,
        height,
        present_mode,
        desired_maximum_frame_latency: FRAME_LATENCY,
        alpha_mode,
    }
}

/// The settings of a render surface: its configuration, the index of the
/// device it renders with, its format, the copy onto it, and whether its
/// window is being interactively resized.
#[derive(Clone, Copy, Debug)]
pub struct SurfaceState {
    /// The surface's configuration.
    pub config: SurfaceConfig,
    /// The index of the device in the render context.
    pub dev_id: usize,
    /// The surface's format.
    pub format: TextureFormat,
    /// How the scene is copied onto the surface.
    pub blitter: BlitterKind,
    /// The window is being interactively resized.
    pub resizing: bool,
}

/// Plans a new render surface from what the surface and adapter support: the
/// first usable format, the alpha mode and copy that `alpha_mode_spec` picks,
/// and the configuration for the requested size and present mode, on device
/// `dev_id`, not resizing. Fails when no format is usable.
pub fn plan_render_surface(
    formats: &Vec<TextureFormat>,
    alpha_modes: &Vec<CompositeAlphaMode>,
    premultiplied_fallback: bool,
    width: u32,
    height: u32,
    present_mode: PresentMode,
    dev_id: usize,
) -> (r: Result<SurfaceState, RenderSurfaceError>)
    ensures
        r matches Ok(s) ==> {
            &&& first_usable(formats@) == Some(s.format)
            &&& s.config.format == s.format
            &&& (s.config.alpha_mode, s.blitter) == alpha_mode_spec(alpha_modes@, premultiplied_fallback)
            &&& s.config.usage.bits == RENDER_ATTACHMENT_BIT
            &&& s.config.width == width && s.config.height == height
            &&& s.config.present_mode == present_mode
            &&& s.config.desired_maximum_frame_latency == FRAME_LATENCY
            &&& s.dev_id == dev_id
            &&& !s.resizing
        },
        r matches Err(e) ==> e is UnsupportedSurfaceFormat,
        r is Ok <==> first_usable(formats@) is Some,
{
    let format = match select_surface_format(formats) {
        Ok(f) => f,
        Err(e) => return Err(e),
    };
    let (alpha_mode, blitter) = select_alpha_mode(alpha_modes, premultiplied_fallback);
    let config = surface_configuration(format, width, height, present_mode, alpha_mode);
    Ok(SurfaceState { config, dev_id, format, blitter, resizing: false })
}

impl SurfaceState {
    /// Resizes the surface: its configuration takes the new size, and nothing
    /// else changes.
    pub fn resize(&mut self, width: u32, height: u32)
        ensures
            final(self).config.width == width,
            final(self).config.height == height,
            final(self).config.usage == old(self).config.usage,
            final(self).config.format == old(self).config.format,
            final(self).config.present_mode == old(self).config.present_mode,
            final(self).config.desired_maximum_frame_latency == old(self).config.desired_maximum_frame_latency,
            final(self).config.alpha_mode == old(self).config.alpha_mode,
            final(self).dev_id == old(self).dev_id,
            final(self).format == old(self).format,
            final(self).blitter == old(self).blitter,
            final(self).resizing == old(self).resizing,
    {
        self.config.width = width;
        self.config.height = height;
    }

    /// Sets the present mode, and nothing else.
    pub fn set_present_mode(&mut self, present_mode: PresentMode)
        ensures
            final(self).config.present_mode == present_mode,
            final(self).config.width == old(self).config.width,
            final(self).config.height == old(self).config.height,
            final(self).config.usage == old(self).config.usage,
            final(self).config.format == old(self).config.format,
            final(self).config.desired_maximum_frame_latency == old(self).config.desired_maximum_frame_latency,
            final(self).config.alpha_mode == old(self).config.alpha_mode,
            final(self).dev_id == old(self).dev_id,
            final(self).format == old(self).format,
            final(self).blitter == old(self).blitter,
            final(self).resizing == old(self).resizing,
    {
        self.config.present_mode = present_mode;
    }

    /// Records whether the window is being interactively resized. Returns
    /// whether this changes anything; only then must the surface be
    /// reconfigured.
    pub fn set_resizing(&mut self, resizing: bool) -> (changed: bool)
        ensures
            changed == (old(self).resizing != resizing),
            final(self).resizing == resizing,
            final(self).config == old(self).config,
            final(self).dev_id == old(self).dev_id,
            final(self).format == old(self).format,
            final(self).blitter == old(self).blitter,
    {
        if self.resizing == resizing {
            return false;
        }
        self.resizing = resizing;
        true
    }
}

} // verus!
