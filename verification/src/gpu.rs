//! The GPU settings that the rendering logic reads and writes, as plain
//! values: feature sets, texture usages, surface formats, alpha and present
//! modes, and surface configurations.

use vstd::prelude::*;

verus! {

/// The bit of `CLEAR_TEXTURE` among the native (non-WebGPU) features.
pub const CLEAR_TEXTURE_BIT: u64 = 0x80_0000;

/// The bit of `TIMESTAMP_QUERY` among the WebGPU features.
pub const TIMESTAMP_QUERY_BIT: u64 = 0x80;

/// A set of optional device features, held as the two words of feature bits:
/// native features first, then WebGPU features.
#[derive(Clone, Copy, Debug, PartialEq, Eq, Structural)]
pub struct Features {
    /// The native features.
    pub features_wgpu: u64,
    /// The WebGPU features.
    pub features_webgpu: u64,
}

impl View for Features {
    type V = (u64, u64);

    open spec fn view(&self) -> (u64, u64) {
        (self.features_wgpu, self.features_webgpu)
    }
}

/// The union of two feature sets.
pub open spec fn features_union(a: (u64, u64), b: (u64, u64)) -> (u64, u64) {
    (a.0 | b.0, a.1 | b.1)
}

/// The intersection of two feature sets.
pub open spec fn features_intersection(a: (u64, u64), b: (u64, u64)) -> (u64, u64) {
    (a.0 & b.0, a.1 & b.1)
}

/// Every feature of `a` is in `b`.
pub open spec fn features_subset(a: (u64, u64), b: (u64, u64)) -> bool {
    (a.0 & b.0) == a.0 && (a.1 & b.1) == a.1
}

impl Features {
    /// The empty feature set.
    pub fn empty() -> (r: Features)
        ensures
            r@ == (0u64, 0u64),
    {
        Features { features_wgpu: 0, features_webgpu: 0 }
    }

    /// The set holding only the feature that allows clearing textures.
    pub fn clear_texture() -> (r: Features)
        ensures
            r@ == (CLEAR_TEXTURE_BIT, 0u64),
    {
        Features { features_wgpu: CLEAR_TEXTURE_BIT, features_webgpu: 0 }
    }

    /// The set holding only the timestamp-query feature.
    pub fn timestamp_query() -> (r: Features)
        ensures
            r@ == (0u64, TIMESTAMP_QUERY_BIT),
    {
        Features { features_wgpu: 0, features_webgpu: TIMESTAMP_QUERY_BIT }
    }

    /// The features in either set.
    pub fn union(&self, other: &Features) -> (r: Features)
        ensures
            r@ == features_union(self@, other@),
    {
        Features {
            features_wgpu: self.features_wgpu | other.features_wgpu,
            features_webgpu: self.features_webgpu | other.features_webgpu,
        }
    }

    /// The features in both sets.
    pub fn intersection(&self, other: &Features) -> (r: Features)
        ensures
            r@ == features_intersection(self@, other@),
    {
        Features {
            features_wgpu: self.features_wgpu & other.features_wgpu,
            features_webgpu: self.features_webgpu & other.features_webgpu,
        }
    }
}

/// The bit of the usage as the destination of a copy.
pub const COPY_DST_BIT: u32 = 0x2;

/// The bit of the usage as a sampled texture binding.
pub const TEXTURE_BINDING_BIT: u32 = 0x4;

/// The bit of the usage as a storage binding.
pub const STORAGE_BINDING_BIT: u32 = 0x8;

/// The bit of the usage as a render attachment.
pub const RENDER_ATTACHMENT_BIT: u32 = 0x10;

/// A set of texture usages, held as their bits.
#[derive(Clone, Copy, Debug, PartialEq, Eq, Structural)]
pub struct TextureUsages {
    /// The usage bits.
    pub bits: u32,
}

/// The texture formats that surfaces are configured with. Formats that the
/// rendering logic never picks are all `Other`.
#[derive(Clone, Copy, Debug, PartialEq, Eq, Structural)]
pub enum TextureFormat {
    /// Red, green, blue, alpha; 8 bits each, unsigned normalized.
    Rgba8Unorm,
    /// Blue, green, red, alpha; 8 bits each, unsigned normalized.
    Bgra8Unorm,
    /// Any other format.
    Other,
}

/// How the alpha channel of a surface's textures is handled when compositing.
#[derive(Clone, Copy, Debug, PartialEq, Eq, Structural)]
pub enum CompositeAlphaMode {
    /// Chosen by the backend among the supported modes.
    Auto,
    /// The alpha channel is ignored.
    Opaque,
    /// The colour channels are already multiplied by alpha.
    PreMultiplied,
    /// The compositor multiplies the colour channels by alpha.
    PostMultiplied,
    /// Set by the platform through native means.
    Inherit,
}

/// How frames are presented to a surface.
#[derive(Clone, Copy, Debug, PartialEq, Eq, Structural)]
pub enum PresentMode {
    /// Vertical sync where available, chosen by the backend.
    AutoVsync,
    /// No vertical sync where available, chosen by the backend.
    AutoNoVsync,
    /// First in, first out, waiting for vertical blanking.
    Fifo,
    /// Like `Fifo`, but late frames are presented at once.
    FifoRelaxed,
    /// Frames are presented at once, which may tear.
    Immediate,
    /// The newest frame replaces a queued one.
    Mailbox,
}

/// The configuration a surface is given: usage, format, size in physical
/// pixels, present mode, frame latency and alpha mode. It lists no further
/// view formats.
#[derive(Clone, Copy, Debug)]
pub struct SurfaceConfig {
    /// How the surface's textures are used.
    pub usage: TextureUsages,
    /// The format of the surface's textures.
    pub format: TextureFormat,
    /// The width in physical pixels.
    pub width: u32,
    /// The height in physical pixels.
    pub height: u32,
    /// How frames are presented.
    pub present_mode: PresentMode,
    /// The number of frames that may be queued ahead.
    pub desired_maximum_frame_latency: u32,
    /// How the alpha channel is composited.
    pub alpha_mode: CompositeAlphaMode,
}

/// The number of dimensions of a texture.
#[derive(Clone, Copy, Debug, PartialEq, Eq, Structural)]
pub enum TextureDimension {
    /// A one-dimensional texture.
    D1,
    /// A two-dimensional texture.
    D2,
    /// A three-dimensional texture.
    D3,
}

/// The description of the intermediate texture that the scene is rendered
/// into before it is copied to the surface.
#[derive(Clone, Copy, Debug)]
pub struct TargetTextureDesc {
    /// The width in physical pixels.
    pub width: u32,
    /// The height in physical pixels.
    pub height: u32,
    /// The number of array layers.
    pub depth_or_array_layers: u32,
    /// The number of mip levels.
    pub mip_level_count: u32,
    /// The number of samples per pixel.
    pub sample_count: u32,
    /// The number of dimensions.
    pub dimension: TextureDimension,
    /// How the texture is used.
    pub usage: TextureUsages,
    /// The format of the texture.
    pub format: TextureFormat,
}

/// The usages of the intermediate render target: written by compute-based
/// rendering (storage), sampled, copied into, and rendered to.
pub open spec fn target_usage_bits() -> u32 {
    STORAGE_BINDING_BIT | TEXTURE_BINDING_BIT | COPY_DST_BIT | RENDER_ATTACHMENT_BIT
}

/// The intermediate render target for a surface of the given size: a single
/// two-dimensional RGBA8 texture with one mip level and one sample, usable by
/// both render paths and as a copy destination.
pub fn target_texture_desc(width: u32, height: u32) -> (r: TargetTextureDesc)
    ensures
        r.width == width,
        r.height == height,
        r.depth_or_array_layers == 1,
        r.mip_level_count == 1,
        r.sample_count == 1,
        r.dimension == TextureDimension::D2,
        r.usage.bits == target_usage_bits(),
        r.format == TextureFormat::Rgba8Unorm,
{
    TargetTextureDesc {
        width,
        height,
        depth_or_array_layers: 1,
        mip_level_count: 1,
        sample_count: 1,
        dimension: TextureDimension::D2,
        usage: TextureUsages {
            bits: STORAGE_BINDING_BIT | TEXTURE_BINDING_BIT | COPY_DST_BIT | RENDER_ATTACHMENT_BIT,
        },
        format: TextureFormat::Rgba8Unorm,
    }
}

} // verus!
