//! Descriptions of textures and samplers.
use crate::geometry::Vec2;
use crate::state::Comparison;
use gfx::format::{ChannelTyped, Formatted};
use vstd::prelude::*;

verus! {

/// The formats of the targets that the library has created.
#[derive(Clone, Copy, Debug, PartialEq, Eq)]
pub enum TargetFormat {
    /// The pre-processed color target: four sixteen-bit floating-point channels.
    TgtColor,
    /// The pre-processed depth and stencil target.
    TgtDepthStencil,
    /// The shadow depth target: thirty-two-bit floating-point depths.
    ShadowDepthStencil,
}

/// How the bits of a channel are interpreted.
#[derive(Clone, Copy, Debug, PartialEq, Eq)]
pub enum ChannelType {
    Int,
    Uint,
    Inorm,
    Unorm,
    Float,
    Srgb,
}

impl TargetFormat {
    /// The channel type of a format.
    pub open spec fn spec_channel_type(self) -> ChannelType {
        match self {
            TargetFormat::TgtColor => ChannelType::Float,
            TargetFormat::TgtDepthStencil => ChannelType::Unorm,
            TargetFormat::ShadowDepthStencil => ChannelType::Float,
        }
    }

    /// The channel type of a format.
    pub fn channel_type(self) -> (channel: ChannelType)
        ensures
            channel == self.spec_channel_type(),
    {
        match self {
            TargetFormat::TgtColor => rgba16f_channel_type(),
            TargetFormat::TgtDepthStencil => depth_stencil_channel_type(),
            TargetFormat::ShadowDepthStencil => depth32f_channel_type(),
        }
    }
}

/// `ChannelTyped::get_channel_type` of the channel of `gfx::format::Rgba16F`: the format
/// pairs its surface with the channel `Float`, which names itself.
#[verifier::external_body]
fn rgba16f_channel_type() -> (channel: ChannelType)
    ensures
        channel == ChannelType::Float,
{
    match <<gfx::format::Rgba16F as Formatted>::Channel as ChannelTyped>::get_channel_type() {
        gfx::format::ChannelType::Int => ChannelType::Int,
        gfx::format::ChannelType::Uint => ChannelType::Uint,
        gfx::format::ChannelType::Inorm => ChannelType::Inorm,
        gfx::format::ChannelType::Unorm => ChannelType::Unorm,
        gfx::format::ChannelType::Float => ChannelType::Float,
        gfx::format::ChannelType::Srgb => ChannelType::Srgb,
    }
}

/// `ChannelTyped::get_channel_type` of the channel of `gfx::format::DepthStencil`: the
/// format pairs its surface with the channel `Unorm`, which names itself.
#[verifier::external_body]
fn depth_stencil_channel_type() -> (channel: ChannelType)
    ensures
        channel == ChannelType::Unorm,
{
    match <<gfx::format::DepthStencil as Formatted>::Channel as ChannelTyped>::get_channel_type() {
        gfx::format::ChannelType::Int => ChannelType::Int,
        gfx::format::ChannelType::Uint => ChannelType::Uint,
        gfx::format::ChannelType::Inorm => ChannelType::Inorm,
        gfx::format::ChannelType::Unorm => ChannelType::Unorm,
        gfx::format::ChannelType::Float => ChannelType::Float,
        gfx::format::ChannelType::Srgb => ChannelType::Srgb,
    }
}

/// `ChannelTyped::get_channel_type` of the channel of `gfx::format::Depth32F`: the format
/// pairs its surface with the channel `Float`, which names itself.
#[verifier::external_body]
fn depth32f_channel_type() -> (channel: ChannelType)
    ensures
        channel == ChannelType::Float,
{
    match <<gfx::format::Depth32F as Formatted>::Channel as ChannelTyped>::get_channel_type() {
        gfx::format::ChannelType::Int => ChannelType::Int,
        gfx::format::ChannelType::Uint => ChannelType::Uint,
        gfx::format::ChannelType::Inorm => ChannelType::Inorm,
        gfx::format::ChannelType::Unorm => ChannelType::Unorm,
        gfx::format::ChannelType::Float => ChannelType::Float,
        gfx::format::ChannelType::Srgb => ChannelType::Srgb,
    }
}

/// How many samples a texel of a two-dimensional texture holds.
#[derive(Clone, Copy, Debug, PartialEq, Eq)]
pub enum Samples {
    Single,
    Multi(u8),
}

/// The shape of a texture.
#[derive(Clone, Copy, Debug, PartialEq, Eq)]
pub enum Kind {
    /// A width, a height and the samples of each texel.
    D2(u16, u16, Samples),
    /// Six square faces with this side length.
    Cube(u16),
}

impl Kind {
    /// The width and the height.
    pub open spec fn size(self) -> Vec2 {
        match self {
            Kind::D2(width, height, _) => Vec2 { x: width, y: height },
            Kind::Cube(side) => Vec2 { x: side, y: side },
        }
    }
}

/// Where the contents of a texture come from and go to.
#[derive(Clone, Copy, Debug, PartialEq, Eq)]
pub enum Usage {
    /// They stay on the GPU.
    Data,
    /// The program updates them now and then.
    Dynamic,
    /// The program writes them through a mapping.
    Upload,
    /// The program reads them through a mapping.
    Download,
}

/// What a texture can be bound as.
#[derive(Clone, Copy, Debug, PartialEq, Eq)]
pub struct Bind {
    pub shader_resource: bool,
    pub render_target: bool,
    pub depth_stencil: bool,
}

/// A texture to be created, without contents.
#[derive(Clone, Copy, Debug, PartialEq, Eq)]
pub struct TextureInfo {
    pub kind: Kind,
    /// The number of mipmap levels.
    pub levels: u8,
    pub bind: Bind,
    pub usage: Usage,
    pub format: TargetFormat,
    pub channel: ChannelType,
}

/// How texels are combined.
#[derive(Clone, Copy, Debug, PartialEq, Eq)]
pub enum FilterMethod {
    Scale,
    Mipmap,
    Bilinear,
    Trilinear,
    Anisotropic(u8),
}

/// What is read beyond the edge of a texture.
#[derive(Clone, Copy, Debug, PartialEq, Eq)]
pub enum WrapMode {
    Tile,
    Mirror,
    Clamp,
    Border,
}

/// A sampler to be created, without changes to the level of detail.
#[derive(Clone, Copy, Debug, PartialEq, Eq)]
pub struct SamplerInfo {
    pub filter: FilterMethod,
    /// The wrap mode of each of the three axes.
    pub wrap_mode: (WrapMode, WrapMode, WrapMode),
    /// The test that a depth sampler makes.
    pub comparison: Option<Comparison>,
    /// The border color: eight bits for each of red, green, blue and alpha, from the
    /// lowest byte up.
    pub border: u32,
}

impl SamplerInfo {
    /// The given filter, the same wrap mode on each axis, no comparison and a border of
    /// transparent black.
    pub fn new(filter: FilterMethod, wrap: WrapMode) -> (info: SamplerInfo)
        ensures
            info.filter == filter,
            info.wrap_mode == (wrap, wrap, wrap),
            info.comparison == None::<Comparison>,
            info.border == 0,
    {
        SamplerInfo { filter, wrap_mode: (wrap, wrap, wrap), comparison: None, border: 0 }
    }
}

/// Where a component of a texel that a shader reads comes from.
#[derive(Clone, Copy, Debug, PartialEq, Eq)]
pub enum ChannelSource {
    Zero,
    One,
    X,
    Y,
    Z,
    W,
}

/// The sources of the four components.
#[derive(Clone, Copy, Debug, PartialEq, Eq)]
pub struct Swizzle {
    pub x: ChannelSource,
    pub y: ChannelSource,
    pub z: ChannelSource,
    pub w: ChannelSource,
}

impl Swizzle {
    /// Every component comes from its own channel.
    pub open spec fn identity() -> Swizzle {
        Swizzle {
            x: ChannelSource::X,
            y: ChannelSource::Y,
            z: ChannelSource::Z,
            w: ChannelSource::W,
        }
    }

    /// Every component comes from its own channel.
    pub fn new() -> (swizzle: Swizzle)
        ensures
            swizzle == Swizzle::identity(),
    {
        Swizzle {
            x: ChannelSource::X,
            y: ChannelSource::Y,
            z: ChannelSource::Z,
            w: ChannelSource::W,
        }
    }
}

} // verus!
