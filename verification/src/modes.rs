//! The user-selectable rendering modes.
use vstd::prelude::*;

verus! {

/// Anti-aliasing modes.
#[derive(Clone, Copy, Debug, PartialEq, Eq)]
pub enum AaMode {
    /// No anti-aliasing.
    Off,
    /// Fast approximate anti-aliasing, a post-processing filter.
    Fxaa,
    /// Multisampling with four samples per pixel.
    MsaaX4,
    /// Multisampling with eight samples per pixel.
    MsaaX8,
    /// Multisampling with sixteen samples per pixel.
    MsaaX16,
    /// Supersampling: the scene is rendered at twice the window's width and height.
    SsaaX4,
}

/// Cloud rendering modes.
#[derive(Clone, Copy, Debug, PartialEq, Eq)]
pub enum CloudMode {
    /// No clouds.
    Off,
    /// Volumetric clouds.
    Regular,
}

/// Fluid rendering modes.
#[derive(Clone, Copy, Debug, PartialEq, Eq)]
pub enum FluidMode {
    /// Flat, inexpensive fluids.
    Cheap,
    /// Reflective fluids with waves.
    Shiny,
}

/// Lighting algorithms.
#[derive(Clone, Copy, Debug, PartialEq, Eq)]
pub enum LightingMode {
    /// Ashikhmin-Shirley shading.
    Ashikmin,
    /// Blinn-Phong shading.
    BlinnPhong,
    /// Lambertian (diffuse only) shading.
    Lambertian,
}

/// The four modes that the shaders of a renderer are built for.
#[derive(Clone, Copy, Debug, PartialEq, Eq)]
pub struct Modes {
    pub aa: AaMode,
    pub cloud: CloudMode,
    pub fluid: FluidMode,
    pub lighting: LightingMode,
}

} // verus!
