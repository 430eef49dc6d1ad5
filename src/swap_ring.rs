//! Swap ring planning: the request a ring is created from, and how it is
//! recreated for a new surface extent.

use vstd::prelude::*;

verus! {

/// Width and height of a surface or an image, in pixels.
#[derive(Clone, Copy, Debug, PartialEq, Eq, Structural)]
pub struct Extent {
    pub width: u32,
    pub height: u32,
}

impl Extent {
    /// An extent with no area (a minimized window) cannot back a ring.
    pub open spec fn is_empty_spec(self) -> bool {
        self.width == 0 || self.height == 0
    }

    pub fn is_empty(&self) -> (r: bool)
        ensures
            r == self.is_empty_spec(),
    {
        self.width == 0 || self.height == 0
    }
}

/// What the surface reports it can present: the driver's minimum image count,
/// the supported pixel formats and the supported composite-alpha modes, each
/// list in the order the driver gives it. Formats and modes are the graphics
/// API's raw codes.
#[derive(Clone, Debug)]
pub struct SurfaceCaps {
    pub min_image_count: u32,
    pub formats: Vec<u32>,
    pub composite_alphas: Vec<u32>,
}

/// The request from which a swap ring is (re)created.
#[derive(Clone, Copy, Debug, PartialEq, Eq, Structural)]
pub struct RingConfig {
    pub min_image_count: u32,
    pub format: u32,
    pub extent: Extent,
    pub composite_alpha: u32,
}

/// Why a ring cannot be planned. Each one is a configuration error.
#[derive(Clone, Copy, Debug, PartialEq, Eq, Structural)]
pub enum RingError {
    ZeroExtent,
    NoFormat,
    NoCompositeAlpha,
    ImageCountOverflow,
}

/// The ring planned for a surface: one image more than the driver's minimum,
/// the first format and the first composite-alpha mode offered.
pub open spec fn planned_ring(caps_min: u32, formats: Seq<u32>, alphas: Seq<u32>, extent: Extent) -> Result<
    RingConfig,
    RingError,
> {
    if extent.is_empty_spec() {
        Err(RingError::ZeroExtent)
    } else if formats.len() == 0 {
        Err(RingError::NoFormat)
    } else if alphas.len() == 0 {
        Err(RingError::NoCompositeAlpha)
    } else if caps_min == u32::MAX {
        Err(RingError::ImageCountOverflow)
    } else {
        Ok(
            RingConfig {
                min_image_count: (caps_min + 1) as u32,
                format: formats[0],
                extent,
                composite_alpha: alphas[0],
            },
        )
    }
}

/// Plans the ring for a surface of the given extent.
pub fn create_config(caps: &SurfaceCaps, extent: Extent) -> (r: Result<RingConfig, RingError>)
    ensures
        r == planned_ring(caps.min_image_count, caps.formats@, caps.composite_alphas@, extent),
{
    if extent.is_empty() {
        return Err(RingError::ZeroExtent);
    }
    if caps.formats.len() == 0 {
        return Err(RingError::NoFormat);
    }
    if caps.composite_alphas.len() == 0 {
        return Err(RingError::NoCompositeAlpha);
    }
    if caps.min_image_count == u32::MAX {
        return Err(RingError::ImageCountOverflow);
    }
    Ok(
        RingConfig {
            min_image_count: caps.min_image_count + 1,
            format: caps.formats[0],
            extent,
            composite_alpha: caps.composite_alphas[0],
        },
    )
}

impl RingConfig {
    /// The request for a new ring on the same surface: same image count,
    /// format and composite alpha, new extent. A zero-area extent is refused.
    pub open spec fn recreated(self, extent: Extent) -> Result<RingConfig, RingError> {
        if extent.is_empty_spec() {
            Err(RingError::ZeroExtent)
        } else {
            Ok(RingConfig { extent, ..self })
        }
    }

    pub fn recreate(&self, extent: Extent) -> (r: Result<RingConfig, RingError>)
        ensures
            r == self.recreated(extent),
    {
        if extent.is_empty() {
            Err(RingError::ZeroExtent)
        } else {
            Ok(RingConfig { extent, ..*self })
        }
    }
}

/// Recreating twice with the same non-zero extent gives the same ring as
/// recreating once: equal image counts and formats in particular.
pub proof fn recreate_idempotent(config: RingConfig, extent: Extent)
    requires
        !extent.is_empty_spec(),
    ensures
        config.recreated(extent) is Ok,
        config.recreated(extent)->Ok_0.recreated(extent) == config.recreated(extent),
        config.recreated(extent)->Ok_0.min_image_count == config.min_image_count,
        config.recreated(extent)->Ok_0.format == config.format,
{
}

} // verus!
