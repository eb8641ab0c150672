use vstd::prelude::*;

use crate::size::{divides, gcd, lemma_gcd_divides, lemma_gcd_positive, gcd_u32, Size};

verus! {

/// The most invocations a single workgroup may hold.
pub const MAX_WORKGROUP_INVOCATIONS: u64 = 256;

/// The side used when the derived one would exceed the invocation limit.
pub const FALLBACK_WORKGROUP_DIM: u32 = 16;

/// Texel formats the storage texture can take.
#[derive(Clone, Copy, Debug, PartialEq, Eq, Structural)]
pub enum TextureFormat {
    /// Four 8-bit channels, normalized.
    Rgba8Unorm,
    /// Four 8-bit channels, normalized, sampled as sRGB.
    Rgba8UnormSrgb,
}

impl TextureFormat {
    /// The sRGB counterpart of the format, used for the surface and the sampled view.
    pub fn add_srgb_suffix(&self) -> (r: TextureFormat)
        ensures
            r == TextureFormat::Rgba8UnormSrgb,
    {
        match self {
            TextureFormat::Rgba8Unorm => TextureFormat::Rgba8UnormSrgb,
            TextureFormat::Rgba8UnormSrgb => TextureFormat::Rgba8UnormSrgb,
        }
    }
}

/// Process-wide settings, read once.
///
/// `resolution` is `Ok(size)` for a fixed working size, or `Err(n)` where the
/// working size follows the window and `n` is the workgroup tile side.
pub struct Config {
    pub format: TextureFormat,
    pub resolution: Result<Size, u32>,
    pub fps: u32,
    pub canvas_raw_handle: u32,
}

/// The side length of a compute workgroup for a resolution policy: the greatest
/// common divisor of a fixed size, or the configured tile, replaced by the
/// fallback when its square exceeds the invocation limit.
pub open spec fn workgroup_dim(resolution: Result<Size, u32>) -> nat {
    let dim: nat = match resolution {
        Ok(s) => gcd(s.width as nat, s.height as nat),
        Err(n) => n as nat,
    };
    if dim * dim > MAX_WORKGROUP_INVOCATIONS { FALLBACK_WORKGROUP_DIM as nat } else { dim }
}

/// The working size: the fixed size, or else the window's size.
pub open spec fn resolved_size(resolution: Result<Size, u32>, window: Size) -> Size {
    match resolution {
        Ok(s) => s,
        Err(_) => window,
    }
}

impl Config {
    pub open spec fn wg_dim_spec(&self) -> nat {
        workgroup_dim(self.resolution)
    }

    /// The workgroup side derived from the resolution policy.
    pub fn wg_dim(&self) -> (r: u32)
        ensures
            r == self.wg_dim_spec(),
    {
        let dim: u32 = match self.resolution {
            Ok(size) => gcd_u32(size.width, size.height),
            Err(wg) => wg,
        };
        assert((dim as u64) * (dim as u64) <= u64::MAX) by (nonlinear_arith)
            requires
                dim <= u32::MAX,
        ;
        if (dim as u64) * (dim as u64) > MAX_WORKGROUP_INVOCATIONS {
            FALLBACK_WORKGROUP_DIM
        } else {
            dim
        }
    }

    /// The size the texture and the dispatch follow, given the window's size.
    pub fn resolve(&self, window: Size) -> (r: Size)
        ensures
            r == resolved_size(self.resolution, window),
    {
        match self.resolution {
            Ok(size) => size,
            Err(_) => window,
        }
    }

    /// The number of workgroups on each axis for one compute pass: each side of
    /// the working size divided by the workgroup side, rounding down.
    pub fn dispatch_counts(&self, window: Size) -> (r: (u32, u32))
        requires
            self.wg_dim_spec() > 0,
        ensures
            r.0 == resolved_size(self.resolution, window).width as nat / self.wg_dim_spec(),
            r.1 == resolved_size(self.resolution, window).height as nat / self.wg_dim_spec(),
    {
        let dim = self.wg_dim();
        let size = self.resolve(window);
        (size.width / dim, size.height / dim)
    }
}

impl Default for Config {
    fn default() -> (r: Config)
        ensures
            r.format == TextureFormat::Rgba8Unorm,
            r.resolution == Err::<Size, u32>(16),
            r.fps == 15,
            r.canvas_raw_handle == 2024,
    {
        Config {
            format: TextureFormat::Rgba8Unorm,
            resolution: Err(16),
            fps: 15,
            canvas_raw_handle: 2024,
        }
    }
}

/// The workgroup side never exceeds the invocation limit when squared; a fixed
/// size with positive sides gives a positive side, and where the greatest common
/// divisor is kept it divides both sides evenly.
pub proof fn lemma_workgroup_dim_bounded(resolution: Result<Size, u32>)
    ensures
        workgroup_dim(resolution) * workgroup_dim(resolution) <= MAX_WORKGROUP_INVOCATIONS,
        match resolution {
            Ok(s) => {
                &&& s.drawable() ==> workgroup_dim(resolution) > 0
                &&& (gcd(s.width as nat, s.height as nat) * gcd(s.width as nat, s.height as nat)
                    <= MAX_WORKGROUP_INVOCATIONS) ==> {
                    &&& workgroup_dim(resolution) == gcd(s.width as nat, s.height as nat)
                    &&& divides(workgroup_dim(resolution), s.width as nat)
                    &&& divides(workgroup_dim(resolution), s.height as nat)
                }
            },
            Err(n) => n > 0 ==> workgroup_dim(resolution) > 0,
        },
{
    assert(FALLBACK_WORKGROUP_DIM as nat * FALLBACK_WORKGROUP_DIM as nat == 256);
    match resolution {
        Ok(s) => {
            lemma_gcd_divides(s.width as nat, s.height as nat);
            if s.drawable() {
                lemma_gcd_positive(s.width as nat, s.height as nat);
            }
        },
        Err(n) => {},
    }
}

} // verus!
