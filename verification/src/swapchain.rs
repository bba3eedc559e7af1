//! Swapchain configuration policy: which pixel format to present in and
//! which extent to build the image set at, derived from what the surface
//! reports. Both are pure functions of the surface's report, which is
//! what makes recreation under an unchanged surface idempotent.

use vstd::prelude::*;

verus! {

/// A two-dimensional size in pixels.
#[derive(Clone, Copy, PartialEq, Eq, Structural, Debug)]
pub struct Extent2D {
    pub width: u32,
    pub height: u32,
}

/// How the channels of a pixel format are interpreted. `Srgb` marks the
/// perceptual (gamma-encoded) encodings the format policy prefers.
#[derive(Clone, Copy, PartialEq, Eq, Structural, Debug)]
pub enum ChannelKind {
    Unorm,
    Inorm,
    Uint,
    Int,
    Ufloat,
    Float,
    Uscaled,
    Iscaled,
    Srgb,
}

/// A surface pixel format: an opaque backend format code plus the
/// channel interpretation the policy inspects.
#[derive(Clone, Copy, PartialEq, Eq, Structural, Debug)]
pub struct PixelFormat {
    /// The backend's own identifier for the full format, in the Vulkan
    /// numbering that presentation backends mirror.
    pub code: u32,
    /// The channel interpretation of the format.
    pub channel: ChannelKind,
}

/// Format code of 8-bit-per-channel RGBA with sRGB encoding, the
/// fallback when the surface reports no format constraints.
pub const RGBA8_SRGB_CODE: u32 = 43;

/// The default format: 8 bits per channel, perceptually encoded.
pub open spec fn default_format() -> PixelFormat {
    PixelFormat { code: RGBA8_SRGB_CODE, channel: ChannelKind::Srgb }
}

/// What a surface reports about the swapchains it can carry.
#[derive(Clone, Copy, PartialEq, Eq, Structural, Debug)]
pub struct SurfaceCaps {
    /// Fewest presentable images a swapchain may have; at least 1.
    pub image_count_min: u32,
    /// Most presentable images a swapchain may have.
    pub image_count_max: u32,
    /// The surface's current size, or `None` if the surface takes its
    /// size from the swapchain.
    pub current_extent: Option<Extent2D>,
    /// Smallest supported extent.
    pub extent_min: Extent2D,
    /// Largest supported extent, exclusive in each dimension.
    pub extent_max: Extent2D,
}

/// The index of the first reported format with perceptual encoding.
pub open spec fn first_srgb(s: Seq<PixelFormat>) -> Option<int>
    decreases s.len(),
{
    if s.len() == 0 {
        None
    } else if s[0].channel is Srgb {
        Some(0int)
    } else {
        match first_srgb(s.subrange(1, s.len() as int)) {
            Some(i) => Some(i + 1),
            None => None,
        }
    }
}

/// `first_srgb` returns the least index whose format is sRGB-encoded,
/// and `None` exactly when no reported format is.
pub proof fn lemma_first_srgb_least(s: Seq<PixelFormat>)
    ensures
        match first_srgb(s) {
            Some(i) => 0 <= i < s.len() && s[i].channel is Srgb && forall|j: int|
                0 <= j < i ==> !(#[trigger] s[j].channel is Srgb),
            None => forall|j: int| 0 <= j < s.len() ==> !(#[trigger] s[j].channel is Srgb),
        },
    decreases s.len(),
{
    if s.len() == 0 {
    } else if s[0].channel is Srgb {
    } else {
        let tail = s.subrange(1, s.len() as int);
        lemma_first_srgb_least(tail);
        match first_srgb(tail) {
            Some(i) => {
                assert(s[i + 1] == tail[i]);
                assert forall|j: int| 0 <= j < i + 1 implies !(#[trigger] s[j].channel is Srgb) by {
                    if j > 0 {
                        assert(tail[j - 1] == s[j]);
                        assert(!(tail[j - 1].channel is Srgb));
                    }
                }
            },
            None => {
                assert forall|j: int|
                    0 <= j < s.len() implies !(#[trigger] s[j].channel is Srgb) by {
                    if j > 0 {
                        assert(tail[j - 1] == s[j]);
                        assert(!(tail[j - 1].channel is Srgb));
                    }
                }
            },
        }
    }
}

/// The format the policy settles on: among the reported formats, the
/// first whose encoding is perceptual; if none qualifies, the first
/// reported; if the surface reports no constraints, the default.
pub open spec fn spec_select_format(formats: Option<Seq<PixelFormat>>) -> PixelFormat
    recommends
        formats matches Some(s) ==> s.len() > 0,
{
    match formats {
        None => default_format(),
        Some(s) => match first_srgb(s) {
            Some(i) => s[i],
            None => s[0],
        },
    }
}

/// Which reported format the policy picked: `None` to use the default
/// (the surface reported no constraints), `Some(i)` for index `i` of
/// the reported list.
#[verifier::loop_isolation(false)]
pub fn select_format_index(formats: &Option<Vec<PixelFormat>>) -> (r: Option<usize>)
    requires
        formats matches Some(v) ==> v@.len() > 0,
    ensures
        match r {
            None => formats is None,
            Some(i) => formats matches Some(v) && i < v@.len() && v@[i as int]
                == spec_select_format(Some(v@)) && (match first_srgb(v@) {
                Some(k) => i == k,
                None => i == 0,
            }),
        },
{
    match formats {
        None => None,
        Some(v) => {
            let mut idx: usize = 0;
            while idx < v.len()
                invariant
                    idx <= v@.len(),
                    forall|j: int| 0 <= j < idx ==> !(#[trigger] v@[j].channel is Srgb),
                decreases v@.len() - idx,
            {
                if v[idx].channel == ChannelKind::Srgb {
                    proof {
                        lemma_first_srgb_least(v@);
                        assert(v@[idx as int].channel is Srgb);
                        match first_srgb(v@) {
                            None => {
                                assert(false);
                            },
                            Some(k) => {
                                if k < idx as int {
                                    assert(!(v@[k].channel is Srgb));
                                    assert(false);
                                }
                                if k > idx as int {
                                    assert(!(v@[idx as int].channel is Srgb));
                                    assert(false);
                                }
                            },
                        }
                    }
                    return Some(idx);
                }
                idx = idx + 1;
            }
            proof {
                lemma_first_srgb_least(v@);
            }
            Some(0)
        },
    }
}

/// The format the policy settles on, as a value.
pub fn select_format(formats: &Option<Vec<PixelFormat>>) -> (r: PixelFormat)
    requires
        formats matches Some(v) ==> v@.len() > 0,
    ensures
        r == spec_select_format(match *formats {
            Some(v) => Some(v@),
            None => None,
        }),
{
    match select_format_index(formats) {
        None => PixelFormat { code: RGBA8_SRGB_CODE, channel: ChannelKind::Srgb },
        Some(i) => {
            match formats {
                Some(v) => v[i],
                None => {
                    proof {
                        assert(false);
                    }
                    PixelFormat { code: RGBA8_SRGB_CODE, channel: ChannelKind::Srgb }
                },
            }
        },
    }
}

/// One dimension clamped as the capability-driven extent derivation
/// does: raised to `lo`, then capped at `hi`.
pub open spec fn spec_clamp(v: int, lo: int, hi: int) -> int {
    let raised = if v >= lo {
        v
    } else {
        lo
    };
    if raised <= hi {
        raised
    } else {
        hi
    }
}

/// The extent the swapchain is built at: the surface's current extent
/// when it has one, otherwise the requested default clamped into the
/// supported range (whose upper bound is exclusive).
pub open spec fn spec_derived_extent(caps: SurfaceCaps, default: Extent2D) -> Extent2D
    recommends
        caps.extent_max.width >= 1,
        caps.extent_max.height >= 1,
{
    match caps.current_extent {
        Some(e) => e,
        None => Extent2D {
            width: spec_clamp(
                default.width as int,
                caps.extent_min.width as int,
                caps.extent_max.width - 1,
            ) as u32,
            height: spec_clamp(
                default.height as int,
                caps.extent_min.height as int,
                caps.extent_max.height - 1,
            ) as u32,
        },
    }
}

/// Derives the swapchain extent from the surface capabilities: the
/// extent is never arbitrarily chosen.
pub fn derive_extent(caps: &SurfaceCaps, default: Extent2D) -> (e: Extent2D)
    requires
        caps.extent_max.width >= 1,
        caps.extent_max.height >= 1,
    ensures
        e == spec_derived_extent(*caps, default),
{
    match caps.current_extent {
        Some(current) => current,
        None => {
            let max_width = caps.extent_max.width - 1;
            let max_height = caps.extent_max.height - 1;
            let raised_w = if default.width >= caps.extent_min.width {
                default.width
            } else {
                caps.extent_min.width
            };
            let raised_h = if default.height >= caps.extent_min.height {
                default.height
            } else {
                caps.extent_min.height
            };
            let width = if raised_w <= max_width {
                raised_w
            } else {
                max_width
            };
            let height = if raised_h <= max_height {
                raised_h
            } else {
                max_height
            };
            Extent2D { width, height }
        },
    }
}

/// The swapchain's configuration: fixed for the lifetime of one
/// swapchain instance; everything extent- or format-coupled is rebuilt
/// together with it.
#[derive(Clone, Copy, PartialEq, Eq, Structural, Debug)]
pub struct SwapchainState {
    /// The chosen pixel format.
    pub format: PixelFormat,
    /// The extent the image set is built at.
    pub extent: Extent2D,
    /// How many images the swapchain asks the backend for: the fewest
    /// the surface supports.
    pub requested_image_count: u32,
}

/// The whole configuration as a function of the surface's report.
pub open spec fn spec_swapchain(
    caps: SurfaceCaps,
    formats: Option<Seq<PixelFormat>>,
    default: Extent2D,
) -> SwapchainState {
    SwapchainState {
        format: spec_select_format(formats),
        extent: spec_derived_extent(caps, default),
        requested_image_count: caps.image_count_min,
    }
}

impl SwapchainState {
    /// Derives the configuration of a new swapchain from the surface's
    /// capabilities and reported formats.
    pub fn new(caps: &SurfaceCaps, formats: &Option<Vec<PixelFormat>>, default: Extent2D) -> (s:
        SwapchainState)
        requires
            formats matches Some(v) ==> v@.len() > 0,
            caps.extent_max.width >= 1,
            caps.extent_max.height >= 1,
        ensures
            s == spec_swapchain(
                *caps,
                match *formats {
                    Some(v) => Some(v@),
                    None => None,
                },
                default,
            ),
    {
        let format = select_format(formats);
        let extent = derive_extent(caps, default);
        SwapchainState { format, extent, requested_image_count: caps.image_count_min }
    }
}

/// Recreation is idempotent under a no-op resize: the configuration
/// depends on nothing but the surface's report, so two swapchains
/// derived in succession from an unchanged surface have an identical
/// extent and format.
pub proof fn lemma_recreate_idempotent(
    first: SwapchainState,
    second: SwapchainState,
    caps: SurfaceCaps,
    formats: Option<Seq<PixelFormat>>,
    default: Extent2D,
)
    requires
        first == spec_swapchain(caps, formats, default),
        second == spec_swapchain(caps, formats, default),
    ensures
        second.extent == first.extent,
        second.format == first.format,
{
}

} // verus!
