//! Surface configuration: which presentation format, present mode and alpha
//! mode the swap surface is configured with, at which size, and how a failed
//! frame acquisition is to be treated.

use vstd::prelude::*;

verus! {

/// `wgpu::TextureFormat`, carried through as an opaque value.
#[verifier::external_type_specification]
#[verifier::external_body]
pub struct ExTextureFormat(wgpu::TextureFormat);

/// `wgpu::PresentMode`, carried through as an opaque value.
#[verifier::external_type_specification]
#[verifier::external_body]
pub struct ExPresentMode(wgpu::PresentMode);

/// `wgpu::CompositeAlphaMode`, carried through as an opaque value.
#[verifier::external_type_specification]
#[verifier::external_body]
pub struct ExCompositeAlphaMode(wgpu::CompositeAlphaMode);

/// Whether `wgpu::TextureFormat::is_srgb` holds of a format.
pub uninterp spec fn is_srgb_format(format: wgpu::TextureFormat) -> bool;

/// `wgpu::TextureFormat::is_srgb` depends on the format alone: it compares
/// the format with itself stripped of its sRGB suffix. Nothing is claimed
/// here about which formats those are.
pub assume_specification[ wgpu::TextureFormat::is_srgb ](format: &wgpu::TextureFormat) -> (srgb: bool)
    ensures
        srgb == is_srgb_format(*format),
;

/// The number of `false` entries that `flags` starts with.
pub open spec fn leading_clear(flags: Seq<bool>) -> nat
    decreases flags.len(),
{
    if flags.len() == 0 || flags[0] {
        0
    } else {
        1 + leading_clear(flags.drop_first())
    }
}

/// The position preferred among candidates of which `flags` marks the wanted
/// ones: the first marked one, or the very first where none is marked.
pub open spec fn preferred_position(flags: Seq<bool>) -> int {
    if leading_clear(flags) < flags.len() {
        leading_clear(flags) as int
    } else {
        0
    }
}

/// For each format, whether it is an sRGB format.
pub open spec fn srgb_flags_of(formats: Seq<wgpu::TextureFormat>) -> Seq<bool> {
    Seq::new(formats.len(), |i: int| is_srgb_format(formats[i]))
}

/// `leading_clear` stops at the first set flag and nowhere before it.
pub proof fn lemma_leading_clear(flags: Seq<bool>)
    ensures
        leading_clear(flags) <= flags.len(),
        forall|j: int| 0 <= j < leading_clear(flags) ==> !flags[j],
        leading_clear(flags) < flags.len() ==> flags[leading_clear(flags) as int],
    decreases flags.len(),
{
    if flags.len() == 0 || flags[0] {
    } else {
        let rest = flags.drop_first();
        lemma_leading_clear(rest);
        assert forall|j: int| 0 <= j < leading_clear(flags) implies !flags[j] by {
            if j > 0 {
                assert(flags[j] == rest[j - 1]);
            }
        }
        if leading_clear(flags) < flags.len() {
            assert(flags[leading_clear(flags) as int] == rest[leading_clear(rest) as int]);
        }
    }
}

/// A position with a set flag and none before it is where `leading_clear`
/// stops; so is the length when no flag is set at all.
pub proof fn lemma_leading_clear_is(flags: Seq<bool>, n: int)
    requires
        0 <= n <= flags.len(),
        forall|j: int| 0 <= j < n ==> !flags[j],
        n < flags.len() ==> flags[n],
    ensures
        leading_clear(flags) == n,
{
    lemma_leading_clear(flags);
    let k = leading_clear(flags) as int;
    if k < n {
        assert(flags[k]);
        assert(!flags[k]);
    } else if n < k {
        assert(flags[n]);
        assert(!flags[n]);
    }
}

/// The preferred position among the candidates that `flags` describes.
///
/// `None` exactly when there is no candidate.
pub fn preferred_index(flags: &Vec<bool>) -> (index: Option<usize>)
    ensures
        index is None <==> flags@.len() == 0,
        index matches Some(i) ==> i == preferred_position(flags@),
{
    let mut i: usize = 0;
    while i < flags.len()
        invariant
            i <= flags@.len(),
            forall|j: int| 0 <= j < i ==> !flags@[j],
        decreases flags@.len() - i,
    {
        if flags[i] {
            proof {
                lemma_leading_clear_is(flags@, i as int);
            }
            return Some(i);
        }
        i += 1;
    }
    proof {
        lemma_leading_clear_is(flags@, flags@.len() as int);
    }
    if flags.len() == 0 {
        None
    } else {
        Some(0)
    }
}

/// For each format, whether it is an sRGB format.
pub fn srgb_flags(formats: &Vec<wgpu::TextureFormat>) -> (flags: Vec<bool>)
    ensures
        flags@ == srgb_flags_of(formats@),
{
    let mut flags: Vec<bool> = Vec::new();
    let mut i: usize = 0;
    while i < formats.len()
        invariant
            i <= formats@.len(),
            flags@.len() == i,
            forall|j: int| 0 <= j < i ==> flags@[j] == is_srgb_format(formats@[j]),
        decreases formats@.len() - i,
    {
        flags.push(formats[i].is_srgb());
        i += 1;
    }
    assert(flags@ =~= srgb_flags_of(formats@));
    flags
}

/// The presentation format to configure a surface with: the first sRGB
/// format among those the surface supports, or the first format of all where
/// none of them is sRGB.
///
/// `None` exactly when the surface supports no format.
pub fn preferred_format(formats: &Vec<wgpu::TextureFormat>) -> (format: Option<wgpu::TextureFormat>)
    ensures
        format is None <==> formats@.len() == 0,
        format matches Some(f) ==> f == formats@[preferred_position(srgb_flags_of(formats@))],
{
    let flags = srgb_flags(formats);
    match preferred_index(&flags) {
        Some(i) => {
            proof {
                lemma_leading_clear(flags@);
            }
            Some(formats[i])
        },
        None => None,
    }
}

/// Why a surface cannot be configured from what it reports to support.
#[derive(Clone, Copy, Debug, PartialEq, Eq, Structural)]
pub enum ConfigError {
    /// The surface supports no texture format.
    NoFormat,
    /// The surface supports no present mode.
    NoPresentMode,
    /// The surface supports no alpha mode.
    NoAlphaMode,
}

/// The frame-latency hint every configuration is created with.
pub const FRAME_LATENCY: u32 = 2;

/// How the swap surface is configured.
#[derive(Clone, Copy, Debug, PartialEq, Eq)]
pub struct SurfaceConfig {
    pub format: wgpu::TextureFormat,
    pub width: u32,
    pub height: u32,
    pub present_mode: wgpu::PresentMode,
    pub alpha_mode: wgpu::CompositeAlphaMode,
    pub desired_maximum_frame_latency: u32,
}

impl SurfaceConfig {
    /// The configuration for a surface of the given size that supports the
    /// given formats, present modes and alpha modes: the preferred format,
    /// the first present mode, the first alpha mode.
    ///
    /// Fails exactly when one of the three lists is empty, and names the
    /// first empty one.
    pub fn from_capabilities(
        formats: &Vec<wgpu::TextureFormat>,
        present_modes: &Vec<wgpu::PresentMode>,
        alpha_modes: &Vec<wgpu::CompositeAlphaMode>,
        width: u32,
        height: u32,
    ) -> (config: Result<SurfaceConfig, ConfigError>)
        ensures
            match config {
                Ok(c) => {
                    &&& formats@.len() > 0
                    &&& present_modes@.len() > 0
                    &&& alpha_modes@.len() > 0
                    &&& c == (SurfaceConfig {
                        format: formats@[preferred_position(srgb_flags_of(formats@))],
                        width,
                        height,
                        present_mode: present_modes@[0],
                        alpha_mode: alpha_modes@[0],
                        desired_maximum_frame_latency: FRAME_LATENCY,
                    })
                },
                Err(ConfigError::NoFormat) => formats@.len() == 0,
                Err(ConfigError::NoPresentMode) => formats@.len() > 0 && present_modes@.len() == 0,
                Err(ConfigError::NoAlphaMode) => {
                    formats@.len() > 0 && present_modes@.len() > 0 && alpha_modes@.len() == 0
                },
            },
    {
        let format = match preferred_format(formats) {
            Some(format) => format,
            None => {
                return Err(ConfigError::NoFormat);
            },
        };
        if present_modes.len() == 0 {
            return Err(ConfigError::NoPresentMode);
        }
        if alpha_modes.len() == 0 {
            return Err(ConfigError::NoAlphaMode);
        }
        Ok(
            SurfaceConfig {
                format,
                width,
                height,
                present_mode: present_modes[0],
                alpha_mode: alpha_modes[0],
                desired_maximum_frame_latency: FRAME_LATENCY,
            },
        )
    }

    /// Whether a surface can be given this size: neither side is zero.
    pub open spec fn has_area(width: u32, height: u32) -> bool {
        width > 0 && height > 0
    }
}

/// Why acquiring the next frame of the surface failed.
#[derive(Clone, Copy, Debug, PartialEq, Eq, Structural)]
pub enum AcquireError {
    /// The wait for the next frame timed out.
    Timeout,
    /// The surface changed underneath its configuration.
    Outdated,
    /// The swap chain was lost.
    Lost,
    /// No memory is left for a new frame.
    OutOfMemory,
    /// Any other failure.
    Other,
}

/// What a failed acquisition asks of the frame loop.
#[derive(Clone, Copy, Debug, PartialEq, Eq, Structural)]
pub enum Severity {
    /// The surface must be configured again; the next tick retries.
    Recoverable,
    /// The frame loop must end.
    Fatal,
    /// The frame is skipped without a word.
    Transient,
    /// The frame is skipped and the failure reported.
    Reported,
}

impl AcquireError {
    pub open spec fn spec_severity(self) -> Severity {
        match self {
            AcquireError::Lost | AcquireError::Outdated => Severity::Recoverable,
            AcquireError::OutOfMemory => Severity::Fatal,
            AcquireError::Timeout => Severity::Transient,
            AcquireError::Other => Severity::Reported,
        }
    }

    /// How severe the failure is.
    #[verifier::when_used_as_spec(spec_severity)]
    pub fn severity(self) -> (severity: Severity)
        ensures
            severity == self.spec_severity(),
    {
        match self {
            AcquireError::Lost | AcquireError::Outdated => Severity::Recoverable,
            AcquireError::OutOfMemory => Severity::Fatal,
            AcquireError::Timeout => Severity::Transient,
            AcquireError::Other => Severity::Reported,
        }
    }
}

} // verus!
