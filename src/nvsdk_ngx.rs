//! Result codes, quality modes and feature flags of the NGX SDK.

use vstd::prelude::*;

verus! {

/// `NVSDK_NGX_Result_Success`.
pub const NGX_RESULT_SUCCESS: u32 = 0x1;

/// `NVSDK_NGX_Result_Fail`: every failure code is this value with a small
/// error number or-ed in.
pub const NGX_RESULT_FAIL: u32 = 0xBAD0_0000;

/// Errors thrown by DLSS.
#[derive(Clone, Copy, PartialEq, Eq, Structural, Debug, Hash)]
pub enum DlssError {
    FeatureNotSupported,
    PlatformError,
    FeatureAlreadyExists,
    FeatureNotFound,
    InvalidParameters,
    ScratchBufferTooSmall,
    NotInitialized,
    UnsupportedInputFormat,
    RWFlagMissing,
    MissingInput,
    UnableToInitializeFeature,
    OutOfDate,
    OutOfGPUMemory,
    UnsupportedFormat,
    UnableToWriteToAppDataPath,
    UnsupportedParameter,
    Denied,
    NotImplemented,
}

/// The error number that the SDK or-s into `NGX_RESULT_FAIL` for `e`.
pub open spec fn error_number(e: DlssError) -> u32 {
    match e {
        DlssError::FeatureNotSupported => 1,
        DlssError::PlatformError => 2,
        DlssError::FeatureAlreadyExists => 3,
        DlssError::FeatureNotFound => 4,
        DlssError::InvalidParameters => 5,
        DlssError::ScratchBufferTooSmall => 6,
        DlssError::NotInitialized => 7,
        DlssError::UnsupportedInputFormat => 8,
        DlssError::RWFlagMissing => 9,
        DlssError::MissingInput => 10,
        DlssError::UnableToInitializeFeature => 11,
        DlssError::OutOfDate => 12,
        DlssError::OutOfGPUMemory => 13,
        DlssError::UnsupportedFormat => 14,
        DlssError::UnableToWriteToAppDataPath => 15,
        DlssError::UnsupportedParameter => 16,
        DlssError::Denied => 17,
        DlssError::NotImplemented => 18,
    }
}

/// The `NVSDK_NGX_Result` code that reports `e`.
pub open spec fn error_code(e: DlssError) -> u32 {
    (NGX_RESULT_FAIL + error_number(e)) as u32
}

/// The codes that the SDK documents: success, or one of its failures.
pub open spec fn is_ngx_result(code: u32) -> bool {
    code == NGX_RESULT_SUCCESS || (NGX_RESULT_FAIL + 1 <= code <= NGX_RESULT_FAIL + 18)
}

/// Whether `code` is one of the results the SDK documents, so that
/// `check_ngx_result` accepts it.
pub fn is_known_ngx_result(code: u32) -> (r: bool)
    ensures
        r == is_ngx_result(code),
{
    code == NGX_RESULT_SUCCESS || (NGX_RESULT_FAIL + 1 <= code && code <= NGX_RESULT_FAIL + 18)
}

/// Turns an SDK result code into `Ok` on success and into the matching error
/// otherwise.
pub fn check_ngx_result(result: u32) -> (r: Result<(), DlssError>)
    requires
        is_ngx_result(result),
    ensures
        r is Ok <==> result == NGX_RESULT_SUCCESS,
        r matches Err(e) ==> error_code(e) == result,
{
    if result == NGX_RESULT_SUCCESS {
        return Ok(());
    }
    let e = match result - NGX_RESULT_FAIL {
        1 => DlssError::FeatureNotSupported,
        2 => DlssError::PlatformError,
        3 => DlssError::FeatureAlreadyExists,
        4 => DlssError::FeatureNotFound,
        5 => DlssError::InvalidParameters,
        6 => DlssError::ScratchBufferTooSmall,
        7 => DlssError::NotInitialized,
        8 => DlssError::UnsupportedInputFormat,
        9 => DlssError::RWFlagMissing,
        10 => DlssError::MissingInput,
        11 => DlssError::UnableToInitializeFeature,
        12 => DlssError::OutOfDate,
        13 => DlssError::OutOfGPUMemory,
        14 => DlssError::UnsupportedFormat,
        15 => DlssError::UnableToWriteToAppDataPath,
        16 => DlssError::UnsupportedParameter,
        17 => DlssError::Denied,
        _ => DlssError::NotImplemented,
    };
    Err(e)
}

/// Distinct errors are reported by distinct codes, so a code names at most
/// one error.
pub proof fn lemma_error_code_injective(a: DlssError, b: DlssError)
    ensures
        error_code(a) == error_code(b) ==> a == b,
        is_ngx_result(error_code(a)),
        error_code(a) != NGX_RESULT_SUCCESS,
{
}

} // verus!

verus! {

/// `NVSDK_NGX_PerfQuality_Value_MaxPerf`.
pub const PERF_QUALITY_MAX_PERF: u32 = 0;

/// `NVSDK_NGX_PerfQuality_Value_Balanced`.
pub const PERF_QUALITY_BALANCED: u32 = 1;

/// `NVSDK_NGX_PerfQuality_Value_MaxQuality`.
pub const PERF_QUALITY_MAX_QUALITY: u32 = 2;

/// `NVSDK_NGX_PerfQuality_Value_UltraPerformance`.
pub const PERF_QUALITY_ULTRA_PERFORMANCE: u32 = 3;

/// `NVSDK_NGX_PerfQuality_Value_DLAA`.
pub const PERF_QUALITY_DLAA: u32 = 5;

/// Below this many output pixels the automatic mode only anti-aliases.
pub const AUTO_DLAA_PIXELS: u64 = 2_030_000;

/// Below this many output pixels the automatic mode picks the quality tier.
pub const AUTO_QUALITY_PIXELS: u64 = 3_680_000;

/// Below this many output pixels the automatic mode picks the performance
/// tier; from here on it picks ultra performance.
pub const AUTO_PERFORMANCE_PIXELS: u64 = 8_290_000;

/// How much DLSS should upscale by.
#[derive(Clone, Copy, PartialEq, Eq, Structural, Debug, Hash)]
pub enum DlssPerfQualityMode {
    /// Let DLSS decide.
    Auto,
    /// Anti-aliasing only, no upscaling.
    Dlaa,
    Quality,
    Balanced,
    Performance,
    UltraPerformance,
}

impl Default for DlssPerfQualityMode {
    fn default() -> (r: Self)
        ensures
            r == DlssPerfQualityMode::Auto,
    {
        DlssPerfQualityMode::Auto
    }
}

/// The tier that the automatic mode picks for an output of `pixels` pixels.
pub open spec fn auto_perf_quality_value(pixels: int) -> u32 {
    if pixels < AUTO_DLAA_PIXELS {
        PERF_QUALITY_DLAA
    } else if pixels < AUTO_QUALITY_PIXELS {
        PERF_QUALITY_MAX_QUALITY
    } else if pixels < AUTO_PERFORMANCE_PIXELS {
        PERF_QUALITY_MAX_PERF
    } else {
        PERF_QUALITY_ULTRA_PERFORMANCE
    }
}

impl DlssPerfQualityMode {
    /// The SDK's perf/quality value for this mode at the given output size.
    pub open spec fn perf_quality_value(self, upscaled_resolution: crate::Resolution) -> u32 {
        match self {
            DlssPerfQualityMode::Auto => auto_perf_quality_value(upscaled_resolution.pixels()),
            DlssPerfQualityMode::Dlaa => PERF_QUALITY_DLAA,
            DlssPerfQualityMode::Quality => PERF_QUALITY_MAX_QUALITY,
            DlssPerfQualityMode::Balanced => PERF_QUALITY_BALANCED,
            DlssPerfQualityMode::Performance => PERF_QUALITY_MAX_PERF,
            DlssPerfQualityMode::UltraPerformance => PERF_QUALITY_ULTRA_PERFORMANCE,
        }
    }

    /// Picks the SDK's perf/quality value; the automatic mode goes by the
    /// output's size in megapixels.
    pub fn as_perf_quality_value(&self, upscaled_resolution: crate::Resolution) -> (r: u32)
        ensures
            r == self.perf_quality_value(upscaled_resolution),
    {
        match self {
            DlssPerfQualityMode::Auto => {
                let x: u64 = upscaled_resolution.x as u64;
                let y: u64 = upscaled_resolution.y as u64;
                assert(x * y <= u32::MAX * u32::MAX) by (nonlinear_arith)
                    requires
                        x <= u32::MAX,
                        y <= u32::MAX,
                ;
                let pixels: u64 = x * y;
                if pixels < AUTO_DLAA_PIXELS {
                    PERF_QUALITY_DLAA
                } else if pixels < AUTO_QUALITY_PIXELS {
                    PERF_QUALITY_MAX_QUALITY
                } else if pixels < AUTO_PERFORMANCE_PIXELS {
                    PERF_QUALITY_MAX_PERF
                } else {
                    PERF_QUALITY_ULTRA_PERFORMANCE
                }
            },
            DlssPerfQualityMode::Dlaa => PERF_QUALITY_DLAA,
            DlssPerfQualityMode::Quality => PERF_QUALITY_MAX_QUALITY,
            DlssPerfQualityMode::Balanced => PERF_QUALITY_BALANCED,
            DlssPerfQualityMode::Performance => PERF_QUALITY_MAX_PERF,
            DlssPerfQualityMode::UltraPerformance => PERF_QUALITY_ULTRA_PERFORMANCE,
        }
    }
}

/// A larger output never gets a less aggressive automatic tier: the tiers
/// step from anti-aliasing only through quality and performance to ultra
/// performance as the pixel count grows.
pub proof fn lemma_auto_tier_monotonic(small: crate::Resolution, large: crate::Resolution)
    requires
        small.pixels() <= large.pixels(),
    ensures
        tier_rank(auto_perf_quality_value(small.pixels())) <= tier_rank(
            auto_perf_quality_value(large.pixels()),
        ),
{
}

/// Orders the tiers that the automatic mode picks by how far they upscale.
pub open spec fn tier_rank(value: u32) -> int {
    if value == PERF_QUALITY_DLAA {
        0
    } else if value == PERF_QUALITY_MAX_QUALITY {
        1
    } else if value == PERF_QUALITY_MAX_PERF {
        2
    } else {
        3
    }
}

} // verus!

verus! {

/// Use an HDR color input instead of an SDR one.
pub const FLAG_HIGH_DYNAMIC_RANGE: u32 = 1;

/// Motion vectors are at render resolution rather than upscaled resolution.
pub const FLAG_LOW_RESOLUTION_MOTION_VECTORS: u32 = 2;

/// Motion vectors contain the camera jitter.
pub const FLAG_JITTERED_MOTION_VECTORS: u32 = 4;

/// The depth buffer is reversed.
pub const FLAG_INVERTED_DEPTH: u32 = 8;

/// DLSS applies auto-exposure.
pub const FLAG_AUTO_EXPOSURE: u32 = 64;

/// The color input has four channels and alpha is upscaled too.
pub const FLAG_ALPHA_UPSCALING: u32 = 128;

/// DLSS may write to a subrect of the output. Not one of the SDK's create
/// flags: it is passed to the SDK as a separate switch.
pub const FLAG_OUTPUT_SUBRECT: u32 = 256;

/// Every flag that the set knows.
pub const FLAGS_ALL: u32 = 0x1CF;

/// Flags for creating a DLSS context: a set of the `FLAG_*` bits.
#[derive(Clone, Copy, PartialEq, Eq, Structural, Debug, Hash)]
pub struct DlssFeatureFlags {
    bits: u32,
}

impl View for DlssFeatureFlags {
    type V = u32;

    closed spec fn view(&self) -> u32 {
        self.bits
    }
}

impl DlssFeatureFlags {
    /// The set with no flag.
    pub fn empty() -> (r: Self)
        ensures
            r@ == 0,
    {
        DlssFeatureFlags { bits: 0 }
    }

    /// The set of every known flag.
    pub fn all() -> (r: Self)
        ensures
            r@ == FLAGS_ALL,
    {
        DlssFeatureFlags { bits: FLAGS_ALL }
    }

    /// The set of the known flags among `bits`; other bits are dropped.
    pub fn from_bits_truncate(bits: u32) -> (r: Self)
        ensures
            r@ == bits & FLAGS_ALL,
    {
        DlssFeatureFlags { bits: bits & FLAGS_ALL }
    }

    /// The raw bits of the set.
    pub fn bits(&self) -> (r: u32)
        ensures
            r == self@,
    {
        self.bits
    }

    /// Whether every flag of `other` is in the set.
    pub fn contains(&self, other: DlssFeatureFlags) -> (r: bool)
        ensures
            r == (self@ & other@ == other@),
    {
        self.bits & other.bits == other.bits
    }

    /// The flags that are in either set.
    pub fn union(self, other: DlssFeatureFlags) -> (r: Self)
        ensures
            r@ == self@ | other@,
    {
        DlssFeatureFlags { bits: self.bits | other.bits }
    }

    /// Adds the flags of `other`.
    pub fn insert(&mut self, other: DlssFeatureFlags)
        ensures
            final(self)@ == old(self)@ | other@,
    {
        self.bits = self.bits | other.bits;
    }

    /// Takes out the flags of `other`.
    pub fn remove(&mut self, other: DlssFeatureFlags)
        ensures
            final(self)@ == old(self)@ & !other@,
    {
        self.bits = self.bits & !other.bits;
    }

    /// The SDK's create flags: the set without the output-subrect flag,
    /// which the SDK takes separately.
    pub fn as_flags(&self) -> (r: u32)
        ensures
            r == self@ & !FLAG_OUTPUT_SUBRECT,
    {
        let mut flags = *self;
        flags.remove(DlssFeatureFlags { bits: FLAG_OUTPUT_SUBRECT });
        flags.bits()
    }
}

/// The create flags never carry the output-subrect flag, and keep every
/// other flag of the set.
pub proof fn lemma_create_flags_drop_only_output_subrect(flags: DlssFeatureFlags, bit: u32)
    requires
        bit < 32,
    ensures
        (flags@ & !FLAG_OUTPUT_SUBRECT) & FLAG_OUTPUT_SUBRECT == 0,
        bit != 8 ==> (((flags@ & !FLAG_OUTPUT_SUBRECT) >> bit) & 1 == (flags@ >> bit) & 1),
{
    let b = flags@;
    assert((b & !256u32) & 256u32 == 0) by (bit_vector);
    assert(bit < 32 && bit != 8 ==> (((b & !256u32) >> bit) & 1 == (b >> bit) & 1))
        by (bit_vector);
}

} // verus!
