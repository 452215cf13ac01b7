//! A DLSS context's resolutions, the parameters it is created with, and the
//! camera jitter it suggests.

use crate::halton::{halton_den, halton_num, halton_sequence, lemma_halton_bounds};
use crate::nvsdk_ngx::{DlssFeatureFlags, DlssPerfQualityMode, FLAG_OUTPUT_SUBRECT};
use crate::Resolution;
use core::ops::RangeInclusive;
use vstd::prelude::*;

verus! {

/// The render resolutions that the SDK reports as optimal for an output
/// size and perf/quality value.
#[derive(Clone, Copy, PartialEq, Eq, Structural, Debug)]
pub struct OptimalSettings {
    pub optimal_render_resolution: Resolution,
    pub min_render_resolution: Resolution,
    pub max_render_resolution: Resolution,
}

/// What the SDK is given to create a DLSS feature.
#[derive(Clone, Copy, PartialEq, Eq, Structural, Debug)]
pub struct DlssCreateParams {
    /// Render resolution.
    pub in_width: u32,
    pub in_height: u32,
    /// Upscaled resolution.
    pub in_target_width: u32,
    pub in_target_height: u32,
    pub in_perf_quality_value: u32,
    pub in_feature_create_flags: u32,
    pub in_enable_output_subrects: bool,
}

/// The resolutions of a context about to be created, and the parameters the
/// SDK creates its feature with.
#[derive(Clone, Copy, PartialEq, Eq, Structural, Debug)]
pub struct ContextPlan {
    pub upscaled_resolution: Resolution,
    pub min_render_resolution: Resolution,
    pub max_render_resolution: Resolution,
    pub create_params: DlssCreateParams,
}

/// The render resolutions a context uses: in anti-aliasing-only mode the
/// output resolution itself, otherwise what the SDK reported.
pub open spec fn planned_settings(
    upscaled_resolution: Resolution,
    perf_quality_mode: DlssPerfQualityMode,
    settings: OptimalSettings,
) -> OptimalSettings {
    if perf_quality_mode == DlssPerfQualityMode::Dlaa {
        OptimalSettings {
            optimal_render_resolution: upscaled_resolution,
            min_render_resolution: upscaled_resolution,
            max_render_resolution: upscaled_resolution,
        }
    } else {
        settings
    }
}

/// Chooses the render resolutions of a new context from the SDK's optimal
/// settings, and fills in the parameters its feature is created with.
pub fn plan_context(
    upscaled_resolution: Resolution,
    perf_quality_mode: DlssPerfQualityMode,
    feature_flags: DlssFeatureFlags,
    settings: OptimalSettings,
) -> (r: ContextPlan)
    ensures
        ({
            let s = planned_settings(upscaled_resolution, perf_quality_mode, settings);
            &&& r.upscaled_resolution == upscaled_resolution
            &&& r.min_render_resolution == s.min_render_resolution
            &&& r.max_render_resolution == s.max_render_resolution
            &&& r.create_params.in_width == s.optimal_render_resolution.x
            &&& r.create_params.in_height == s.optimal_render_resolution.y
        }),
        r.create_params.in_target_width == upscaled_resolution.x,
        r.create_params.in_target_height == upscaled_resolution.y,
        r.create_params.in_perf_quality_value == perf_quality_mode.perf_quality_value(
            upscaled_resolution,
        ),
        r.create_params.in_feature_create_flags == feature_flags@ & !FLAG_OUTPUT_SUBRECT,
        r.create_params.in_enable_output_subrects == (feature_flags@ & FLAG_OUTPUT_SUBRECT
            == FLAG_OUTPUT_SUBRECT),
{
    let perf_quality_value = perf_quality_mode.as_perf_quality_value(upscaled_resolution);
    let mut optimal = settings.optimal_render_resolution;
    let mut min = settings.min_render_resolution;
    let mut max = settings.max_render_resolution;
    if perf_quality_mode == DlssPerfQualityMode::Dlaa {
        optimal = upscaled_resolution;
        min = upscaled_resolution;
        max = upscaled_resolution;
    }
    let output_subrect = DlssFeatureFlags::from_bits_truncate(FLAG_OUTPUT_SUBRECT);
    assert(FLAG_OUTPUT_SUBRECT & crate::nvsdk_ngx::FLAGS_ALL == FLAG_OUTPUT_SUBRECT)
        by (bit_vector);
    ContextPlan {
        upscaled_resolution,
        min_render_resolution: min,
        max_render_resolution: max,
        create_params: DlssCreateParams {
            in_width: optimal.x,
            in_height: optimal.y,
            in_target_width: upscaled_resolution.x,
            in_target_height: upscaled_resolution.y,
            in_perf_quality_value: perf_quality_value,
            in_feature_create_flags: feature_flags.as_flags(),
            in_enable_output_subrects: feature_flags.contains(output_subrect),
        },
    }
}

/// How many frames the jitter pattern lasts: `floor(8 * r * r)` for
/// `r = upscaled_width / render_width`, saturated to `u32::MAX`; a zero
/// render width counts as an unbounded ratio unless the output width is
/// zero too.
pub open spec fn jitter_phase_count(upscaled_width: u32, render_width: u32) -> int {
    if render_width == 0 {
        if upscaled_width == 0 {
            0
        } else {
            u32::MAX as int
        }
    } else {
        let n = (8 * upscaled_width * upscaled_width) / (render_width * render_width);
        if n > u32::MAX {
            u32::MAX as int
        } else {
            n
        }
    }
}

/// The position in the Halton sequence for a frame: counting from one, and
/// starting over after every phase.
pub open spec fn jitter_index(frame_count: u32, phase_count: int) -> int {
    (frame_count as int % phase_count) + 1
}

/// Computes `jitter_phase_count`.
pub fn jitter_phase_count_of(upscaled_width: u32, render_width: u32) -> (r: u32)
    ensures
        r == jitter_phase_count(upscaled_width, render_width),
{
    if render_width == 0 {
        if upscaled_width == 0 {
            0
        } else {
            u32::MAX
        }
    } else {
        let up: u128 = upscaled_width as u128;
        let render: u128 = render_width as u128;
        assert(8 * up * up <= 8 * u32::MAX * u32::MAX) by (nonlinear_arith)
            requires
                up <= u32::MAX,
        ;
        assert(render * render <= u32::MAX * u32::MAX && render * render >= 1)
            by (nonlinear_arith)
            requires
                1 <= render <= u32::MAX,
        ;
        let n: u128 = (8 * up * up) / (render * render);
        if n > u32::MAX as u128 {
            u32::MAX
        } else {
            n as u32
        }
    }
}

/// A sub-pixel offset `(x, y)`, each coordinate the fraction
/// `numerator / denominator`.
#[derive(Clone, Copy, PartialEq, Eq, Structural, Debug)]
pub struct JitterOffset {
    pub x_numerator: i64,
    pub x_denominator: u64,
    pub y_numerator: i64,
    pub y_denominator: u64,
}

/// The offset for Halton position `index`: the Halton values in bases two
/// and three, each less one half.
pub open spec fn jitter_offset_at(index: int) -> JitterOffset {
    JitterOffset {
        x_numerator: (2 * halton_num(index as nat, 2) - halton_den(index as nat, 2)) as i64,
        x_denominator: (2 * halton_den(index as nat, 2)) as u64,
        y_numerator: (2 * halton_num(index as nat, 3) - halton_den(index as nat, 3)) as i64,
        y_denominator: (2 * halton_den(index as nat, 3)) as u64,
    }
}

/// The offset `numerator / denominator` of a fraction returned by
/// `halton_sequence`, less one half.
fn centered(index: u32, base: u32) -> (r: (i64, u64))
    requires
        2 <= base <= 3,
    ensures
        r.0 == 2 * halton_num(index as nat, base as nat) - halton_den(index as nat, base as nat),
        r.1 == 2 * halton_den(index as nat, base as nat),
        -(r.1 as int) <= 2 * r.0 < r.1,
{
    let (num, den) = halton_sequence(index, base);
    proof {
        lemma_halton_bounds(index as nat, base as nat);
        assert(index as nat * base as nat <= 3 * u32::MAX) by (nonlinear_arith)
            requires
                base <= 3,
                index <= u32::MAX,
        ;
    }
    ((2 * num) as i64 - den as i64, 2 * den)
}

/// A DLSS context: an upscaling feature of the SDK, `feature`, bound to one
/// output resolution and a range of render resolutions.
pub struct DlssContext<F> {
    upscaled_resolution: Resolution,
    min_render_resolution: Resolution,
    max_render_resolution: Resolution,
    feature: F,
}

impl<F> DlssContext<F> {
    /// The output resolution.
    pub closed spec fn spec_upscaled_resolution(&self) -> Resolution {
        self.upscaled_resolution
    }

    /// The smallest render resolution.
    pub closed spec fn spec_min_render_resolution(&self) -> Resolution {
        self.min_render_resolution
    }

    /// The largest render resolution.
    pub closed spec fn spec_max_render_resolution(&self) -> Resolution {
        self.max_render_resolution
    }

    /// The SDK's feature that the context drives.
    pub closed spec fn spec_feature(&self) -> F {
        self.feature
    }

    /// A context with the resolutions of `plan`, driving `feature`, which
    /// the SDK created with `plan.create_params`.
    pub fn new(plan: &ContextPlan, feature: F) -> (r: Self)
        ensures
            r.spec_upscaled_resolution() == plan.upscaled_resolution,
            r.spec_min_render_resolution() == plan.min_render_resolution,
            r.spec_max_render_resolution() == plan.max_render_resolution,
            r.spec_feature() == feature,
    {
        DlssContext {
            upscaled_resolution: plan.upscaled_resolution,
            min_render_resolution: plan.min_render_resolution,
            max_render_resolution: plan.max_render_resolution,
            feature,
        }
    }

    /// The sub-pixel jitter to apply to the camera for frame `frame_count`
    /// when rendering at `render_resolution`: Halton points in bases two and
    /// three, less one half, cycling through `jitter_phase_count` positions.
    pub fn suggested_jitter(&self, frame_count: u32, render_resolution: Resolution) -> (r:
        JitterOffset)
        requires
            jitter_phase_count(self.spec_upscaled_resolution().x, render_resolution.x) > 0,
        ensures
            r == jitter_offset_at(
                jitter_index(
                    frame_count,
                    jitter_phase_count(self.spec_upscaled_resolution().x, render_resolution.x),
                ),
            ),
            -(r.x_denominator as int) <= 2 * r.x_numerator < r.x_denominator,
            -(r.y_denominator as int) <= 2 * r.y_numerator < r.y_denominator,
    {
        let phase_count = jitter_phase_count_of(self.upscaled_resolution.x, render_resolution.x);
        let i: u32 = (frame_count % phase_count) + 1;
        let (x_numerator, x_denominator) = centered(i, 2);
        let (y_numerator, y_denominator) = centered(i, 3);
        JitterOffset { x_numerator, x_denominator, y_numerator, y_denominator }
    }

    /// The output resolution.
    pub fn upscaled_resolution(&self) -> (r: Resolution)
        ensures
            r == self.spec_upscaled_resolution(),
    {
        self.upscaled_resolution
    }

    /// The render resolution to use: the smallest one the context accepts.
    pub fn render_resolution(&self) -> (r: Resolution)
        ensures
            r == self.spec_min_render_resolution(),
    {
        self.min_render_resolution
    }

    /// The render resolutions the context accepts, smallest to largest.
    pub fn render_resolution_range(&self) -> (r: RangeInclusive<Resolution>)
        ensures
            r@.start == self.spec_min_render_resolution(),
            r@.end == self.spec_max_render_resolution(),
            !r@.exhausted,
    {
        RangeInclusive::new(self.min_render_resolution, self.max_render_resolution)
    }

    /// The size of the input subrect to evaluate: the one asked for, else
    /// the largest render resolution.
    pub fn render_subrect_size(&self, partial_texture_size: Option<Resolution>) -> (r: Resolution)
        ensures
            r == match partial_texture_size {
                Some(size) => size,
                None => self.spec_max_render_resolution(),
            },
    {
        match partial_texture_size {
            Some(size) => size,
            None => self.max_render_resolution,
        }
    }

    /// The SDK's feature that the context drives.
    pub fn feature(&self) -> (r: &F)
        ensures
            *r == self.spec_feature(),
    {
        &self.feature
    }
}

} // verus!
