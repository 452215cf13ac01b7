use dlss_wgpu::context::jitter_phase_count_of;
use dlss_wgpu::halton::halton_sequence;
use dlss_wgpu::nvsdk_ngx::{
    FLAG_HIGH_DYNAMIC_RANGE, FLAG_OUTPUT_SUBRECT, PERF_QUALITY_DLAA, PERF_QUALITY_MAX_QUALITY,
};
use dlss_wgpu::{
    plan_context, DlssContext, DlssFeatureFlags, DlssPerfQualityMode, JitterOffset,
    OptimalSettings, Resolution,
};

fn res(x: u32, y: u32) -> Resolution {
    Resolution { x, y }
}

fn settings() -> OptimalSettings {
    OptimalSettings {
        optimal_render_resolution: res(1280, 720),
        min_render_resolution: res(960, 540),
        max_render_resolution: res(1920, 1080),
    }
}

fn context(upscaled: Resolution) -> DlssContext<u64> {
    let plan = plan_context(
        upscaled,
        DlssPerfQualityMode::Quality,
        DlssFeatureFlags::empty(),
        settings(),
    );
    DlssContext::new(&plan, 7)
}

#[test]
fn halton_base_two() {
    assert_eq!(halton_sequence(0, 2), (0, 1));
    assert_eq!(halton_sequence(1, 2), (1, 2));
    assert_eq!(halton_sequence(2, 2), (1, 4));
    assert_eq!(halton_sequence(3, 2), (3, 4));
    assert_eq!(halton_sequence(4, 2), (1, 8));
    assert_eq!(halton_sequence(5, 2), (5, 8));
}

#[test]
fn halton_base_three() {
    assert_eq!(halton_sequence(1, 3), (1, 3));
    assert_eq!(halton_sequence(2, 3), (2, 3));
    assert_eq!(halton_sequence(3, 3), (1, 9));
    assert_eq!(halton_sequence(4, 3), (4, 9));
    assert_eq!(halton_sequence(5, 3), (7, 9));
}

#[test]
fn halton_largest_index() {
    let (num, den) = halton_sequence(u32::MAX, 2);
    assert_eq!(den, 1u64 << 32);
    assert_eq!(num, u32::MAX as u64);
    let (num, den) = halton_sequence(u32::MAX, 3);
    assert!(num < den);
    assert_eq!(den, 3u64.pow(21));
}

#[test]
fn phase_count_is_eight_times_ratio_squared() {
    assert_eq!(jitter_phase_count_of(3840, 1920), 32);
    assert_eq!(jitter_phase_count_of(1920, 1920), 8);
    assert_eq!(jitter_phase_count_of(3840, 2560), 18);
    assert_eq!(jitter_phase_count_of(1000, 2000), 2);
    assert_eq!(jitter_phase_count_of(1000, 3000), 0);
}

#[test]
fn phase_count_saturates() {
    assert_eq!(jitter_phase_count_of(1920, 0), u32::MAX);
    assert_eq!(jitter_phase_count_of(0, 0), 0);
    assert_eq!(jitter_phase_count_of(u32::MAX, 1), u32::MAX);
}

#[test]
fn jitter_follows_halton_points() {
    let ctx = context(res(3840, 2160));
    // Frame 0 is Halton position 1: (1/2, 1/3) less one half.
    assert_eq!(
        ctx.suggested_jitter(0, res(1920, 1080)),
        JitterOffset { x_numerator: 0, x_denominator: 4, y_numerator: -1, y_denominator: 6 }
    );
    // Position 2: (1/4, 2/3) less one half.
    assert_eq!(
        ctx.suggested_jitter(1, res(1920, 1080)),
        JitterOffset { x_numerator: -2, x_denominator: 8, y_numerator: 1, y_denominator: 6 }
    );
}

#[test]
fn jitter_cycles_with_the_phase() {
    let ctx = context(res(3840, 2160));
    let render = res(1920, 1080);
    assert_eq!(ctx.suggested_jitter(32, render), ctx.suggested_jitter(0, render));
    assert_eq!(ctx.suggested_jitter(37, render), ctx.suggested_jitter(5, render));
    assert_ne!(ctx.suggested_jitter(31, render), ctx.suggested_jitter(0, render));
    let native = res(3840, 2160);
    assert_eq!(ctx.suggested_jitter(8, native), ctx.suggested_jitter(0, native));
}

#[test]
fn jitter_stays_within_half_a_pixel() {
    let ctx = context(res(3840, 2160));
    for frame in 0..64 {
        let j = ctx.suggested_jitter(frame, res(1920, 1080));
        assert!(-(j.x_denominator as i64) <= 2 * j.x_numerator);
        assert!(2 * j.x_numerator < j.x_denominator as i64);
        assert!(-(j.y_denominator as i64) <= 2 * j.y_numerator);
        assert!(2 * j.y_numerator < j.y_denominator as i64);
    }
}

#[test]
fn plan_keeps_sdk_settings() {
    let flags = DlssFeatureFlags::from_bits_truncate(FLAG_HIGH_DYNAMIC_RANGE | FLAG_OUTPUT_SUBRECT);
    let plan = plan_context(res(1920, 1080), DlssPerfQualityMode::Auto, flags, settings());
    assert_eq!(plan.upscaled_resolution, res(1920, 1080));
    assert_eq!(plan.min_render_resolution, res(960, 540));
    assert_eq!(plan.max_render_resolution, res(1920, 1080));
    assert_eq!(plan.create_params.in_width, 1280);
    assert_eq!(plan.create_params.in_height, 720);
    assert_eq!(plan.create_params.in_target_width, 1920);
    assert_eq!(plan.create_params.in_target_height, 1080);
    assert_eq!(plan.create_params.in_perf_quality_value, PERF_QUALITY_MAX_QUALITY);
    assert_eq!(plan.create_params.in_feature_create_flags, FLAG_HIGH_DYNAMIC_RANGE);
    assert!(plan.create_params.in_enable_output_subrects);
}

#[test]
fn plan_dlaa_renders_at_output_resolution() {
    let plan = plan_context(
        res(2560, 1440),
        DlssPerfQualityMode::Dlaa,
        DlssFeatureFlags::empty(),
        settings(),
    );
    assert_eq!(plan.min_render_resolution, res(2560, 1440));
    assert_eq!(plan.max_render_resolution, res(2560, 1440));
    assert_eq!(plan.create_params.in_width, 2560);
    assert_eq!(plan.create_params.in_height, 1440);
    assert_eq!(plan.create_params.in_perf_quality_value, PERF_QUALITY_DLAA);
    assert!(!plan.create_params.in_enable_output_subrects);
}

#[test]
fn context_reports_its_resolutions() {
    let ctx = context(res(3840, 2160));
    assert_eq!(ctx.upscaled_resolution(), res(3840, 2160));
    assert_eq!(ctx.render_resolution(), res(960, 540));
    let range = ctx.render_resolution_range();
    assert_eq!(*range.start(), res(960, 540));
    assert_eq!(*range.end(), res(1920, 1080));
    assert_eq!(*ctx.feature(), 7);
}

#[test]
fn subrect_defaults_to_largest_render_resolution() {
    let ctx = context(res(3840, 2160));
    assert_eq!(ctx.render_subrect_size(None), res(1920, 1080));
    assert_eq!(ctx.render_subrect_size(Some(res(1000, 600))), res(1000, 600));
}
