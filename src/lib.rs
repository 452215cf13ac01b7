//! Verified core of a DLSS binding for wgpu: result-code mapping, render
//! resolution selection, jitter generation and the plans handed to the native
//! SDK when creating and evaluating an upscaling feature.

use vstd::prelude::*;

pub mod context;
pub mod feature_info;
pub mod halton;
pub mod nvsdk_ngx;
pub mod render_parameters;
pub mod sdk;

pub use context::{plan_context, ContextPlan, DlssContext, DlssCreateParams, JitterOffset, OptimalSettings};
pub use feature_info::{os_str_to_wchar, FeatureCommonInfo, FeatureInfo};
pub use nvsdk_ngx::{check_ngx_result, DlssError, DlssFeatureFlags, DlssPerfQualityMode};
pub use render_parameters::{DlssTextures, TextureState, TextureTransition};
pub use sdk::{dlss_availability, teardown_error};

verus! {

/// A width and height in pixels.
#[derive(Clone, Copy, PartialEq, Eq, Structural, Debug, Hash, Default)]
pub struct Resolution {
    pub x: u32,
    pub y: u32,
}

impl Resolution {
    /// The number of pixels covered, `x * y`.
    pub open spec fn pixels(self) -> int {
        self.x * self.y
    }
}

} // verus!
