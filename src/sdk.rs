//! Decisions taken while bringing up the DLSS SDK.

use crate::nvsdk_ngx::{check_ngx_result, error_code, is_ngx_result, DlssError, NGX_RESULT_SUCCESS};
use vstd::prelude::*;

verus! {

/// Whether the SDK can be kept after asking its capability parameters
/// whether DLSS is available: `query_result` is the SDK's result for the
/// question and `dlss_supported` its answer. `Ok` keeps the SDK; an error
/// means the capability parameters must be destroyed before it is returned.
pub fn dlss_availability(query_result: u32, dlss_supported: i32) -> (r: Result<(), DlssError>)
    requires
        is_ngx_result(query_result),
    ensures
        r is Ok <==> (query_result == NGX_RESULT_SUCCESS && dlss_supported != 0),
        query_result != NGX_RESULT_SUCCESS ==> (r matches Err(e) && error_code(e)
            == query_result),
        query_result == NGX_RESULT_SUCCESS && dlss_supported == 0 ==> r == Err::<
            (),
            DlssError,
        >(DlssError::FeatureNotSupported),
{
    match check_ngx_result(query_result) {
        Err(e) => Err(e),
        Ok(()) => {
            if dlss_supported == 0 {
                Err(DlssError::FeatureNotSupported)
            } else {
                Ok(())
            }
        },
    }
}

/// The error that a failed SDK set-up reports once its capability
/// parameters were destroyed: a failure to destroy them comes first,
/// otherwise the set-up's own error `error`.
pub fn teardown_error(error: DlssError, destroy_result: u32) -> (r: DlssError)
    requires
        is_ngx_result(destroy_result),
    ensures
        destroy_result == NGX_RESULT_SUCCESS ==> r == error,
        destroy_result != NGX_RESULT_SUCCESS ==> error_code(r) == destroy_result,
{
    match check_ngx_result(destroy_result) {
        Err(e) => e,
        Ok(()) => error,
    }
}

} // verus!
