use dlss_wgpu::feature_info::{FeatureCommonInfo, NGX_LOGGING_LEVEL_OFF};
use dlss_wgpu::render_parameters::DlssTextures;
use dlss_wgpu::{
    dlss_availability, os_str_to_wchar, teardown_error, DlssError, FeatureInfo, TextureState,
    TextureTransition,
};

fn textures(exposure: Option<u8>, bias: Option<u8>) -> DlssTextures<u8> {
    DlssTextures { color: 1, depth: 2, motion_vectors: 3, exposure, bias, dlss_output: 9 }
}

fn input(texture: u8) -> TextureTransition<u8> {
    TextureTransition { texture, state: TextureState::Resource }
}

fn output(texture: u8) -> TextureTransition<u8> {
    TextureTransition { texture, state: TextureState::StorageReadWrite }
}

#[test]
fn barriers_without_optional_inputs() {
    assert_eq!(
        textures(None, None).barrier_list(),
        vec![input(1), input(2), input(3), output(9)]
    );
}

#[test]
fn barriers_with_exposure_and_bias() {
    assert_eq!(
        textures(Some(4), Some(5)).barrier_list(),
        vec![input(1), input(2), input(3), input(4), input(5), output(9)]
    );
    assert_eq!(
        textures(None, Some(5)).barrier_list(),
        vec![input(1), input(2), input(3), input(5), output(9)]
    );
    assert_eq!(
        textures(Some(4), None).barrier_list(),
        vec![input(1), input(2), input(3), input(4), output(9)]
    );
}

#[test]
fn availability_decisions() {
    assert_eq!(dlss_availability(1, 1), Ok(()));
    assert_eq!(dlss_availability(1, 0), Err(DlssError::FeatureNotSupported));
    assert_eq!(dlss_availability(0xBAD0_0007, 1), Err(DlssError::NotInitialized));
    assert_eq!(dlss_availability(0xBAD0_0002, 0), Err(DlssError::PlatformError));
}

#[test]
fn teardown_failure_comes_first() {
    assert_eq!(
        teardown_error(DlssError::FeatureNotSupported, 1),
        DlssError::FeatureNotSupported
    );
    assert_eq!(
        teardown_error(DlssError::FeatureNotSupported, 0xBAD0_0004),
        DlssError::FeatureNotFound
    );
}

#[test]
fn wide_strings_hold_code_points() {
    assert_eq!(os_str_to_wchar(""), Vec::<u32>::new());
    assert_eq!(os_str_to_wchar("/tmp"), vec![47, 116, 109, 112]);
    assert_eq!(os_str_to_wchar("aé€"), vec![97, 233, 0x20AC]);
}

#[test]
fn feature_info_identifies_the_project() {
    let id = [
        0x67, 0xe5, 0x50, 0x44, 0x10, 0xb1, 0x42, 0x6f, 0x92, 0x47, 0xbb, 0x68, 0x0e, 0x5f,
        0xe0, 0xc8,
    ];
    let info = FeatureInfo::new(id, "0.1.0", "/tmp", "/sdk/lib/Linux_x86_64/rel");
    assert_eq!(info.project_id, "67e55044-10b1-426f-9247-bb680e5fe0c8");
    assert_eq!(info.engine_version, "0.1.0");
    assert_eq!(info.data_path, vec![47, 116, 109, 112]);
    let paths = info.feature_common_info.path_list();
    assert_eq!(paths[0], vec![46]);
    assert_eq!(paths[1], os_str_to_wchar("/sdk/lib/Linux_x86_64/rel"));
}

#[test]
fn uuid_text_of_extreme_ids() {
    let zero = FeatureInfo::new([0; 16], "", "", "");
    assert_eq!(zero.project_id, "00000000-0000-0000-0000-000000000000");
    let max = FeatureInfo::new([0xff; 16], "", "", "");
    assert_eq!(max.project_id, "ffffffff-ffff-ffff-ffff-ffffffffffff");
}

#[test]
fn common_info_description() {
    let info = FeatureCommonInfo::new("lib");
    let desc = info.as_nvsdk();
    assert_eq!(desc.length, 2);
    assert_eq!(desc.minimum_logging_level, NGX_LOGGING_LEVEL_OFF);
    assert!(!desc.disable_other_logging_sinks);
    assert_eq!(desc.path_list[0], vec![46]);
    assert_eq!(desc.path_list[1], vec![108, 105, 98]);
}
