//! The strings that identify the application and locate the DLSS libraries
//! for the SDK.

use vstd::prelude::*;

verus! {

/// The lower-case hex digit for `n`, which is below sixteen.
pub open spec fn hex_digit(n: int) -> char {
    if n < 10 {
        (48 + n) as char
    } else {
        (87 + n) as char
    }
}

/// Two lower-case hex digits for each byte, most significant first.
pub open spec fn lower_hex(bytes: Seq<u8>) -> Seq<char>
    decreases bytes.len(),
{
    if bytes.len() == 0 {
        seq![]
    } else {
        seq![hex_digit(bytes[0] as int / 16), hex_digit(bytes[0] as int % 16)] + lower_hex(bytes.drop_first())
    }
}

/// The hyphenated form of a UUID given by its sixteen bytes: groups of
/// eight, four, four, four and twelve hex digits joined by `-`.
pub open spec fn hyphenated_uuid(bytes: Seq<u8>) -> Seq<char> {
    lower_hex(bytes.subrange(0, 4)) + seq!['-'] + lower_hex(bytes.subrange(4, 6)) + seq!['-']
        + lower_hex(bytes.subrange(6, 8)) + seq!['-'] + lower_hex(bytes.subrange(8, 10))
        + seq!['-'] + lower_hex(bytes.subrange(10, 16))
}

/// Relies on uuid's `Display` for `Uuid`, reached through `to_string`: it
/// writes the hyphenated lower-case form of the UUID's bytes.
#[verifier::external_body]
fn uuid_text(bytes: [u8; 16]) -> (r: String)
    ensures
        r@ == hyphenated_uuid(bytes@),
{
    uuid::Uuid::from_bytes(bytes).to_string()
}

/// Each character of `s` as its code point.
pub open spec fn wide_chars(s: Seq<char>) -> Seq<u32> {
    s.map_values(|c: char| c as u32)
}

/// The wide-character form of `s` that the SDK reads: one code point per
/// character.
pub fn os_str_to_wchar(s: &str) -> (r: Vec<u32>)
    ensures
        r@ == wide_chars(s@),
{
    let n = s.unicode_len();
    let mut out: Vec<u32> = Vec::with_capacity(n);
    let mut i: usize = 0;
    while i < n
        invariant
            n == s@.len(),
            i <= n,
            out@ == wide_chars(s@.subrange(0, i as int)),
        decreases n - i,
    {
        let c = s.get_char(i);
        out.push(c as u32);
        i = i + 1;
        assert(out@ =~= wide_chars(s@.subrange(0, i as int)));
    }
    assert(s@.subrange(0, n as int) =~= s@);
    out
}

/// The directories the SDK searches for its feature libraries, as wide
/// strings: the working directory, then the SDK's library directory.
pub struct FeatureCommonInfo {
    path_list: [Vec<u32>; 2],
}

/// A plain description of the SDK's common feature information: where it
/// looks for libraries, and how it logs.
pub struct FeatureCommonInfoDesc<'a> {
    pub path_list: &'a [Vec<u32>; 2],
    pub length: u32,
    /// The SDK's `NVSDK_NGX_LOGGING_LEVEL_OFF`.
    pub minimum_logging_level: u32,
    pub disable_other_logging_sinks: bool,
}

/// The SDK's logging level that turns logging off.
pub const NGX_LOGGING_LEVEL_OFF: u32 = 0;

impl FeatureCommonInfo {
    /// The search paths, in order.
    pub closed spec fn spec_path_list(&self) -> Seq<Seq<u32>> {
        seq![self.path_list[0]@, self.path_list[1]@]
    }

    /// Search paths for the SDK's libraries under `sdk_library_path`.
    pub fn new(sdk_library_path: &str) -> (r: Self)
        ensures
            r.spec_path_list() == seq![wide_chars("."@), wide_chars(sdk_library_path@)],
    {
        FeatureCommonInfo { path_list: [os_str_to_wchar("."), os_str_to_wchar(sdk_library_path)] }
    }

    /// The search paths, in order.
    pub fn path_list(&self) -> (r: &[Vec<u32>; 2])
        ensures
            r[0]@ == self.spec_path_list()[0],
            r[1]@ == self.spec_path_list()[1],
    {
        &self.path_list
    }

    /// The description handed to the SDK: both search paths, with logging
    /// off.
    pub fn as_nvsdk(&self) -> (r: FeatureCommonInfoDesc<'_>)
        ensures
            r.path_list[0]@ == self.spec_path_list()[0],
            r.path_list[1]@ == self.spec_path_list()[1],
            r.length == 2,
            r.minimum_logging_level == NGX_LOGGING_LEVEL_OFF,
            !r.disable_other_logging_sinks,
    {
        FeatureCommonInfoDesc {
            path_list: &self.path_list,
            length: 2,
            minimum_logging_level: NGX_LOGGING_LEVEL_OFF,
            disable_other_logging_sinks: false,
        }
    }
}

/// What identifies the application to the SDK, and where the SDK may write
/// and find its libraries.
pub struct FeatureInfo {
    /// The project's UUID in hyphenated form.
    pub project_id: String,
    pub engine_version: String,
    /// Where the SDK may write its application data, as a wide string.
    pub data_path: Vec<u32>,
    pub feature_common_info: FeatureCommonInfo,
}

impl FeatureInfo {
    /// The identity of project `project_id` (a UUID's sixteen bytes) built
    /// with engine version `engine_version`; the SDK writes under
    /// `data_path` and loads its libraries from `sdk_library_path`.
    pub fn new(project_id: [u8; 16], engine_version: &str, data_path: &str, sdk_library_path: &str)
        -> (r: Self)
        ensures
            r.project_id@ == hyphenated_uuid(project_id@),
            r.engine_version@ == engine_version@,
            r.data_path@ == wide_chars(data_path@),
            r.feature_common_info.spec_path_list() == seq![
                wide_chars("."@),
                wide_chars(sdk_library_path@),
            ],
    {
        FeatureInfo {
            project_id: uuid_text(project_id),
            engine_version: engine_version.to_owned(),
            data_path: os_str_to_wchar(data_path),
            feature_common_info: FeatureCommonInfo::new(sdk_library_path),
        }
    }
}

} // verus!
