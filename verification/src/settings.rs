//! Application settings, the allow-lists that guard them, and the records
//! the commands exchange with the frontend.
use crate::metadata::SunoMetadata;
use crate::text::{append_str, chars_of, is_blank, is_blank_str, str_eq, string_from_chars, to_string};
use vstd::prelude::*;

verus! {

#[derive(Debug, Clone, PartialEq, Eq)]
pub struct AppSettings {
    pub save_folder: String,
    pub ffmpeg_auto_detect: bool,
    pub ffmpeg_path: String,
    pub encoder_preset: String,
    pub quality: String,
    pub suno_authorization: String,
    pub suno_browser_token: String,
    pub suno_device_id: String,
    pub suno_max_pages: u32,
}

pub const DEFAULT_ENCODER_PRESET: &'static str = "cpu_x264";

pub const DEFAULT_QUALITY: &'static str = "standard";

pub const DEFAULT_MAX_PAGES: u32 = 100;

impl Default for AppSettings {
    fn default() -> (res: Self)
        ensures
            res.save_folder@ == Seq::<char>::empty(),
            res.ffmpeg_auto_detect,
            res.ffmpeg_path@ == Seq::<char>::empty(),
            res.encoder_preset@ == DEFAULT_ENCODER_PRESET@,
            res.quality@ == DEFAULT_QUALITY@,
            res.suno_authorization@ == Seq::<char>::empty(),
            res.suno_browser_token@ == Seq::<char>::empty(),
            res.suno_device_id@ == Seq::<char>::empty(),
            res.suno_max_pages == DEFAULT_MAX_PAGES,
    {
        AppSettings {
            save_folder: String::new(),
            ffmpeg_auto_detect: true,
            ffmpeg_path: String::new(),
            encoder_preset: to_string(DEFAULT_ENCODER_PRESET),
            quality: to_string(DEFAULT_QUALITY),
            suno_authorization: String::new(),
            suno_browser_token: String::new(),
            suno_device_id: String::new(),
            suno_max_pages: DEFAULT_MAX_PAGES,
        }
    }
}

#[derive(Debug, Clone, PartialEq, Eq)]
pub struct GenerateRequest {
    pub url: String,
    pub base64: Option<String>,
    pub resolution: Option<String>,
    pub visualizer: Option<String>,
    pub output_dir: Option<String>,
    pub ffmpeg_auto_detect: Option<bool>,
    pub ffmpeg_path: Option<String>,
    pub encoder_preset: Option<String>,
    pub quality: Option<String>,
    pub audio_url: Option<String>,
    pub metadata_image_url: Option<String>,
    pub output_filename: Option<String>,
}

#[derive(Debug, PartialEq, Eq)]
pub struct GenerateResponse {
    pub success: bool,
    pub stdout: String,
    pub stderr: String,
    pub output_path: Option<String>,
}

#[derive(Debug, PartialEq, Eq)]
pub struct FfmpegTestResponse {
    pub success: bool,
    pub status: String,
    pub version: Option<String>,
    pub path: Option<String>,
    pub details: String,
}

#[derive(Debug, Clone, PartialEq, Eq)]
pub struct MetadataFetchResponse {
    pub success: bool,
    pub status: String,
    pub song_id: Option<String>,
    pub metadata: Option<SunoMetadata>,
    pub pages_checked: u32,
    pub logs: Vec<String>,
}

// ---------------------------------------------------------------------
// Allow-lists
// ---------------------------------------------------------------------

pub open spec fn strs_view(xs: Seq<&str>) -> Seq<Seq<char>> {
    xs.map_values(|x: &str| x@)
}

pub open spec fn resolutions_allowed() -> Seq<Seq<char>> {
    seq!["1280x720"@, "1920x1080"@]
}

pub open spec fn visualizers_allowed() -> Seq<Seq<char>> {
    seq!["none"@, "spectrum"@, "showspectrum"@]
}

pub open spec fn encoder_presets_allowed() -> Seq<Seq<char>> {
    seq!["cpu_x264"@, "amd_amf"@]
}

pub open spec fn qualities_allowed() -> Seq<Seq<char>> {
    seq!["standard"@, "high"@]
}

pub fn allowed_resolutions() -> (res: [&'static str; 2])
    ensures
        strs_view(res@) == resolutions_allowed(),
{
    let r = ["1280x720", "1920x1080"];
    assert(strs_view(r@) =~= resolutions_allowed());
    r
}

pub fn allowed_visualizers() -> (res: [&'static str; 3])
    ensures
        strs_view(res@) == visualizers_allowed(),
{
    let r = ["none", "spectrum", "showspectrum"];
    assert(strs_view(r@) =~= visualizers_allowed());
    r
}

pub fn allowed_encoder_presets() -> (res: [&'static str; 2])
    ensures
        strs_view(res@) == encoder_presets_allowed(),
{
    let r = ["cpu_x264", "amd_amf"];
    assert(strs_view(r@) =~= encoder_presets_allowed());
    r
}

pub fn allowed_qualities() -> (res: [&'static str; 2])
    ensures
        strs_view(res@) == qualities_allowed(),
{
    let r = ["standard", "high"];
    assert(strs_view(r@) =~= qualities_allowed());
    r
}

/// `[String]::join`.
pub open spec fn join(xs: Seq<Seq<char>>, sep: Seq<char>) -> Seq<char>
    decreases xs.len(),
{
    if xs.len() == 0 {
        Seq::empty()
    } else if xs.len() == 1 {
        xs[0]
    } else {
        join(xs.drop_last(), sep) + sep + xs.last()
    }
}

/// The message that rejects `value` for `field`.
pub open spec fn not_allowed_message(value: Seq<char>, allowed: Seq<Seq<char>>, field: Seq<char>) -> Seq<
    char,
> {
    "Invalid "@ + field + ": "@ + value + ". Allowed values: "@ + join(allowed, ", "@)
}

fn join_strs(xs: &[&str], sep: &str) -> (res: Vec<char>)
    ensures
        res@ == join(strs_view(xs@), sep@),
{
    let mut out: Vec<char> = Vec::new();
    let mut i: usize = 0;
    while i < xs.len()
        invariant
            i <= xs.len(),
            out@ == join(strs_view(xs@).take(i as int), sep@),
        decreases xs.len() - i,
    {
        let ghost before = out@;
        assert(strs_view(xs@).take(i + 1).drop_last() =~= strs_view(xs@).take(i as int));
        assert(strs_view(xs@).take(i + 1).last() == xs@[i as int]@);
        if i > 0 {
            append_str(&mut out, sep);
        } else {
            assert(before =~= Seq::<char>::empty());
        }
        append_str(&mut out, xs[i]);
        i = i + 1;
        proof {
            if i == 1 {
                assert(out@ =~= xs@[0]@);
            }
        }
    }
    assert(strs_view(xs@).take(xs.len() as int) =~= strs_view(xs@));
    out
}

/// Accepts a value only if it is in the allow-list.
pub fn ensure_allowed(value: &str, allowed: &[&str], field_name: &str) -> (res: Result<(), String>)
    ensures
        res is Ok <==> strs_view(allowed@).contains(value@),
        res matches Err(m) ==> m@ == not_allowed_message(value@, strs_view(allowed@), field_name@),
{
    let mut i: usize = 0;
    while i < allowed.len()
        invariant
            i <= allowed.len(),
            forall|k: int| 0 <= k < i ==> strs_view(allowed@)[k] != value@,
        decreases allowed.len() - i,
    {
        if str_eq(allowed[i], value) {
            assert(strs_view(allowed@)[i as int] == value@);
            return Ok(());
        }
        i = i + 1;
    }
    let mut m = chars_of("Invalid ");
    append_str(&mut m, field_name);
    append_str(&mut m, ": ");
    append_str(&mut m, value);
    append_str(&mut m, ". Allowed values: ");
    let joined = join_strs(allowed, ", ");
    crate::text::append_chars(&mut m, joined.as_slice());
    Err(string_from_chars(m.as_slice()))
}

fn is_allowed(value: &str, allowed: &[&str]) -> (res: bool)
    ensures
        res == strs_view(allowed@).contains(value@),
{
    let mut i: usize = 0;
    while i < allowed.len()
        invariant
            i <= allowed.len(),
            forall|k: int| 0 <= k < i ==> strs_view(allowed@)[k] != value@,
        decreases allowed.len() - i,
    {
        if str_eq(allowed[i], value) {
            assert(strs_view(allowed@)[i as int] == value@);
            return true;
        }
        i = i + 1;
    }
    false
}

/// A loaded value that is not allowed falls back to the default.
pub open spec fn loaded_value(v: Seq<char>, allowed: Seq<Seq<char>>, default: Seq<char>) -> Seq<char> {
    if allowed.contains(v) {
        v
    } else {
        default
    }
}

/// Settings as they are loaded always pass the check made before they are
/// saved, and loading them again changes nothing.
pub proof fn law_loaded_settings_are_savable(preset: Seq<char>, quality: Seq<char>)
    ensures
        encoder_presets_allowed().contains(
            loaded_value(preset, encoder_presets_allowed(), DEFAULT_ENCODER_PRESET@),
        ),
        qualities_allowed().contains(loaded_value(quality, qualities_allowed(), DEFAULT_QUALITY@)),
        loaded_value(
            loaded_value(preset, encoder_presets_allowed(), DEFAULT_ENCODER_PRESET@),
            encoder_presets_allowed(),
            DEFAULT_ENCODER_PRESET@,
        ) == loaded_value(preset, encoder_presets_allowed(), DEFAULT_ENCODER_PRESET@),
        loaded_value(
            loaded_value(quality, qualities_allowed(), DEFAULT_QUALITY@),
            qualities_allowed(),
            DEFAULT_QUALITY@,
        ) == loaded_value(quality, qualities_allowed(), DEFAULT_QUALITY@),
{
    assert(encoder_presets_allowed()[0] == DEFAULT_ENCODER_PRESET@);
    assert(qualities_allowed()[0] == DEFAULT_QUALITY@);
}

/// Settings as they are used after loading: an encoder preset or quality
/// that is not allowed falls back to its default; all else is kept.
pub fn normalize_loaded_settings(settings: AppSettings) -> (res: AppSettings)
    ensures
        res.encoder_preset@ == loaded_value(
            settings.encoder_preset@,
            encoder_presets_allowed(),
            DEFAULT_ENCODER_PRESET@,
        ),
        res.quality@ == loaded_value(settings.quality@, qualities_allowed(), DEFAULT_QUALITY@),
        res.save_folder == settings.save_folder,
        res.ffmpeg_auto_detect == settings.ffmpeg_auto_detect,
        res.ffmpeg_path == settings.ffmpeg_path,
        res.suno_authorization == settings.suno_authorization,
        res.suno_browser_token == settings.suno_browser_token,
        res.suno_device_id == settings.suno_device_id,
        res.suno_max_pages == settings.suno_max_pages,
{
    let mut settings = settings;
    let presets = allowed_encoder_presets();
    if !is_allowed(settings.encoder_preset.as_str(), presets.as_slice()) {
        settings.encoder_preset = to_string(DEFAULT_ENCODER_PRESET);
    }
    let qualities = allowed_qualities();
    if !is_allowed(settings.quality.as_str(), qualities.as_slice()) {
        settings.quality = to_string(DEFAULT_QUALITY);
    }
    settings
}

/// Settings can be saved only with an allowed encoder preset and quality.
pub fn check_settings_for_save(settings: &AppSettings) -> (res: Result<(), String>)
    ensures
        res is Ok <==> encoder_presets_allowed().contains(settings.encoder_preset@)
            && qualities_allowed().contains(settings.quality@),
        res matches Err(m) ==> if !encoder_presets_allowed().contains(settings.encoder_preset@) {
            m@ == not_allowed_message(
                settings.encoder_preset@,
                encoder_presets_allowed(),
                "encoder preset"@,
            )
        } else {
            m@ == not_allowed_message(settings.quality@, qualities_allowed(), "quality"@)
        },
{
    let presets = allowed_encoder_presets();
    let checked = ensure_allowed(settings.encoder_preset.as_str(), presets.as_slice(), "encoder preset");
    if checked.is_err() {
        return checked;
    }
    let qualities = allowed_qualities();
    ensure_allowed(settings.quality.as_str(), qualities.as_slice(), "quality")
}

/// The feed API is used only when all three of its settings are filled in.
pub fn has_suno_api_settings(settings: &AppSettings) -> (res: bool)
    ensures
        res == (!is_blank(settings.suno_authorization@) && !is_blank(settings.suno_browser_token@)
            && !is_blank(settings.suno_device_id@)),
{
    !is_blank_str(settings.suno_authorization.as_str()) && !is_blank_str(
        settings.suno_browser_token.as_str(),
    ) && !is_blank_str(settings.suno_device_id.as_str())
}

} // verus!
