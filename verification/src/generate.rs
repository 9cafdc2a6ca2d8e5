//! The decisions of a render: which song, which options, where the files
//! go and where the audio and the cover come from; the decoding of a cover
//! handed over as a data URL; and the answer that reports the render.
use crate::metadata::{cover_source, empty_view, MetadataView, SunoMetadata};
use crate::names::{
    extract_suno_id, is_forbidden_in_filename, is_hex_or_dash, is_safe_id_char, keep_safe,
    law_safe_filename, law_safe_id_stable, law_song_id_shape, safe_filename, safe_filename_spec,
    safe_id, suno_id,
};
use crate::settings::{
    allowed_encoder_presets, allowed_qualities, allowed_resolutions, allowed_visualizers,
    encoder_presets_allowed, ensure_allowed, not_allowed_message, qualities_allowed,
    resolutions_allowed, visualizers_allowed, AppSettings, GenerateRequest, GenerateResponse,
};
use crate::text::{
    append_str, chars_of, copy_range, is_blank, is_blank_str, split_once, split_once_chars,
    starts_with, starts_with_chars, string_from_chars, to_string,
};
use base64::Engine;
use vstd::prelude::*;

verus! {

pub const INVALID_SONG_URL: &'static str = "Suno曲のURLが無効です";

pub const DEFAULT_RESOLUTION: &'static str = "1280x720";

pub const DEFAULT_VISUALIZER: &'static str = "none";

pub const NO_IMAGE_DATA: &'static str = "画像データがありません";

/// A plan as values: what `plan_generation` decides.
pub struct PlanView {
    pub id: Seq<char>,
    pub resolution: Seq<char>,
    pub visualizer: Seq<char>,
    pub encoder_preset: Seq<char>,
    pub quality: Seq<char>,
    pub ffmpeg_auto_detect: bool,
    pub ffmpeg_path: Seq<char>,
    pub output_dir: Option<Seq<char>>,
    pub filename: Seq<char>,
    pub mp3_url: Seq<char>,
    pub cover_url: Seq<char>,
    pub cover_data: Option<Seq<char>>,
}

/// What a render needs, decided from the request and the saved settings.
/// `output_dir` is the request's directory when one that is not blank was
/// given; without it the application's default directory is used.
pub struct GeneratePlan {
    pub id: String,
    pub resolution: String,
    pub visualizer: String,
    pub encoder_preset: String,
    pub quality: String,
    pub ffmpeg_auto_detect: bool,
    pub ffmpeg_path: String,
    pub output_dir: Option<String>,
    pub filename: String,
    pub mp3_url: String,
    pub cover_url: String,
    pub cover_data: Option<String>,
}

impl View for GeneratePlan {
    type V = PlanView;

    open spec fn view(&self) -> PlanView {
        PlanView {
            id: self.id@,
            resolution: self.resolution@,
            visualizer: self.visualizer@,
            encoder_preset: self.encoder_preset@,
            quality: self.quality@,
            ffmpeg_auto_detect: self.ffmpeg_auto_detect,
            ffmpeg_path: self.ffmpeg_path@,
            output_dir: crate::text::opt_view(self.output_dir),
            filename: self.filename@,
            mp3_url: self.mp3_url@,
            cover_url: self.cover_url@,
            cover_data: crate::text::opt_view(self.cover_data),
        }
    }
}

/// The option's text, or `d` without one.
pub open spec fn text_or(o: Option<String>, d: Seq<char>) -> Seq<char> {
    match o {
        Some(s) => s@,
        None => d,
    }
}

/// The option's text when it is present and not blank.
pub open spec fn filled(o: Option<String>) -> Option<Seq<char>> {
    match o {
        Some(s) => if is_blank(s@) {
            None
        } else {
            Some(s@)
        },
        None => None,
    }
}

pub open spec fn fallback_mp3_url(id: Seq<char>) -> Seq<char> {
    "https://cdn1.suno.ai/"@ + id + ".mp3"@
}

pub open spec fn fallback_cover_url(id: Seq<char>) -> Seq<char> {
    "https://cdn2.suno.ai/image_large_"@ + id + ".jpeg"@
}

/// The metadata that carries only the frontend's image URL, as large and
/// as ordinary image.
pub open spec fn image_only(url: Option<Seq<char>>) -> MetadataView {
    MetadataView { image_url: url, image_large_url: url, ..empty_view() }
}

/// The first option that is not allowed, with the message that rejects it.
pub open spec fn option_error(
    resolution: Seq<char>,
    visualizer: Seq<char>,
    encoder_preset: Seq<char>,
    quality: Seq<char>,
) -> Option<Seq<char>> {
    if !resolutions_allowed().contains(resolution) {
        Some(not_allowed_message(resolution, resolutions_allowed(), "resolution"@))
    } else if !visualizers_allowed().contains(visualizer) {
        Some(not_allowed_message(visualizer, visualizers_allowed(), "visualizer"@))
    } else if !encoder_presets_allowed().contains(encoder_preset) {
        Some(not_allowed_message(encoder_preset, encoder_presets_allowed(), "encoder preset"@))
    } else if !qualities_allowed().contains(quality) {
        Some(not_allowed_message(quality, qualities_allowed(), "quality"@))
    } else {
        None
    }
}

/// The plan of a render: the song id from the URL, made safe; each option
/// from the request, else from the saved settings or its default; the
/// file name from the request when it is not blank, else the id; the
/// audio from the request's URL when it is not blank, else the CDN; the
/// cover from the frontend's data, else the image URL it handed over, else
/// the CDN.
pub open spec fn plan_spec(request: GenerateRequest, saved: AppSettings) -> Result<PlanView, Seq<char>> {
    match suno_id(request.url@) {
        None => Err(INVALID_SONG_URL@),
        Some(raw) => {
            let id = keep_safe(raw);
            let resolution = text_or(request.resolution, DEFAULT_RESOLUTION@);
            let visualizer = text_or(request.visualizer, DEFAULT_VISUALIZER@);
            let encoder_preset = text_or(request.encoder_preset, saved.encoder_preset@);
            let quality = text_or(request.quality, saved.quality@);
            match option_error(resolution, visualizer, encoder_preset, quality) {
                Some(m) => Err(m),
                None => Ok(
                    PlanView {
                        id,
                        resolution,
                        visualizer,
                        encoder_preset,
                        quality,
                        ffmpeg_auto_detect: match request.ffmpeg_auto_detect {
                            Some(b) => b,
                            None => saved.ffmpeg_auto_detect,
                        },
                        ffmpeg_path: text_or(request.ffmpeg_path, saved.ffmpeg_path@),
                        output_dir: filled(request.output_dir),
                        filename: match filled(request.output_filename) {
                            Some(f) => safe_filename_spec(f),
                            None => id,
                        },
                        mp3_url: match filled(request.audio_url) {
                            Some(u) => u,
                            None => fallback_mp3_url(id),
                        },
                        cover_url: cover_source(
                            crate::text::opt_view(request.base64),
                            Some(image_only(crate::text::opt_view(request.metadata_image_url))),
                            fallback_cover_url(id),
                        ),
                        cover_data: crate::text::opt_view(request.base64),
                    },
                ),
            }
        },
    }
}

/// A render is planned only with allowed options, and the name of its
/// files is safe: never empty, never `.` or `..`, and without a path
/// separator or any other character a file name may not hold.
pub proof fn law_planned_render_is_safe(request: GenerateRequest, saved: AppSettings)
    ensures
        plan_spec(request, saved) matches Ok(p) ==> {
            &&& resolutions_allowed().contains(p.resolution)
            &&& visualizers_allowed().contains(p.visualizer)
            &&& encoder_presets_allowed().contains(p.encoder_preset)
            &&& qualities_allowed().contains(p.quality)
            &&& p.filename.len() > 0
            &&& p.filename != "."@ && p.filename != ".."@
            &&& forall|i: int|
                0 <= i < p.filename.len() ==> !#[trigger] is_forbidden_in_filename(p.filename[i])
        },
{
    if let Some(raw) = suno_id(request.url@) {
        law_song_id_shape(request.url@);
        assert forall|i: int| 0 <= i < raw.len() implies #[trigger] is_safe_id_char(raw[i]) by {
            assert(is_hex_or_dash(raw[i]));
        }
        law_safe_id_stable(raw);
        if let Some(f) = filled(request.output_filename) {
            law_safe_filename(f);
        } else {
            reveal_strlit(".");
            reveal_strlit("..");
            assert(is_hex_or_dash(raw[0]));
            assert forall|i: int| 0 <= i < raw.len() implies !#[trigger] is_forbidden_in_filename(
                raw[i],
            ) by {
                assert(is_hex_or_dash(raw[i]));
            }
        }
    }
}

pub open spec fn plan_result_view(r: Result<GeneratePlan, String>) -> Result<PlanView, Seq<char>> {
    match r {
        Ok(p) => Ok(p@),
        Err(m) => Err(m@),
    }
}

fn text_or_clone(o: &Option<String>, d: &str) -> (res: String)
    ensures
        res@ == text_or(*o, d@),
{
    match o {
        Some(s) => s.clone(),
        None => to_string(d),
    }
}

/// A directory asked for, when it is given and not blank.
pub fn requested_dir(o: &Option<String>) -> (res: Option<String>)
    ensures
        crate::text::opt_view(res) == filled(*o),
{
    filled_clone(o)
}

fn filled_clone(o: &Option<String>) -> (res: Option<String>)
    ensures
        crate::text::opt_view(res) == filled(*o),
{
    match o {
        Some(s) => if is_blank_str(s.as_str()) {
            None
        } else {
            Some(s.clone())
        },
        None => None,
    }
}

fn cat2(a: &str, b: &str) -> (res: String)
    ensures
        res@ == a@ + b@,
{
    let mut m = chars_of(a);
    append_str(&mut m, b);
    string_from_chars(m.as_slice())
}

fn cat3(a: &str, b: &str, c: &str) -> (res: String)
    ensures
        res@ == a@ + b@ + c@,
{
    let mut m = chars_of(a);
    append_str(&mut m, b);
    append_str(&mut m, c);
    string_from_chars(m.as_slice())
}

/// Decides a render from the request and the settings saved before it.
pub fn plan_generation(request: &GenerateRequest, saved: &AppSettings) -> (res: Result<
    GeneratePlan,
    String,
>)
    ensures
        plan_result_view(res) == plan_spec(*request, *saved),
{
    let raw = match extract_suno_id(request.url.as_str()) {
        Some(raw) => raw,
        None => {
            return Err(to_string(INVALID_SONG_URL));
        },
    };
    let id = safe_id(raw.as_str());
    let resolution = text_or_clone(&request.resolution, DEFAULT_RESOLUTION);
    let visualizer = text_or_clone(&request.visualizer, DEFAULT_VISUALIZER);
    let encoder_preset = text_or_clone(&request.encoder_preset, saved.encoder_preset.as_str());
    let quality = text_or_clone(&request.quality, saved.quality.as_str());
    let resolutions = allowed_resolutions();
    let checked = ensure_allowed(resolution.as_str(), resolutions.as_slice(), "resolution");
    if let Err(m) = checked {
        return Err(m);
    }
    let visualizers = allowed_visualizers();
    let checked = ensure_allowed(visualizer.as_str(), visualizers.as_slice(), "visualizer");
    if let Err(m) = checked {
        return Err(m);
    }
    let presets = allowed_encoder_presets();
    let checked = ensure_allowed(encoder_preset.as_str(), presets.as_slice(), "encoder preset");
    if let Err(m) = checked {
        return Err(m);
    }
    let qualities = allowed_qualities();
    let checked = ensure_allowed(quality.as_str(), qualities.as_slice(), "quality");
    if let Err(m) = checked {
        return Err(m);
    }
    let filename = match filled_clone(&request.output_filename) {
        Some(f) => safe_filename(f.as_str()),
        None => id.clone(),
    };
    let mp3_url = match filled_clone(&request.audio_url) {
        Some(u) => u,
        None => cat3("https://cdn1.suno.ai/", id.as_str(), ".mp3"),
    };
    let fallback_cover = cat3("https://cdn2.suno.ai/image_large_", id.as_str(), ".jpeg");
    let mut image = SunoMetadata::default();
    image.image_url = crate::text::clone_opt(&request.metadata_image_url);
    image.image_large_url = crate::text::clone_opt(&request.metadata_image_url);
    assert(image@ == image_only(crate::text::opt_view(request.metadata_image_url)));
    let frontend = match &request.base64 {
        Some(b) => Some(b.as_str()),
        None => None,
    };
    let cover_url = crate::metadata::select_cover_source(frontend, Some(&image), fallback_cover.as_str());
    Ok(
        GeneratePlan {
            id,
            resolution,
            visualizer,
            encoder_preset,
            quality,
            ffmpeg_auto_detect: match request.ffmpeg_auto_detect {
                Some(b) => b,
                None => saved.ffmpeg_auto_detect,
            },
            ffmpeg_path: text_or_clone(&request.ffmpeg_path, saved.ffmpeg_path.as_str()),
            output_dir: filled_clone(&request.output_dir),
            filename,
            mp3_url,
            cover_url,
            cover_data: crate::text::clone_opt(&request.base64),
        },
    )
}

impl GeneratePlan {
    /// The names of the audio, cover and video files in the output
    /// directory.
    pub fn file_names(&self) -> (res: (String, String, String))
        ensures
            res.0@ == self.filename@ + ".mp3"@,
            res.1@ == self.filename@ + ".jpeg"@,
            res.2@ == self.filename@ + ".mp4"@,
    {
        (
            cat2(self.filename.as_str(), ".mp3"),
            cat2(self.filename.as_str(), ".jpeg"),
            cat2(self.filename.as_str(), ".mp4"),
        )
    }

    /// The settings FFmpeg is looked up with: the plan's encoder options
    /// and FFmpeg choice, the output directory as save folder, the rest at
    /// their defaults.
    pub fn ffmpeg_settings(&self, save_folder: &str) -> (res: AppSettings)
        ensures
            res.save_folder@ == save_folder@,
            res.ffmpeg_auto_detect == self.ffmpeg_auto_detect,
            res.ffmpeg_path@ == self.ffmpeg_path@,
            res.encoder_preset@ == self.encoder_preset@,
            res.quality@ == self.quality@,
            res.suno_authorization@ == Seq::<char>::empty(),
            res.suno_browser_token@ == Seq::<char>::empty(),
            res.suno_device_id@ == Seq::<char>::empty(),
            res.suno_max_pages == crate::settings::DEFAULT_MAX_PAGES,
    {
        let mut s = AppSettings::default();
        s.save_folder = to_string(save_folder);
        s.ffmpeg_auto_detect = self.ffmpeg_auto_detect;
        s.ffmpeg_path = self.ffmpeg_path.clone();
        s.encoder_preset = self.encoder_preset.clone();
        s.quality = self.quality.clone();
        s
    }
}

// ---------------------------------------------------------------------
// Covers handed over as data URLs
// ---------------------------------------------------------------------

/// What `base64::engine::general_purpose::STANDARD.decode` gives for a
/// text: the bytes, or the text of its error.
pub uninterp spec fn base64_standard_decode(text: Seq<char>) -> Result<Seq<u8>, Seq<char>>;

/// Calls `base64::engine::general_purpose::STANDARD.decode` and turns its
/// error into its text. The contract only names the result: it is a
/// function of the text.
#[verifier::external_body]
pub(crate) fn decode_base64_standard(text: &str) -> (res: Result<Vec<u8>, String>)
    ensures
        match base64_standard_decode(text@) {
            Ok(b) => res matches Ok(v) && v@ == b,
            Err(m) => res matches Err(e) && e@ == m,
        },
{
    match base64::engine::general_purpose::STANDARD.decode(text) {
        Ok(v) => Ok(v),
        Err(e) => Err(e.to_string()),
    }
}

pub open spec fn bytes_result_view(r: Result<Vec<u8>, String>) -> Result<Seq<u8>, Seq<char>> {
    match r {
        Ok(v) => Ok(v@),
        Err(m) => Err(m@),
    }
}

/// The encoded part of an image data URL: what follows the first comma
/// after the `data:image/` prefix.
pub open spec fn image_payload(data_url: Seq<char>) -> Option<Seq<char>> {
    if starts_with(data_url, "data:image/"@) {
        match split_once(data_url.skip(11), ',') {
            Some((_, data)) => Some(data),
            None => None,
        }
    } else {
        None
    }
}

/// The bytes of a cover handed over as an image data URL.
pub open spec fn image_bytes(data_url: Seq<char>) -> Result<Seq<u8>, Seq<char>> {
    match image_payload(data_url) {
        None => Err(NO_IMAGE_DATA@),
        Some(p) => base64_standard_decode(p),
    }
}

/// Decodes a cover handed over as an image data URL.
pub fn decode_image_data_url(data_url: &str) -> (res: Result<Vec<u8>, String>)
    ensures
        bytes_result_view(res) == image_bytes(data_url@),
{
    let s = chars_of(data_url);
    let prefix = chars_of("data:image/");
    proof {
        reveal_strlit("data:image/");
    }
    if !starts_with_chars(s.as_slice(), prefix.as_slice()) {
        return Err(to_string(NO_IMAGE_DATA));
    }
    let rest = copy_range(s.as_slice(), prefix.len(), s.len());
    match split_once_chars(rest.as_slice(), ',') {
        Some((_, data)) => {
            let text = string_from_chars(data.as_slice());
            decode_base64_standard(text.as_str())
        },
        None => Err(to_string(NO_IMAGE_DATA)),
    }
}

// ---------------------------------------------------------------------
// The answer
// ---------------------------------------------------------------------

/// The answer to a render: FFmpeg's output and the video's path when it
/// succeeded, else the error as standard error output.
pub fn generate_response(result: Result<(String, String), String>, output_path: &str) -> (res:
    GenerateResponse)
    ensures
        match result {
            Ok((out, err)) => res.success && res.stdout == out && res.stderr == err
                && crate::text::opt_view(res.output_path) == Some(output_path@),
            Err(e) => !res.success && res.stdout@ == Seq::<char>::empty() && res.stderr == e
                && res.output_path is None,
        },
{
    match result {
        Ok((stdout, stderr)) => GenerateResponse {
            success: true,
            stdout,
            stderr,
            output_path: Some(to_string(output_path)),
        },
        Err(stderr) => failed_generate_response(stderr),
    }
}

/// The answer to a render that failed before FFmpeg ran.
pub fn failed_generate_response(stderr: String) -> (res: GenerateResponse)
    ensures
        !res.success,
        res.stdout@ == Seq::<char>::empty(),
        res.stderr == stderr,
        res.output_path is None,
{
    GenerateResponse { success: false, stdout: String::new(), stderr, output_path: None }
}

} // verus!
