//! The clip workflow of the desktop program: the clip id is taken from the
//! song URL, the clip's metadata is fetched from the first of four feed
//! endpoints that answers with it, and a video is rendered from the clip's
//! audio and cover with a visualizer over it.
use crate::fetch::{pairs_view, push_pair, FeedRequest};
use crate::ffmpeg::{push_str, strings_view};
use crate::generate::{base64_standard_decode, bytes_result_view, decode_base64_standard};
use crate::json::{as_str, get, json_array, json_get, json_parse, json_str, keys_view, parse_json, JsonValue};
use crate::text::{
    append_str, chars_of, clone_opt, is_blank, is_blank_str, opt_view, split_once,
    split_once_chars, str_eq, string_from_chars, to_string,
};
use vstd::prelude::*;

verus! {

pub const CLIP_ID_PATTERN: &'static str = r"(?i)(?:song|clip)/([0-9a-f-]{20,})";

pub const RESOLUTION_PATTERN: &'static str = r"^\d+x\d+$";

pub const NO_CLIP_ID: &'static str = "Suno URLからclip_idを抽出できません";

pub const NO_AUDIO_URL: &'static str = "audio_urlを取得できませんでした";

pub const NO_IMAGE_URL: &'static str = "image_urlを取得できませんでした";

pub const BAD_DATA_URL: &'static str = "画像Data URLが不正です";

// ---------------------------------------------------------------------
// Regular expressions
// ---------------------------------------------------------------------

/// What group `group` of the first match of `pattern` in `text` holds,
/// as the `regex` crate finds it; `None` when the pattern does not compile,
/// nothing matches, or the group took no part in the match.
pub uninterp spec fn regex_group(pattern: Seq<char>, text: Seq<char>, group: nat) -> Option<Seq<char>>;

/// Whether `pattern` matches somewhere in `text`, as the `regex` crate
/// decides it; `None` when the pattern does not compile.
pub uninterp spec fn regex_match(pattern: Seq<char>, text: Seq<char>) -> Option<bool>;

/// Compiles `pattern` with `regex::Regex::new` and returns group `group`
/// of `Regex::captures` on `text`. The contract only names the result: it
/// is a function of the pattern, the text and the group.
#[verifier::external_body]
fn regex_capture(pattern: &str, text: &str, group: usize) -> (res: Option<String>)
    ensures
        opt_view(res) == regex_group(pattern@, text@, group as nat),
{
    let re = regex::Regex::new(pattern).ok()?;
    re.captures(text).and_then(|c| c.get(group)).map(|m| m.as_str().to_string())
}

/// Compiles `pattern` with `regex::Regex::new` and returns
/// `Regex::is_match` on `text`. The contract only names the result: it is
/// a function of the pattern and the text.
#[verifier::external_body]
fn regex_is_match(pattern: &str, text: &str) -> (res: Option<bool>)
    ensures
        res == regex_match(pattern@, text@),
{
    match regex::Regex::new(pattern) {
        Ok(re) => Some(re.is_match(text)),
        Err(_) => None,
    }
}

/// The clip id of a Suno song or clip URL: the run of hexadecimal digits
/// and dashes, at least twenty long, after `song/` or `clip/`.
pub fn extract_id(url: &str) -> (res: Option<String>)
    ensures
        opt_view(res) == regex_group(CLIP_ID_PATTERN@, url@, 1),
{
    regex_capture(CLIP_ID_PATTERN, url, 1)
}

/// The clip id of a URL, or the message that says there is none.
pub fn extract_clip_id(url: &str) -> (res: Result<String, String>)
    ensures
        match regex_group(CLIP_ID_PATTERN@, url@, 1) {
            Some(id) => res matches Ok(s) && s@ == id,
            None => res matches Err(m) && m@ == NO_CLIP_ID@,
        },
{
    match extract_id(url) {
        Some(id) => Ok(id),
        None => Err(to_string(NO_CLIP_ID)),
    }
}

// ---------------------------------------------------------------------
// Clip metadata
// ---------------------------------------------------------------------

/// A clip as the desktop program shows it, with the JSON item it was read
/// from.
#[derive(Debug)]
pub struct ClipMetadata {
    pub clip_id: String,
    pub title: Option<String>,
    pub audio_url: Option<String>,
    pub image_url: Option<String>,
    pub video_url: Option<String>,
    pub raw: JsonValue,
}

pub struct ClipView {
    pub clip_id: Seq<char>,
    pub title: Option<Seq<char>>,
    pub audio_url: Option<Seq<char>>,
    pub image_url: Option<Seq<char>>,
    pub video_url: Option<Seq<char>>,
    pub raw: JsonValue,
}

impl View for ClipMetadata {
    type V = ClipView;

    open spec fn view(&self) -> ClipView {
        ClipView {
            clip_id: self.clip_id@,
            title: opt_view(self.title),
            audio_url: opt_view(self.audio_url),
            image_url: opt_view(self.image_url),
            video_url: opt_view(self.video_url),
            raw: self.raw,
        }
    }
}

/// The first of `keys` under which `v` holds a string.
pub open spec fn string_under(v: JsonValue, keys: Seq<Seq<char>>) -> Option<Seq<char>>
    decreases keys.len(),
{
    if keys.len() == 0 {
        None
    } else {
        match json_str(json_get(v, keys[0])) {
            Some(s) => Some(s),
            None => string_under(v, keys.drop_first()),
        }
    }
}

/// A URL under one of `keys` in `v`, else under one of them in `v`'s
/// `metadata` member.
pub open spec fn url_of(v: JsonValue, keys: Seq<Seq<char>>) -> Option<Seq<char>> {
    match string_under(v, keys) {
        Some(s) => Some(s),
        None => match json_get(v, "metadata"@) {
            Some(m) => string_under(m, keys),
            None => None,
        },
    }
}

fn string_under_exec(v: &JsonValue, keys: &[&str]) -> (res: Option<String>)
    ensures
        opt_view(res) == string_under(*v, keys_view(keys@)),
{
    let mut k: usize = 0;
    assert(keys_view(keys@).skip(0) =~= keys_view(keys@));
    while k < keys.len()
        invariant
            k <= keys.len(),
            string_under(*v, keys_view(keys@)) == string_under(*v, keys_view(keys@).skip(k as int)),
        decreases keys.len() - k,
    {
        let ghost rest = keys_view(keys@).skip(k as int);
        assert(rest.drop_first() =~= keys_view(keys@).skip(k + 1));
        assert(rest[0] == keys@[k as int]@);
        match as_str(get(v, keys[k])) {
            Some(s) => {
                return Some(s);
            },
            None => {},
        }
        k = k + 1;
    }
    assert(keys_view(keys@).skip(k as int) =~= Seq::<Seq<char>>::empty());
    None
}

/// A URL stored under one of `keys`, directly or in the `metadata` member.
pub fn find_url(v: &JsonValue, keys: &[&str]) -> (res: Option<String>)
    ensures
        opt_view(res) == url_of(*v, keys_view(keys@)),
{
    match string_under_exec(v, keys) {
        Some(s) => Some(s),
        None => match get(v, "metadata") {
            Some(m) => string_under_exec(m, keys),
            None => None,
        },
    }
}

pub open spec fn audio_keys() -> Seq<Seq<char>> {
    seq!["audio_url"@, "audioUrl"@]
}

pub open spec fn image_keys() -> Seq<Seq<char>> {
    seq!["image_url"@, "imageUrl"@, "image_large_url"@]
}

pub open spec fn video_keys() -> Seq<Seq<char>> {
    seq!["video_url"@, "videoUrl"@]
}

/// The item that describes the clip: the first element of an array, or of
/// a `clips` array; any other value is the item itself.
pub open spec fn clip_item(v: JsonValue) -> Option<JsonValue> {
    match v {
        JsonValue::Array(items) => if items@.len() > 0 {
            Some(items@[0])
        } else {
            None
        },
        _ => match json_array(json_get(v, "clips"@)) {
            Some(items) => if items.len() > 0 {
                Some(items[0])
            } else {
                None
            },
            None => Some(v),
        },
    }
}

pub open spec fn default_cover_url(clip_id: Seq<char>) -> Seq<char> {
    "https://cdn2.suno.ai/image_large_"@ + clip_id + ".jpeg"@
}

/// The clip that a feed answer describes; `None` for an empty list.
pub open spec fn normalized(clip_id: Seq<char>, v: JsonValue) -> Option<ClipView> {
    match clip_item(v) {
        None => None,
        Some(item) => Some(
            ClipView {
                clip_id,
                title: json_str(json_get(item, "title"@)),
                audio_url: url_of(item, audio_keys()),
                image_url: Some(
                    match url_of(item, image_keys()) {
                        Some(u) => u,
                        None => default_cover_url(clip_id),
                    },
                ),
                video_url: url_of(item, video_keys()),
                raw: item,
            },
        ),
    }
}

fn take_first(items: Vec<JsonValue>) -> (res: Option<JsonValue>)
    ensures
        res == (if items@.len() > 0 {
            Some(items@[0])
        } else {
            None::<JsonValue>
        }),
{
    let mut items = items;
    if items.len() == 0 {
        None
    } else {
        Some(items.remove(0))
    }
}

fn lookup_index(es: &Vec<(String, JsonValue)>, key: &str) -> (res: Option<usize>)
    ensures
        match res {
            Some(i) => i < es@.len() && crate::json::entry_lookup(es@, key@) == Some(es@[i as int].1),
            None => crate::json::entry_lookup(es@, key@) is None,
        },
{
    let mut i: usize = 0;
    assert(es@.skip(0) =~= es@);
    while i < es.len()
        invariant
            i <= es.len(),
            crate::json::entry_lookup(es@, key@) == crate::json::entry_lookup(es@.skip(i as int), key@),
        decreases es.len() - i,
    {
        assert(es@.skip(i as int).drop_first() =~= es@.skip(i + 1));
        if str_eq(es[i].0.as_str(), key) {
            return Some(i);
        }
        i = i + 1;
    }
    None
}

fn take_clip_item(v: JsonValue) -> (res: Option<JsonValue>)
    ensures
        res == clip_item(v),
{
    match v {
        JsonValue::Array(items) => take_first(items),
        JsonValue::Object(es) => {
            let ghost whole = JsonValue::Object(es);
            match lookup_index(&es, "clips") {
                Some(i) => {
                    let is_array = match &es[i].1 {
                        JsonValue::Array(_) => true,
                        _ => false,
                    };
                    if is_array {
                        let mut es = es;
                        let (_, inner) = es.remove(i);
                        match inner {
                            JsonValue::Array(items) => take_first(items),
                            _ => None,
                        }
                    } else {
                        Some(JsonValue::Object(es))
                    }
                },
                None => Some(JsonValue::Object(es)),
            }
        },
        other => Some(other),
    }
}

/// Reads the clip out of a feed answer.
pub fn normalize_clip(clip_id: &str, v: JsonValue) -> (res: Option<ClipMetadata>)
    ensures
        match normalized(clip_id@, v) {
            Some(c) => res matches Some(m) && m@ == c,
            None => res is None,
        },
{
    let item = match take_clip_item(v) {
        Some(item) => item,
        None => {
            return None;
        },
    };
    let audio = ["audio_url", "audioUrl"];
    let image = ["image_url", "imageUrl", "image_large_url"];
    let video = ["video_url", "videoUrl"];
    assert(keys_view(audio@) =~= audio_keys());
    assert(keys_view(image@) =~= image_keys());
    assert(keys_view(video@) =~= video_keys());
    let title = as_str(get(&item, "title"));
    let audio_url = find_url(&item, audio.as_slice());
    let image_url = match find_url(&item, image.as_slice()) {
        Some(u) => u,
        None => {
            let mut m = chars_of("https://cdn2.suno.ai/image_large_");
            append_str(&mut m, clip_id);
            append_str(&mut m, ".jpeg");
            string_from_chars(m.as_slice())
        },
    };
    let video_url = find_url(&item, video.as_slice());
    Some(
        ClipMetadata {
            clip_id: to_string(clip_id),
            title,
            audio_url,
            image_url: Some(image_url),
            video_url,
            raw: item,
        },
    )
}

// ---------------------------------------------------------------------
// Fetching a clip
// ---------------------------------------------------------------------

/// The endpoints asked for a clip, in order.
pub open spec fn clip_urls(clip_id: Seq<char>) -> Seq<Seq<char>> {
    seq![
        "https://studio-api.suno.ai/api/feed/?ids="@ + clip_id,
        "https://studio-api.suno.ai/api/feed/v2?ids="@ + clip_id,
        "https://app.suno.ai/api/feed/?ids="@ + clip_id,
        "https://api.suno.ai/api/clip/"@ + clip_id,
    ]
}

/// The cookie sent with each request: the given one when it is not blank,
/// else the one from the environment.
pub open spec fn chosen_cookie(cookie: Option<Seq<char>>, env_cookie: Option<Seq<char>>) -> Option<
    Seq<char>,
> {
    match cookie {
        Some(c) => if is_blank(c) {
            env_cookie
        } else {
            Some(c)
        },
        None => env_cookie,
    }
}

/// What one endpoint answered: its status (success or not, and its text)
/// with the body, or the error of a request that got no answer.
pub enum ClipResponse {
    Answered { success: bool, status: String, body: String },
    Unsent(String),
}

/// The clip that an answer yields: only a successful answer whose body is
/// JSON that describes a clip yields one.
pub open spec fn answer_clip(clip_id: Seq<char>, r: ClipResponse) -> Option<ClipView> {
    match r {
        ClipResponse::Answered { success, body, .. } => if success {
            match json_parse(body@) {
                Ok(v) => normalized(clip_id, v),
                Err(_) => None,
            }
        } else {
            None
        },
        ClipResponse::Unsent(_) => None,
    }
}

/// The text that records an answer that yielded no clip.
pub open spec fn answer_text(url: Seq<char>, r: ClipResponse) -> Seq<char> {
    match r {
        ClipResponse::Answered { status, body, .. } => url + ": "@ + status@ + " "@ + body@,
        ClipResponse::Unsent(e) => url + ": "@ + e@,
    }
}

/// The message when no endpoint yielded the clip, with the last answer.
pub open spec fn clip_fetch_failed(last: Seq<char>) -> Seq<char> {
    "メタ情報取得に失敗しました。SUNO_COOKIEを確認してください。最後の応答: "@ + last
}

/// A clip fetch in progress: the endpoint to ask next.
pub struct ClipFetch {
    clip_id: String,
    cookie: Option<String>,
    attempt: usize,
}

/// Where a clip fetch goes after an answer.
pub enum ClipFetchStep {
    Found(ClipMetadata),
    Next(ClipFetch),
    Failed(String),
}

impl ClipFetch {
    #[verifier::type_invariant]
    spec fn attempt_in_range(self) -> bool {
        self.attempt < 4
    }

    pub closed spec fn clip_id(&self) -> Seq<char> {
        self.clip_id@
    }

    pub closed spec fn cookie(&self) -> Option<Seq<char>> {
        opt_view(self.cookie)
    }

    pub closed spec fn attempt(&self) -> nat {
        self.attempt as nat
    }

    /// Starts a fetch of the clip `clip_id` at the first endpoint.
    pub fn start(clip_id: &str, cookie: Option<&str>, env_cookie: Option<String>) -> (res: ClipFetch)
        ensures
            res.clip_id() == clip_id@,
            res.attempt() == 0,
            res.cookie() == chosen_cookie(
                match cookie {
                    Some(c) => Some(c@),
                    None => None,
                },
                opt_view(env_cookie),
            ),
    {
        let chosen = match cookie {
            Some(c) => if is_blank_str(c) {
                env_cookie
            } else {
                Some(to_string(c))
            },
            None => env_cookie,
        };
        ClipFetch { clip_id: to_string(clip_id), cookie: chosen, attempt: 0 }
    }

    fn url(&self) -> (res: String)
        ensures
            res@ == clip_urls(self.clip_id())[self.attempt() as int],
    {
        proof {
            use_type_invariant(self);
        }
        let prefix = if self.attempt == 0 {
            "https://studio-api.suno.ai/api/feed/?ids="
        } else if self.attempt == 1 {
            "https://studio-api.suno.ai/api/feed/v2?ids="
        } else if self.attempt == 2 {
            "https://app.suno.ai/api/feed/?ids="
        } else {
            "https://api.suno.ai/api/clip/"
        };
        let mut m = chars_of(prefix);
        append_str(&mut m, self.clip_id.as_str());
        string_from_chars(m.as_slice())
    }

    /// The request for the current endpoint: its URL, a JSON `Accept`
    /// header and the cookie, when there is one.
    pub fn request(&self) -> (res: FeedRequest)
        ensures
            res.url@ == clip_urls(self.clip_id())[self.attempt() as int],
            pairs_view(res.headers@) == seq![("Accept"@, "application/json"@)] + match self.cookie() {
                Some(c) => seq![("Cookie"@, c)],
                None => Seq::empty(),
            },
    {
        let mut headers: Vec<(String, String)> = Vec::new();
        push_pair(&mut headers, "Accept", &to_string("application/json"));
        match &self.cookie {
            Some(c) => push_pair(&mut headers, "Cookie", c),
            None => {},
        }
        proof {
            assert(pairs_view(headers@) =~= seq![("Accept"@, "application/json"@)] + match self.cookie() {
                Some(c) => seq![("Cookie"@, c)],
                None => Seq::empty(),
            });
        }
        FeedRequest { url: self.url(), headers }
    }

    /// Takes the current endpoint's answer: a clip ends the fetch; without
    /// one the next endpoint is asked, and after the last one the fetch
    /// fails with that endpoint's answer.
    pub fn on_response(self, response: ClipResponse) -> (res: ClipFetchStep)
        ensures
            match answer_clip(self.clip_id(), response) {
                Some(c) => res matches ClipFetchStep::Found(m) && m@ == c,
                None => if self.attempt() + 1 < 4 {
                    res matches ClipFetchStep::Next(f) && f.clip_id() == self.clip_id()
                        && f.cookie() == self.cookie() && f.attempt() == self.attempt() + 1
                } else {
                    res matches ClipFetchStep::Failed(m) && m@ == clip_fetch_failed(
                        answer_text(clip_urls(self.clip_id())[self.attempt() as int], response),
                    )
                },
            },
    {
        proof {
            use_type_invariant(&self);
        }
        let url = self.url();
        let text = match &response {
            ClipResponse::Answered { success, status, body } => {
                if *success {
                    match parse_json(body.as_str()) {
                        Ok(v) => match normalize_clip(self.clip_id.as_str(), v) {
                            Some(meta) => {
                                return ClipFetchStep::Found(meta);
                            },
                            None => {},
                        },
                        Err(_) => {},
                    }
                }
                let mut m = chars_of(url.as_str());
                append_str(&mut m, ": ");
                append_str(&mut m, status.as_str());
                append_str(&mut m, " ");
                append_str(&mut m, body.as_str());
                m
            },
            ClipResponse::Unsent(e) => {
                let mut m = chars_of(url.as_str());
                append_str(&mut m, ": ");
                append_str(&mut m, e.as_str());
                m
            },
        };
        let ClipFetch { clip_id, cookie, attempt } = self;
        if attempt + 1 < 4 {
            return ClipFetchStep::Next(ClipFetch { clip_id, cookie, attempt: attempt + 1 });
        }
        let mut m = chars_of("メタ情報取得に失敗しました。SUNO_COOKIEを確認してください。最後の応答: ");
        crate::text::append_chars(&mut m, text.as_slice());
        ClipFetchStep::Failed(string_from_chars(m.as_slice()))
    }
}

// ---------------------------------------------------------------------
// Rendering a clip
// ---------------------------------------------------------------------

/// The visualizer layer over the cover: a waveform when asked for one,
/// else a spectrum, at the given size when it reads as `<digits>x<digits>`
/// and at 1280x720 otherwise.
pub open spec fn visualizer_graph(size: Seq<char>, kind: Seq<char>) -> Seq<char> {
    if kind == "waveform"@ {
        "[0:v]scale="@ + size + ":force_original_aspect_ratio=increase,crop="@ + size
            + ",setsar=1[bg];[1:a]showwaves=s="@ + size
            + ":mode=line:colors=White@0.8[vis];[bg][vis]overlay=format=auto[v]"@
    } else {
        "[0:v]scale="@ + size + ":force_original_aspect_ratio=increase,crop="@ + size
            + ",setsar=1[bg];[1:a]showspectrum=s="@ + size
            + ":mode=combined:color=intensity[vis];[bg][vis]blend=all_mode=screen:all_opacity=0.65[v]"@
    }
}

pub open spec fn checked_size(res: Seq<char>) -> Seq<char> {
    if regex_match(RESOLUTION_PATTERN@, res) == Some(true) {
        res
    } else {
        "1280x720"@
    }
}

/// The filter graph of a clip render at a size already checked.
pub fn build_visualizer_graph(size: &str, kind: &str) -> (out: String)
    ensures
        out@ == visualizer_graph(size@, kind@),
{
    let waveform = str_eq(kind, "waveform");
    let mut m = chars_of("[0:v]scale=");
    append_str(&mut m, size);
    append_str(&mut m, ":force_original_aspect_ratio=increase,crop=");
    append_str(&mut m, size);
    if waveform {
        append_str(&mut m, ",setsar=1[bg];[1:a]showwaves=s=");
        append_str(&mut m, size);
        append_str(&mut m, ":mode=line:colors=White@0.8[vis];[bg][vis]overlay=format=auto[v]");
    } else {
        append_str(&mut m, ",setsar=1[bg];[1:a]showspectrum=s=");
        append_str(&mut m, size);
        append_str(
            &mut m,
            ":mode=combined:color=intensity[vis];[bg][vis]blend=all_mode=screen:all_opacity=0.65[v]",
        );
    }
    string_from_chars(m.as_slice())
}

/// The filter graph of a clip render.
pub fn visualizer_filter(res: &str, kind: &str) -> (out: String)
    ensures
        out@ == visualizer_graph(checked_size(res@), kind@),
{
    let size = match regex_is_match(RESOLUTION_PATTERN, res) {
        Some(true) => res,
        _ => "1280x720",
    };
    build_visualizer_graph(size, kind)
}

/// The render of one clip: where its files go and what FFmpeg is given.
pub struct MvPlan {
    pub clip_id: String,
    pub audio_url: String,
    pub image_url: Option<String>,
    pub audio_file: String,
    pub cover_file: String,
    pub output_file: String,
    pub log_line: String,
    pub filter: String,
}

fn cat(a: &str, b: &str) -> (res: String)
    ensures
        res@ == a@ + b@,
{
    let mut m = chars_of(a);
    append_str(&mut m, b);
    string_from_chars(m.as_slice())
}

/// Plans the render of a fetched clip; a clip without an audio URL cannot
/// be rendered.
pub fn plan_mv(clip: &ClipMetadata, resolution: &str, visualizer: &str) -> (res: Result<MvPlan, String>)
    ensures
        match clip.audio_url {
            None => res matches Err(m) && m@ == NO_AUDIO_URL@,
            Some(a) => res matches Ok(p) && p.clip_id@ == clip.clip_id@ && p.audio_url@ == a@
                && opt_view(p.image_url) == opt_view(clip.image_url) && p.audio_file@ == clip.clip_id@
                + ".mp3"@ && p.cover_file@ == clip.clip_id@ + "_cover"@ && p.output_file@
                == clip.clip_id@ + ".mp4"@ && p.log_line@ == "clip_id: "@ + clip.clip_id@
                && p.filter@ == visualizer_graph(checked_size(resolution@), visualizer@),
        },
{
    let audio_url = match &clip.audio_url {
        Some(a) => a.clone(),
        None => {
            return Err(to_string(NO_AUDIO_URL));
        },
    };
    let id = clip.clip_id.as_str();
    Ok(
        MvPlan {
            clip_id: clip.clip_id.clone(),
            audio_url,
            image_url: clone_opt(&clip.image_url),
            audio_file: cat(id, ".mp3"),
            cover_file: cat(id, "_cover"),
            output_file: cat(id, ".mp4"),
            log_line: cat("clip_id: ", id),
            filter: visualizer_filter(resolution, visualizer),
        },
    )
}

/// Where a clip's cover comes from.
pub enum CoverSource {
    DataUrl(String),
    Download(String),
}

/// The cover of a clip render: the frontend's data URL when there is one,
/// else the clip's image URL; without either the render fails.
pub fn mv_cover(image_data_url: Option<String>, image_url: Option<String>) -> (res: Result<
    CoverSource,
    String,
>)
    ensures
        match image_data_url {
            Some(d) => res matches Ok(CoverSource::DataUrl(x)) && x == d,
            None => match image_url {
                Some(u) => res matches Ok(CoverSource::Download(x)) && x == u,
                None => res matches Err(m) && m@ == NO_IMAGE_URL@,
            },
        },
{
    match image_data_url {
        Some(d) => Ok(CoverSource::DataUrl(d)),
        None => match image_url {
            Some(u) => Ok(CoverSource::Download(u)),
            None => Err(to_string(NO_IMAGE_URL)),
        },
    }
}

/// The bytes of a data URL: what follows its first comma, decoded.
pub open spec fn data_url_bytes(data_url: Seq<char>) -> Result<Seq<u8>, Seq<char>> {
    match split_once(data_url, ',') {
        None => Err(BAD_DATA_URL@),
        Some((_, data)) => base64_standard_decode(data),
    }
}

/// Decodes a cover handed over as a data URL.
pub fn decode_data_url(data_url: &str) -> (res: Result<Vec<u8>, String>)
    ensures
        bytes_result_view(res) == data_url_bytes(data_url@),
{
    let s = chars_of(data_url);
    match split_once_chars(s.as_slice(), ',') {
        Some((_, data)) => {
            let text = string_from_chars(data.as_slice());
            decode_base64_standard(text.as_str())
        },
        None => Err(to_string(BAD_DATA_URL)),
    }
}

/// FFmpeg's arguments for a clip render: the cover looped as the first
/// input, the audio as the second, the filter graph, H.264 video with AAC
/// audio and a fast-start MP4.
pub open spec fn mv_args(image: Seq<char>, audio: Seq<char>, filter: Seq<char>, output: Seq<char>) -> Seq<
    Seq<char>,
> {
    seq![
        "-y"@,
        "-loop"@,
        "1"@,
        "-i"@,
        image,
        "-i"@,
        audio,
        "-filter_complex"@,
        filter,
        "-map"@,
        "[v]"@,
        "-map"@,
        "1:a"@,
        "-shortest"@,
        "-c:v"@,
        "libx264"@,
        "-pix_fmt"@,
        "yuv420p"@,
        "-c:a"@,
        "aac"@,
        "-movflags"@,
        "+faststart"@,
        output,
    ]
}

/// A clip render loops its cover, so it always stops with the audio: the
/// arguments hold `-shortest` after both inputs and end with the output.
pub proof fn law_clip_render_stops_with_the_audio(
    image: Seq<char>,
    audio: Seq<char>,
    filter: Seq<char>,
    output: Seq<char>,
)
    ensures
        ({
            let a = mv_args(image, audio, filter, output);
            &&& a[1] == "-loop"@ && a[2] == "1"@ && a[3] == "-i"@ && a[4] == image
            &&& a[5] == "-i"@ && a[6] == audio
            &&& a[13] == "-shortest"@
            &&& a.contains("-shortest"@)
            &&& a.last() == output
        }),
{
    let a = mv_args(image, audio, filter, output);
    assert(a[13] == "-shortest"@);
}

pub fn build_mv_args(image: &str, audio: &str, filter: &str, output: &str) -> (res: Vec<String>)
    ensures
        strings_view(res@) == mv_args(image@, audio@, filter@, output@),
{
    let mut a: Vec<String> = Vec::new();
    push_str(&mut a, "-y");
    push_str(&mut a, "-loop");
    push_str(&mut a, "1");
    push_str(&mut a, "-i");
    push_str(&mut a, image);
    push_str(&mut a, "-i");
    push_str(&mut a, audio);
    push_str(&mut a, "-filter_complex");
    push_str(&mut a, filter);
    push_str(&mut a, "-map");
    push_str(&mut a, "[v]");
    push_str(&mut a, "-map");
    push_str(&mut a, "1:a");
    push_str(&mut a, "-shortest");
    push_str(&mut a, "-c:v");
    push_str(&mut a, "libx264");
    push_str(&mut a, "-pix_fmt");
    push_str(&mut a, "yuv420p");
    push_str(&mut a, "-c:a");
    push_str(&mut a, "aac");
    push_str(&mut a, "-movflags");
    push_str(&mut a, "+faststart");
    push_str(&mut a, output);
    assert(strings_view(a@) =~= mv_args(image@, audio@, filter@, output@));
    a
}

/// The message when FFmpeg could not be started.
pub fn spawn_failed_text(err: &str) -> (res: String)
    ensures
        res@ == "ffmpeg起動失敗: "@ + err@,
{
    cat("ffmpeg起動失敗: ", err)
}

/// The outcome of a clip render: the video's path when FFmpeg exited
/// successfully, else the message with its exit status.
pub fn mv_outcome(success: bool, status: &str, output_path: &str) -> (res: Result<String, String>)
    ensures
        success ==> (res matches Ok(p) && p@ == output_path@),
        !success ==> (res matches Err(m) && m@ == "ffmpeg failed: "@ + status@),
{
    if success {
        Ok(to_string(output_path))
    } else {
        Err(cat("ffmpeg failed: ", status))
    }
}

} // verus!
