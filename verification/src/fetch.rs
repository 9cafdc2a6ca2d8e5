//! The decisions of a metadata fetch: the song page is read first, then, when
//! the feed API is configured, the feed is paged through until the song is
//! found, a page comes back empty, a request fails, or the page limit is
//! reached. The caller performs each request and hands back its outcome.
use crate::ffmpeg::strings_view;
use crate::html::{extract_page_metadata_from_html, page_metadata};
use crate::json::{json_parse, parse_json};
use crate::metadata::{
    clips_from_feed_value, empty_view, find_matching_clip,
    first_with_id, has_any_metadata, merge_metadata, merge_views, metadata_views, view_has_any,
    MetadataView, SunoMetadata,
};
use crate::names::{extract_suno_id, mask_secret, masked_secret, suno_id, yes_no};
use crate::settings::{has_suno_api_settings, AppSettings, MetadataFetchResponse};
use crate::text::{
    append_chars, append_str, chars_of, decimal, decimal_chars, is_blank, string_from_chars,
    to_string, trim, trim_chars,
};
use vstd::prelude::*;

verus! {

// ---------------------------------------------------------------------
// Download errors
// ---------------------------------------------------------------------

/// Why an HTTP request failed: the server answered with an error status,
/// or the request did not get an answer at all.
pub enum DownloadError {
    Status { code: u16, status_text: String },
    Transport(String),
}

pub open spec fn download_error_text(context: Seq<char>, url: Seq<char>, e: DownloadError) -> Seq<char> {
    match e {
        DownloadError::Status { code, status_text } => context + " failed for "@ + url + ": HTTP "@
            + decimal(code as nat) + " "@ + status_text@,
        DownloadError::Transport(m) => context + " failed for "@ + url + ": "@ + m@,
    }
}

/// The text that reports a failed request.
pub fn describe_download_error(context: &str, url: &str, err: &DownloadError) -> (res: String)
    ensures
        res@ == download_error_text(context@, url@, *err),
{
    let mut m = chars_of(context);
    append_str(&mut m, " failed for ");
    append_str(&mut m, url);
    match err {
        DownloadError::Status { code, status_text } => {
            append_str(&mut m, ": HTTP ");
            append_chars(&mut m, decimal_chars(*code as usize).as_slice());
            append_str(&mut m, " ");
            append_str(&mut m, status_text.as_str());
        },
        DownloadError::Transport(t) => {
            append_str(&mut m, ": ");
            append_str(&mut m, t.as_str());
        },
    }
    string_from_chars(m.as_slice())
}

/// Why reading a page (the song page, or a page of the feed) failed.
pub enum FetchFailure {
    Request(DownloadError),
    Read(String),
}

// ---------------------------------------------------------------------
// Responses
// ---------------------------------------------------------------------

pub open spec fn opt_metadata_view(m: Option<SunoMetadata>) -> Option<MetadataView> {
    match m {
        Some(x) => Some(x@),
        None => None,
    }
}

pub open spec fn response_is(
    r: MetadataFetchResponse,
    success: bool,
    status: Seq<char>,
    song_id: Option<Seq<char>>,
    metadata: Option<MetadataView>,
    pages: u32,
    logs: Seq<Seq<char>>,
) -> bool {
    &&& r.success == success
    &&& r.status@ == status
    &&& crate::text::opt_view(r.song_id) == song_id
    &&& opt_metadata_view(r.metadata) == metadata
    &&& r.pages_checked == pages
    &&& strings_view(r.logs@) == logs
}

/// An answer reports success exactly when it carries metadata.
pub open spec fn answer_consistent(r: MetadataFetchResponse) -> bool {
    r.success <==> r.metadata is Some
}

/// What is known without the feed: the page's metadata, or nothing.
pub open spec fn fallback(pm: Option<MetadataView>) -> MetadataView {
    match pm {
        Some(m) => m,
        None => empty_view(),
    }
}

/// The answer that falls back to the page's metadata: a success exactly
/// when that holds any field.
pub open spec fn fallback_response_is(
    r: MetadataFetchResponse,
    status: Seq<char>,
    song_id: Seq<char>,
    pm: Option<MetadataView>,
    pages: u32,
    logs: Seq<Seq<char>>,
) -> bool {
    response_is(
        r,
        view_has_any(fallback(pm)),
        status,
        Some(song_id),
        if view_has_any(fallback(pm)) {
            Some(fallback(pm))
        } else {
            None
        },
        pages,
        logs,
    )
}

fn push_text(logs: &mut Vec<String>, text: &Vec<char>)
    ensures
        strings_view(final(logs)@) == strings_view(old(logs)@).push(text@),
{
    let ghost before = logs@;
    logs.push(string_from_chars(text.as_slice()));
    assert(strings_view(logs@) =~= strings_view(before).push(text@));
}

fn push_lit(logs: &mut Vec<String>, text: &str)
    ensures
        strings_view(final(logs)@) == strings_view(old(logs)@).push(text@),
{
    let ghost before = logs@;
    logs.push(to_string(text));
    assert(strings_view(logs@) =~= strings_view(before).push(text@));
}

fn cat2(a: &str, b: &str) -> (res: Vec<char>)
    ensures
        res@ == a@ + b@,
{
    let mut m = chars_of(a);
    append_str(&mut m, b);
    m
}

fn unwrap_or_default(pm: &Option<SunoMetadata>) -> (res: SunoMetadata)
    ensures
        res@ == fallback(opt_metadata_view(*pm)),
{
    match pm {
        Some(m) => m.duplicate(),
        None => SunoMetadata::default(),
    }
}

fn fallback_response(
    status: String,
    song_id: &String,
    pm: &Option<SunoMetadata>,
    pages: u32,
    logs: Vec<String>,
) -> (res: MetadataFetchResponse)
    ensures
        fallback_response_is(res, status@, song_id@, opt_metadata_view(*pm), pages, strings_view(logs@)),
{
    let merged = unwrap_or_default(pm);
    let any = has_any_metadata(&merged);
    MetadataFetchResponse {
        success: any,
        status,
        song_id: Some(song_id.clone()),
        metadata: if any {
            Some(merged)
        } else {
            None
        },
        pages_checked: pages,
        logs,
    }
}

// ---------------------------------------------------------------------
// Starting
// ---------------------------------------------------------------------

/// The feed API is used only when all three of its settings are filled in.
pub open spec fn api_enabled(settings: AppSettings) -> bool {
    !is_blank(settings.suno_authorization@) && !is_blank(settings.suno_browser_token@)
        && !is_blank(settings.suno_device_id@)
}

/// The three stored credentials as the logs show them.
pub open spec fn credential_masks(settings: AppSettings) -> (Seq<char>, Seq<char>, Seq<char>) {
    (
        masked_secret(settings.suno_authorization@),
        masked_secret(settings.suno_browser_token@),
        masked_secret(settings.suno_device_id@),
    )
}

/// The log lines a fetch starts with.
pub open spec fn start_logs(suno_url: Seq<char>, song_id: Seq<char>) -> Seq<Seq<char>> {
    seq!["id extracted: "@ + song_id, "warm-up Suno page started: "@ + suno_url]
}

/// The first step: the song page is to be read.
pub struct WarmUpPending {
    song_id: String,
    suno_url: String,
    logs: Vec<String>,
    has_api: bool,
    authorization: String,
    browser_token: String,
    device_id: String,
    masked_authorization: String,
    masked_browser_token: String,
    masked_device_id: String,
    max_pages: u32,
}

impl WarmUpPending {
    #[verifier::type_invariant]
    spec fn some_pages(self) -> bool {
        self.max_pages > 0
    }

    pub closed spec fn has_api(&self) -> bool {
        self.has_api
    }

    pub closed spec fn max_pages(&self) -> u32 {
        self.max_pages
    }

    pub closed spec fn credentials(&self) -> (Seq<char>, Seq<char>, Seq<char>) {
        (self.authorization@, self.browser_token@, self.device_id@)
    }

    pub closed spec fn masks(&self) -> (Seq<char>, Seq<char>, Seq<char>) {
        (self.masked_authorization@, self.masked_browser_token@, self.masked_device_id@)
    }

    pub closed spec fn song_id(&self) -> Seq<char> {
        self.song_id@
    }

    pub closed spec fn suno_url(&self) -> Seq<char> {
        self.suno_url@
    }

    pub closed spec fn logs(&self) -> Seq<Seq<char>> {
        strings_view(self.logs@)
    }

    /// The fetch was started with `settings`: the feed is used exactly when
    /// all three of its settings are filled in, with them trimmed; the logs
    /// show them masked; a page limit of 0 means 1.
    pub open spec fn settings_of(&self, settings: AppSettings) -> bool {
        &&& self.has_api() == api_enabled(settings)
        &&& self.credentials() == (
            trim(settings.suno_authorization@),
            trim(settings.suno_browser_token@),
            trim(settings.suno_device_id@),
        )
        &&& self.masks() == credential_masks(settings)
        &&& self.max_pages() == if settings.suno_max_pages == 0 {
            1
        } else {
            settings.suno_max_pages
        }
    }

    /// The URL of the song page, which the caller reads next.
    pub fn page_url(&self) -> (res: &str)
        ensures
            res@ == self.suno_url(),
    {
        self.suno_url.as_str()
    }
}

/// Starts a fetch of the metadata of the song at `suno_url`, whose id is
/// `song_id`.
pub fn start_fetch(settings: &AppSettings, suno_url: &str, song_id: &str) -> (res: WarmUpPending)
    ensures
        res.song_id() == song_id@,
        res.suno_url() == suno_url@,
        res.logs() == start_logs(suno_url@, song_id@),
        res.settings_of(*settings),
{
    let mut logs: Vec<String> = Vec::new();
    push_text(&mut logs, &cat2("id extracted: ", song_id));
    push_text(&mut logs, &cat2("warm-up Suno page started: ", suno_url));
    assert(strings_view(logs@) =~= seq![
        "id extracted: "@ + song_id@,
        "warm-up Suno page started: "@ + suno_url@,
    ]);
    let a = chars_of(settings.suno_authorization.as_str());
    let b = chars_of(settings.suno_browser_token.as_str());
    let d = chars_of(settings.suno_device_id.as_str());
    WarmUpPending {
        song_id: to_string(song_id),
        suno_url: to_string(suno_url),
        logs,
        has_api: has_suno_api_settings(settings),
        authorization: string_from_chars(trim_chars(a.as_slice()).as_slice()),
        browser_token: string_from_chars(trim_chars(b.as_slice()).as_slice()),
        device_id: string_from_chars(trim_chars(d.as_slice()).as_slice()),
        masked_authorization: mask_secret(settings.suno_authorization.as_str()),
        masked_browser_token: mask_secret(settings.suno_browser_token.as_str()),
        masked_device_id: mask_secret(settings.suno_device_id.as_str()),
        max_pages: if settings.suno_max_pages == 0 {
            1
        } else {
            settings.suno_max_pages
        },
    }
}

/// The answer when the settings could not be loaded.
pub open spec fn settings_failed_is(r: MetadataFetchResponse, err: Seq<char>) -> bool {
    response_is(
        r,
        false,
        "Settings load failed: "@ + err,
        None,
        None,
        0,
        seq!["Settings load failed: "@ + err],
    )
}

/// The answer when the URL holds no song id.
pub open spec fn no_id_is(r: MetadataFetchResponse) -> bool {
    response_is(
        r,
        false,
        "Suno URL id could not be extracted."@,
        None,
        None,
        0,
        seq!["id extraction failed"@],
    )
}

/// Starts the fetch behind the metadata command: it needs loaded settings
/// and a song id in the URL.
pub fn begin_metadata_fetch(settings: Result<AppSettings, String>, url: &str) -> (res: Result<
    WarmUpPending,
    MetadataFetchResponse,
>)
    ensures
        match settings {
            Err(e) => res matches Err(r) && settings_failed_is(r, e@),
            Ok(s) => match suno_id(url@) {
                None => res matches Err(r) && no_id_is(r),
                Some(id) => res matches Ok(p) && p.song_id() == id && p.suno_url() == url@
                    && p.logs() == seq![
                    "id extracted: "@ + id,
                    "warm-up Suno page started: "@ + url@,
                ] && p.settings_of(s),
            },
        },
        res matches Err(r) ==> answer_consistent(r),
{
    let settings = match settings {
        Ok(s) => s,
        Err(e) => {
            let m = cat2("Settings load failed: ", e.as_str());
            let mut logs: Vec<String> = Vec::new();
            push_text(&mut logs, &m);
            assert(strings_view(logs@) =~= seq!["Settings load failed: "@ + e@]);
            return Err(
                MetadataFetchResponse {
                    success: false,
                    status: string_from_chars(m.as_slice()),
                    song_id: None,
                    metadata: None,
                    pages_checked: 0,
                    logs,
                },
            );
        },
    };
    let song_id = match extract_suno_id(url) {
        Some(id) => id,
        None => {
            let mut logs: Vec<String> = Vec::new();
            push_lit(&mut logs, "id extraction failed");
            assert(strings_view(logs@) =~= seq!["id extraction failed"@]);
            return Err(
                MetadataFetchResponse {
                    success: false,
                    status: to_string("Suno URL id could not be extracted."),
                    song_id: None,
                    metadata: None,
                    pages_checked: 0,
                    logs,
                },
            );
        },
    };
    Ok(start_fetch(&settings, url, song_id.as_str()))
}

// ---------------------------------------------------------------------
// The song page
// ---------------------------------------------------------------------

pub open spec fn yes_no_text(b: bool) -> Seq<char> {
    if b {
        "yes"@
    } else {
        "no"@
    }
}

/// The log line that lists which fields the page supplied.
pub open spec fn selected_fields_text(m: MetadataView) -> Seq<char> {
    "metadata selected fields: title "@ + yes_no_text(m.title is Some) + ", lyrics "@ + yes_no_text(
        m.lyrics is Some,
    ) + ", prompt "@ + yes_no_text(m.prompt is Some) + ", style "@ + yes_no_text(m.style is Some)
}

pub open spec fn warm_up_failure_text(url: Seq<char>, f: FetchFailure) -> Seq<char> {
    match f {
        FetchFailure::Request(e) => download_error_text("Warm-up Suno page request"@, url, e),
        FetchFailure::Read(m) => "Warm-up Suno page read failed for "@ + url + ": "@ + m@,
    }
}

/// What reading the song page yielded.
pub open spec fn page_result(result: Result<String, FetchFailure>, song_id: Seq<char>) -> Option<
    MetadataView,
> {
    match result {
        Ok(html) => page_metadata(html@, song_id),
        Err(_) => None,
    }
}

/// The log lines that report reading the song page.
pub open spec fn page_logs(
    result: Result<String, FetchFailure>,
    url: Seq<char>,
    song_id: Seq<char>,
) -> Seq<Seq<char>> {
    match result {
        Ok(html) => seq![
            "warm-up Suno page succeeded"@,
            "metadata source attempted: page embedded data"@,
        ] + match page_metadata(html@, song_id) {
            Some(m) => seq!["metadata source result: page found"@, selected_fields_text(m)],
            None => seq!["metadata source result: page unavailable"@],
        },
        Err(f) => seq![
            "warm-up Suno page failed: "@ + warm_up_failure_text(url, f),
            "metadata source attempted: page embedded data"@,
            "metadata source result: page unavailable"@,
        ],
    }
}

/// The logs once the song page is read: the page's lines, then either the
/// note that the feed is skipped or the feed's credentials, masked.
pub open spec fn logs_after_page(
    logs: Seq<Seq<char>>,
    url: Seq<char>,
    song_id: Seq<char>,
    has_api: bool,
    masks: (Seq<char>, Seq<char>, Seq<char>),
    result: Result<String, FetchFailure>,
) -> Seq<Seq<char>> {
    let l = logs + page_logs(result, url, song_id);
    if !has_api {
        l + seq![
            "metadata source attempted: feed API"@,
            "metadata source result: feed API skipped because settings missing"@,
        ]
    } else {
        l + seq![
            "metadata source attempted: feed API"@,
            "authorization "@ + masks.0,
            "browser-token "@ + masks.1,
            "device-id "@ + masks.2,
        ]
    }
}

/// The text that reports a failed read of the song page.
pub fn describe_warm_up_failure(url: &str, failure: &FetchFailure) -> (res: String)
    ensures
        res@ == warm_up_failure_text(url@, *failure),
{
    match failure {
        FetchFailure::Request(e) => describe_download_error("Warm-up Suno page request", url, e),
        FetchFailure::Read(m) => {
            let mut t = chars_of("Warm-up Suno page read failed for ");
            append_str(&mut t, url);
            append_str(&mut t, ": ");
            append_str(&mut t, m.as_str());
            string_from_chars(t.as_slice())
        },
    }
}

fn yes_no_into(m: &mut Vec<char>, b: bool)
    ensures
        final(m)@ == old(m)@ + yes_no_text(b),
{
    append_str(m, yes_no(b));
}

/// The next step: the feed is to be read, page by page.
pub struct FeedPending {
    song_id: String,
    logs: Vec<String>,
    page_metadata: Option<SunoMetadata>,
    page: u32,
    max_pages: u32,
    authorization: String,
    browser_token: String,
    device_id: String,
}

/// One request of the feed API.
pub struct FeedRequest {
    pub url: String,
    pub headers: Vec<(String, String)>,
}

impl FeedPending {
    #[verifier::type_invariant]
    spec fn page_in_range(self) -> bool {
        self.page < self.max_pages
    }

    pub closed spec fn song_id(&self) -> Seq<char> {
        self.song_id@
    }

    pub closed spec fn logs(&self) -> Seq<Seq<char>> {
        strings_view(self.logs@)
    }

    pub closed spec fn page_found(&self) -> Option<MetadataView> {
        opt_metadata_view(self.page_metadata)
    }

    pub closed spec fn page(&self) -> u32 {
        self.page
    }

    pub closed spec fn max_pages(&self) -> u32 {
        self.max_pages
    }

    pub closed spec fn credentials(&self) -> (Seq<char>, Seq<char>, Seq<char>) {
        (self.authorization@, self.browser_token@, self.device_id@)
    }
}

impl WarmUpPending {
    /// Takes what reading the song page gave. Without feed settings the
    /// fetch ends here with the page's metadata; with them, the feed is to
    /// be read next, from its first page.
    pub fn on_page_read(self, result: Result<String, FetchFailure>) -> (res: Result<
        FeedPending,
        MetadataFetchResponse,
    >)
        ensures
            ({
                let pm = page_result(result, self.song_id());
                let logs = self.logs() + page_logs(result, self.suno_url(), self.song_id());
                if !self.has_api() {
                    let logs2 = logs + seq![
                        "metadata source attempted: feed API"@,
                        "metadata source result: feed API skipped because settings missing"@,
                    ];
                    res matches Err(r) && match pm {
                        Some(m) => response_is(
                            r,
                            true,
                            "Metadata found"@,
                            Some(self.song_id()),
                            Some(m),
                            0,
                            logs2,
                        ),
                        None => response_is(
                            r,
                            false,
                            "Metadata unavailable, using fallback"@,
                            Some(self.song_id()),
                            None,
                            0,
                            logs2,
                        ),
                    }
                } else {
                    res matches Ok(f) && f.song_id() == self.song_id() && f.page_found() == pm
                        && f.page() == 0 && f.max_pages() == self.max_pages() && f.credentials()
                        == self.credentials() && f.logs() == logs + seq![
                        "metadata source attempted: feed API"@,
                        "authorization "@ + self.masks().0,
                        "browser-token "@ + self.masks().1,
                        "device-id "@ + self.masks().2,
                    ]
                }
            }),
            res matches Err(r) ==> answer_consistent(r) && strings_view(r.logs@) == logs_after_page(
                self.logs(),
                self.suno_url(),
                self.song_id(),
                self.has_api(),
                self.masks(),
                result,
            ),
            res matches Ok(f) ==> f.page() < f.max_pages() && f.logs() == logs_after_page(
                self.logs(),
                self.suno_url(),
                self.song_id(),
                self.has_api(),
                self.masks(),
                result,
            ),
    {
        proof {
            use_type_invariant(&self);
        }
        let WarmUpPending {
            song_id,
            suno_url,
            logs,
            has_api,
            authorization,
            browser_token,
            device_id,
            masked_authorization,
            masked_browser_token,
            masked_device_id,
            max_pages,
        } = self;
        let mut logs = logs;
        let ghost l0 = strings_view(logs@);
        let page_metadata = match &result {
            Ok(html) => {
                push_lit(&mut logs, "warm-up Suno page succeeded");
                push_lit(&mut logs, "metadata source attempted: page embedded data");
                match extract_page_metadata_from_html(html.as_str(), song_id.as_str()) {
                    Some(metadata) => {
                        push_lit(&mut logs, "metadata source result: page found");
                        let mut m = chars_of("metadata selected fields: title ");
                        yes_no_into(&mut m, metadata.title.is_some());
                        append_str(&mut m, ", lyrics ");
                        yes_no_into(&mut m, metadata.lyrics.is_some());
                        append_str(&mut m, ", prompt ");
                        yes_no_into(&mut m, metadata.prompt.is_some());
                        append_str(&mut m, ", style ");
                        yes_no_into(&mut m, metadata.style.is_some());
                        push_text(&mut logs, &m);
                        Some(metadata)
                    },
                    None => {
                        push_lit(&mut logs, "metadata source result: page unavailable");
                        None
                    },
                }
            },
            Err(f) => {
                let reason = describe_warm_up_failure(suno_url.as_str(), f);
                push_text(&mut logs, &cat2("warm-up Suno page failed: ", reason.as_str()));
                push_lit(&mut logs, "metadata source attempted: page embedded data");
                push_lit(&mut logs, "metadata source result: page unavailable");
                None
            },
        };
        assert(strings_view(logs@) =~= l0 + page_logs(result, suno_url@, song_id@));
        assert(opt_metadata_view(page_metadata) == page_result(result, song_id@));
        let ghost l1 = strings_view(logs@);
        if !has_api {
            push_lit(&mut logs, "metadata source attempted: feed API");
            push_lit(&mut logs, "metadata source result: feed API skipped because settings missing");
            assert(strings_view(logs@) =~= l1 + seq![
                "metadata source attempted: feed API"@,
                "metadata source result: feed API skipped because settings missing"@,
            ]);
            return match page_metadata {
                Some(m) => Err(
                    MetadataFetchResponse {
                        success: true,
                        status: to_string("Metadata found"),
                        song_id: Some(song_id),
                        metadata: Some(m),
                        pages_checked: 0,
                        logs,
                    },
                ),
                None => Err(
                    MetadataFetchResponse {
                        success: false,
                        status: to_string("Metadata unavailable, using fallback"),
                        song_id: Some(song_id),
                        metadata: None,
                        pages_checked: 0,
                        logs,
                    },
                ),
            };
        }
        push_lit(&mut logs, "metadata source attempted: feed API");
        push_text(&mut logs, &cat2("authorization ", masked_authorization.as_str()));
        push_text(&mut logs, &cat2("browser-token ", masked_browser_token.as_str()));
        push_text(&mut logs, &cat2("device-id ", masked_device_id.as_str()));
        assert(strings_view(logs@) =~= l1 + seq![
            "metadata source attempted: feed API"@,
            "authorization "@ + masked_authorization@,
            "browser-token "@ + masked_browser_token@,
            "device-id "@ + masked_device_id@,
        ]);
        Ok(
            FeedPending {
                song_id,
                logs,
                page_metadata,
                page: 0,
                max_pages,
                authorization,
                browser_token,
                device_id,
            },
        )
    }
}

// ---------------------------------------------------------------------
// The feed
// ---------------------------------------------------------------------

pub open spec fn feed_page_url(page: u32) -> Seq<char> {
    "https://studio-api-prod.suno.com/api/feed/?page="@ + decimal(page as nat)
}

pub open spec fn pairs_view(v: Seq<(String, String)>) -> Seq<(Seq<char>, Seq<char>)> {
    v.map_values(|p: (String, String)| (p.0@, p.1@))
}

/// The text that reports a feed page that could not be read as JSON.
pub open spec fn invalid_json_text(url: Seq<char>, err: Seq<char>) -> Seq<char> {
    "Metadata fetch failed for "@ + url + ": invalid JSON: "@ + err
}

/// The feed page's body, or why there is none usable: the failure of the
/// request, or the text of the read or parse error.
pub open spec fn feed_value(result: Result<String, FetchFailure>) -> Result<
    crate::json::JsonValue,
    Result<DownloadError, Seq<char>>,
> {
    match result {
        Err(FetchFailure::Request(e)) => Err(Ok(e)),
        Err(FetchFailure::Read(m)) => Err(Err(m@)),
        Ok(text) => match json_parse(text@) {
            Ok(v) => Ok(v),
            Err(m) => Err(Err(m)),
        },
    }
}

pub(crate) fn push_pair(headers: &mut Vec<(String, String)>, name: &str, value: &String)
    ensures
        pairs_view(final(headers)@) == pairs_view(old(headers)@).push((name@, value@)),
{
    let ghost before = headers@;
    headers.push((to_string(name), value.clone()));
    assert(pairs_view(headers@) =~= pairs_view(before).push((name@, value@)));
}

/// What the fetch does with the current feed page, `value` being its JSON
/// or why there is none: a failed request ends the fetch with the page's
/// metadata; an unreadable body ends it with nothing; an empty page ends
/// it with the page's metadata; a page that holds the song ends it with
/// the page's metadata completed from the feed; otherwise the next page is
/// to be read, unless this was the last one allowed.
pub open spec fn feed_step(
    pending: FeedPending,
    value: Result<crate::json::JsonValue, Result<DownloadError, Seq<char>>>,
    res: Result<FeedPending, MetadataFetchResponse>,
) -> bool {
    let url = feed_page_url(pending.page());
    let logs0 = pending.logs().push("metadata fetch page="@ + decimal(pending.page() as nat));
    let id = pending.song_id();
    let pm = pending.page_found();
    let pages = (pending.page() + 1) as u32;
    match value {
        Err(Ok(e)) => res matches Err(r) && fallback_response_is(
            r,
            download_error_text("Metadata fetch"@, url, e),
            id,
            pm,
            pages,
            logs0.push(download_error_text("Metadata fetch"@, url, e)),
        ),
        Err(Err(m)) => res matches Err(r) && response_is(
            r,
            false,
            invalid_json_text(url, m),
            Some(id),
            None,
            pages,
            logs0.push(invalid_json_text(url, m)),
        ),
        Ok(v) => {
            let clips = crate::metadata::feed_clip_views(v);
            let logs1 = logs0.push(
                "metadata page="@ + decimal(pending.page() as nat) + " clips="@ + decimal(
                    clips.len(),
                ),
            );
            if clips.len() == 0 {
                res matches Err(r) && fallback_response_is(
                    r,
                    "Metadata unavailable, using fallback"@,
                    id,
                    pm,
                    pages,
                    logs1,
                )
            } else {
                match first_with_id(clips, id, 0) {
                    Some(i) => res matches Err(r) && response_is(
                        r,
                        true,
                        "Metadata found"@,
                        Some(id),
                        Some(merge_views(fallback(pm), clips[i as int])),
                        pages,
                        logs1 + seq![
                            "metadata match page="@ + decimal(pending.page() as nat)
                                + " id="@ + id,
                            "metadata source result: feed API found"@,
                        ],
                    ),
                    None => if pending.page() + 1 < pending.max_pages() {
                        res matches Ok(next) && next.song_id() == id && next.page_found() == pm
                            && next.page() == pending.page() + 1 && next.max_pages()
                            == pending.max_pages() && next.credentials()
                            == pending.credentials() && next.logs() == logs1
                    } else {
                        res matches Err(r) && fallback_response_is(
                            r,
                            "Metadata unavailable, using fallback"@,
                            id,
                            pm,
                            pending.max_pages(),
                            logs1 + seq![
                                "metadata match not found within "@ + decimal(
                                    pending.max_pages() as nat,
                                ) + " pages"@,
                                "metadata source result: feed API no match"@,
                            ],
                        )
                    },
                }
            }
        },
    }
}

pub open spec fn feed_value_view(
    value: Result<crate::json::JsonValue, Result<DownloadError, String>>,
) -> Result<crate::json::JsonValue, Result<DownloadError, Seq<char>>> {
    match value {
        Ok(v) => Ok(v),
        Err(Ok(e)) => Err(Ok(e)),
        Err(Err(m)) => Err(Err(m@)),
    }
}

impl FeedPending {
    /// The request for the current page: the feed URL with the page number,
    /// the three trimmed credentials and JSON content headers.
    pub fn request(&self) -> (res: FeedRequest)
        ensures
            res.url@ == feed_page_url(self.page()),
            pairs_view(res.headers@) == seq![
                ("authorization"@, self.credentials().0),
                ("browser-token"@, self.credentials().1),
                ("device-id"@, self.credentials().2),
                ("accept"@, "*/*"@),
                ("content-type"@, "application/json"@),
            ],
    {
        let mut url = chars_of("https://studio-api-prod.suno.com/api/feed/?page=");
        append_chars(&mut url, decimal_chars(self.page as usize).as_slice());
        let mut headers: Vec<(String, String)> = Vec::new();
        push_pair(&mut headers, "authorization", &self.authorization);
        push_pair(&mut headers, "browser-token", &self.browser_token);
        push_pair(&mut headers, "device-id", &self.device_id);
        push_pair(&mut headers, "accept", &to_string("*/*"));
        push_pair(&mut headers, "content-type", &to_string("application/json"));
        assert(pairs_view(headers@) =~= seq![
            ("authorization"@, self.authorization@),
            ("browser-token"@, self.browser_token@),
            ("device-id"@, self.device_id@),
            ("accept"@, "*/*"@),
            ("content-type"@, "application/json"@),
        ]);
        FeedRequest { url: string_from_chars(url.as_slice()), headers }
    }

    /// Takes what requesting the current page gave: a failed request, a
    /// body that could not be read, or the body, which is parsed as JSON.
    pub fn on_feed_page(self, result: Result<String, FetchFailure>) -> (res: Result<
        FeedPending,
        MetadataFetchResponse,
    >)
        ensures
            feed_step(self, feed_value(result), res),
            res matches Err(r) ==> answer_consistent(r) && 0 < r.pages_checked <= self.max_pages(),
            res matches Ok(f) ==> f.page() < f.max_pages(),
    {
        let value = match result {
            Err(FetchFailure::Request(e)) => Err(Ok(e)),
            Err(FetchFailure::Read(m)) => Err(Err(m)),
            Ok(body) => match parse_json(body.as_str()) {
                Ok(v) => Ok(v),
                Err(m) => Err(Err(m)),
            },
        };
        self.on_feed_value(value)
    }

    /// Takes the current page as JSON, or why there is none (the failed
    /// request, or the text of the read or parse error).
    pub fn on_feed_value(
        self,
        value: Result<crate::json::JsonValue, Result<DownloadError, String>>,
    ) -> (res: Result<FeedPending, MetadataFetchResponse>)
        ensures
            feed_step(self, feed_value_view(value), res),
            res matches Err(r) ==> answer_consistent(r) && 0 < r.pages_checked <= self.max_pages(),
            res matches Ok(f) ==> f.page() < f.max_pages(),
    {
        proof {
            use_type_invariant(&self);
        }
        let FeedPending {
            song_id,
            logs,
            page_metadata,
            page,
            max_pages,
            authorization,
            browser_token,
            device_id,
        } = self;
        let mut logs = logs;
        let mut url = chars_of("https://studio-api-prod.suno.com/api/feed/?page=");
        let page_digits = decimal_chars(page as usize);
        append_chars(&mut url, page_digits.as_slice());
        let url_text = string_from_chars(url.as_slice());
        let mut line = chars_of("metadata fetch page=");
        append_chars(&mut line, page_digits.as_slice());
        push_text(&mut logs, &line);
        let pages: u32 = page + 1;
        let text = match value {
            Err(Ok(e)) => {
                let status = describe_download_error("Metadata fetch", url_text.as_str(), &e);
                push_lit(&mut logs, status.as_str());
                return Err(fallback_response(status, &song_id, &page_metadata, pages, logs));
            },
            Err(Err(m)) => m,
            Ok(value) => {
                let clips = clips_from_feed_value(&value);
                let mut l = chars_of("metadata page=");
                append_chars(&mut l, page_digits.as_slice());
                append_str(&mut l, " clips=");
                append_chars(&mut l, decimal_chars(clips.len()).as_slice());
                proof {
                    assert(metadata_views(clips@).len() == clips@.len());
                }
                push_text(&mut logs, &l);
                if clips.len() == 0 {
                    return Err(
                        fallback_response(
                            to_string("Metadata unavailable, using fallback"),
                            &song_id,
                            &page_metadata,
                            pages,
                            logs,
                        ),
                    );
                }
                match find_matching_clip(clips.as_slice(), song_id.as_str()) {
                    Some(found) => {
                        let mut l2 = chars_of("metadata match page=");
                        append_chars(&mut l2, page_digits.as_slice());
                        append_str(&mut l2, " id=");
                        append_str(&mut l2, song_id.as_str());
                        let ghost lb = strings_view(logs@);
                        push_text(&mut logs, &l2);
                        push_lit(&mut logs, "metadata source result: feed API found");
                        assert(strings_view(logs@) =~= lb + seq![l2@, "metadata source result: feed API found"@]);
                        proof {
                            crate::metadata::lemma_first_with_id(
                                metadata_views(clips@),
                                song_id@,
                                0,
                            );
                        }
                        let base = unwrap_or_default(&page_metadata);
                        let merged = merge_metadata(base, Some(found));
                        return Err(
                            MetadataFetchResponse {
                                success: true,
                                status: to_string("Metadata found"),
                                song_id: Some(song_id),
                                metadata: Some(merged),
                                pages_checked: pages,
                                logs,
                            },
                        );
                    },
                    None => {},
                }
                if pages < max_pages {
                    return Ok(
                        FeedPending {
                            song_id,
                            logs,
                            page_metadata,
                            page: pages,
                            max_pages,
                            authorization,
                            browser_token,
                            device_id,
                        },
                    );
                }
                let mut l3 = chars_of("metadata match not found within ");
                append_chars(&mut l3, decimal_chars(max_pages as usize).as_slice());
                append_str(&mut l3, " pages");
                let ghost lc = strings_view(logs@);
                push_text(&mut logs, &l3);
                push_lit(&mut logs, "metadata source result: feed API no match");
                assert(strings_view(logs@) =~= lc + seq![l3@, "metadata source result: feed API no match"@]);
                return Err(
                    fallback_response(
                        to_string("Metadata unavailable, using fallback"),
                        &song_id,
                        &page_metadata,
                        max_pages,
                        logs,
                    ),
                );
            },
        };
        let mut status = chars_of("Metadata fetch failed for ");
        append_str(&mut status, url_text.as_str());
        append_str(&mut status, ": invalid JSON: ");
        append_str(&mut status, text.as_str());
        push_text(&mut logs, &status);
        Err(
            MetadataFetchResponse {
                success: false,
                status: string_from_chars(status.as_slice()),
                song_id: Some(song_id),
                metadata: None,
                pages_checked: pages,
                logs,
            },
        )
    }
}

// ---------------------------------------------------------------------
// What the logs reveal
// ---------------------------------------------------------------------

proof fn lemma_mask_empty_iff_blank(v: Seq<char>)
    ensures
        masked_secret(v).len() == 0 <==> is_blank(v),
{
    reveal_strlit("***");
    reveal_strlit("...");
    reveal_strlit(" ");
    crate::text::lemma_trim_is_subrange(v);
}

/// Stored credentials reach the logs of the song page step only in masked
/// form: settings whose credentials mask alike enable the feed alike and
/// log the same lines.
pub proof fn law_page_logs_show_credentials_masked(
    s1: AppSettings,
    s2: AppSettings,
    suno_url: Seq<char>,
    song_id: Seq<char>,
    result: Result<String, FetchFailure>,
)
    requires
        masked_secret(s1.suno_authorization@) == masked_secret(s2.suno_authorization@),
        masked_secret(s1.suno_browser_token@) == masked_secret(s2.suno_browser_token@),
        masked_secret(s1.suno_device_id@) == masked_secret(s2.suno_device_id@),
    ensures
        api_enabled(s1) == api_enabled(s2),
        credential_masks(s1) == credential_masks(s2),
        logs_after_page(
            start_logs(suno_url, song_id),
            suno_url,
            song_id,
            api_enabled(s1),
            credential_masks(s1),
            result,
        ) == logs_after_page(
            start_logs(suno_url, song_id),
            suno_url,
            song_id,
            api_enabled(s2),
            credential_masks(s2),
            result,
        ),
{
    lemma_mask_empty_iff_blank(s1.suno_authorization@);
    lemma_mask_empty_iff_blank(s2.suno_authorization@);
    lemma_mask_empty_iff_blank(s1.suno_browser_token@);
    lemma_mask_empty_iff_blank(s2.suno_browser_token@);
    lemma_mask_empty_iff_blank(s1.suno_device_id@);
    lemma_mask_empty_iff_blank(s2.suno_device_id@);
}

/// The feed steps never log the credentials: two fetches that agree on
/// their logs, song, page, page metadata and page limit log the same lines
/// for the same feed page, and go on in states that agree again.
pub proof fn law_feed_logs_ignore_credentials(
    p1: FeedPending,
    p2: FeedPending,
    value: Result<crate::json::JsonValue, Result<DownloadError, Seq<char>>>,
    r1: Result<FeedPending, MetadataFetchResponse>,
    r2: Result<FeedPending, MetadataFetchResponse>,
)
    requires
        p1.logs() == p2.logs(),
        p1.song_id() == p2.song_id(),
        p1.page() == p2.page(),
        p1.page_found() == p2.page_found(),
        p1.max_pages() == p2.max_pages(),
        feed_step(p1, value, r1),
        feed_step(p2, value, r2),
    ensures
        r1 is Ok <==> r2 is Ok,
        r1 matches Err(a) ==> r2 matches Err(b) && strings_view(a.logs@) == strings_view(b.logs@),
        r1 matches Ok(a) ==> r2 matches Ok(b) && a.logs() == b.logs() && a.song_id() == b.song_id()
            && a.page() == b.page() && a.page_found() == b.page_found() && a.max_pages()
            == b.max_pages(),
{
}

/// When the feed holds the song, the answer is a success whose metadata
/// keeps every field the song page supplied and takes from the feed's clip
/// only the fields the page lacks; it counts the current page as checked.
pub proof fn law_feed_match_keeps_page_fields(
    pending: FeedPending,
    v: crate::json::JsonValue,
    res: Result<FeedPending, MetadataFetchResponse>,
)
    requires
        feed_step(pending, Ok(v), res),
        first_with_id(crate::metadata::feed_clip_views(v), pending.song_id(), 0) is Some,
    ensures
        ({
            let i = first_with_id(crate::metadata::feed_clip_views(v), pending.song_id(), 0)->0;
            let clip = crate::metadata::feed_clip_views(v)[i as int];
            let page = fallback(pending.page_found());
            &&& res matches Err(r) && r.success && r.pages_checked == (pending.page() + 1) as u32
                && crate::text::opt_view(r.song_id) == Some(pending.song_id())
            &&& res matches Err(r) && opt_metadata_view(r.metadata) matches Some(m) && {
                &&& m.id == (if page.id is Some { page.id } else { clip.id })
                &&& m.title == (if page.title is Some { page.title } else { clip.title })
                &&& m.display_name == (if page.display_name is Some {
                    page.display_name
                } else {
                    clip.display_name
                })
                &&& m.created_at == (if page.created_at is Some {
                    page.created_at
                } else {
                    clip.created_at
                })
                &&& m.audio_url == (if page.audio_url is Some {
                    page.audio_url
                } else {
                    clip.audio_url
                })
                &&& m.video_url == (if page.video_url is Some {
                    page.video_url
                } else {
                    clip.video_url
                })
                &&& m.image_url == (if page.image_url is Some {
                    page.image_url
                } else {
                    clip.image_url
                })
                &&& m.image_large_url == (if page.image_large_url is Some {
                    page.image_large_url
                } else {
                    clip.image_large_url
                })
                &&& m.prompt == (if page.prompt is Some { page.prompt } else { clip.prompt })
                &&& m.lyrics == (if page.lyrics is Some { page.lyrics } else { clip.lyrics })
                &&& m.style == (if page.style is Some { page.style } else { clip.style })
            }
        }),
{
    crate::metadata::lemma_first_with_id(
        crate::metadata::feed_clip_views(v),
        pending.song_id(),
        0,
    );
}

} // verus!
