use suno_mv::clip::{
    build_mv_args, build_visualizer_graph, decode_data_url, extract_clip_id, extract_id, find_url, mv_cover, mv_outcome,
    normalize_clip, plan_mv, spawn_failed_text, visualizer_filter, ClipFetch, ClipFetchStep,
    ClipMetadata, ClipResponse, CoverSource,
};
use suno_mv::fetch::{
    begin_metadata_fetch, describe_download_error, describe_warm_up_failure, DownloadError,
    FetchFailure,
};
use suno_mv::generate::{
    decode_image_data_url, failed_generate_response, generate_response, plan_generation,
    requested_dir,
};
use suno_mv::json::JsonValue;
use suno_mv::settings::{AppSettings, GenerateRequest};

const SONG: &str = "https://suno.com/song/123e4567-e89b-12d3-a456-426614174000";
const ID: &str = "123e4567-e89b-12d3-a456-426614174000";

fn request() -> GenerateRequest {
    GenerateRequest {
        url: SONG.to_string(),
        base64: None,
        resolution: None,
        visualizer: None,
        output_dir: None,
        ffmpeg_auto_detect: None,
        ffmpeg_path: None,
        encoder_preset: None,
        quality: None,
        audio_url: None,
        metadata_image_url: None,
        output_filename: None,
    }
}

// ---------------------------------------------------------------------
// Rendering from the settings window
// ---------------------------------------------------------------------

#[test]
fn plans_a_render_with_defaults() {
    let plan = plan_generation(&request(), &AppSettings::default()).expect("a plan");
    assert_eq!(plan.id, ID);
    assert_eq!(plan.resolution, "1280x720");
    assert_eq!(plan.visualizer, "none");
    assert_eq!(plan.encoder_preset, "cpu_x264");
    assert_eq!(plan.quality, "standard");
    assert!(plan.ffmpeg_auto_detect);
    assert_eq!(plan.output_dir, None);
    assert_eq!(plan.filename, ID);
    assert_eq!(plan.mp3_url, format!("https://cdn1.suno.ai/{ID}.mp3"));
    assert_eq!(plan.cover_url, format!("https://cdn2.suno.ai/image_large_{ID}.jpeg"));
    assert_eq!(plan.cover_data, None);
    let (mp3, cover, video) = plan.file_names();
    assert_eq!(mp3, format!("{ID}.mp3"));
    assert_eq!(cover, format!("{ID}.jpeg"));
    assert_eq!(video, format!("{ID}.mp4"));
    let settings = plan.ffmpeg_settings("/out");
    assert_eq!(settings.save_folder, "/out");
    assert_eq!(settings.suno_max_pages, 100);
}

#[test]
fn plans_a_render_from_the_request() {
    let saved = AppSettings {
        encoder_preset: "amd_amf".to_string(),
        ffmpeg_auto_detect: false,
        ffmpeg_path: "C:\\ffmpeg.exe".to_string(),
        ..AppSettings::default()
    };
    let req = GenerateRequest {
        resolution: Some("1920x1080".to_string()),
        visualizer: Some("spectrum".to_string()),
        quality: Some("high".to_string()),
        output_dir: Some("  ".to_string()),
        output_filename: Some("My: Song?".to_string()),
        audio_url: Some("https://example.test/a.mp3".to_string()),
        metadata_image_url: Some("https://example.test/i.jpeg".to_string()),
        ..request()
    };
    let plan = plan_generation(&req, &saved).expect("a plan");
    assert_eq!(plan.encoder_preset, "amd_amf");
    assert_eq!(plan.quality, "high");
    assert!(!plan.ffmpeg_auto_detect);
    assert_eq!(plan.ffmpeg_path, "C:\\ffmpeg.exe");
    assert_eq!(plan.output_dir, None);
    assert_eq!(plan.filename, "My_ Song_");
    assert_eq!(plan.mp3_url, "https://example.test/a.mp3");
    assert_eq!(plan.cover_url, "https://example.test/i.jpeg");

    let with_data = GenerateRequest {
        base64: Some("data:image/png;base64,aGk=".to_string()),
        output_dir: Some("/videos".to_string()),
        ..req
    };
    let plan = plan_generation(&with_data, &saved).expect("a plan");
    assert_eq!(plan.cover_url, "data:image/png;base64,aGk=");
    assert_eq!(plan.cover_data, Some("data:image/png;base64,aGk=".to_string()));
    assert_eq!(plan.output_dir, Some("/videos".to_string()));
}

#[test]
fn refuses_bad_urls_and_options() {
    let bad = GenerateRequest {
        url: "https://suno.com/".to_string(),
        ..request()
    };
    assert_eq!(
        plan_generation(&bad, &AppSettings::default()).err(),
        Some("Suno曲のURLが無効です".to_string())
    );
    let bad = GenerateRequest {
        resolution: Some("640x480".to_string()),
        visualizer: Some("bars".to_string()),
        ..request()
    };
    assert_eq!(
        plan_generation(&bad, &AppSettings::default()).err(),
        Some(
            "Invalid resolution: 640x480. Allowed values: 1280x720, 1920x1080"
                .to_string()
        )
    );
    let bad = GenerateRequest {
        visualizer: Some("bars".to_string()),
        ..request()
    };
    assert_eq!(
        plan_generation(&bad, &AppSettings::default()).err(),
        Some("Invalid visualizer: bars. Allowed values: none, spectrum, showspectrum".to_string())
    );
    let saved = AppSettings {
        quality: "ultra".to_string(),
        ..AppSettings::default()
    };
    assert_eq!(
        plan_generation(&request(), &saved).err(),
        Some("Invalid quality: ultra. Allowed values: standard, high".to_string())
    );
    let bad = GenerateRequest {
        encoder_preset: Some("nvenc".to_string()),
        ..request()
    };
    assert_eq!(
        plan_generation(&bad, &AppSettings::default()).err(),
        Some("Invalid encoder preset: nvenc. Allowed values: cpu_x264, amd_amf".to_string())
    );
}

#[test]
fn decodes_image_data_urls() {
    assert_eq!(
        decode_image_data_url("data:image/png;base64,aGk="),
        Ok(b"hi".to_vec())
    );
    assert_eq!(
        decode_image_data_url("data:text/plain;base64,aGk="),
        Err("画像データがありません".to_string())
    );
    assert_eq!(
        decode_image_data_url("data:image/png;base64"),
        Err("画像データがありません".to_string())
    );
    assert!(decode_image_data_url("data:image/png;base64,@@").is_err());
    assert_eq!(decode_data_url("anything,aGk="), Ok(b"hi".to_vec()));
    assert_eq!(
        decode_data_url("no comma"),
        Err("画像Data URLが不正です".to_string())
    );
}

#[test]
fn answers_a_render() {
    let ok = generate_response(Ok(("out".to_string(), "log".to_string())), "/v/x.mp4");
    assert!(ok.success);
    assert_eq!(ok.stdout, "out");
    assert_eq!(ok.stderr, "log");
    assert_eq!(ok.output_path, Some("/v/x.mp4".to_string()));
    let failed = generate_response(Err("boom".to_string()), "/v/x.mp4");
    assert_eq!(failed, failed_generate_response("boom".to_string()));
    assert!(!failed.success);
    assert_eq!(failed.stdout, "");
    assert_eq!(failed.output_path, None);
    assert_eq!(requested_dir(&Some(" \t".to_string())), None);
    assert_eq!(requested_dir(&Some("/o".to_string())), Some("/o".to_string()));
    assert_eq!(requested_dir(&None), None);
}

// ---------------------------------------------------------------------
// Fetching metadata
// ---------------------------------------------------------------------

fn api_settings(max_pages: u32) -> AppSettings {
    AppSettings {
        suno_authorization: " Bearer abcdefghij ".to_string(),
        suno_browser_token: "browser-token-1".to_string(),
        suno_device_id: "device-1".to_string(),
        suno_max_pages: max_pages,
        ..AppSettings::default()
    }
}

#[test]
fn metadata_fetch_reports_bad_starts() {
    let r = begin_metadata_fetch(Err("disk".to_string()), SONG).err().unwrap();
    assert!(!r.success);
    assert_eq!(r.status, "Settings load failed: disk");
    assert_eq!(r.logs, vec!["Settings load failed: disk".to_string()]);
    let r = begin_metadata_fetch(Ok(AppSettings::default()), "https://suno.com/")
        .err()
        .unwrap();
    assert_eq!(r.status, "Suno URL id could not be extracted.");
    assert_eq!(r.logs, vec!["id extraction failed".to_string()]);
    assert_eq!(r.pages_checked, 0);
}

#[test]
fn metadata_fetch_without_feed_settings_uses_the_page() {
    let start = begin_metadata_fetch(Ok(AppSettings::default()), SONG)
        .ok()
        .unwrap();
    assert_eq!(start.page_url(), SONG);
    let html = r#"<meta property="og:title" content="Page song">"#.to_string();
    let r = start.on_page_read(Ok(html)).err().unwrap();
    assert!(r.success);
    assert_eq!(r.status, "Metadata found");
    assert_eq!(r.song_id, Some(ID.to_string()));
    assert_eq!(
        r.metadata.unwrap().title,
        Some("Page song".to_string())
    );
    assert_eq!(
        r.logs,
        vec![
            format!("id extracted: {ID}"),
            format!("warm-up Suno page started: {SONG}"),
            "warm-up Suno page succeeded".to_string(),
            "metadata source attempted: page embedded data".to_string(),
            "metadata source result: page found".to_string(),
            "metadata selected fields: title yes, lyrics no, prompt no, style no".to_string(),
            "metadata source attempted: feed API".to_string(),
            "metadata source result: feed API skipped because settings missing".to_string(),
        ]
    );

    let start = begin_metadata_fetch(Ok(AppSettings::default()), SONG)
        .ok()
        .unwrap();
    let r = start
        .on_page_read(Err(FetchFailure::Request(DownloadError::Status {
            code: 403,
            status_text: "Forbidden".to_string(),
        })))
        .err()
        .unwrap();
    assert!(!r.success);
    assert_eq!(r.status, "Metadata unavailable, using fallback");
    assert_eq!(r.metadata, None);
    assert_eq!(
        r.logs[2],
        format!("warm-up Suno page failed: Warm-up Suno page request failed for {SONG}: HTTP 403 Forbidden")
    );
}

fn feed_page(clips: &str) -> String {
    format!("{{\"clips\": [{clips}]}}")
}

#[test]
fn metadata_fetch_pages_through_the_feed() {
    let start = begin_metadata_fetch(Ok(api_settings(3)), SONG).ok().unwrap();
    let feed = start.on_page_read(Ok("<p>no data</p>".to_string())).ok().unwrap();
    let first = feed.request();
    assert_eq!(first.url, "https://studio-api-prod.suno.com/api/feed/?page=0");
    assert_eq!(
        first.headers,
        vec![
            ("authorization".to_string(), "Bearer abcdefghij".to_string()),
            ("browser-token".to_string(), "browser-token-1".to_string()),
            ("device-id".to_string(), "device-1".to_string()),
            ("accept".to_string(), "*/*".to_string()),
            ("content-type".to_string(), "application/json".to_string()),
        ]
    );
    let feed = feed
        .on_feed_page(Ok(feed_page(r#"{"id":"other","title":"No"}"#)))
        .ok()
        .unwrap();
    assert_eq!(
        feed.request().url,
        "https://studio-api-prod.suno.com/api/feed/?page=1"
    );
    let body = feed_page(&format!(
        r#"{{"id":"x"}},{{"id":"{ID}","title":"Found","audio_url":"https://a/x.mp3"}}"#
    ));
    let r = feed.on_feed_page(Ok(body)).err().unwrap();
    assert!(r.success);
    assert_eq!(r.status, "Metadata found");
    assert_eq!(r.pages_checked, 2);
    let m = r.metadata.unwrap();
    assert_eq!(m.id, Some(ID.to_string()));
    assert_eq!(m.title, Some("Found".to_string()));
    assert_eq!(m.audio_url, Some("https://a/x.mp3".to_string()));
    assert!(r.logs.contains(&"authorization Bearer abc...hij".to_string()));
    assert!(r.logs.contains(&"metadata page=1 clips=2".to_string()));
    assert!(r.logs.contains(&format!("metadata match page=1 id={ID}")));
    assert!(!r.logs.iter().any(|l| l.contains("abcdefghij")));
}

#[test]
fn metadata_fetch_stops_at_the_page_limit_and_on_errors() {
    let start = begin_metadata_fetch(Ok(api_settings(1)), SONG).ok().unwrap();
    let feed = start.on_page_read(Ok(String::new())).ok().unwrap();
    let r = feed
        .on_feed_page(Ok(feed_page(r#"{"id":"other"}"#)))
        .err()
        .unwrap();
    assert!(!r.success);
    assert_eq!(r.pages_checked, 1);
    assert_eq!(r.status, "Metadata unavailable, using fallback");
    assert_eq!(
        &r.logs[r.logs.len() - 2..],
        &[
            "metadata match not found within 1 pages".to_string(),
            "metadata source result: feed API no match".to_string()
        ]
    );

    let start = begin_metadata_fetch(Ok(api_settings(5)), SONG).ok().unwrap();
    let feed = start.on_page_read(Ok(String::new())).ok().unwrap();
    let r = feed.on_feed_page(Ok("[]".to_string())).err().unwrap();
    assert_eq!(r.status, "Metadata unavailable, using fallback");
    assert_eq!(r.pages_checked, 1);

    let start = begin_metadata_fetch(Ok(api_settings(5)), SONG).ok().unwrap();
    let feed = start.on_page_read(Ok(String::new())).ok().unwrap();
    let r = feed.on_feed_page(Ok("{".to_string())).err().unwrap();
    assert!(!r.success);
    assert!(r.status.starts_with(
        "Metadata fetch failed for https://studio-api-prod.suno.com/api/feed/?page=0: invalid JSON: "
    ));

    let start = begin_metadata_fetch(Ok(api_settings(5)), SONG).ok().unwrap();
    let feed = start.on_page_read(Ok(String::new())).ok().unwrap();
    let r = feed
        .on_feed_page(Err(FetchFailure::Request(DownloadError::Transport(
            "timed out".to_string(),
        ))))
        .err()
        .unwrap();
    assert_eq!(
        r.status,
        "Metadata fetch failed for https://studio-api-prod.suno.com/api/feed/?page=0: timed out"
    );
    assert_eq!(r.pages_checked, 1);
}

#[test]
fn describes_failed_requests() {
    assert_eq!(
        describe_download_error(
            "Audio download",
            "https://a",
            &DownloadError::Status {
                code: 404,
                status_text: "Not Found".to_string()
            }
        ),
        "Audio download failed for https://a: HTTP 404 Not Found"
    );
    assert_eq!(
        describe_warm_up_failure("https://p", &FetchFailure::Read("reset".to_string())),
        "Warm-up Suno page read failed for https://p: reset"
    );
}

// ---------------------------------------------------------------------
// The clip workflow
// ---------------------------------------------------------------------

const CLIP: &str = "0123456789abcdef0123";

#[test]
fn extracts_clip_ids() {
    assert_eq!(
        extract_id("https://suno.com/song/0123456789ABCDEF0123-x?x=1"),
        Some("0123456789ABCDEF0123-".to_string())
    );
    assert_eq!(
        extract_id(&format!("https://app.suno.ai/Clip/{CLIP}")),
        Some(CLIP.to_string())
    );
    assert_eq!(extract_id("https://suno.com/song/0123456789"), None);
    assert_eq!(
        extract_clip_id("nothing"),
        Err("Suno URLからclip_idを抽出できません".to_string())
    );
}

fn obj(entries: Vec<(&str, JsonValue)>) -> JsonValue {
    let mut es: Vec<(String, JsonValue)> = entries
        .into_iter()
        .map(|(k, v)| (k.to_string(), v))
        .collect();
    es.sort_by(|a, b| a.0.cmp(&b.0));
    JsonValue::Object(es)
}

fn s(v: &str) -> JsonValue {
    JsonValue::String(v.to_string())
}

#[test]
fn normalizes_clips() {
    let item = obj(vec![
        ("title", s("T")),
        ("audioUrl", s("https://a.mp3")),
        ("metadata", obj(vec![("video_url", s("https://v.mp4"))])),
    ]);
    let clip = normalize_clip(CLIP, JsonValue::Array(vec![item])).expect("a clip");
    assert_eq!(clip.clip_id, CLIP);
    assert_eq!(clip.title, Some("T".to_string()));
    assert_eq!(clip.audio_url, Some("https://a.mp3".to_string()));
    assert_eq!(clip.video_url, Some("https://v.mp4".to_string()));
    assert_eq!(
        clip.image_url,
        Some(format!("https://cdn2.suno.ai/image_large_{CLIP}.jpeg"))
    );
    assert!(normalize_clip(CLIP, JsonValue::Array(Vec::new())).is_none());
    let wrapped = obj(vec![(
        "clips",
        JsonValue::Array(vec![obj(vec![("image_large_url", s("https://i.jpeg"))])]),
    )]);
    let clip = normalize_clip(CLIP, wrapped).expect("a clip");
    assert_eq!(clip.image_url, Some("https://i.jpeg".to_string()));
    let single = obj(vec![("audio_url", s("https://b.mp3"))]);
    assert_eq!(
        normalize_clip(CLIP, single).expect("a clip").audio_url,
        Some("https://b.mp3".to_string())
    );
    assert_eq!(
        find_url(&obj(vec![("x", s("y"))]), &["audio_url"]),
        None
    );
}

#[test]
fn fetches_a_clip_from_the_first_endpoint_that_knows_it() {
    let fetch = ClipFetch::start(CLIP, Some("  "), Some("env=1".to_string()));
    let req = fetch.request();
    assert_eq!(
        req.url,
        format!("https://studio-api.suno.ai/api/feed/?ids={CLIP}")
    );
    assert_eq!(
        req.headers,
        vec![
            ("Accept".to_string(), "application/json".to_string()),
            ("Cookie".to_string(), "env=1".to_string())
        ]
    );
    let fetch = match fetch.on_response(ClipResponse::Unsent("dns".to_string())) {
        ClipFetchStep::Next(f) => f,
        _ => panic!("the next endpoint"),
    };
    assert_eq!(
        fetch.request().url,
        format!("https://studio-api.suno.ai/api/feed/v2?ids={CLIP}")
    );
    let fetch = match fetch.on_response(ClipResponse::Answered {
        success: true,
        status: "200 OK".to_string(),
        body: "not json".to_string(),
    }) {
        ClipFetchStep::Next(f) => f,
        _ => panic!("the next endpoint"),
    };
    match fetch.on_response(ClipResponse::Answered {
        success: true,
        status: "200 OK".to_string(),
        body: r#"[{"title":"Hello","audio_url":"https://a.mp3"}]"#.to_string(),
    }) {
        ClipFetchStep::Found(clip) => {
            assert_eq!(clip.title, Some("Hello".to_string()));
            assert_eq!(clip.audio_url, Some("https://a.mp3".to_string()));
        }
        _ => panic!("a clip"),
    }
}

#[test]
fn clip_fetch_fails_with_the_last_answer() {
    let mut fetch = ClipFetch::start(CLIP, Some("c=2"), None);
    assert_eq!(
        fetch.request().headers[1],
        ("Cookie".to_string(), "c=2".to_string())
    );
    for _ in 0..3 {
        fetch = match fetch.on_response(ClipResponse::Answered {
            success: false,
            status: "401 Unauthorized".to_string(),
            body: "no".to_string(),
        }) {
            ClipFetchStep::Next(f) => f,
            _ => panic!("the next endpoint"),
        };
    }
    assert_eq!(
        fetch.request().url,
        format!("https://api.suno.ai/api/clip/{CLIP}")
    );
    match fetch.on_response(ClipResponse::Answered {
        success: false,
        status: "401 Unauthorized".to_string(),
        body: "no".to_string(),
    }) {
        ClipFetchStep::Failed(m) => assert_eq!(
            m,
            format!("メタ情報取得に失敗しました。SUNO_COOKIEを確認してください。最後の応答: https://api.suno.ai/api/clip/{CLIP}: 401 Unauthorized no")
        ),
        _ => panic!("a failure"),
    }
    let fetch = ClipFetch::start(CLIP, None, None);
    assert_eq!(fetch.request().headers.len(), 1);
}

#[test]
fn builds_visualizer_filters() {
    assert_eq!(
        visualizer_filter("640x360", "waveform"),
        "[0:v]scale=640x360:force_original_aspect_ratio=increase,crop=640x360,setsar=1[bg];[1:a]showwaves=s=640x360:mode=line:colors=White@0.8[vis];[bg][vis]overlay=format=auto[v]"
    );
    assert_eq!(
        visualizer_filter("big;rm", "spectrum"),
        "[0:v]scale=1280x720:force_original_aspect_ratio=increase,crop=1280x720,setsar=1[bg];[1:a]showspectrum=s=1280x720:mode=combined:color=intensity[vis];[bg][vis]blend=all_mode=screen:all_opacity=0.65[v]"
    );
    assert_eq!(
        build_visualizer_graph("big;rm", "spectrum"),
        "[0:v]scale=big;rm:force_original_aspect_ratio=increase,crop=big;rm,setsar=1[bg];[1:a]showspectrum=s=big;rm:mode=combined:color=intensity[vis];[bg][vis]blend=all_mode=screen:all_opacity=0.65[v]"
    );
}

fn clip_with(audio: Option<&str>, image: Option<&str>) -> ClipMetadata {
    ClipMetadata {
        clip_id: CLIP.to_string(),
        title: None,
        audio_url: audio.map(|a| a.to_string()),
        image_url: image.map(|a| a.to_string()),
        video_url: None,
        raw: JsonValue::Null,
    }
}

#[test]
fn plans_a_clip_render() {
    assert_eq!(
        plan_mv(&clip_with(None, None), "1280x720", "waveform").err(),
        Some("audio_urlを取得できませんでした".to_string())
    );
    let plan = plan_mv(&clip_with(Some("https://a.mp3"), Some("https://i")), "1280x720", "x")
        .expect("a plan");
    assert_eq!(plan.audio_url, "https://a.mp3");
    assert_eq!(plan.audio_file, format!("{CLIP}.mp3"));
    assert_eq!(plan.cover_file, format!("{CLIP}_cover"));
    assert_eq!(plan.output_file, format!("{CLIP}.mp4"));
    assert_eq!(plan.log_line, format!("clip_id: {CLIP}"));
    assert_eq!(plan.filter, visualizer_filter("1280x720", "x"));
    match mv_cover(None, plan.image_url.clone()) {
        Ok(CoverSource::Download(u)) => assert_eq!(u, "https://i"),
        _ => panic!("a download"),
    }
    match mv_cover(Some("data:,x".to_string()), None) {
        Ok(CoverSource::DataUrl(d)) => assert_eq!(d, "data:,x"),
        _ => panic!("a data URL"),
    }
    assert!(matches!(
        mv_cover(None, None),
        Err(m) if m == "image_urlを取得できませんでした"
    ));
    let args = build_mv_args("/o/c_cover", "/o/c.mp3", "F", "/o/c.mp4");
    assert_eq!(args.len(), 23);
    assert_eq!(&args[0..5], &["-y", "-loop", "1", "-i", "/o/c_cover"]);
    assert_eq!(args[8], "F");
    assert_eq!(args[22], "/o/c.mp4");
    assert_eq!(spawn_failed_text("denied"), "ffmpeg起動失敗: denied");
    assert_eq!(mv_outcome(true, "exit status: 0", "/o/c.mp4"), Ok("/o/c.mp4".to_string()));
    assert_eq!(
        mv_outcome(false, "exit status: 1", "/o/c.mp4"),
        Err("ffmpeg failed: exit status: 1".to_string())
    );
}

#[test]
fn render_options_follow_the_readme() {
    let square = GenerateRequest {
        resolution: Some("1080x1080".to_string()),
        ..request()
    };
    assert!(plan_generation(&square, &AppSettings::default())
        .err()
        .unwrap()
        .starts_with("Invalid resolution"));
    let spectrum = GenerateRequest {
        visualizer: Some("showspectrum".to_string()),
        ..request()
    };
    let plan = plan_generation(&spectrum, &AppSettings::default()).expect("a plan");
    assert_eq!(plan.visualizer, "showspectrum");
}

