use std::collections::{BTreeMap, BTreeSet};

use suno_mv::ffmpeg::{
    build_ffmpeg_args, build_video_filter_complex, detected_ffmpeg_path, ffmpeg_candidates,
    FfmpegAttempts, FfmpegCandidate, LaunchOutcome,
};
use suno_mv::html::{
    extract_attr, extract_meta_content, extract_page_metadata_from_html, extract_title,
    html_unescape, script_contents,
};
use suno_mv::json::JsonValue;
use suno_mv::metadata::{
    clips_from_feed_value, find_matching_clip, has_any_metadata, merge_metadata,
    metadata_from_embedded_json, metadata_from_value, select_audio_source, select_cover_source,
    SunoMetadata,
};
use suno_mv::names::{extract_suno_id, mask_secret, mask_token, safe_filename, safe_id, yes_no};
use suno_mv::settings::{
    allowed_encoder_presets, allowed_qualities, allowed_resolutions, allowed_visualizers,
    check_settings_for_save, ensure_allowed, has_suno_api_settings, normalize_loaded_settings,
    AppSettings,
};

fn chars(s: &str) -> Vec<char> {
    s.chars().collect()
}

fn text(v: Vec<char>) -> String {
    v.into_iter().collect()
}

fn attr(tag: &str, name: &str) -> Option<String> {
    extract_attr(&chars(tag), name).map(text)
}

fn unescape(value: &str) -> String {
    text(html_unescape(&chars(value)))
}

fn scripts_of(html: &str) -> Vec<String> {
    script_contents(&chars(html)).into_iter().map(text).collect()
}

// ---------------------------------------------------------------------
// The page inspection report used while studying Suno's pages
// ---------------------------------------------------------------------

#[derive(Debug)]
struct InspectMetaTag {
    name_or_property: String,
    content: String,
}

#[derive(Debug)]
struct NextPayloadMatch {
    target: String,
}

#[derive(Debug)]
struct NextPayloadSummary {
    matches: Vec<NextPayloadMatch>,
}

#[derive(Debug)]
struct SunoMetadataInspectionReport {
    http_status: u16,
    has_next_data: bool,
    has_next_f_payload: bool,
    json_script_count: usize,
    next_payload_count: usize,
    next_payloads: Vec<NextPayloadSummary>,
    candidate_values: BTreeMap<String, Vec<String>>,
}

fn sanitize_inspection_text(value: &str) -> String {
    let mut sanitized = value.to_string();
    for marker in [
        "authorization",
        "browser-token",
        "device-id",
        "cookie",
        "set-cookie",
    ] {
        let lower = sanitized.to_lowercase();
        let mut search_start = 0;
        while let Some(found) = lower[search_start..].find(marker) {
            let start = search_start + found;
            let value_start = sanitized[start..]
                .find([':', '=', '"'])
                .map(|offset| start + offset + 1)
                .unwrap_or(start + marker.len());
            let value_end = sanitized[value_start..]
                .find([',', ';', '\n', '\r', '"'])
                .map(|offset| value_start + offset)
                .unwrap_or_else(|| sanitized.len().min(value_start + 80));
            sanitized.replace_range(value_start..value_end, " ***");
            search_start = (value_start + 4).min(sanitized.len());
        }
    }
    sanitized.chars().take(500).collect()
}

fn inspect_meta_tags(html: &str) -> Vec<InspectMetaTag> {
    let mut tags = Vec::new();
    let mut rest = html;
    while let Some(start) = rest.find("<meta") {
        rest = &rest[start..];
        let Some(end) = rest.find('>') else {
            break;
        };
        let tag = &rest[..end + 1];
        let name_or_property = attr(tag, "property")
            .or_else(|| attr(tag, "name"))
            .map(|v| unescape(&v));
        let content = attr(tag, "content").map(|v| unescape(&v));
        if let (Some(name_or_property), Some(content)) = (name_or_property, content) {
            tags.push(InspectMetaTag {
                name_or_property: sanitize_inspection_text(&name_or_property),
                content: sanitize_inspection_text(&content),
            });
        }
        rest = &rest[end + 1..];
    }
    tags
}

fn json_looking_script_values(html: &str) -> Vec<serde_json::Value> {
    scripts_of(html)
        .into_iter()
        .filter_map(|script| {
            let trimmed = script.trim();
            if trimmed.starts_with('{') || trimmed.starts_with('[') {
                serde_json::from_str::<serde_json::Value>(trimmed).ok()
            } else {
                None
            }
        })
        .collect()
}

fn extract_next_f_payloads(html: &str) -> Vec<String> {
    let marker = "self.__next_f.push(";
    let mut payloads = Vec::new();
    let mut rest = html;
    while let Some(start) = rest.find(marker) {
        let payload_start = start + marker.len();
        let cs: Vec<(usize, char)> = rest[payload_start..].char_indices().collect();
        let mut depth = 1usize;
        let mut in_string: Option<char> = None;
        let mut escaped = false;
        let mut end_offset = None;
        for (offset, ch) in cs {
            if let Some(quote) = in_string {
                if escaped {
                    escaped = false;
                } else if ch == '\\' {
                    escaped = true;
                } else if ch == quote {
                    in_string = None;
                }
                continue;
            }
            match ch {
                '"' | '\'' | '`' => in_string = Some(ch),
                '(' => depth += 1,
                ')' => {
                    depth -= 1;
                    if depth == 0 {
                        end_offset = Some(offset);
                        break;
                    }
                }
                _ => {}
            }
        }
        if let Some(end_offset) = end_offset {
            payloads.push(unescape(&rest[payload_start..payload_start + end_offset]));
            rest = &rest[payload_start + end_offset + 1..];
        } else {
            break;
        }
    }
    payloads
}

fn snippet_around(value: &str, needle: &str) -> Option<String> {
    let lower = value.to_lowercase();
    let needle = needle.to_lowercase();
    let start = lower.find(&needle)?;
    let snippet_start = start.saturating_sub(120);
    let snippet_end = (start + needle.len() + 180).min(value.len());
    Some(sanitize_inspection_text(&value[snippet_start..snippet_end]))
}

fn find_balanced_json_end(value: &str, open: char, close: char) -> Option<usize> {
    let mut depth = 0usize;
    let mut in_string = false;
    let mut escaped = false;
    for (offset, ch) in value.char_indices() {
        if in_string {
            if escaped {
                escaped = false;
            } else if ch == '\\' {
                escaped = true;
            } else if ch == '"' {
                in_string = false;
            }
            continue;
        }
        match ch {
            '"' => in_string = true,
            ch if ch == open => depth += 1,
            ch if ch == close => {
                depth = depth.saturating_sub(1);
                if depth == 0 {
                    return Some(offset + ch.len_utf8());
                }
            }
            _ => {}
        }
    }
    None
}

fn json_fragments_from_json_strings(value: &serde_json::Value) -> Vec<serde_json::Value> {
    let mut values = Vec::new();
    match value {
        serde_json::Value::String(text) => {
            let trimmed = text.trim();
            if trimmed.starts_with('{') || trimmed.starts_with('[') {
                if let Ok(value) = serde_json::from_str::<serde_json::Value>(trimmed) {
                    values.push(value);
                }
            }
        }
        serde_json::Value::Array(items) => {
            for item in items {
                values.extend(json_fragments_from_json_strings(item));
            }
        }
        serde_json::Value::Object(map) => {
            for item in map.values() {
                values.extend(json_fragments_from_json_strings(item));
            }
        }
        _ => {}
    }
    values
}

fn json_fragments_from_payload(payload: &str) -> Vec<serde_json::Value> {
    let mut values = Vec::new();
    for (open, close) in [('[', ']'), ('{', '}')] {
        let mut search_start = 0;
        while let Some(relative_start) = payload[search_start..].find(open) {
            let start = search_start + relative_start;
            if let Some(end) = find_balanced_json_end(&payload[start..], open, close) {
                let fragment = &payload[start..start + end];
                if let Ok(value) = serde_json::from_str::<serde_json::Value>(fragment) {
                    values.push(value);
                }
                search_start = start + end;
            } else {
                break;
            }
        }
    }
    let nested = values
        .iter()
        .flat_map(json_fragments_from_json_strings)
        .collect::<Vec<_>>();
    values.extend(nested);
    values
}

fn collect_recursive_key_paths(
    value: &serde_json::Value,
    path: &str,
    targets: &[&str],
    keys: &mut BTreeMap<String, BTreeSet<String>>,
    values: &mut BTreeMap<String, BTreeSet<String>>,
) {
    match value {
        serde_json::Value::Object(map) => {
            for (key, child) in map {
                let child_path = if path.is_empty() {
                    key.to_string()
                } else {
                    format!("{path}.{key}")
                };
                for target in targets {
                    if key.eq_ignore_ascii_case(target) || key.to_lowercase().contains(target) {
                        keys.entry((*target).to_string())
                            .or_default()
                            .insert(child_path.clone());
                        if let Some(value) = child.as_str() {
                            if !value.trim().is_empty() {
                                values
                                    .entry((*target).to_string())
                                    .or_default()
                                    .insert(sanitize_inspection_text(value));
                            }
                        }
                    }
                }
                collect_recursive_key_paths(child, &child_path, targets, keys, values);
            }
        }
        serde_json::Value::Array(items) => {
            for (index, child) in items.iter().enumerate() {
                let child_path = format!("{path}[{index}]");
                collect_recursive_key_paths(child, &child_path, targets, keys, values);
            }
        }
        serde_json::Value::String(value) => {
            let lower = value.to_lowercase();
            for target in targets {
                if lower.contains(target) {
                    keys.entry((*target).to_string())
                        .or_default()
                        .insert(path.to_string());
                    values
                        .entry((*target).to_string())
                        .or_default()
                        .insert(sanitize_inspection_text(value));
                }
            }
        }
        _ => {}
    }
}

fn inspect_next_payloads(
    html: &str,
    targets: &[&str],
    recursive_keys: &mut BTreeMap<String, BTreeSet<String>>,
    candidate_values: &mut BTreeMap<String, BTreeSet<String>>,
) -> Vec<NextPayloadSummary> {
    extract_next_f_payloads(html)
        .into_iter()
        .enumerate()
        .map(|(index, payload)| {
            let matches = targets
                .iter()
                .filter_map(|target| {
                    snippet_around(&payload, target).map(|_| NextPayloadMatch {
                        target: (*target).to_string(),
                    })
                })
                .collect::<Vec<_>>();
            for value in &json_fragments_from_payload(&payload) {
                collect_recursive_key_paths(
                    value,
                    &format!("next_payload[{index}]"),
                    targets,
                    recursive_keys,
                    candidate_values,
                );
            }
            NextPayloadSummary { matches }
        })
        .collect()
}

fn inspect_suno_metadata_html(http_status: u16, html: &str) -> SunoMetadataInspectionReport {
    let targets = [
        "lyrics",
        "prompt",
        "style",
        "tags",
        "title",
        "audio_url",
        "image_url",
        "daf62c51",
    ];
    let json_values = json_looking_script_values(html);
    let mut recursive_keys: BTreeMap<String, BTreeSet<String>> = BTreeMap::new();
    let mut candidate_values: BTreeMap<String, BTreeSet<String>> = BTreeMap::new();
    for value in &json_values {
        collect_recursive_key_paths(
            value,
            "",
            &targets,
            &mut recursive_keys,
            &mut candidate_values,
        );
    }
    let next_payloads =
        inspect_next_payloads(html, &targets, &mut recursive_keys, &mut candidate_values);

    for meta in inspect_meta_tags(html) {
        let lower_key = meta.name_or_property.to_lowercase();
        for target in targets {
            if lower_key.contains(target)
                || (target == "image_url" && lower_key.contains("image"))
                || (target == "title" && lower_key.contains("title"))
            {
                candidate_values
                    .entry(target.to_string())
                    .or_default()
                    .insert(meta.content.clone());
                recursive_keys
                    .entry(target.to_string())
                    .or_default()
                    .insert(format!("meta:{}", meta.name_or_property));
            }
        }
    }

    let candidate_values = candidate_values
        .into_iter()
        .map(|(key, values)| (key, values.into_iter().collect()))
        .collect();

    SunoMetadataInspectionReport {
        http_status,
        has_next_data: html.contains("__NEXT_DATA__"),
        has_next_f_payload: html.contains("self.__next_f.push"),
        json_script_count: json_values.len(),
        next_payload_count: next_payloads.len(),
        next_payloads,
        candidate_values,
    }
}

// ---------------------------------------------------------------------
// Tests
// ---------------------------------------------------------------------

#[test]
fn extracts_suno_id() {
    assert_eq!(
        extract_suno_id("https://suno.com/song/123e4567-e89b-12d3-a456-426614174000"),
        Some("123e4567-e89b-12d3-a456-426614174000".to_string())
    );
    assert_eq!(
        extract_suno_id("https://suno.com/s/123e4567-e89b-12d3-a456-426614174000"),
        Some("123e4567-e89b-12d3-a456-426614174000".to_string())
    );
    assert_eq!(
        extract_suno_id("https://www.suno.com/s/123e4567-e89b-12d3-a456-426614174000?foo=bar"),
        Some("123e4567-e89b-12d3-a456-426614174000".to_string())
    );
    assert_eq!(extract_suno_id("https://suno.com/"), None);
}

#[test]
fn inspects_metadata_report_from_html_without_network() {
    let html = r#"
        <html><head>
            <meta property="og:title" content="Meta title">
            <meta property="og:image" content="https://cdn.test/image.jpeg">
            <script id="__NEXT_DATA__" type="application/json">
            {"props":{"clip":{"title":"JSON title","lyrics":"words","prompt":"make it bright","style":"pop","audio_url":"https://cdn.test/audio.mp3","image_url":"https://cdn.test/cover.jpeg","tags":["tag-a"]}}}
            </script>
            <script>self.__next_f.push(["payload"])</script>
            <script>self.__next_f.push([1,"{\"title\":\"RSC title\",\"prompt\":\"RSC prompt\",\"audio_url\":\"https://cdn.test/rsc.mp3\",\"id\":\"daf62c51\"}"])</script>
        </head></html>
    "#;

    let report = inspect_suno_metadata_html(200, html);

    assert_eq!(report.http_status, 200);
    assert!(report.has_next_data);
    assert!(report.has_next_f_payload);
    assert_eq!(report.json_script_count, 1);
    assert_eq!(report.next_payload_count, 2);
    assert!(report.next_payloads.iter().any(|payload| payload
        .matches
        .iter()
        .any(|found| found.target == "daf62c51")));
    assert!(report
        .candidate_values
        .get("lyrics")
        .is_some_and(|values| values.iter().any(|value| value == "words")));
    assert!(report
        .candidate_values
        .get("prompt")
        .is_some_and(|values| values.iter().any(|value| value == "make it bright")));
    assert!(report
        .candidate_values
        .get("style")
        .is_some_and(|values| values.iter().any(|value| value == "pop")));
}

#[test]
fn masks_sensitive_values() {
    assert_eq!(mask_secret("Bearer abcdefghij"), "Bearer abc...hij");
    assert_eq!(mask_secret("abcdefghi"), "abc...ghi");
    assert_eq!(mask_secret("abc"), "***");
    assert_eq!(mask_secret(""), "");
}

#[test]
fn detects_suno_api_settings() {
    assert!(!has_suno_api_settings(&AppSettings::default()));
    assert!(has_suno_api_settings(&AppSettings {
        suno_authorization: "Bearer token".to_string(),
        suno_browser_token: "browser".to_string(),
        suno_device_id: "device".to_string(),
        ..AppSettings::default()
    }));
}

#[test]
fn finds_matching_clip_by_id() {
    let clips = vec![
        SunoMetadata {
            id: Some("a".to_string()),
            title: Some("First".to_string()),
            ..SunoMetadata::default()
        },
        SunoMetadata {
            id: Some("b".to_string()),
            title: Some("Second".to_string()),
            ..SunoMetadata::default()
        },
    ];

    assert_eq!(
        find_matching_clip(&clips, "b").and_then(|clip| clip.title),
        Some("Second".to_string())
    );
    assert_eq!(find_matching_clip(&clips, "c"), None);
}

#[test]
fn empty_feed_result_stops_pagination_path() {
    let value = JsonValue::Array(Vec::new());
    assert!(clips_from_feed_value(&value).is_empty());
}

#[test]
fn selects_metadata_audio_when_available() {
    let metadata = SunoMetadata {
        audio_url: Some("https://example.test/audio.mp3".to_string()),
        ..SunoMetadata::default()
    };

    assert_eq!(
        select_audio_source(Some(&metadata), "https://cdn1.suno.ai/id.mp3"),
        "https://example.test/audio.mp3"
    );
    assert_eq!(
        select_audio_source(None, "https://cdn1.suno.ai/id.mp3"),
        "https://cdn1.suno.ai/id.mp3"
    );
}

#[test]
fn extracts_page_metadata_from_embedded_json() {
    let html = r#"
        <html><head>
        <script type="application/json">
        {
            "props": {
                "clip": {
                    "title": "Page title",
                    "audio_url": "https://cdn.suno.test/audio.mp3",
                    "image_large_url": "https://cdn.suno.test/large.jpeg",
                    "lyrics": "la la",
                    "style_prompt": "cinematic pop"
                }
            }
        }
        </script>
        </head></html>
    "#;

    let metadata = extract_page_metadata_from_html(html, "song-id").expect("metadata");

    assert_eq!(metadata.id, Some("song-id".to_string()));
    assert_eq!(metadata.title, Some("Page title".to_string()));
    assert_eq!(
        metadata.audio_url,
        Some("https://cdn.suno.test/audio.mp3".to_string())
    );
    assert_eq!(
        metadata.image_large_url,
        Some("https://cdn.suno.test/large.jpeg".to_string())
    );
    assert_eq!(metadata.lyrics, Some("la la".to_string()));
    assert_eq!(metadata.style, Some("cinematic pop".to_string()));
}

#[test]
fn page_metadata_has_priority_when_merged_with_feed_metadata() {
    let page = SunoMetadata {
        audio_url: Some("https://page.test/audio.mp3".to_string()),
        image_large_url: Some("https://page.test/image.jpeg".to_string()),
        ..SunoMetadata::default()
    };
    let feed = SunoMetadata {
        audio_url: Some("https://feed.test/audio.mp3".to_string()),
        image_large_url: Some("https://feed.test/image.jpeg".to_string()),
        title: Some("Feed title".to_string()),
        ..SunoMetadata::default()
    };

    let merged = merge_metadata(page, Some(feed));

    assert_eq!(
        merged.audio_url,
        Some("https://page.test/audio.mp3".to_string())
    );
    assert_eq!(
        merged.image_large_url,
        Some("https://page.test/image.jpeg".to_string())
    );
    assert_eq!(merged.title, Some("Feed title".to_string()));
}

#[test]
fn preserves_frontend_cover_priority() {
    let metadata = SunoMetadata {
        image_url: Some("https://example.test/image.jpeg".to_string()),
        image_large_url: Some("https://example.test/large.jpeg".to_string()),
        ..SunoMetadata::default()
    };

    assert_eq!(
        select_cover_source(
            Some("data:image/png;base64,abc"),
            Some(&metadata),
            "https://cdn2.suno.ai/id.jpeg"
        ),
        "data:image/png;base64,abc"
    );
    assert_eq!(
        select_cover_source(None, Some(&metadata), "https://cdn2.suno.ai/id.jpeg"),
        "https://example.test/large.jpeg"
    );
    assert_eq!(
        select_cover_source(None, None, "https://cdn2.suno.ai/id.jpeg"),
        "https://cdn2.suno.ai/id.jpeg"
    );
}

#[test]
fn validates_allowlists() {
    let resolutions = allowed_resolutions();
    let visualizers = allowed_visualizers();
    assert!(ensure_allowed("1280x720", &resolutions, "resolution").is_ok());
    assert!(ensure_allowed("640x480", &resolutions, "resolution").is_err());
    assert!(ensure_allowed("none", &visualizers, "visualizer").is_ok());
    assert!(ensure_allowed("spectrum", &visualizers, "visualizer").is_ok());
    assert!(ensure_allowed("combined", &visualizers, "visualizer").is_err());
}

fn has_pair(args: &[String], a: &str, b: &str) -> bool {
    args.windows(2).any(|pair| pair[0] == a && pair[1] == b)
}

#[test]
fn builds_ffmpeg_as_args_not_shell() {
    let args = build_ffmpeg_args(
        "/tmp/audio file.mp3",
        "/tmp/cover image.jpeg",
        "/tmp/out file.mp4",
        "1280x720",
        "none",
        "cpu_x264",
        "standard",
    );
    assert!(args.contains(&"/tmp/audio file.mp3".to_string()));
    assert!(args.contains(&"/tmp/cover image.jpeg".to_string()));
    assert!(!args.iter().any(|arg| arg.contains("showspectrum")));
    assert!(!args.iter().any(|arg| arg.contains("overlay")));
    assert!(args
        .iter()
        .any(|arg| arg.contains("[1:v]scale=trunc(iw/2)*2:trunc(ih/2)*2,format=yuv420p[v]")));
    assert!(has_pair(&args, "-map", "[v]"));
    assert!(has_pair(&args, "-map", "0:a"));
}

#[test]
fn builds_spectrum_filter_when_requested() {
    let args = build_ffmpeg_args(
        "/tmp/audio.mp3",
        "/tmp/cover.jpeg",
        "/tmp/out.mp4",
        "1280x720",
        "spectrum",
        "cpu_x264",
        "standard",
    );

    assert!(args
        .iter()
        .any(|arg| arg.contains("showspectrum=s=1280x720:mode=combined")));
    assert!(args.iter().any(|arg| arg.contains("overlay=format=auto")));
    assert!(args
        .iter()
        .any(|arg| arg.contains("scale=trunc(iw/2)*2:trunc(ih/2)*2,format=yuv420p[v]")));
}

#[test]
fn includes_path_ffmpeg_candidate() {
    let candidates = ffmpeg_candidates(&AppSettings::default(), None, None, None);
    assert!(candidates
        .iter()
        .any(|candidate| { candidate.label == "ffmpeg from PATH" && candidate.path == "ffmpeg" }));
}

#[test]
fn prefers_env_ffmpeg_candidate() {
    let settings = AppSettings {
        ffmpeg_auto_detect: false,
        ..AppSettings::default()
    };
    let candidates = ffmpeg_candidates(
        &settings,
        None,
        Some("C:\\ffmpeg\\bin\\ffmpeg.exe".to_string()),
        None,
    );

    let first = candidates.first().expect("expected ffmpeg candidates");
    assert_eq!(first.label, "SUNO_MV_FFMPEG_PATH");
    assert_eq!(first.path, "C:\\ffmpeg\\bin\\ffmpeg.exe");
}

#[test]
fn prefers_user_configured_ffmpeg_candidate() {
    let settings = AppSettings {
        ffmpeg_auto_detect: false,
        ffmpeg_path: "D:\\tools\\ffmpeg.exe".to_string(),
        ..AppSettings::default()
    };

    let candidates = ffmpeg_candidates(&settings, None, None, None);

    let first = candidates.first().expect("expected ffmpeg candidates");
    assert_eq!(first.label, "user-configured FFmpeg path");
    assert_eq!(first.path, "D:\\tools\\ffmpeg.exe");
}

#[test]
fn builds_amd_amf_args_without_cpu_fallback() {
    let args = build_ffmpeg_args(
        "/tmp/audio.mp3",
        "/tmp/cover.jpeg",
        "/tmp/out.mp4",
        "1280x720",
        "none",
        "amd_amf",
        "standard",
    );

    assert!(has_pair(&args, "-c:v", "h264_amf"));
    assert!(args
        .iter()
        .any(|arg| arg.contains("scale=trunc(iw/2)*2:trunc(ih/2)*2,format=nv12[v]")));
    assert!(!args.iter().any(|arg| arg == "libx264"));
}

#[test]
fn builds_amd_amf_high_with_transcoding_usage() {
    let args = build_ffmpeg_args(
        "/tmp/audio.mp3",
        "/tmp/cover.jpeg",
        "/tmp/out.mp4",
        "1280x720",
        "none",
        "amd_amf",
        "high",
    );

    assert!(has_pair(&args, "-usage", "transcoding"));
    assert!(has_pair(&args, "-quality", "quality"));
    assert!(!has_pair(&args, "-usage", "quality"));
}

// ---------------------------------------------------------------------
// More cases
// ---------------------------------------------------------------------

#[test]
fn ffmpeg_args_put_each_path_in_one_argument() {
    let args = build_ffmpeg_args(
        "/tmp/a b.mp3",
        "/tmp/c d.jpeg",
        "/tmp/e f.mp4",
        "1920x1080",
        "none",
        "cpu_x264",
        "high",
    );
    assert_eq!(&args[0..3], &["-y", "-i", "/tmp/a b.mp3"]);
    assert_eq!(args[6], "/tmp/c d.jpeg");
    assert_eq!(args.last().unwrap(), "/tmp/e f.mp4");
    assert_eq!(
        build_video_filter_complex("1920x1080", "none", "yuv420p"),
        "[1:v]scale=trunc(iw/2)*2:trunc(ih/2)*2,format=yuv420p[v]"
    );
}

#[test]
fn candidates_follow_their_order() {
    let settings = AppSettings {
        ffmpeg_auto_detect: true,
        ffmpeg_path: "D:\\ignored.exe".to_string(),
        ..AppSettings::default()
    };
    let candidates = ffmpeg_candidates(
        &settings,
        Some("C:\\auto\\ffmpeg.exe".to_string()),
        Some("   ".to_string()),
        Some("tools/ffmpeg/bin/ffmpeg.exe".to_string()),
    );
    let labels: Vec<&str> = candidates.iter().map(|c| c.label.as_str()).collect();
    assert_eq!(
        labels,
        vec![
            "auto-detected FFmpeg path",
            "project-local tools/ffmpeg/bin/ffmpeg.exe",
            "ffmpeg from PATH"
        ]
    );
    assert_eq!(
        detected_ffmpeg_path(true, b"  C:\\ffmpeg\\ffmpeg.exe\r\n"),
        Some("C:\\ffmpeg\\ffmpeg.exe".to_string())
    );
    assert_eq!(detected_ffmpeg_path(true, b" \r\n"), None);
    assert_eq!(detected_ffmpeg_path(false, b"C:\\ffmpeg.exe"), None);
}

fn candidate(label: &str, path: &str) -> FfmpegCandidate {
    FfmpegCandidate {
        label: label.to_string(),
        path: path.to_string(),
    }
}

#[test]
fn attempts_report_every_failure() {
    let mut attempts = FfmpegAttempts::new();
    let first = candidate("SUNO_MV_FFMPEG_PATH", "C:\\x.exe");
    assert_eq!(
        attempts.record_run(&first, LaunchOutcome::NotStarted("not found".to_string())),
        None
    );
    let second = candidate("ffmpeg from PATH", "ffmpeg");
    assert_eq!(
        attempts.record_run(&second, LaunchOutcome::NotStarted("denied".to_string())),
        None
    );
    assert_eq!(
        attempts.run_exhausted(),
        "FFmpeg executable was not found or could not be started. Tried: SUNO_MV_FFMPEG_PATH (C:\\x.exe): not found; ffmpeg from PATH (ffmpeg): denied"
    );
    let failed = attempts.record_run(
        &second,
        LaunchOutcome::Exited {
            success: false,
            status: "exit status: 1".to_string(),
            stdout: String::new(),
            stderr: "bad input".to_string(),
        },
    );
    assert_eq!(
        failed,
        Some(Err(
            "ffmpeg from PATH (ffmpeg) exited with status exit status: 1: bad input".to_string()
        ))
    );
    let ok = attempts.record_run(
        &second,
        LaunchOutcome::Exited {
            success: true,
            status: "exit status: 0".to_string(),
            stdout: "out".to_string(),
            stderr: "err".to_string(),
        },
    );
    assert_eq!(ok, Some(Ok(("out".to_string(), "err".to_string()))));
}

#[test]
fn version_probe_reports_the_first_line() {
    let mut attempts = FfmpegAttempts::new();
    let c = candidate("ffmpeg from PATH", "ffmpeg");
    assert!(attempts
        .record_test(
            &c,
            LaunchOutcome::Exited {
                success: false,
                status: "exit status: 1".to_string(),
                stdout: String::new(),
                stderr: "nope".to_string(),
            }
        )
        .is_none());
    let found = attempts
        .record_test(
            &c,
            LaunchOutcome::Exited {
                success: true,
                status: "exit status: 0".to_string(),
                stdout: "ffmpeg version 7.0\nbuilt with gcc".to_string(),
                stderr: String::new(),
            },
        )
        .expect("a version");
    assert!(found.success);
    assert_eq!(found.status, "OK");
    assert_eq!(found.version, Some("ffmpeg version 7.0".to_string()));
    assert_eq!(found.path, Some("ffmpeg".to_string()));
    assert_eq!(found.details, "ffmpeg from PATH (ffmpeg)");
    let none = attempts.test_exhausted();
    assert!(!none.success);
    assert_eq!(none.status, "Not found");
    assert_eq!(
        none.details,
        "Tried: ffmpeg from PATH (ffmpeg): exited with status exit status: 1: nope"
    );
}

#[test]
fn ensure_allowed_names_the_allowed_values() {
    assert_eq!(
        ensure_allowed("640x480", &allowed_resolutions(), "resolution"),
        Err(
            "Invalid resolution: 640x480. Allowed values: 1280x720, 1920x1080"
                .to_string()
        )
    );
    assert_eq!(
        allowed_encoder_presets().to_vec(),
        vec!["cpu_x264", "amd_amf"]
    );
    assert_eq!(allowed_qualities().to_vec(), vec!["standard", "high"]);
}

#[test]
fn loaded_settings_fall_back_and_can_be_saved() {
    let loaded = normalize_loaded_settings(AppSettings {
        encoder_preset: "nvenc".to_string(),
        quality: "ultra".to_string(),
        ffmpeg_path: "x".to_string(),
        ..AppSettings::default()
    });
    assert_eq!(loaded.encoder_preset, "cpu_x264");
    assert_eq!(loaded.quality, "standard");
    assert_eq!(loaded.ffmpeg_path, "x");
    assert_eq!(check_settings_for_save(&loaded), Ok(()));
    assert_eq!(normalize_loaded_settings(loaded.clone()), loaded);
    assert_eq!(
        check_settings_for_save(&AppSettings {
            quality: "ultra".to_string(),
            ..AppSettings::default()
        }),
        Err("Invalid quality: ultra. Allowed values: standard, high".to_string())
    );
}

#[test]
fn default_settings() {
    let s = AppSettings::default();
    assert!(s.ffmpeg_auto_detect);
    assert_eq!(s.encoder_preset, "cpu_x264");
    assert_eq!(s.quality, "standard");
    assert_eq!(s.suno_max_pages, 100);
    assert_eq!(s.save_folder, "");
}

#[test]
fn file_names_are_safe() {
    assert_eq!(safe_filename("my/song: *mix*"), "my_song_ _mix_");
    assert_eq!(safe_filename("  ..hidden..  "), "hidden");
    assert_eq!(safe_filename("..."), "suno_mv");
    assert_eq!(safe_filename(&"x".repeat(200)).chars().count(), 120);
    assert_eq!(safe_id("ab-c_d/../e!"), "ab-c_de");
    assert_eq!(safe_id(&safe_id("a b$c")), safe_id("a b$c"));
}

#[test]
fn masks_tokens() {
    assert_eq!(text(mask_token(&chars("abcdef"))), "***");
    assert_eq!(text(mask_token(&chars("abcdefg"))), "abc...efg");
    assert_eq!(mask_secret("  Bearer  "), "***");
    assert_eq!(yes_no(true), "yes");
    assert_eq!(yes_no(false), "no");
}

#[test]
fn reads_titles_meta_tags_and_entities() {
    let html = chars(
        r#"<head><title> A &amp; B </title><meta name='description' content=' calm &lt;3 '></head>"#,
    );
    assert_eq!(extract_title(&html).map(text), Some("A & B".to_string()));
    assert_eq!(
        extract_meta_content(&html, "description").map(text),
        Some("calm <3".to_string())
    );
    assert_eq!(extract_meta_content(&html, "og:image").map(text), None);
    assert_eq!(unescape("&quot;x&#34; &amp;lt;"), "\"x\" <");
    assert_eq!(unescape("plain"), "plain");
    assert_eq!(attr(r#"<a href="x" b='y'>"#, "b"), Some("y".to_string()));
    assert_eq!(attr("<a href=x>", "href"), None);
    assert_eq!(
        scripts_of("<script>a&lt;b</script><p></p><script type=x>c</script>"),
        vec!["a<b".to_string(), "c".to_string()]
    );
}

#[test]
fn page_falls_back_to_meta_tags() {
    let html = r#"<meta property="og:title" content="Song"><meta property="og:image" content="https://i/x.jpg"><meta name="description" content="dreamy">"#;
    let m = extract_page_metadata_from_html(html, "id-1").expect("metadata");
    assert_eq!(m.id, Some("id-1".to_string()));
    assert_eq!(m.title, Some("Song".to_string()));
    assert_eq!(m.image_url, Some("https://i/x.jpg".to_string()));
    assert_eq!(m.prompt, Some("dreamy".to_string()));
    assert_eq!(m.audio_url, None);
    assert_eq!(extract_page_metadata_from_html("<p>nothing</p>", "id-1"), None);
}

fn obj(entries: Vec<(&str, JsonValue)>) -> JsonValue {
    let mut es: Vec<(String, JsonValue)> = entries
        .into_iter()
        .map(|(k, v)| (k.to_string(), v))
        .collect();
    es.sort_by(|a, b| a.0.cmp(&b.0));
    JsonValue::Object(es)
}

fn s(v: &str) -> JsonValue {
    JsonValue::String(v.to_string())
}

#[test]
fn reads_feed_clips() {
    let clip = obj(vec![
        ("id", s("c1")),
        ("title", s("T")),
        ("audio_url", s("https://a")),
        (
            "metadata",
            obj(vec![("prompt", s("P")), ("tags", s("rock"))]),
        ),
    ]);
    let m = metadata_from_value(&clip);
    assert_eq!(m.id, Some("c1".to_string()));
    assert_eq!(m.title, Some("T".to_string()));
    assert_eq!(m.audio_url, Some("https://a".to_string()));
    assert!(has_any_metadata(&m));
    let feed = obj(vec![("clips", JsonValue::Array(vec![clip]))]);
    assert_eq!(clips_from_feed_value(&feed).len(), 1);
    assert!(clips_from_feed_value(&s("x")).is_empty());
    assert!(!has_any_metadata(&SunoMetadata {
        id: Some("only-id".to_string()),
        ..SunoMetadata::default()
    }));
}

#[test]
fn embedded_json_is_searched_in_depth() {
    let value = obj(vec![(
        "props",
        obj(vec![(
            "pageProps",
            obj(vec![(
                "clip",
                obj(vec![
                    ("title", s("  ")),
                    ("lyrics", s("la")),
                    ("display_name", s("Ann")),
                ]),
            )]),
        )]),
    )]);
    let m = metadata_from_embedded_json(&value, "sid");
    assert_eq!(m.id, Some("sid".to_string()));
    assert_eq!(m.lyrics, Some("la".to_string()));
    assert_eq!(m.display_name, Some("Ann".to_string()));
    assert_eq!(m.title, None);
}

#[test]
fn allow_lists_follow_the_readme() {
    let resolutions = allowed_resolutions();
    let visualizers = allowed_visualizers();
    assert!(ensure_allowed("1920x1080", &resolutions, "resolution").is_ok());
    assert!(ensure_allowed("1080x1080", &resolutions, "resolution").is_err());
    assert!(ensure_allowed("showspectrum", &visualizers, "visualizer").is_ok());
    assert_eq!(
        build_video_filter_complex("1280x720", "showspectrum", "nv12"),
        "[1:v]scale=trunc(iw/2)*2:trunc(ih/2)*2,format=nv12[v]"
    );
}

#[test]
fn secrets_with_the_same_ends_mask_alike() {
    assert_eq!(mask_secret(" abcXYZ123xyz "), mask_secret("abcQQxyz"));
    assert_eq!(mask_secret("abcQQxyz").chars().count(), 9);
}

