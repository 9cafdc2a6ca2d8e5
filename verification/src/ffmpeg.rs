//! FFmpeg: the argument list of a render, the executables worth trying,
//! and what each attempt to start one leads to.
use crate::settings::{join, AppSettings, FfmpegTestResponse};
use crate::text::{
    append_chars, append_str, chars_of, is_blank, is_blank_str, lines, lines_of, str_eq,
    string_from_chars, to_string, trim, trim_chars, views_of,
};
use vstd::prelude::*;

verus! {

pub open spec fn strings_view(v: Seq<String>) -> Seq<Seq<char>> {
    v.map_values(|s: String| s@)
}

// ---------------------------------------------------------------------
// Arguments
// ---------------------------------------------------------------------

/// The filter graph: the cover scaled to even dimensions in `video_format`,
/// with a spectrum of the audio laid over it when `visualizer` is
/// `spectrum` (any other value, `showspectrum` included, gets the plain
/// graph).
pub open spec fn filter_complex(resolution: Seq<char>, visualizer: Seq<char>, video_format: Seq<char>) -> Seq<
    char,
> {
    let final_filter = "scale=trunc(iw/2)*2:trunc(ih/2)*2,format="@ + video_format + "[v]"@;
    if visualizer == "spectrum"@ {
        "[0:a]showspectrum=s="@ + resolution + ":mode=combined[spec];[1:v][spec]overlay=format=auto,"@
            + final_filter
    } else {
        "[1:v]"@ + final_filter
    }
}

pub fn build_video_filter_complex(resolution: &str, visualizer: &str, video_format: &str) -> (res:
    String)
    ensures
        res@ == filter_complex(resolution@, visualizer@, video_format@),
{
    let mut fin = chars_of("scale=trunc(iw/2)*2:trunc(ih/2)*2,format=");
    append_str(&mut fin, video_format);
    append_str(&mut fin, "[v]");
    let out = if str_eq(visualizer, "spectrum") {
        let mut o = chars_of("[0:a]showspectrum=s=");
        append_str(&mut o, resolution);
        append_str(&mut o, ":mode=combined[spec];[1:v][spec]overlay=format=auto,");
        append_chars(&mut o, fin.as_slice());
        o
    } else {
        let mut o = chars_of("[1:v]");
        append_chars(&mut o, fin.as_slice());
        o
    };
    string_from_chars(out.as_slice())
}

pub open spec fn video_format_for(encoder_preset: Seq<char>) -> Seq<char> {
    if encoder_preset == "amd_amf"@ {
        "nv12"@
    } else {
        "yuv420p"@
    }
}

/// The encoder options of a preset and quality.
pub open spec fn encoder_args(encoder_preset: Seq<char>, quality: Seq<char>) -> Seq<Seq<char>> {
    if encoder_preset == "amd_amf"@ {
        seq![
            "-c:v"@,
            "h264_amf"@,
            "-quality"@,
            if quality == "high"@ {
                "quality"@
            } else {
                "balanced"@
            },
            "-usage"@,
            "transcoding"@,
        ]
    } else if quality == "high"@ {
        seq!["-c:v"@, "libx264"@, "-pix_fmt"@, "yuv420p"@, "-crf"@, "18"@, "-preset"@, "slow"@]
    } else {
        seq!["-c:v"@, "libx264"@, "-pix_fmt"@, "yuv420p"@]
    }
}

/// The arguments of one render: the audio, the looped cover, the filter
/// graph, the encoder options, AAC audio and a fast-start MP4.
pub open spec fn ffmpeg_args(
    mp3_path: Seq<char>,
    cover_path: Seq<char>,
    output_path: Seq<char>,
    resolution: Seq<char>,
    visualizer: Seq<char>,
    encoder_preset: Seq<char>,
    quality: Seq<char>,
) -> Seq<Seq<char>> {
    seq![
        "-y"@,
        "-i"@,
        mp3_path,
        "-loop"@,
        "1"@,
        "-i"@,
        cover_path,
        "-filter_complex"@,
        filter_complex(resolution, visualizer, video_format_for(encoder_preset)),
        "-map"@,
        "[v]"@,
        "-map"@,
        "0:a"@,
        "-shortest"@,
    ] + encoder_args(encoder_preset, quality) + seq![
        "-c:a"@,
        "aac"@,
        "-movflags"@,
        "+faststart"@,
        output_path,
    ]
}

/// The cover is looped as an endless still input, so the render must stop
/// with the audio: the arguments always hold `-shortest`, after the audio
/// (first input) and the looped cover (second input), and end with the
/// output path.
pub proof fn law_render_stops_with_the_audio(
    mp3_path: Seq<char>,
    cover_path: Seq<char>,
    output_path: Seq<char>,
    resolution: Seq<char>,
    visualizer: Seq<char>,
    encoder_preset: Seq<char>,
    quality: Seq<char>,
)
    ensures
        ({
            let a = ffmpeg_args(
                mp3_path,
                cover_path,
                output_path,
                resolution,
                visualizer,
                encoder_preset,
                quality,
            );
            &&& a[1] == "-i"@ && a[2] == mp3_path
            &&& a[3] == "-loop"@ && a[4] == "1"@ && a[5] == "-i"@ && a[6] == cover_path
            &&& a[13] == "-shortest"@
            &&& a.contains("-shortest"@)
            &&& a.last() == output_path
        }),
{
    let a = ffmpeg_args(
        mp3_path,
        cover_path,
        output_path,
        resolution,
        visualizer,
        encoder_preset,
        quality,
    );
    assert(a[13] == "-shortest"@);
}

pub(crate) fn push_str(args: &mut Vec<String>, s: &str)
    ensures
        strings_view(final(args)@) == strings_view(old(args)@).push(s@),
{
    let ghost before = args@;
    args.push(to_string(s));
    assert(strings_view(args@) =~= strings_view(before).push(s@));
}

/// The arguments of one render, each path handed to FFmpeg as one argument
/// of its own, as it is.
pub fn build_ffmpeg_args(
    mp3_path: &str,
    cover_path: &str,
    output_path: &str,
    resolution: &str,
    visualizer: &str,
    encoder_preset: &str,
    quality: &str,
) -> (res: Vec<String>)
    ensures
        strings_view(res@) == ffmpeg_args(
            mp3_path@,
            cover_path@,
            output_path@,
            resolution@,
            visualizer@,
            encoder_preset@,
            quality@,
        ),
        res@[2]@ == mp3_path@,
        res@[6]@ == cover_path@,
        res@.last()@ == output_path@,
{
    let amd = str_eq(encoder_preset, "amd_amf");
    let high = str_eq(quality, "high");
    let video_format = if amd {
        "nv12"
    } else {
        "yuv420p"
    };
    let filter = build_video_filter_complex(resolution, visualizer, video_format);
    let mut args: Vec<String> = Vec::new();
    push_str(&mut args, "-y");
    push_str(&mut args, "-i");
    push_str(&mut args, mp3_path);
    push_str(&mut args, "-loop");
    push_str(&mut args, "1");
    push_str(&mut args, "-i");
    push_str(&mut args, cover_path);
    push_str(&mut args, "-filter_complex");
    push_str(&mut args, filter.as_str());
    push_str(&mut args, "-map");
    push_str(&mut args, "[v]");
    push_str(&mut args, "-map");
    push_str(&mut args, "0:a");
    push_str(&mut args, "-shortest");
    let ghost head = strings_view(args@);
    if amd {
        push_str(&mut args, "-c:v");
        push_str(&mut args, "h264_amf");
        push_str(&mut args, "-quality");
        push_str(
            &mut args,
            if high {
                "quality"
            } else {
                "balanced"
            },
        );
        push_str(&mut args, "-usage");
        push_str(&mut args, "transcoding");
    } else {
        push_str(&mut args, "-c:v");
        push_str(&mut args, "libx264");
        push_str(&mut args, "-pix_fmt");
        push_str(&mut args, "yuv420p");
        if high {
            push_str(&mut args, "-crf");
            push_str(&mut args, "18");
            push_str(&mut args, "-preset");
            push_str(&mut args, "slow");
        }
    }
    let ghost mid = strings_view(args@);
    assert(mid =~= head + encoder_args(encoder_preset@, quality@));
    push_str(&mut args, "-c:a");
    push_str(&mut args, "aac");
    push_str(&mut args, "-movflags");
    push_str(&mut args, "+faststart");
    push_str(&mut args, output_path);
    assert(strings_view(args@) =~= ffmpeg_args(
        mp3_path@,
        cover_path@,
        output_path@,
        resolution@,
        visualizer@,
        encoder_preset@,
        quality@,
    ));
    assert(strings_view(args@)[2] == args@[2]@);
    assert(strings_view(args@)[6] == args@[6]@);
    assert(strings_view(args@).last() == args@.last()@);
    args
}

// ---------------------------------------------------------------------
// Candidates
// ---------------------------------------------------------------------

#[derive(Debug, Clone, PartialEq, Eq)]
pub struct FfmpegCandidate {
    pub label: String,
    pub path: String,
}

pub open spec fn candidate_view(c: FfmpegCandidate) -> (Seq<char>, Seq<char>) {
    (c.label@, c.path@)
}

pub open spec fn candidates_view(cs: Seq<FfmpegCandidate>) -> Seq<(Seq<char>, Seq<char>)> {
    cs.map_values(|c: FfmpegCandidate| candidate_view(c))
}

pub open spec fn opt_seq(b: bool, x: (Seq<char>, Seq<char>)) -> Seq<(Seq<char>, Seq<char>)> {
    if b {
        seq![x]
    } else {
        seq![]
    }
}

/// The executables to try, in order: the configured path (when
/// auto-detection is off and a path is set), the auto-detected one (when it
/// is on), the path in `SUNO_MV_FFMPEG_PATH`, the project's own copy, and
/// `ffmpeg` from `PATH`.
pub open spec fn candidates_spec(
    settings: AppSettings,
    auto_detected: Option<Seq<char>>,
    env_path: Option<Seq<char>>,
    project_local: Option<Seq<char>>,
) -> Seq<(Seq<char>, Seq<char>)> {
    opt_seq(
        !settings.ffmpeg_auto_detect && !is_blank(settings.ffmpeg_path@),
        ("user-configured FFmpeg path"@, trim(settings.ffmpeg_path@)),
    ) + opt_seq(
        settings.ffmpeg_auto_detect && auto_detected is Some,
        ("auto-detected FFmpeg path"@, auto_detected->0),
    ) + opt_seq(
        env_path is Some && !is_blank(env_path->0),
        ("SUNO_MV_FFMPEG_PATH"@, env_path->0),
    ) + opt_seq(
        project_local is Some,
        ("project-local tools/ffmpeg/bin/ffmpeg.exe"@, project_local->0),
    ) + seq![("ffmpeg from PATH"@, "ffmpeg"@)]
}

/// There is always a candidate to try, and the last one is `ffmpeg` from
/// `PATH`; a user-configured path, when there is one, is tried first.
pub proof fn law_candidates_end_with_path(
    settings: AppSettings,
    auto_detected: Option<Seq<char>>,
    env_path: Option<Seq<char>>,
    project_local: Option<Seq<char>>,
)
    ensures
        ({
            let cs = candidates_spec(settings, auto_detected, env_path, project_local);
            &&& cs.len() > 0
            &&& cs.last() == ("ffmpeg from PATH"@, "ffmpeg"@)
            &&& !settings.ffmpeg_auto_detect && !is_blank(settings.ffmpeg_path@) ==> cs[0] == (
                "user-configured FFmpeg path"@,
                trim(settings.ffmpeg_path@),
            )
        }),
{
}

fn push_candidate(cs: &mut Vec<FfmpegCandidate>, label: &str, path: String)
    ensures
        candidates_view(final(cs)@) == candidates_view(old(cs)@).push((label@, path@)),
{
    let ghost before = cs@;
    cs.push(FfmpegCandidate { label: to_string(label), path });
    assert(candidates_view(cs@) =~= candidates_view(before).push((label@, path@)));
}

/// The executables to try. `auto_detected` is what the platform's lookup
/// found (consulted only when auto-detection is on), `env_path` the value of
/// `SUNO_MV_FFMPEG_PATH`, `project_local` the project's own copy if it exists.
pub fn ffmpeg_candidates(
    settings: &AppSettings,
    auto_detected: Option<String>,
    env_path: Option<String>,
    project_local: Option<String>,
) -> (res: Vec<FfmpegCandidate>)
    ensures
        candidates_view(res@) == candidates_spec(
            *settings,
            crate::text::opt_view(auto_detected),
            crate::text::opt_view(env_path),
            crate::text::opt_view(project_local),
        ),
{
    let mut cs: Vec<FfmpegCandidate> = Vec::new();
    let ghost s0 = candidates_view(cs@);
    if !settings.ffmpeg_auto_detect && !is_blank_str(settings.ffmpeg_path.as_str()) {
        let p = chars_of(settings.ffmpeg_path.as_str());
        let t = trim_chars(p.as_slice());
        push_candidate(&mut cs, "user-configured FFmpeg path", string_from_chars(t.as_slice()));
    }
    let ghost s1 = candidates_view(cs@);
    if settings.ffmpeg_auto_detect {
        match auto_detected {
            Some(path) => {
                push_candidate(&mut cs, "auto-detected FFmpeg path", path);
            },
            None => {},
        }
    }
    let ghost s2 = candidates_view(cs@);
    match env_path {
        Some(path) => {
            if !is_blank_str(path.as_str()) {
                push_candidate(&mut cs, "SUNO_MV_FFMPEG_PATH", path);
            }
        },
        None => {},
    }
    let ghost s3 = candidates_view(cs@);
    match project_local {
        Some(path) => {
            push_candidate(&mut cs, "project-local tools/ffmpeg/bin/ffmpeg.exe", path);
        },
        None => {},
    }
    let ghost s4 = candidates_view(cs@);
    push_candidate(&mut cs, "ffmpeg from PATH", to_string("ffmpeg"));
    assert(candidates_view(cs@) =~= candidates_spec(
        *settings,
        crate::text::opt_view(auto_detected),
        crate::text::opt_view(env_path),
        crate::text::opt_view(project_local),
    ));
    cs
}

/// What the platform's lookup of `ffmpeg` reported: the path it printed,
/// trimmed, when the lookup succeeded and printed one.
pub open spec fn detected_path(success: bool, stdout: Seq<u8>) -> Option<Seq<char>> {
    if success && trim(crate::bridge::http::utf8_lossy(stdout)).len() > 0 {
        Some(trim(crate::bridge::http::utf8_lossy(stdout)))
    } else {
        None
    }
}

/// Reads the path out of the output of the platform's lookup of `ffmpeg`.
pub fn detected_ffmpeg_path(success: bool, stdout: &[u8]) -> (res: Option<String>)
    ensures
        crate::text::opt_view(res) == detected_path(success, stdout@),
{
    if !success {
        return None;
    }
    let text = crate::bridge::http::decode_utf8_lossy(stdout);
    let c = chars_of(text.as_str());
    let t = trim_chars(c.as_slice());
    if t.len() == 0 {
        None
    } else {
        Some(string_from_chars(t.as_slice()))
    }
}

// ---------------------------------------------------------------------
// Attempts
// ---------------------------------------------------------------------

/// What starting one candidate led to.
pub enum LaunchOutcome {
    /// The process ran; `status` is how its exit status displays.
    Exited { success: bool, status: String, stdout: String, stderr: String },
    /// The process could not be started.
    NotStarted(String),
}

/// The attempts made so far, as they are reported when every candidate
/// failed.
pub struct FfmpegAttempts {
    pub tried: Vec<String>,
}

/// `{label} ({path})`.
pub open spec fn described(c: FfmpegCandidate) -> Seq<char> {
    c.label@ + " ("@ + c.path@ + ")"@
}

pub open spec fn not_started_text(c: FfmpegCandidate, err: Seq<char>) -> Seq<char> {
    described(c) + ": "@ + err
}

pub open spec fn run_failed_text(c: FfmpegCandidate, status: Seq<char>, stderr: Seq<char>) -> Seq<char> {
    described(c) + " exited with status "@ + status + ": "@ + stderr
}

pub open spec fn test_failed_text(c: FfmpegCandidate, status: Seq<char>, stderr: Seq<char>) -> Seq<
    char,
> {
    described(c) + ": exited with status "@ + status + ": "@ + stderr
}

pub open spec fn run_exhausted_text(tried: Seq<Seq<char>>) -> Seq<char> {
    "FFmpeg executable was not found or could not be started. Tried: "@ + join(tried, "; "@)
}

/// The version line of `ffmpeg -version`: the first line of its output.
pub open spec fn first_line(s: Seq<char>) -> Option<Seq<char>> {
    if lines(s).len() > 0 {
        Some(lines(s)[0])
    } else {
        None
    }
}

fn describe(c: &FfmpegCandidate) -> (res: Vec<char>)
    ensures
        res@ == described(*c),
{
    let mut out = chars_of(c.label.as_str());
    append_str(&mut out, " (");
    append_str(&mut out, c.path.as_str());
    append_str(&mut out, ")");
    out
}

fn join_strings(xs: &Vec<String>, sep: &str) -> (res: Vec<char>)
    ensures
        res@ == join(strings_view(xs@), sep@),
{
    let mut out: Vec<char> = Vec::new();
    let mut i: usize = 0;
    while i < xs.len()
        invariant
            i <= xs.len(),
            out@ == join(strings_view(xs@).take(i as int), sep@),
        decreases xs.len() - i,
    {
        let ghost before = out@;
        assert(strings_view(xs@).take(i + 1).drop_last() =~= strings_view(xs@).take(i as int));
        assert(strings_view(xs@).take(i + 1).last() == xs@[i as int]@);
        if i > 0 {
            append_str(&mut out, sep);
        } else {
            assert(before =~= Seq::<char>::empty());
        }
        append_str(&mut out, xs[i].as_str());
        i = i + 1;
        proof {
            if i == 1 {
                assert(out@ =~= xs@[0]@);
            }
        }
    }
    assert(strings_view(xs@).take(xs.len() as int) =~= strings_view(xs@));
    out
}

impl FfmpegAttempts {
    pub fn new() -> (res: Self)
        ensures
            res.tried@ == Seq::<String>::empty(),
    {
        FfmpegAttempts { tried: Vec::new() }
    }

    fn note(&mut self, text: Vec<char>)
        ensures
            strings_view(final(self).tried@) == strings_view(old(self).tried@).push(text@),
    {
        let ghost before = self.tried@;
        self.tried.push(string_from_chars(text.as_slice()));
        assert(strings_view(self.tried@) =~= strings_view(before).push(text@));
    }

    /// A render attempt: a process that ran ends the search with its output
    /// (or, when it failed, with its error); one that could not be started
    /// is noted and the search goes on.
    pub fn record_run(&mut self, candidate: &FfmpegCandidate, outcome: LaunchOutcome) -> (res:
        Option<Result<(String, String), String>>)
        ensures
            match outcome {
                LaunchOutcome::Exited { success, status, stdout, stderr } => {
                    &&& final(self).tried@ == old(self).tried@
                    &&& if success {
                        res == Some(Ok::<(String, String), String>((stdout, stderr)))
                    } else {
                        res matches Some(Err(m)) && m@ == run_failed_text(
                            *candidate,
                            status@,
                            stderr@,
                        )
                    }
                },
                LaunchOutcome::NotStarted(err) => {
                    &&& res is None
                    &&& strings_view(final(self).tried@) == strings_view(old(self).tried@).push(
                        not_started_text(*candidate, err@),
                    )
                },
            },
    {
        match outcome {
            LaunchOutcome::Exited { success, status, stdout, stderr } => {
                if success {
                    Some(Ok((stdout, stderr)))
                } else {
                    let mut m = describe(candidate);
                    append_str(&mut m, " exited with status ");
                    append_str(&mut m, status.as_str());
                    append_str(&mut m, ": ");
                    append_str(&mut m, stderr.as_str());
                    Some(Err(string_from_chars(m.as_slice())))
                }
            },
            LaunchOutcome::NotStarted(err) => {
                let mut m = describe(candidate);
                append_str(&mut m, ": ");
                append_str(&mut m, err.as_str());
                self.note(m);
                None
            },
        }
    }

    /// The error once no candidate could be started.
    pub fn run_exhausted(&self) -> (res: String)
        ensures
            res@ == run_exhausted_text(strings_view(self.tried@)),
    {
        let mut m = chars_of("FFmpeg executable was not found or could not be started. Tried: ");
        let j = join_strings(&self.tried, "; ");
        append_chars(&mut m, j.as_slice());
        string_from_chars(m.as_slice())
    }

    /// A `-version` probe: a process that ran successfully ends the search
    /// with its first output line as the version; any other outcome is
    /// noted and the search goes on.
    pub fn record_test(&mut self, candidate: &FfmpegCandidate, outcome: LaunchOutcome) -> (res:
        Option<FfmpegTestResponse>)
        ensures
            match outcome {
                LaunchOutcome::Exited { success, status, stdout, stderr } => if success {
                    &&& final(self).tried@ == old(self).tried@
                    &&& res matches Some(r) && r.success && r.status@ == "OK"@
                        && crate::text::opt_view(r.version) == first_line(stdout@)
                        && crate::text::opt_view(r.path) == Some(candidate.path@) && r.details@
                        == described(*candidate)
                } else {
                    &&& res is None
                    &&& strings_view(final(self).tried@) == strings_view(old(self).tried@).push(
                        test_failed_text(*candidate, status@, stderr@),
                    )
                },
                LaunchOutcome::NotStarted(err) => {
                    &&& res is None
                    &&& strings_view(final(self).tried@) == strings_view(old(self).tried@).push(
                        not_started_text(*candidate, err@),
                    )
                },
            },
    {
        match outcome {
            LaunchOutcome::Exited { success, status, stdout, stderr } => {
                if success {
                    let out = chars_of(stdout.as_str());
                    let ls = lines_of(out.as_slice());
                    let version = if ls.len() > 0 {
                        assert(views_of(ls@)[0] == ls@[0]@);
                        Some(string_from_chars(ls[0].as_slice()))
                    } else {
                        None
                    };
                    let d = describe(candidate);
                    Some(
                        FfmpegTestResponse {
                            success: true,
                            status: to_string("OK"),
                            version,
                            path: Some(candidate.path.clone()),
                            details: string_from_chars(d.as_slice()),
                        },
                    )
                } else {
                    let mut m = describe(candidate);
                    append_str(&mut m, ": exited with status ");
                    append_str(&mut m, status.as_str());
                    append_str(&mut m, ": ");
                    append_str(&mut m, stderr.as_str());
                    self.note(m);
                    None
                }
            },
            LaunchOutcome::NotStarted(err) => {
                let mut m = describe(candidate);
                append_str(&mut m, ": ");
                append_str(&mut m, err.as_str());
                self.note(m);
                None
            },
        }
    }

    /// The answer once no candidate ran successfully.
    pub fn test_exhausted(&self) -> (res: FfmpegTestResponse)
        ensures
            !res.success,
            res.status@ == "Not found"@,
            res.version is None,
            res.path is None,
            res.details@ == "Tried: "@ + join(strings_view(self.tried@), "; "@),
    {
        let mut m = chars_of("Tried: ");
        let j = join_strings(&self.tried, "; ");
        append_chars(&mut m, j.as_slice());
        FfmpegTestResponse {
            success: false,
            status: to_string("Not found"),
            version: None,
            path: None,
            details: string_from_chars(m.as_slice()),
        }
    }
}

} // verus!
