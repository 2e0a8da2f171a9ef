use vstd::prelude::*;

use crate::domain::{channel_count, channels_of, AudioChannelMode, DenoiseMode, VoiceSeparationModel};
use crate::error::AppError;
use crate::text::{
    ascii_lower_seq, ascii_lowercase, concat2, concat3, decimal, decimal_seq, is_blank, is_blank_str, same_text,
    trim_seq, trimmed,
};

verus! {

/// Where the external tools are.
#[derive(Debug, Clone, PartialEq, Eq)]
pub struct SidecarPaths {
    ffmpeg_path: String,
    demucs_rs_path: String,
}

impl SidecarPaths {
    pub fn new(ffmpeg_path: String, demucs_rs_path: String) -> (p: SidecarPaths)
        ensures
            p.ffmpeg()@ == ffmpeg_path@,
            p.demucs_rs()@ == demucs_rs_path@,
    {
        SidecarPaths { ffmpeg_path, demucs_rs_path }
    }

    pub closed spec fn ffmpeg(&self) -> String {
        self.ffmpeg_path
    }

    pub closed spec fn demucs_rs(&self) -> String {
        self.demucs_rs_path
    }

    pub fn ffmpeg_path(&self) -> (p: String)
        ensures
            p@ == self.ffmpeg()@,
    {
        self.ffmpeg_path.clone()
    }

    pub fn demucs_rs_path(&self) -> (p: String)
        ensures
            p@ == self.demucs_rs()@,
    {
        self.demucs_rs_path.clone()
    }
}

/// The ffmpeg tool.
#[derive(Debug, Clone, PartialEq, Eq)]
pub struct FfmpegSidecar {
    pub binary_path: String,
}

/// The demucs-rs tool.
#[derive(Debug, Clone, PartialEq, Eq)]
pub struct DemucsRsSidecar {
    pub binary_path: String,
}

/// The four tracks demucs-rs wrote.
#[derive(Debug, Clone, PartialEq, Eq)]
pub struct DemucsRunOutput {
    pub vocals: String,
    pub drums: String,
    pub bass: String,
    pub other: String,
}

/// Post-processes separated vocals with ffmpeg.
#[derive(Debug, Clone, PartialEq, Eq)]
pub struct AudioPostProcessor {
    pub ffmpeg: FfmpegSidecar,
}

impl AudioPostProcessor {
    pub fn new(ffmpeg: FfmpegSidecar) -> (p: AudioPostProcessor)
        ensures
            p.ffmpeg == ffmpeg,
    {
        AudioPostProcessor { ffmpeg }
    }
}

/// The strings of `v`.
pub open spec fn texts(v: Seq<String>) -> Seq<Seq<char>> {
    v.map_values(|s: String| s@)
}

fn strings(parts: Vec<&str>) -> (r: Vec<String>)
    ensures
        texts(r@) == parts@.map_values(|s: &str| s@),
{
    let mut r: Vec<String> = Vec::new();
    let mut i: usize = 0;
    while i < parts.len()
        invariant
            i <= parts.len(),
            texts(r@) == parts@.map_values(|s: &str| s@).take(i as int),
        decreases parts.len() - i,
    {
        let ghost before = r@;
        r.push(String::from_str(parts[i]));
        assert(texts(r@) =~= texts(before).push(parts@[i as int]@));
        assert(parts@.map_values(|s: &str| s@).take(i as int + 1) =~= parts@.map_values(|s: &str| s@).take(
            i as int,
        ).push(parts@[i as int]@));
        i += 1;
    }
    assert(parts@.map_values(|s: &str| s@).take(parts.len() as int) =~= parts@.map_values(|s: &str| s@));
    r
}

impl FfmpegSidecar {
    pub fn new(binary_path: String) -> (s: FfmpegSidecar)
        ensures
            s.binary_path == binary_path,
    {
        FfmpegSidecar { binary_path }
    }

    /// Arguments to take a video's audio as 44.1 kHz stereo 16-bit wav.
    pub fn extract_audio_args(input: &str, output: &str) -> (args: Vec<String>)
        ensures
            texts(args@) == seq![
                "-y"@,
                "-i"@,
                input@,
                "-vn"@,
                "-ac"@,
                "2"@,
                "-ar"@,
                "44100"@,
                "-c:a"@,
                "pcm_s16le"@,
                output@,
            ],
    {
        let r = strings(vec!["-y", "-i", input, "-vn", "-ac", "2", "-ar", "44100", "-c:a", "pcm_s16le", output]);
        assert(texts(r@) =~= seq![
            "-y"@,
            "-i"@,
            input@,
            "-vn"@,
            "-ac"@,
            "2"@,
            "-ar"@,
            "44100"@,
            "-c:a"@,
            "pcm_s16le"@,
            output@,
        ]);
        r
    }

    /// Arguments to convert audio to 44.1 kHz stereo 16-bit wav.
    pub fn transcode_args(input: &str, output: &str) -> (args: Vec<String>)
        ensures
            texts(args@) == seq![
                "-y"@,
                "-i"@,
                input@,
                "-ac"@,
                "2"@,
                "-ar"@,
                "44100"@,
                "-c:a"@,
                "pcm_s16le"@,
                output@,
            ],
    {
        let r = strings(vec!["-y", "-i", input, "-ac", "2", "-ar", "44100", "-c:a", "pcm_s16le", output]);
        assert(texts(r@) =~= seq![
            "-y"@,
            "-i"@,
            input@,
            "-ac"@,
            "2"@,
            "-ar"@,
            "44100"@,
            "-c:a"@,
            "pcm_s16le"@,
            output@,
        ]);
        r
    }

    /// Arguments to mix drums, bass and other into the no-vocals track.
    pub fn mix_no_vocals_args(drums: &str, bass: &str, other: &str, output: &str) -> (args: Vec<String>)
        ensures
            texts(args@) == seq![
                "-y"@,
                "-i"@,
                drums@,
                "-i"@,
                bass@,
                "-i"@,
                other@,
                "-filter_complex"@,
                "amix=inputs=3:duration=longest:normalize=0"@,
                "-c:a"@,
                "pcm_s16le"@,
                output@,
            ],
    {
        let r = strings(
            vec![
                "-y",
                "-i",
                drums,
                "-i",
                bass,
                "-i",
                other,
                "-filter_complex",
                "amix=inputs=3:duration=longest:normalize=0",
                "-c:a",
                "pcm_s16le",
                output,
            ],
        );
        assert(texts(r@) =~= seq![
            "-y"@,
            "-i"@,
            drums@,
            "-i"@,
            bass@,
            "-i"@,
            other@,
            "-filter_complex"@,
            "amix=inputs=3:duration=longest:normalize=0"@,
            "-c:a"@,
            "pcm_s16le"@,
            output@,
        ]);
        r
    }

    /// Arguments to post-process vocals with `filter`, writing `channels` at
    /// `sample_rate`.
    pub fn post_process_args(input: &str, output: &str, filter: &str, channels: AudioChannelMode, sample_rate: u32) -> (args:
        Vec<String>)
        ensures
            texts(args@) == seq![
                "-y"@,
                "-i"@,
                input@,
                "-af"@,
                filter@,
                "-ac"@,
                decimal_seq(channels_of(channels) as nat),
                "-ar"@,
                decimal_seq(sample_rate as nat),
                "-c:a"@,
                "pcm_s16le"@,
                output@,
            ],
    {
        let ch = decimal(channel_count(channels) as u64);
        let rate = decimal(sample_rate as u64);
        let r = strings(
            vec![
                "-y",
                "-i",
                input,
                "-af",
                filter,
                "-ac",
                ch.as_str(),
                "-ar",
                rate.as_str(),
                "-c:a",
                "pcm_s16le",
                output,
            ],
        );
        assert(texts(r@) =~= seq![
            "-y"@,
            "-i"@,
            input@,
            "-af"@,
            filter@,
            "-ac"@,
            decimal_seq(channels_of(channels) as nat),
            "-ar"@,
            decimal_seq(sample_rate as nat),
            "-c:a"@,
            "pcm_s16le"@,
            output@,
        ]);
        r
    }
}

impl DemucsRsSidecar {
    pub fn new(binary_path: String) -> (s: DemucsRsSidecar)
        ensures
            s.binary_path == binary_path,
    {
        DemucsRsSidecar { binary_path }
    }

    /// Arguments to separate `input` into `output_dir` with `model`.
    pub fn separate_args(input: &str, output_dir: &str, model: VoiceSeparationModel) -> (args: Vec<String>)
        ensures
            texts(args@) == seq![
                "--model"@,
                match model {
                    VoiceSeparationModel::HtDemucs => "htdemucs"@,
                    VoiceSeparationModel::HtDemucsFt => "htdemucs_ft"@,
                },
                "--output"@,
                output_dir@,
                input@,
            ],
    {
        let r = strings(vec!["--model", model.as_demucs_model(), "--output", output_dir, input]);
        assert(texts(r@) =~= seq![
            "--model"@,
            match model {
                VoiceSeparationModel::HtDemucs => "htdemucs"@,
                VoiceSeparationModel::HtDemucsFt => "htdemucs_ft"@,
            },
            "--output"@,
            output_dir@,
            input@,
        ]);
        r
    }
}

/// The ffmpeg filter chain for post-processing: denoise, silence trim,
/// loudness normalization (to the given loudness and true peak, as written),
/// resampling, down-mix to mono, and the peak limiter, joined by commas.
pub open spec fn post_process_filter_seq(
    denoise: DenoiseMode,
    trim_silence: bool,
    loudness: Option<(Seq<char>, Seq<char>)>,
    target_sample_rate: u32,
    channels: AudioChannelMode,
    peak_limiter: bool,
) -> Seq<Seq<char>> {
    let f = match denoise {
        DenoiseMode::Off => Seq::empty(),
        DenoiseMode::Standard => seq!["afftdn=nr=10:nf=-50"@],
        DenoiseMode::Strong => seq!["afftdn=nr=20:nf=-50"@],
    };
    let f = if trim_silence {
        f.push("silenceremove=start_periods=1:start_duration=0.2:start_threshold=-50dB"@)
    } else {
        f
    };
    let f = match loudness {
        Some((i, tp)) => f.push("loudnorm=I="@ + i + ":TP="@ + tp + ":LRA=11"@),
        None => f,
    };
    let f = f.push("aresample="@ + decimal_seq(target_sample_rate as nat));
    let f = if channels == AudioChannelMode::Mono {
        f.push("pan=mono|c0=0.5*c0+0.5*c1"@)
    } else {
        f
    };
    if peak_limiter {
        f.push("alimiter=limit=0.95"@)
    } else {
        f
    }
}

/// The parts of `parts` joined by `sep`.
pub open spec fn joined(parts: Seq<Seq<char>>, sep: Seq<char>) -> Seq<char>
    decreases parts.len(),
{
    if parts.len() == 0 {
        Seq::empty()
    } else if parts.len() == 1 {
        parts[0]
    } else {
        joined(parts.drop_last(), sep) + sep + parts.last()
    }
}

/// See `joined`.
pub fn join_texts(parts: &Vec<String>, sep: &str) -> (r: String)
    ensures
        r@ == joined(texts(parts@), sep@),
{
    let mut r = String::new();
    let mut i: usize = 0;
    assert(texts(parts@).take(0) =~= Seq::<Seq<char>>::empty());
    while i < parts.len()
        invariant
            i <= parts.len(),
            r@ == joined(texts(parts@).take(i as int), sep@),
        decreases parts.len() - i,
    {
        let ghost t = texts(parts@).take(i as int + 1);
        assert(t.drop_last() =~= texts(parts@).take(i as int));
        assert(t.last() == parts@[i as int]@);
        if i == 0 {
            r = parts[i].clone();
        } else {
            r = concat3(r.as_str(), sep, parts[i].as_str());
        }
        i += 1;
    }
    assert(texts(parts@).take(parts.len() as int) =~= texts(parts@));
    r
}

/// See `post_process_filter_seq`; the loudness figures come written as ffmpeg takes them.
pub fn post_process_filter(
    denoise: DenoiseMode,
    trim_silence: bool,
    loudness: Option<(&str, &str)>,
    target_sample_rate: u32,
    channels: AudioChannelMode,
    peak_limiter: bool,
) -> (f: String)
    ensures
        f@ == joined(
            post_process_filter_seq(
                denoise,
                trim_silence,
                match loudness {
                    Some((i, tp)) => Some((i@, tp@)),
                    None => None,
                },
                target_sample_rate,
                channels,
                peak_limiter,
            ),
            ","@,
        ),
{
    let mut filters: Vec<String> = Vec::new();
    let ghost mut expected: Seq<Seq<char>> = Seq::empty();
    match denoise {
        DenoiseMode::Off => {},
        DenoiseMode::Standard => {
            filters.push(String::from_str("afftdn=nr=10:nf=-50"));
        },
        DenoiseMode::Strong => {
            filters.push(String::from_str("afftdn=nr=20:nf=-50"));
        },
    }
    if trim_silence {
        filters.push(String::from_str("silenceremove=start_periods=1:start_duration=0.2:start_threshold=-50dB"));
    }
    if let Some((i, tp)) = loudness {
        let a = concat3("loudnorm=I=", i, ":TP=");
        filters.push(concat3(a.as_str(), tp, ":LRA=11"));
    }
    filters.push(concat2("aresample=", decimal(target_sample_rate as u64).as_str()));
    if channels == AudioChannelMode::Mono {
        filters.push(String::from_str("pan=mono|c0=0.5*c0+0.5*c1"));
    }
    if peak_limiter {
        filters.push(String::from_str("alimiter=limit=0.95"));
    }
    assert(texts(filters@) =~= post_process_filter_seq(
        denoise,
        trim_silence,
        match loudness {
            Some((i, tp)) => Some((i@, tp@)),
            None => None,
        },
        target_sample_rate,
        channels,
        peak_limiter,
    ));
    join_texts(&filters, ",")
}

/// `{:?}` of an exit code: `Some(<code>)` or `None`.
pub open spec fn exit_code_text(code: Option<i32>) -> Seq<char> {
    match code {
        Some(c) => "Some("@ + (if c < 0 {
            "-"@ + decimal_seq((-c) as nat)
        } else {
            decimal_seq(c as nat)
        }) + ")"@,
        None => "None"@,
    }
}

fn exit_code_string(code: Option<i32>) -> (s: String)
    ensures
        s@ == exit_code_text(code),
{
    match code {
        Some(c) => {
            let digits = if c < 0 {
                let m: u64 = if c == i32::MIN {
                    2_147_483_648u64
                } else {
                    (-c) as u64
                };
                concat2("-", decimal(m).as_str())
            } else {
                decimal(c as u64)
            };
            concat3("Some(", digits.as_str(), ")")
        },
        None => String::from_str("None"),
    }
}

/// The error when ffmpeg exits unsuccessfully while doing `context`.
pub fn ffmpeg_failure(context: &str, code: Option<i32>) -> (e: AppError)
    ensures
        e matches AppError::OfflineJob { message } && message@ == "ffmpeg failed while "@ + context@ + " (exit: "@
            + exit_code_text(code) + ")"@,
{
    let a = concat3("ffmpeg failed while ", context, " (exit: ");
    AppError::offline_job(concat3(a.as_str(), exit_code_string(code).as_str(), ")"))
}

/// The error when demucs-rs exits unsuccessfully.
pub fn demucs_failure(code: Option<i32>) -> (e: AppError)
    ensures
        e matches AppError::OfflineJob { message } && message@
            == "demucs-rs failed while separating audio (exit: "@ + exit_code_text(code) + ")"@,
{
    AppError::offline_job(concat3("demucs-rs failed while separating audio (exit: ", exit_code_string(code).as_str(), ")"))
}

/// The head of an ffmpeg log: the command and its arguments joined by spaces.
pub fn ffmpeg_log_head(binary_path: &str, args: &Vec<String>) -> (h: String)
    ensures
        h@ == "command: "@ + binary_path@ + "\nargs: "@ + joined(texts(args@), " "@) + "\n"@,
{
    let a = concat3("command: ", binary_path, "\nargs: ");
    concat3(a.as_str(), join_texts(args, " ").as_str(), "\n")
}


/// What `std::path::Path::file_stem` gives for a path, as text.
pub uninterp spec fn path_file_stem(path: Seq<char>) -> Option<Seq<char>>;

/// `std::path::Path::new(path).file_stem()` as text; the contract only names
/// the result (it is a function of the path alone).
#[verifier::external_body]
fn file_stem_of(path: &str) -> (r: Option<String>)
    ensures
        match r {
            Some(n) => path_file_stem(path@) == Some(n@),
            None => path_file_stem(path@) is None,
        },
{
    std::path::Path::new(path).file_stem().and_then(|n| n.to_str()).map(|n| n.to_string())
}

/// `t` occurs in `s`.
pub open spec fn has_infix(s: Seq<char>, t: Seq<char>) -> bool {
    exists|i: int| 0 <= i && i + t.len() <= s.len() && #[trigger] s.subrange(i, i + t.len()) == t
}

/// `needle` occurs in `hay`.
pub fn contains_text(hay: &str, needle: &str) -> (r: bool)
    ensures
        r == has_infix(hay@, needle@),
{
    let h = crate::text::chars_of(hay);
    let n = crate::text::chars_of(needle);
    if n.len() > h.len() {
        proof {
            assert forall|i: int| 0 <= i && i + needle@.len() <= hay@.len() implies #[trigger] hay@.subrange(
                i,
                i + needle@.len(),
            ) != needle@ by {}
        }
        return false;
    }
    let mut i: usize = 0;
    while i <= h.len() - n.len()
        invariant
            h@ == hay@,
            n@ == needle@,
            n.len() <= h.len(),
            i <= h.len() - n.len() + 1,
            forall|k: int| 0 <= k < i ==> #[trigger] hay@.subrange(k, k + needle@.len()) != needle@,
        decreases h.len() - n.len() + 1 - i,
    {
        let mut j: usize = 0;
        while j < n.len() && h[i + j] == n[j]
            invariant
                h@ == hay@,
                n@ == needle@,
                i + n.len() <= h.len(),
                j <= n.len(),
                forall|q: int| 0 <= q < j ==> hay@[i + q] == needle@[q],
            decreases n.len() - j,
        {
            j += 1;
        }
        if j == n.len() {
            assert(hay@.subrange(i as int, i + needle@.len()) =~= needle@);
            return true;
        }
        assert(hay@.subrange(i as int, i + needle@.len())[j as int] != needle@[j as int]);
        i += 1;
    }
    proof {
        assert forall|k: int| 0 <= k && k + needle@.len() <= hay@.len() implies #[trigger] hay@.subrange(
            k,
            k + needle@.len(),
        ) != needle@ by {
            assert(k < i);
        }
    }
    false
}

/// A file stem names the separated track `stem`: it is the track's name in
/// any case, or holds `.<stem>` once lowered.
pub open spec fn stem_name_matches(name: Seq<char>, stem: Seq<char>) -> bool {
    ascii_lower_seq(name) == ascii_lower_seq(stem) || has_infix(ascii_lower_seq(name), "."@ + stem)
}

/// The file at `path` is the separated track `stem`.
pub open spec fn is_stem_file(path: Seq<char>, stem: Seq<char>) -> bool {
    path_file_stem(path) matches Some(n) && stem_name_matches(n, stem)
}

/// `p` is the first of `wavs` that is the separated track `stem`.
pub open spec fn finds_stem(wavs: Seq<String>, stem: Seq<char>, p: Seq<char>) -> bool {
    exists|i: int|
        0 <= i < wavs.len() && is_stem_file(#[trigger] wavs[i]@, stem) && p == wavs[i]@ && forall|j: int|
            0 <= j < i ==> !is_stem_file(#[trigger] wavs[j]@, stem)
}

/// None of `wavs` is the separated track `stem`.
pub open spec fn no_stem(wavs: Seq<String>, stem: Seq<char>) -> bool {
    forall|i: int| 0 <= i < wavs.len() ==> !is_stem_file(#[trigger] wavs[i]@, stem)
}

/// The error for a track Demucs did not write.
pub open spec fn missing_stem_error(e: AppError, stem: Seq<char>) -> bool {
    e matches AppError::OfflineJob { message } && message@ == "demucs-rs did not produce required "@ + stem + ".wav stem"@
}

/// Whether a file stem `name` names the separated track `stem`: see `stem_name_matches`.
pub fn names_stem(name: &str, stem: &str) -> (r: bool)
    ensures
        r == stem_name_matches(name@, stem@),
{
    let lower = ascii_lowercase(name);
    let lowered_stem = ascii_lowercase(stem);
    let dotted = concat2(".", stem);
    same_text(lower.as_str(), lowered_stem.as_str()) || contains_text(lower.as_str(), dotted.as_str())
}

/// The first of `wavs` that is the separated track `stem`.
pub fn find_stem(wavs: &Vec<String>, stem: &str) -> (r: Result<String, AppError>)
    ensures
        match r {
            Ok(p) => finds_stem(wavs@, stem@, p@),
            Err(e) => no_stem(wavs@, stem@) && missing_stem_error(e, stem@),
        },
{
    let mut i: usize = 0;
    while i < wavs.len()
        invariant
            i <= wavs@.len(),
            forall|j: int| 0 <= j < i ==> !is_stem_file(#[trigger] wavs@[j]@, stem@),
        decreases wavs.len() - i,
    {
        if let Some(name) = file_stem_of(wavs[i].as_str()) {
            if names_stem(name.as_str(), stem) {
                assert(is_stem_file(wavs@[i as int]@, stem@));
                return Ok(wavs[i].clone());
            }
        }
        i += 1;
    }
    let a = concat3("demucs-rs did not produce required ", stem, ".wav stem");
    Err(AppError::offline_job(a))
}

/// The four separated tracks among the WAV files Demucs wrote.
pub fn find_demucs_stems(wavs: &Vec<String>) -> (r: Result<DemucsRunOutput, AppError>)
    ensures
        match r {
            Ok(o) => finds_stem(wavs@, "vocals"@, o.vocals@) && finds_stem(wavs@, "drums"@, o.drums@) && finds_stem(
                wavs@,
                "bass"@,
                o.bass@,
            ) && finds_stem(wavs@, "other"@, o.other@),
            Err(e) => if no_stem(wavs@, "vocals"@) {
                missing_stem_error(e, "vocals"@)
            } else if no_stem(wavs@, "drums"@) {
                missing_stem_error(e, "drums"@)
            } else if no_stem(wavs@, "bass"@) {
                missing_stem_error(e, "bass"@)
            } else {
                no_stem(wavs@, "other"@) && missing_stem_error(e, "other"@)
            },
        },
{
    let vocals = match find_stem(wavs, "vocals") {
        Ok(p) => p,
        Err(e) => return Err(e),
    };
    let drums = match find_stem(wavs, "drums") {
        Ok(p) => p,
        Err(e) => return Err(e),
    };
    let bass = match find_stem(wavs, "bass") {
        Ok(p) => p,
        Err(e) => return Err(e),
    };
    let other = match find_stem(wavs, "other") {
        Ok(p) => p,
        Err(e) => return Err(e),
    };
    Ok(DemucsRunOutput { vocals, drums, bass, other })
}

} // verus!
