//! Mapping of a download request's user-chosen tokens onto the downloader's
//! parameters.
use vstd::prelude::*;

verus! {

/// Output directory used when none is configured.
pub const DEFAULT_OUTPUT_DIR: &'static str = "yt-dlp-output";

/// Ordinal quality tier, used alike for the video and the audio stream.
#[derive(Debug, Clone, Copy, PartialEq, Eq, Structural)]
pub enum Tier {
    Best,
    High,
    Medium,
    Low,
    Worst,
}

/// The (video, audio) tiers passed to the downloader.
#[derive(Debug, Clone, Copy, PartialEq, Eq, Structural)]
pub struct QualityPair {
    pub video: Tier,
    pub audio: Tier,
}

/// Output container chosen by the user.
#[derive(Debug, Clone, Copy, PartialEq, Eq, Structural)]
pub enum Format {
    /// Video with audio.
    Mp4,
    /// Audio only.
    Mp3,
}

/// The token that names a tier.
pub open spec fn tier_token(tier: Tier) -> Seq<char> {
    match tier {
        Tier::Best => "Best"@,
        Tier::High => "High"@,
        Tier::Medium => "Medium"@,
        Tier::Low => "Low"@,
        Tier::Worst => "Worst"@,
    }
}

/// The tier a quality token selects; an unrecognized token selects `Best`.
pub open spec fn tier_of(token: Seq<char>) -> Tier {
    if token == "High"@ {
        Tier::High
    } else if token == "Medium"@ {
        Tier::Medium
    } else if token == "Low"@ {
        Tier::Low
    } else if token == "Worst"@ {
        Tier::Worst
    } else {
        Tier::Best
    }
}

/// The format a format token selects, if any.
pub open spec fn format_of(token: Seq<char>) -> Option<Format> {
    if token == "mp4"@ {
        Some(Format::Mp4)
    } else if token == "mp3"@ {
        Some(Format::Mp3)
    } else {
        None
    }
}

/// File extension of the produced file, dot included.
pub open spec fn extension(format: Format) -> Seq<char> {
    match format {
        Format::Mp4 => ".mp4"@,
        Format::Mp3 => ".mp3"@,
    }
}

/// Character-wise equality of two strings.
fn str_eq(a: &str, b: &str) -> (r: bool)
    ensures
        r == (a@ == b@),
{
    let n = a.unicode_len();
    if n != b.unicode_len() {
        return false;
    }
    let mut i: usize = 0;
    while i < n
        invariant
            n == a@.len(),
            n == b@.len(),
            i <= n,
            forall|j: int| 0 <= j < i ==> a@[j] == b@[j],
        decreases n - i,
    {
        if a.get_char(i) != b.get_char(i) {
            return false;
        }
        i = i + 1;
    }
    assert(a@ =~= b@);
    true
}

/// Maps a quality token to the tier pair; both streams get the same tier.
pub fn map_quality(token: &str) -> (r: QualityPair)
    ensures
        r.video == tier_of(token@),
        r.audio == tier_of(token@),
{
    let tier = if str_eq(token, "High") {
        Tier::High
    } else if str_eq(token, "Medium") {
        Tier::Medium
    } else if str_eq(token, "Low") {
        Tier::Low
    } else if str_eq(token, "Worst") {
        Tier::Worst
    } else {
        Tier::Best
    };
    QualityPair { video: tier, audio: tier }
}

/// Reads a format token: `"mp4"` or `"mp3"`, anything else gives `None`.
pub fn parse_format(token: &str) -> (r: Option<Format>)
    ensures
        r == format_of(token@),
{
    if str_eq(token, "mp4") {
        Some(Format::Mp4)
    } else if str_eq(token, "mp3") {
        Some(Format::Mp3)
    } else {
        None
    }
}

/// The output file name: the requested base name with the format's extension.
pub fn output_file_name(file_name: &str, format: Format) -> (r: String)
    ensures
        r@ == file_name@ + extension(format),
{
    let mut name = String::from_str(file_name);
    match format {
        Format::Mp4 => name.append(".mp4"),
        Format::Mp3 => name.append(".mp3"),
    }
    name
}

/// The configured output directory, or `yt-dlp-output` when none is given.
pub fn output_dir(dir: Option<&str>) -> (r: String)
    ensures
        r@ == (match dir {
            Some(d) => d@,
            None => DEFAULT_OUTPUT_DIR@,
        }),
{
    match dir {
        Some(d) => String::from_str(d),
        None => String::from_str(DEFAULT_OUTPUT_DIR),
    }
}

/// The one downloader call a request leads to.
#[derive(Debug)]
pub enum DownloadCall {
    /// Video and audio streams, merged into an `.mp4` file.
    VideoWithAudio { url: String, output: String, video: Tier, audio: Tier },
    /// Audio stream only, into an `.mp3` file.
    AudioOnly { url: String, output: String, audio: Tier },
}

/// Turns a request into the downloader call to make: the video-with-audio
/// call for `"mp4"`, the audio-only call for `"mp3"`, and no call at all for
/// any other format token.
pub fn plan_download(url: &str, file_name: &str, format: &str, quality: &str) -> (r: Option<DownloadCall>)
    ensures
        format_of(format@) == None::<Format> ==> r is None,
        format_of(format@) == Some(Format::Mp4) ==> (r matches Some(
            DownloadCall::VideoWithAudio { url: u, output: o, video: v, audio: a },
        ) && u@ == url@ && o@ == file_name@ + extension(Format::Mp4) && v == tier_of(quality@)
            && a == tier_of(quality@)),
        format_of(format@) == Some(Format::Mp3) ==> (r matches Some(
            DownloadCall::AudioOnly { url: u, output: o, audio: a },
        ) && u@ == url@ && o@ == file_name@ + extension(Format::Mp3) && a == tier_of(quality@)),
{
    let tiers = map_quality(quality);
    match parse_format(format) {
        Some(Format::Mp4) => Some(
            DownloadCall::VideoWithAudio {
                url: String::from_str(url),
                output: output_file_name(file_name, Format::Mp4),
                video: tiers.video,
                audio: tiers.audio,
            },
        ),
        Some(Format::Mp3) => Some(
            DownloadCall::AudioOnly {
                url: String::from_str(url),
                output: output_file_name(file_name, Format::Mp3),
                audio: tiers.audio,
            },
        ),
        None => None,
    }
}

/// Every tier's token selects that tier, and any other token selects `Best`.
pub proof fn lemma_quality_tokens(token: Seq<char>)
    ensures
        forall|t: Tier| #[trigger] tier_of(tier_token(t)) == t,
        (forall|t: Tier| token != #[trigger] tier_token(t)) ==> tier_of(token) == Tier::Best,
{
    reveal_strlit("Best");
    reveal_strlit("High");
    reveal_strlit("Medium");
    reveal_strlit("Low");
    reveal_strlit("Worst");
    assert("Best"@[0] != "High"@[0]);
    assert("Best"@.len() == 4 && "High"@.len() == 4 && "Medium"@.len() == 6);
    assert("Low"@.len() == 3 && "Worst"@.len() == 5);
    if forall|t: Tier| token != #[trigger] tier_token(t) {
        assert(token != tier_token(Tier::High));
        assert(token != tier_token(Tier::Medium));
        assert(token != tier_token(Tier::Low));
        assert(token != tier_token(Tier::Worst));
    }
}

/// `"mp4"` selects the video-with-audio format and `"mp3"` the audio-only one.
pub proof fn lemma_format_tokens()
    ensures
        format_of("mp4"@) == Some(Format::Mp4),
        format_of("mp3"@) == Some(Format::Mp3),
{
    reveal_strlit("mp4");
    reveal_strlit("mp3");
    assert("mp4"@[2] != "mp3"@[2]);
}

} // verus!
