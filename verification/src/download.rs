//! How a download runs: where its file goes, where yt-dlp works on it, the
//! arguments yt-dlp gets, and how to read what yt-dlp left behind.
use vstd::prelude::*;
use crate::common::{url_hash, url_hash_text, APP};
use crate::config::Config;
use crate::task::{media_extension, opt_view, GetNameMetadata, GetNameMetadataView, MediaType};
use crate::text::{
    chars_of, decimal, first_line_or, has_prefix, has_suffix, join_path, join_path_str,
    push_char, push_decimal, push_str, str_ends_with, str_starts_with,
};
use crate::transition::{first_line_or_exec, title_or_download};

verus! {

// ---------------------------------------------------------------------------
// Titles as directory names
// ---------------------------------------------------------------------------

/// Characters that cannot stand in a directory name: path separators, the
/// characters some file systems refuse, and control characters (Unicode
/// category Cc).
pub open spec fn unfit_in_name(c: char) -> bool {
    c == '/' || c == '\\' || c == ':' || c == '*' || c == '?' || c == '"' || c == '<' || c == '>'
        || c == '|' || (c as u32) <= 0x1f || (0x7f <= (c as u32) && (c as u32) <= 0x9f)
}

pub open spec fn name_char(c: char) -> char {
    if unfit_in_name(c) {
        '_'
    } else {
        c
    }
}

/// `title` with every unfit character replaced by `_`, cut to its first
/// 100 characters.
pub open spec fn sanitized(title: Seq<char>) -> Seq<char> {
    let m = title.map_values(|c: char| name_char(c));
    if m.len() <= 100 {
        m
    } else {
        m.take(100)
    }
}

/// A title made fit to name a directory (see `sanitized`).
pub fn sanitize_title(title: &str) -> (r: String)
    ensures
        r@ == sanitized(title@),
{
    let v = chars_of(title);
    let mut r = String::new();
    let mut i: usize = 0;
    let n: usize = if v.len() <= 100 {
        v.len()
    } else {
        100
    };
    while i < n
        invariant
            i <= n <= v@.len(),
            v@ == title@,
            n == (if v@.len() <= 100 {
                v@.len()
            } else {
                100
            }),
            r@ == title@.map_values(|c: char| name_char(c)).take(i as int),
        decreases n - i,
    {
        let c = v[i];
        let u = c as u32;
        let bad = c == '/' || c == '\\' || c == ':' || c == '*' || c == '?' || c == '"' || c == '<'
            || c == '>' || c == '|' || u <= 0x1f || (0x7f <= u && u <= 0x9f);
        if bad {
            push_char(&mut r, '_');
        } else {
            push_char(&mut r, c);
        }
        assert(title@.map_values(|c: char| name_char(c)).take(i + 1) =~= title@.map_values(
            |c: char| name_char(c),
        ).take(i as int).push(name_char(c)));
        i += 1;
    }
    assert(title@.map_values(|c: char| name_char(c)).len() == title@.len());
    if v.len() <= 100 {
        assert(title@.map_values(|c: char| name_char(c)).take(n as int) =~= title@.map_values(
            |c: char| name_char(c),
        ));
    }
    r
}

// ---------------------------------------------------------------------------
// The plan of a download
// ---------------------------------------------------------------------------

/// The name of the file downloaded: the title, or "download", with the
/// media's extension.
pub open spec fn download_file_name(title: Option<Seq<char>>, media_type: MediaType) -> Seq<char> {
    title_or_download(title) + "."@ + media_extension(media_type)
}

/// The cache directory where yt-dlp downloads `url`: named by the URL's
/// fingerprint and the title.
pub open spec fn download_cache_dir(cache_dir: Seq<char>, url: Seq<char>, title: Option<Seq<char>>) -> Seq<char> {
    join_path(cache_dir, url_hash_text(url) + "-"@ + sanitized(title_or_download(title)))
}

pub open spec fn leading_args() -> Seq<Seq<char>> {
    seq![
        "--newline"@,
        "--progress"@,
        "--restrict-filename"@,
        "--trim-filenames"@,
        "200"@,
        "--ignore-config"@,
        "--no-playlist"@,
    ]
}

/// Audio is extracted to Vorbis; video is merged into MP4, at most 720p.
pub open spec fn format_args(media_type: MediaType) -> Seq<Seq<char>> {
    match media_type {
        MediaType::Audio => seq![
            "--extract-audio"@,
            "--audio-format"@,
            "vorbis"@,
            "--format"@,
            "bestaudio/best"@,
        ],
        MediaType::Video => seq![
            "--merge-output-format"@,
            "mp4"@,
            "--format"@,
            "best[height<=?720]"@,
        ],
    }
}

/// Retry for ever, go on from partial files, keep the page's URL in the
/// file's metadata.
pub open spec fn retry_args() -> Seq<Seq<char>> {
    seq![
        "--retries"@,
        "infinite"@,
        "--fragment-retries"@,
        "infinite"@,
        "--retry-sleep"@,
        "linear=1:120:2"@,
        "--continue"@,
        "--skip-unavailable-fragments"@,
        "--parse-metadata"@,
        "webpage_url:%(comment)s"@,
        "--embed-metadata"@,
    ]
}

/// An option with its value when the value is given and not empty.
pub open spec fn nonempty_option(name: Seq<char>, value: Option<Seq<char>>) -> Seq<Seq<char>> {
    match value {
        Some(v) => if v.len() > 0 {
            seq![name, v]
        } else {
            seq![]
        },
        None => seq![],
    }
}

/// Audio drops every SponsorBlock segment; video marks and removes the
/// configured categories.
pub open spec fn sponsorblock_args(
    media_type: MediaType,
    mark: Option<Seq<char>>,
    remove: Option<Seq<char>>,
) -> Seq<Seq<char>> {
    match media_type {
        MediaType::Audio => seq!["--sponsorblock-remove"@, "all"@],
        MediaType::Video => nonempty_option("--sponsorblock-mark"@, mark) + nonempty_option(
            "--sponsorblock-remove"@,
            remove,
        ),
    }
}

/// Cookies, working directories and speed limit.
pub open spec fn location_args(cache: Seq<char>, config: Config) -> Seq<Seq<char>> {
    let cookies = match config.cookies_file {
        Some(c) => seq!["--cookies"@, c@],
        None => seq![],
    };
    let rate = match config.throttle {
        Some(t) => seq!["--limit-rate"@, decimal(t as nat) + "K"@],
        None => seq![],
    };
    cookies + seq!["--paths"@, "home:"@ + cache, "--paths"@, "temp:"@ + join_path(cache, "fragments"@)]
        + rate
}

/// The arguments of the yt-dlp run that downloads `url` into `cache`.
pub open spec fn download_args(
    url: Seq<char>,
    media_type: MediaType,
    title: Option<Seq<char>>,
    cache: Seq<char>,
    config: Config,
) -> Seq<Seq<char>> {
    leading_args() + format_args(media_type) + retry_args() + sponsorblock_args(
        media_type,
        opt_view(config.sponsorblock_mark),
        opt_view(config.sponsorblock_remove),
    ) + location_args(cache, config) + seq!["-o"@, download_file_name(title, media_type), url]
}

/// Everything a download needs to run.
#[derive(Debug)]
pub struct DownloadPlan {
    /// Where the file ends up.
    pub final_path: String,
    /// The directory yt-dlp works in; created before, deleted after.
    pub cache_dir: String,
    /// Where yt-dlp is expected to leave the file.
    pub temp_path: String,
    /// The name yt-dlp gives the file.
    pub file_name: String,
    /// The arguments of yt-dlp.
    pub args: Vec<String>,
}

pub struct DownloadPlanView {
    pub final_path: Seq<char>,
    pub cache_dir: Seq<char>,
    pub temp_path: Seq<char>,
    pub file_name: Seq<char>,
    pub args: Seq<Seq<char>>,
}

impl View for DownloadPlan {
    type V = DownloadPlanView;

    open spec fn view(&self) -> DownloadPlanView {
        DownloadPlanView {
            final_path: self.final_path@,
            cache_dir: self.cache_dir@,
            temp_path: self.temp_path@,
            file_name: self.file_name@,
            args: self.args.deep_view(),
        }
    }
}

/// The plan of downloading `url` as `media_type` with the metadata `m`: the
/// file goes into the metadata's directory; yt-dlp works in the URL's cache
/// directory.
pub open spec fn plan_of(url: Seq<char>, media_type: MediaType, m: GetNameMetadataView, config: Config) -> DownloadPlanView {
    let name = download_file_name(m.title, media_type);
    let cache = download_cache_dir(config.cache_dir@, url, m.title);
    DownloadPlanView {
        final_path: join_path(m.directory, name),
        cache_dir: cache,
        temp_path: join_path(cache, name),
        file_name: name,
        args: download_args(url, media_type, m.title, cache, config),
    }
}

fn push_arg(args: &mut Vec<String>, a: &str)
    ensures
        final(args).deep_view() == old(args).deep_view().push(a@),
{
    args.push(a.to_owned());
    assert(args.deep_view() =~= old(args).deep_view().push(a@));
}

fn push_nonempty_option(args: &mut Vec<String>, name: &str, value: &Option<String>)
    ensures
        final(args).deep_view() == old(args).deep_view() + nonempty_option(name@, opt_view(*value)),
{
    match value {
        Some(v) => {
            if chars_of(v.as_str()).len() > 0 {
                push_arg(args, name);
                push_arg(args, v.as_str());
                assert(args.deep_view() =~= old(args).deep_view() + seq![name@, v@]);
            } else {
                assert(args.deep_view() =~= old(args).deep_view() + Seq::<Seq<char>>::empty());
            }
        },
        None => {
            assert(args.deep_view() =~= old(args).deep_view() + Seq::<Seq<char>>::empty());
        },
    }
}

fn push_leading(args: &mut Vec<String>)
    ensures
        final(args).deep_view() == old(args).deep_view() + leading_args(),
{
    push_arg(args, "--newline");
    push_arg(args, "--progress");
    push_arg(args, "--restrict-filename");
    push_arg(args, "--trim-filenames");
    push_arg(args, "200");
    push_arg(args, "--ignore-config");
    push_arg(args, "--no-playlist");
    assert(args.deep_view() =~= old(args).deep_view() + leading_args());
}

fn push_format(args: &mut Vec<String>, media_type: MediaType)
    ensures
        final(args).deep_view() == old(args).deep_view() + format_args(media_type),
        media_type == MediaType::Audio ==> final(args).deep_view() == old(args).deep_view() + seq![
            "--extract-audio"@,
            "--audio-format"@,
            "vorbis"@,
            "--format"@,
            "bestaudio/best"@,
        ],
        media_type == MediaType::Video ==> final(args).deep_view() == old(args).deep_view() + seq![
            "--merge-output-format"@,
            "mp4"@,
            "--format"@,
            "best[height<=?720]"@,
        ],
{
    match media_type {
        MediaType::Audio => {
            push_arg(args, "--extract-audio");
            push_arg(args, "--audio-format");
            push_arg(args, "vorbis");
            push_arg(args, "--format");
            push_arg(args, "bestaudio/best");
        },
        MediaType::Video => {
            push_arg(args, "--merge-output-format");
            push_arg(args, "mp4");
            push_arg(args, "--format");
            push_arg(args, "best[height<=?720]");
        },
    }
    assert(args.deep_view() =~= old(args).deep_view() + format_args(media_type));
}

fn push_retry(args: &mut Vec<String>)
    ensures
        final(args).deep_view() == old(args).deep_view() + retry_args(),
{
    push_arg(args, "--retries");
    push_arg(args, "infinite");
    push_arg(args, "--fragment-retries");
    push_arg(args, "infinite");
    push_arg(args, "--retry-sleep");
    push_arg(args, "linear=1:120:2");
    push_arg(args, "--continue");
    push_arg(args, "--skip-unavailable-fragments");
    push_arg(args, "--parse-metadata");
    push_arg(args, "webpage_url:%(comment)s");
    push_arg(args, "--embed-metadata");
    assert(args.deep_view() =~= old(args).deep_view() + retry_args());
}

fn push_sponsorblock(args: &mut Vec<String>, media_type: MediaType, config: &Config)
    ensures
        final(args).deep_view() == old(args).deep_view() + sponsorblock_args(
            media_type,
            opt_view(config.sponsorblock_mark),
            opt_view(config.sponsorblock_remove),
        ),
{
    match media_type {
        MediaType::Audio => {
            push_arg(args, "--sponsorblock-remove");
            push_arg(args, "all");
        },
        MediaType::Video => {
            push_nonempty_option(args, "--sponsorblock-mark", &config.sponsorblock_mark);
            push_nonempty_option(args, "--sponsorblock-remove", &config.sponsorblock_remove);
        },
    }
    assert(args.deep_view() =~= old(args).deep_view() + sponsorblock_args(
        media_type,
        opt_view(config.sponsorblock_mark),
        opt_view(config.sponsorblock_remove),
    ));
}

fn push_locations(args: &mut Vec<String>, cache: &str, config: &Config)
    ensures
        final(args).deep_view() == old(args).deep_view() + location_args(cache@, *config),
{
    match &config.cookies_file {
        Some(c) => {
            push_arg(args, "--cookies");
            push_arg(args, c.as_str());
        },
        None => {},
    }
    let ghost a1 = args.deep_view();
    let mut home = "home:".to_owned();
    push_str(&mut home, cache);
    let fragments = join_path_str(cache, "fragments");
    let mut temp = "temp:".to_owned();
    push_str(&mut temp, fragments.as_str());
    push_arg(args, "--paths");
    push_arg(args, home.as_str());
    push_arg(args, "--paths");
    push_arg(args, temp.as_str());
    let ghost a2 = args.deep_view();
    match config.throttle {
        Some(t) => {
            let mut rate = String::new();
            push_decimal(&mut rate, t as u64);
            push_str(&mut rate, "K");
            push_arg(args, "--limit-rate");
            push_arg(args, rate.as_str());
        },
        None => {},
    }
    assert(args.deep_view() =~= old(args).deep_view() + location_args(cache@, *config));
}

/// The plan of a download (see `plan_of`).
pub fn download_plan(url: &str, media_type: MediaType, metadata: &GetNameMetadata, config: &Config) -> (p:
    DownloadPlan)
    ensures
        p@ == plan_of(url@, media_type, metadata@, *config),
{
    let title: &str = match &metadata.title {
        Some(t) => t.as_str(),
        None => "download",
    };
    let mut name = title.to_owned();
    push_str(&mut name, ".");
    push_str(&mut name, media_type.extension());
    let final_path = join_path_str(metadata.directory.as_str(), name.as_str());
    let mut dir_name = url_hash(url);
    push_str(&mut dir_name, "-");
    let clean = sanitize_title(title);
    push_str(&mut dir_name, clean.as_str());
    let cache = join_path_str(config.cache_dir.as_str(), dir_name.as_str());
    let temp_path = join_path_str(cache.as_str(), name.as_str());
    let mut args: Vec<String> = Vec::new();
    push_leading(&mut args);
    push_format(&mut args, media_type);
    push_retry(&mut args);
    push_sponsorblock(&mut args, media_type, config);
    push_locations(&mut args, cache.as_str(), config);
    let ghost a = args.deep_view();
    push_arg(&mut args, "-o");
    push_arg(&mut args, name.as_str());
    push_arg(&mut args, url);
    proof {
        let title_v = opt_view(metadata.title);
        let l = leading_args();
        let f = format_args(media_type);
        let r = retry_args();
        let sb = sponsorblock_args(
            media_type,
            opt_view(config.sponsorblock_mark),
            opt_view(config.sponsorblock_remove),
        );
        let loc = location_args(cache@, *config);
        let o = seq!["-o"@, download_file_name(title_v, media_type), url@];
        assert(a =~= l + f + r + sb + loc);
        assert(args.deep_view() =~= l + f + r + sb + loc + o);
        assert(download_args(url@, media_type, title_v, cache@, *config) =~= l + f + r + sb + loc + o);
    }
    DownloadPlan { final_path, cache_dir: cache, temp_path, file_name: name, args }
}

// ---------------------------------------------------------------------------
// What yt-dlp left behind
// ---------------------------------------------------------------------------

/// The error of a failed yt-dlp run: the first line it wrote to its error
/// output.
pub open spec fn download_failure_text(stderr: Seq<char>) -> Seq<char> {
    "yt-dlp failed: "@ + first_line_or(stderr, "unknown error"@)
}

/// The error of a failed yt-dlp run (see `download_failure_text`).
pub fn download_failure(stderr: &str) -> (e: String)
    ensures
        e@ == download_failure_text(stderr@),
{
    let mut e = "yt-dlp failed: ".to_owned();
    let l = first_line_or_exec(stderr, "unknown error");
    push_str(&mut e, l.as_str());
    e
}

/// A file named like the downloaded media: it starts with the title and
/// ends with an extension of the media's kind.
pub open spec fn is_media_file(name: Seq<char>, title: Seq<char>, media_type: MediaType) -> bool {
    has_prefix(name, title) && match media_type {
        MediaType::Audio => has_suffix(name, ".ogg"@),
        MediaType::Video => has_suffix(name, ".mp4"@) || has_suffix(name, ".mkv"@) || has_suffix(
            name,
            ".webm"@,
        ),
    }
}

/// Index of the first of `names` that is the downloaded media file, when
/// yt-dlp did not leave the file where it was expected; `names.len()` if
/// none is.
pub fn find_media_file(names: &Vec<String>, title: &str, media_type: MediaType) -> (i: usize)
    ensures
        i <= names@.len(),
        i < names@.len() ==> is_media_file(names@[i as int]@, title@, media_type),
        forall|j: int| 0 <= j < i ==> !is_media_file(#[trigger] names@[j]@, title@, media_type),
{
    let mut i: usize = 0;
    while i < names.len()
        invariant
            i <= names@.len(),
            forall|j: int| 0 <= j < i ==> !is_media_file(#[trigger] names@[j]@, title@, media_type),
        decreases names.len() - i,
    {
        let n = names[i].as_str();
        let ext_ok = match media_type {
            MediaType::Audio => str_ends_with(n, ".ogg"),
            MediaType::Video => str_ends_with(n, ".mp4") || str_ends_with(n, ".mkv")
                || str_ends_with(n, ".webm"),
        };
        if str_starts_with(n, title) && ext_ok {
            return i;
        }
        i += 1;
    }
    i
}

/// The error when the downloaded file cannot be found.
pub open spec fn missing_file_text(temp_path: Seq<char>, cache_dir: Seq<char>) -> Seq<char> {
    "Downloaded file not found in cache. Expected: "@ + temp_path + ", searched in: "@ + cache_dir
}

/// The error when the downloaded file cannot be found (see
/// `missing_file_text`).
pub fn missing_file_error(plan: &DownloadPlan) -> (e: String)
    ensures
        e@ == missing_file_text(plan.temp_path@, plan.cache_dir@),
{
    let mut e = "Downloaded file not found in cache. Expected: ".to_owned();
    push_str(&mut e, plan.temp_path.as_str());
    push_str(&mut e, ", searched in: ");
    push_str(&mut e, plan.cache_dir.as_str());
    e
}

/// The file where a download's progress is written.
pub open spec fn progress_file_path(url: Seq<char>) -> Seq<char> {
    "/tmp/"@ + APP@ + "/progress_"@ + url_hash_text(url) + ".txt"@
}

/// The file where a download's progress is written (see
/// `progress_file_path`).
pub fn get_progress_file_path(url: &str) -> (p: String)
    ensures
        p@ == progress_file_path(url@),
{
    let mut p = "/tmp/".to_owned();
    push_str(&mut p, APP);
    push_str(&mut p, "/progress_");
    let h = url_hash(url);
    push_str(&mut p, h.as_str());
    push_str(&mut p, ".txt");
    p
}

// ---------------------------------------------------------------------------
// Laws
// ---------------------------------------------------------------------------

/// A sanitized title holds no character unfit for a directory name and at
/// most 100 characters.
pub proof fn law_sanitized_fits(title: Seq<char>)
    ensures
        sanitized(title).len() <= 100,
        sanitized(title).len() == (if title.len() <= 100 {
            title.len()
        } else {
            100
        }),
        forall|i: int| 0 <= i < sanitized(title).len() ==> !unfit_in_name(#[trigger] sanitized(title)[i]),
{
    let m = title.map_values(|c: char| name_char(c));
    assert forall|i: int| 0 <= i < sanitized(title).len() implies !unfit_in_name(#[trigger] sanitized(title)[i]) by {
        assert(sanitized(title)[i] == m[i]);
        assert(m[i] == name_char(title[i]));
    }
}

/// The cache directory a download works in is named after the URL's
/// fingerprint, so looking for a previous download of the URL by its
/// fingerprint finds it.
pub proof fn law_download_cache_named_by_url(cache_dir: Seq<char>, url: Seq<char>, title: Option<Seq<char>>)
    ensures
        has_prefix(url_hash_text(url) + "-"@ + sanitized(title_or_download(title)), url_hash_text(url)),
        download_cache_dir(cache_dir, url, title) == join_path(
            cache_dir,
            url_hash_text(url) + "-"@ + sanitized(title_or_download(title)),
        ),
{
    let h = url_hash_text(url);
    let name = h + "-"@ + sanitized(title_or_download(title));
    assert(name.take(h.len() as int) =~= h);
}


/// What yt-dlp is asked to produce, whatever the URL, title and settings:
/// for audio, the best audio stream, extracted and converted to Vorbis; for
/// video, the best stream of at most 720 lines, merged into MP4. These
/// options follow the seven fixed leading ones.
pub proof fn law_download_formats(url: Seq<char>, media_type: MediaType, m: GetNameMetadataView, config: Config)
    ensures
        media_type == MediaType::Audio ==> {
            let a = plan_of(url, media_type, m, config).args;
            &&& a.len() >= 12
            &&& a.subrange(7, 12) == seq![
                "--extract-audio"@,
                "--audio-format"@,
                "vorbis"@,
                "--format"@,
                "bestaudio/best"@,
            ]
        },
        media_type == MediaType::Video ==> {
            let a = plan_of(url, media_type, m, config).args;
            &&& a.len() >= 11
            &&& a.subrange(7, 11) == seq![
                "--merge-output-format"@,
                "mp4"@,
                "--format"@,
                "best[height<=?720]"@,
            ]
        },
{
    let cache = download_cache_dir(config.cache_dir@, url, m.title);
    let l = leading_args();
    let f = format_args(media_type);
    let rest = retry_args() + sponsorblock_args(
        media_type,
        opt_view(config.sponsorblock_mark),
        opt_view(config.sponsorblock_remove),
    ) + location_args(cache, config) + seq!["-o"@, download_file_name(m.title, media_type), url];
    let a = plan_of(url, media_type, m, config).args;
    assert(a =~= l + (f + rest));
    assert(a.subrange(7, 7 + f.len() as int) =~= f);
}

} // verus!
