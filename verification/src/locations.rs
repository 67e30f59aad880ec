//! Where downloads go and how much room they have: the default download
//! directory, paths under the home directory, the directory a user script
//! names for a URL, and the free space `df` reports.
use vstd::prelude::*;
use crate::config::Config;
use crate::text::{
    chars_of, has_infix, has_prefix, line_bounds, lines, parse_unsigned, parse_unsigned_at,
    push_str, replace_all, replace_str, str_contains, str_eq, str_starts_with, string_of, trim,
    trim_bounds, trimmed,
};
use crate::transition::{CommandOutcome, OutcomeView};
use crate::task::opt_view;

verus! {

// ---------------------------------------------------------------------------
// The home directory
// ---------------------------------------------------------------------------

/// The default download directory: `Videos/youtube` in the home directory,
/// or `/tmp/videos` when the home directory is unknown.
pub open spec fn default_video_dir(home: Option<Seq<char>>) -> Seq<char> {
    match home {
        Some(h) => h + "/Videos/youtube"@,
        None => "/tmp/videos"@,
    }
}

/// The default download directory (see `default_video_dir`).
pub fn get_default_video_dir(home: Option<&str>) -> (d: String)
    ensures
        d@ == default_video_dir(
            match home {
                Some(h) => Some(h@),
                None => None,
            },
        ),
{
    match home {
        Some(h) => {
            let mut d = h.to_owned();
            push_str(&mut d, "/Videos/youtube");
            d
        },
        None => "/tmp/videos".to_owned(),
    }
}

pub open spec fn opt_str_view(o: Option<&str>) -> Option<Seq<char>> {
    match o {
        Some(s) => Some(s@),
        None => None,
    }
}

/// A path that starts with `~` or `$HOME` names a place in the home
/// directory: that prefix stands for it. Without a known home directory
/// such a path cannot be read.
pub open spec fn expanded_path(path: Seq<char>, home: Option<Seq<char>>) -> Result<Seq<char>, Seq<char>> {
    if has_prefix(path, "$HOME"@) || has_prefix(path, "~"@) {
        match home {
            None => Err("HOME environment variable is not set"@),
            Some(h) => Ok(
                if has_prefix(path, "$HOME"@) {
                    h + path.skip(5)
                } else {
                    h + path.skip(1)
                },
            ),
        }
    } else {
        Ok(path)
    }
}

/// A path with its home-directory prefix expanded (see `expanded_path`).
pub fn expand_path(path: &str, home: Option<&str>) -> (r: Result<String, String>)
    ensures
        match expanded_path(path@, opt_str_view(home)) {
            Ok(p) => r matches Ok(s) && s@ == p,
            Err(e) => r matches Err(s) && s@ == e,
        },
{
    proof {
        reveal_strlit("$HOME");
        reveal_strlit("~");
    }
    let dollar = str_starts_with(path, "$HOME");
    let tilde = str_starts_with(path, "~");
    if !dollar && !tilde {
        return Ok(path.to_owned());
    }
    match home {
        None => Err("HOME environment variable is not set".to_owned()),
        Some(h) => {
            let v = chars_of(path);
            let skip: usize = if dollar {
                5
            } else {
                1
            };
            let rest = string_of(&v, skip, v.len());
            let mut out = h.to_owned();
            push_str(&mut out, rest.as_str());
            proof {
                assert(v@.subrange(skip as int, v@.len() as int) =~= path@.skip(skip as int));
            }
            Ok(out)
        },
    }
}

// ---------------------------------------------------------------------------
// The directory a script names for a URL
// ---------------------------------------------------------------------------

/// The script to ask for the download directory of `url`: none for YouTube
/// URLs, none when no script is configured or its path cannot be expanded.
pub open spec fn video_dir_script_for(url: Seq<char>, config: Config, home: Option<Seq<char>>) -> Option<Seq<char>> {
    if has_infix(url, "youtube.com"@) || has_infix(url, "youtu.be"@) {
        None
    } else {
        match config.video_dir_script {
            None => None,
            Some(p) => match expanded_path(p@, home) {
                Ok(s) => Some(s),
                Err(_) => None,
            },
        }
    }
}

/// The script to run to find the download directory of `url` (see
/// `video_dir_script_for`); `None`: use the configured download directory.
/// The script must also exist and be executable.
pub fn video_dir_script(url: &str, config: &Config, home: Option<&str>) -> (r: Option<String>)
    ensures
        opt_view(r) == video_dir_script_for(url@, *config, opt_str_view(home)),
{
    if str_contains(url, "youtube.com") || str_contains(url, "youtu.be") {
        return None;
    }
    match &config.video_dir_script {
        None => None,
        Some(p) => match expand_path(p.as_str(), home) {
            Ok(s) => Some(s),
            Err(_) => None,
        },
    }
}

/// The directory a script printed, if it names one: the trimmed output, not
/// empty, not the default directory, starting with `/`, `~` or `$HOME`.
pub open spec fn printed_dir(stdout: Seq<char>, default_dir: Seq<char>) -> Option<Seq<char>> {
    let d = trim(stdout);
    if d.len() > 0 && d != default_dir && (has_prefix(d, "/"@) || has_prefix(d, "~"@) || has_prefix(
        d,
        "$HOME"@,
    )) {
        Some(d)
    } else {
        None
    }
}

/// Whether a printed directory needs the home directory to be read.
pub open spec fn needs_home(d: Seq<char>) -> bool {
    has_prefix(d, "$HOME"@) || has_prefix(d, "~"@)
}

/// A printed directory with every `$HOME` (when it starts with one), or
/// else every `~` (when it starts with one), replaced by the home directory.
pub open spec fn expand_printed(d: Seq<char>, home: Seq<char>) -> Seq<char> {
    if has_prefix(d, "$HOME"@) {
        replace_all(d, "$HOME"@, home)
    } else if has_prefix(d, "~"@) {
        replace_all(d, "~"@, home)
    } else {
        d
    }
}

/// The directory that the script's run names, to be created and used; `None`:
/// use the default directory.
pub open spec fn dir_from_script(o: OutcomeView, default_dir: Seq<char>, home: Option<Seq<char>>) -> Option<
    Seq<char>,
> {
    match o {
        OutcomeView::Exited { success, stdout, .. } => if success {
            match printed_dir(stdout, default_dir) {
                Some(d) => if needs_home(d) {
                    match home {
                        Some(h) => Some(expand_printed(d, h)),
                        None => None,
                    }
                } else {
                    Some(d)
                },
                None => None,
            }
        } else {
            None
        },
        OutcomeView::SpawnFailed { .. } => None,
    }
}

/// Whether reading the script's run needs the home directory.
pub open spec fn script_needs_home(o: OutcomeView, default_dir: Seq<char>) -> bool {
    match o {
        OutcomeView::Exited { success, stdout, .. } => success && match printed_dir(
            stdout,
            default_dir,
        ) {
            Some(d) => needs_home(d),
            None => false,
        },
        OutcomeView::SpawnFailed { .. } => false,
    }
}

fn printed_dir_exec(stdout: &str, default_dir: &str) -> (r: Option<String>)
    ensures
        opt_view(r) == printed_dir(stdout@, default_dir@),
{
    let d = trimmed(stdout);
    let s = d.as_str();
    if chars_of(s).len() > 0 && !str_eq(s, default_dir) && (str_starts_with(s, "/")
        || str_starts_with(s, "~") || str_starts_with(s, "$HOME")) {
        Some(d)
    } else {
        None
    }
}

/// Whether reading the script's run needs the home directory (see
/// `script_needs_home`).
pub fn needs_home_dir(o: &CommandOutcome, default_dir: &str) -> (b: bool)
    ensures
        b == script_needs_home(o@, default_dir@),
{
    match o {
        CommandOutcome::Exited { success, stdout, .. } => {
            if !*success {
                return false;
            }
            match printed_dir_exec(stdout.as_str(), default_dir) {
                Some(d) => str_starts_with(d.as_str(), "$HOME") || str_starts_with(d.as_str(), "~"),
                None => false,
            }
        },
        CommandOutcome::SpawnFailed { .. } => false,
    }
}

/// The directory that the script's run names (see `dir_from_script`). The
/// home directory must be known when the printed directory needs it.
pub fn video_dir_from_script(o: &CommandOutcome, default_dir: &str, home: Option<&str>) -> (r:
    Option<String>)
    requires
        home is None ==> !script_needs_home(o@, default_dir@),
    ensures
        opt_view(r) == dir_from_script(o@, default_dir@, opt_str_view(home)),
{
    proof {
        reveal_strlit("$HOME");
        reveal_strlit("~");
    }
    match o {
        CommandOutcome::Exited { success, stdout, .. } => {
            if !*success {
                return None;
            }
            match printed_dir_exec(stdout.as_str(), default_dir) {
                Some(d) => {
                    let s = d.as_str();
                    if str_starts_with(s, "$HOME") {
                        match home {
                            Some(h) => Some(replace_str(s, "$HOME", h)),
                            None => None,
                        }
                    } else if str_starts_with(s, "~") {
                        match home {
                            Some(h) => Some(replace_str(s, "~", h)),
                            None => None,
                        }
                    } else {
                        Some(d)
                    }
                },
                None => None,
            }
        },
        CommandOutcome::SpawnFailed { .. } => None,
    }
}

// ---------------------------------------------------------------------------
// Free disk space
// ---------------------------------------------------------------------------

/// The arguments of the `df` run that prints the megabytes available on
/// the file system holding `path`.
pub fn df_args(path: &str) -> (args: Vec<String>)
    ensures
        args.deep_view() == seq!["--output=avail"@, "--block-size=1M"@, path@],
{
    let mut args: Vec<String> = Vec::new();
    args.push("--output=avail".to_owned());
    args.push("--block-size=1M".to_owned());
    args.push(path.to_owned());
    assert(args.deep_view() =~= seq!["--output=avail"@, "--block-size=1M"@, path@]);
    args
}

/// The megabytes `df` printed: its second line, trimmed, as a `u32`.
pub open spec fn df_megabytes(stdout: Seq<char>) -> Result<u32, Seq<char>> {
    let ls = lines(stdout);
    if ls.len() >= 2 {
        match parse_unsigned(trim(ls[1]), u32::MAX as nat) {
            Ok(n) => Ok(n as u32),
            Err(_) => Err("Failed to parse df output"@),
        }
    } else {
        Err("Failed to parse df output"@)
    }
}

/// The free megabytes a `df` run reports, or why they are unknown.
pub open spec fn disk_space_of(o: OutcomeView) -> Result<u32, Seq<char>> {
    match o {
        OutcomeView::Exited { success, stdout, .. } => if success {
            df_megabytes(stdout)
        } else {
            Err("df command failed"@)
        },
        OutcomeView::SpawnFailed { error } => Err(error),
    }
}

/// The free megabytes a `df` run reports (see `disk_space_of`).
pub fn disk_space_from(o: &CommandOutcome) -> (r: Result<u32, String>)
    ensures
        match disk_space_of(o@) {
            Ok(n) => r == Ok::<u32, String>(n),
            Err(e) => r matches Err(s) && s@ == e,
        },
{
    match o {
        CommandOutcome::Exited { success, stdout, .. } => {
            if !*success {
                return Err("df command failed".to_owned());
            }
            let v = chars_of(stdout.as_str());
            let ls = line_bounds(&v, 0, v.len());
            proof {
                assert(v@.subrange(0, v@.len() as int) =~= stdout@);
            }
            if ls.len() < 2 {
                return Err("Failed to parse df output".to_owned());
            }
            let (a, b) = ls[1];
            let (c, d) = trim_bounds(&v, a, b);
            match parse_unsigned_at(&v, c, d, 4294967295u64) {
                Ok(n) => Ok(n as u32),
                Err(_) => Err("Failed to parse df output".to_owned()),
            }
        },
        CommandOutcome::SpawnFailed { error } => Err(error.clone()),
    }
}

} // verus!
