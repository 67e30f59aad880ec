//! Settings of the daemon and its client.
use vstd::prelude::*;
use crate::common::APP;
use crate::text::{decimal, push_decimal, push_str};

verus! {

/// Settings read from the configuration file.
#[derive(Clone, Debug)]
pub struct Config {
    /// How many downloads may run at once; `None`: no limit.
    pub concurrent_downloads: Option<u64>,
    pub socket_path: String,
    /// Megabytes of disk space to keep free.
    pub disk_threshold: u32,
    /// Directory for downloads when nothing else decides one.
    pub download_dir: String,
    pub should_notify_send: bool,
    /// Directory for temporary files (fragments, partial downloads).
    pub cache_dir: String,
    /// Download speed limit in KB/s; `None`: unlimited.
    pub throttle: Option<u32>,
    pub video_quality: String,
    /// Script that names a download directory for a URL.
    pub video_dir_script: Option<String>,
    /// SponsorBlock categories to mark as chapters in videos.
    pub sponsorblock_mark: Option<String>,
    /// SponsorBlock categories to cut out of videos.
    pub sponsorblock_remove: Option<String>,
    pub cookies_file: Option<String>,
    /// URL fetched to find out whether the internet is reachable.
    pub internet_check_url: String,
    /// Milliseconds between two reachability checks.
    pub internet_poll_rate: u64,
}

impl Config {
    /// The default settings, given the default socket path, download
    /// directory and cache directory of this machine.
    pub fn with_locations(socket_path: String, download_dir: String, cache_dir: String) -> (c:
        Config)
        ensures
            c.concurrent_downloads == Some(1u64),
            c.socket_path == socket_path,
            c.disk_threshold == 2048,
            c.download_dir == download_dir,
            c.should_notify_send,
            c.cache_dir == cache_dir,
            c.throttle is None,
            c.video_quality@ == "720p"@,
            c.video_dir_script matches Some(p) && p@ == "~/source/private/get_video_dir.sh"@,
            c.sponsorblock_mark is None,
            c.sponsorblock_remove is None,
            c.cookies_file is None,
            c.internet_check_url@ == "https://archlinux.org"@,
            c.internet_poll_rate == 10000,
    {
        Config {
            concurrent_downloads: Some(1),
            socket_path,
            disk_threshold: 1024 * 2,
            download_dir,
            should_notify_send: true,
            cache_dir,
            throttle: None,
            video_quality: "720p".to_owned(),
            video_dir_script: Some("~/source/private/get_video_dir.sh".to_owned()),
            sponsorblock_mark: None,
            sponsorblock_remove: None,
            cookies_file: None,
            internet_check_url: "https://archlinux.org".to_owned(),
            internet_poll_rate: 10000,
        }
    }
}

/// What a configuration file sets; what it leaves out keeps its default.
#[derive(Clone, Debug)]
pub struct ConfigFile {
    /// `0`: no limit.
    pub concurrent_downloads: Option<u64>,
    pub socket_path: Option<String>,
    pub disk_threshold: Option<u32>,
    pub download_dir: Option<String>,
    pub should_notify_send: Option<bool>,
    pub cache_dir: Option<String>,
    pub throttle: Option<u32>,
    pub video_quality: Option<String>,
    pub video_dir_script: Option<String>,
    pub sponsorblock_mark: Option<String>,
    pub sponsorblock_remove: Option<String>,
    pub cookies_file: Option<String>,
    pub internet_check_url: Option<String>,
    pub internet_poll_rate: Option<u64>,
}

pub open spec fn or_default<T>(o: Option<T>, d: T) -> T {
    match o {
        Some(v) => v,
        None => d,
    }
}

pub open spec fn or_else<T>(o: Option<T>, d: Option<T>) -> Option<T> {
    match o {
        Some(v) => Some(v),
        None => d,
    }
}

/// The settings of a configuration file over the defaults `d`.
pub open spec fn merged(f: ConfigFile, d: Config) -> Config {
    Config {
        concurrent_downloads: match f.concurrent_downloads {
            Some(n) => if n == 0 {
                None
            } else {
                Some(n)
            },
            None => d.concurrent_downloads,
        },
        socket_path: or_default(f.socket_path, d.socket_path),
        disk_threshold: or_default(f.disk_threshold, d.disk_threshold),
        download_dir: or_default(f.download_dir, d.download_dir),
        should_notify_send: or_default(f.should_notify_send, d.should_notify_send),
        cache_dir: or_default(f.cache_dir, d.cache_dir),
        throttle: or_else(f.throttle, d.throttle),
        video_quality: or_default(f.video_quality, d.video_quality),
        video_dir_script: or_else(f.video_dir_script, d.video_dir_script),
        sponsorblock_mark: or_else(f.sponsorblock_mark, d.sponsorblock_mark),
        sponsorblock_remove: or_else(f.sponsorblock_remove, d.sponsorblock_remove),
        cookies_file: or_else(f.cookies_file, d.cookies_file),
        internet_check_url: or_default(f.internet_check_url, d.internet_check_url),
        internet_poll_rate: or_default(f.internet_poll_rate, d.internet_poll_rate),
    }
}

fn pick<T>(o: Option<T>, d: T) -> (r: T)
    ensures
        r == or_default(o, d),
{
    match o {
        Some(v) => v,
        None => d,
    }
}

fn pick_opt<T>(o: Option<T>, d: Option<T>) -> (r: Option<T>)
    ensures
        r == or_else(o, d),
{
    match o {
        Some(v) => Some(v),
        None => d,
    }
}

/// The settings in effect: those of the configuration file read, over the
/// defaults; the defaults alone when no file could be read.
pub fn load_config(file: Option<ConfigFile>, defaults: Config) -> (c: Config)
    ensures
        c == match file {
            Some(f) => merged(f, defaults),
            None => defaults,
        },
{
    match file {
        None => defaults,
        Some(f) => Config {
            concurrent_downloads: match f.concurrent_downloads {
                Some(n) => if n == 0 {
                    None
                } else {
                    Some(n)
                },
                None => defaults.concurrent_downloads,
            },
            socket_path: pick(f.socket_path, defaults.socket_path),
            disk_threshold: pick(f.disk_threshold, defaults.disk_threshold),
            download_dir: pick(f.download_dir, defaults.download_dir),
            should_notify_send: pick(f.should_notify_send, defaults.should_notify_send),
            cache_dir: pick(f.cache_dir, defaults.cache_dir),
            throttle: pick_opt(f.throttle, defaults.throttle),
            video_quality: pick(f.video_quality, defaults.video_quality),
            video_dir_script: pick_opt(f.video_dir_script, defaults.video_dir_script),
            sponsorblock_mark: pick_opt(f.sponsorblock_mark, defaults.sponsorblock_mark),
            sponsorblock_remove: pick_opt(f.sponsorblock_remove, defaults.sponsorblock_remove),
            cookies_file: pick_opt(f.cookies_file, defaults.cookies_file),
            internet_check_url: pick(f.internet_check_url, defaults.internet_check_url),
            internet_poll_rate: pick(f.internet_poll_rate, defaults.internet_poll_rate),
        },
    }
}

/// The socket the daemon listens on.
pub fn get_socket_path(config: &Config) -> (p: String)
    ensures
        p@ == config.socket_path@,
{
    config.socket_path.clone()
}

pub open spec fn bool_text(b: bool) -> Seq<char> {
    if b {
        "true"@
    } else {
        "false"@
    }
}

/// The configuration file written when there is none: the settings `c`,
/// each with a comment (`0` concurrent downloads stands for no limit).
pub open spec fn config_file_text(c: Config) -> Seq<char> {
    "# "@ + APP@ + " Configuration File\n"@ + "# Number of concurrent downloads (0 = unlimited)\n"@
        + "concurrent_downloads = "@ + decimal(
        match c.concurrent_downloads {
            Some(n) => n as nat,
            None => 0,
        },
    ) + "\n\n"@ + "# Unix socket path for daemon communication\n"@ + "socket_path = \""@
        + c.socket_path@ + "\"\n\n"@ + "# Disk space threshold in MB to keep in reserve\n"@
        + "disk_threshold = "@ + decimal(c.disk_threshold as nat) + "\n\n"@
        + "# Default directory for downloads (fallback when get_video_dir.sh doesn't provide one)\n"@
        + "download_dir = \""@ + c.download_dir@ + "\"\n\n"@
        + "# Directory for temporary files (json, part files, etc)\n"@ + "cache_dir = \""@
        + c.cache_dir@ + "\"\n\n"@ + "# Whether to send desktop notifications (true/false)\n"@
        + "should_notify_send = "@ + bool_text(c.should_notify_send) + "\n\n"@
        + "# Download speed throttle in KB/s (optional, unlimited if not set)\n"@
        + "# throttle = 1500\n\n"@
        + "# Video quality setting: \"480p\", \"720p\", \"1080p\", \"1440p\", \"2160p\", \"best\", or custom format\n"@
        + "video_quality = \""@ + c.video_quality@ + "\"\n"@
}

/// The configuration file written when there is none (see
/// `config_file_text`).
pub fn default_config_text(c: &Config) -> (t: String)
    ensures
        t@ == config_file_text(*c),
{
    let mut t = "# ".to_owned();
    push_str(&mut t, APP);
    push_str(&mut t, " Configuration File\n");
    push_str(&mut t, "# Number of concurrent downloads (0 = unlimited)\n");
    push_str(&mut t, "concurrent_downloads = ");
    let n: u64 = match c.concurrent_downloads {
        Some(n) => n,
        None => 0,
    };
    push_decimal(&mut t, n);
    push_str(&mut t, "\n\n");
    push_str(&mut t, "# Unix socket path for daemon communication\n");
    push_str(&mut t, "socket_path = \"");
    push_str(&mut t, c.socket_path.as_str());
    push_str(&mut t, "\"\n\n");
    push_str(&mut t, "# Disk space threshold in MB to keep in reserve\n");
    push_str(&mut t, "disk_threshold = ");
    push_decimal(&mut t, c.disk_threshold as u64);
    push_str(&mut t, "\n\n");
    push_str(
        &mut t,
        "# Default directory for downloads (fallback when get_video_dir.sh doesn't provide one)\n",
    );
    push_str(&mut t, "download_dir = \"");
    push_str(&mut t, c.download_dir.as_str());
    push_str(&mut t, "\"\n\n");
    push_str(&mut t, "# Directory for temporary files (json, part files, etc)\n");
    push_str(&mut t, "cache_dir = \"");
    push_str(&mut t, c.cache_dir.as_str());
    push_str(&mut t, "\"\n\n");
    push_str(&mut t, "# Whether to send desktop notifications (true/false)\n");
    push_str(&mut t, "should_notify_send = ");
    if c.should_notify_send {
        push_str(&mut t, "true");
    } else {
        push_str(&mut t, "false");
    }
    push_str(&mut t, "\n\n");
    push_str(&mut t, "# Download speed throttle in KB/s (optional, unlimited if not set)\n");
    push_str(&mut t, "# throttle = 1500\n\n");
    push_str(
        &mut t,
        "# Video quality setting: \"480p\", \"720p\", \"1080p\", \"1440p\", \"2160p\", \"best\", or custom format\n",
    );
    push_str(&mut t, "video_quality = \"");
    push_str(&mut t, c.video_quality.as_str());
    push_str(&mut t, "\"\n");
    t
}

} // verus!
