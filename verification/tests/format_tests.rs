use tsp_ytdlp::cli::{invocation, parse_id_list, tmux_args, Args, ClientAction, Command, Invocation};
use tsp_ytdlp::client::{
    failed_reply, info_reply, kill_reply, not_running_error, queued_offline, remove_reply,
    reply_lines, status_reply, LogFile,
};
use tsp_ytdlp::common::{format_bytes, url_hash, Notification};
use tsp_ytdlp::config::{default_config_text, get_socket_path, load_config, Config, ConfigFile};
use tsp_ytdlp::download::{
    download_failure, download_plan, find_media_file, get_progress_file_path, missing_file_error,
    sanitize_title,
};
use tsp_ytdlp::locations::{
    df_args, disk_space_from, expand_path, get_default_video_dir, needs_home_dir,
    video_dir_from_script, video_dir_script,
};
use tsp_ytdlp::manager::{ConfigSummary, ServerResponse, TaskSummary};
use tsp_ytdlp::task::{GetNameMetadata, MediaType};
use tsp_ytdlp::transition::CommandOutcome;

fn config() -> Config {
    Config::with_locations("/s.sock".to_string(), "/dl".to_string(), "/cache".to_string())
}

fn summary(id: u64, url: &str) -> TaskSummary {
    TaskSummary {
        id,
        url: url.to_string(),
        title: None,
        path: None,
        task_type: "Queued".to_string(),
        error: None,
        timestamp: None,
        elapsed_seconds: None,
        is_paused: false,
        paused_reason: None,
        current_size_bytes: None,
    }
}

fn strs(v: &[&str]) -> Vec<String> {
    v.iter().map(|s| s.to_string()).collect()
}

#[test]
fn bytes_are_formatted() {
    assert_eq!(format_bytes(0), "0 bytes");
    assert_eq!(format_bytes(1023), "1023 bytes");
    assert_eq!(format_bytes(1024), "1.00 KB");
    assert_eq!(format_bytes(1152), "1.12 KB");
    assert_eq!(format_bytes(1536), "1.50 KB");
    assert_eq!(format_bytes(1048576), "1.00 MB");
    assert_eq!(format_bytes(1073741824), "1.00 GB");
    assert_eq!(format_bytes(1610612736), "1.50 GB");
    for b in [0u64, 1, 999, 1024, 1153, 5_000_000, 123_456_789_012, u64::MAX] {
        let expected = if b >= 1 << 30 {
            format!("{:.2} GB", b as f64 / (1u64 << 30) as f64)
        } else if b >= 1 << 20 {
            format!("{:.2} MB", b as f64 / (1u64 << 20) as f64)
        } else if b >= 1 << 10 {
            format!("{:.2} KB", b as f64 / (1u64 << 10) as f64)
        } else {
            format!("{} bytes", b)
        };
        assert_eq!(format_bytes(b), expected);
    }
}

#[test]
fn id_lists() {
    assert_eq!(parse_id_list("1,2, 3"), Ok(vec![1, 2, 3]));
    assert_eq!(parse_id_list("+4"), Ok(vec![4]));
    assert_eq!(
        parse_id_list("1,x"),
        Err("Invalid task ID 'x': invalid digit found in string".to_string())
    );
    assert_eq!(
        parse_id_list(""),
        Err("Invalid task ID '': cannot parse integer from empty string".to_string())
    );
    assert_eq!(
        parse_id_list("99999999999999999999"),
        Err("Invalid task ID '99999999999999999999': number too large to fit in target type".to_string())
    );
    for s in ["7", " 8 ,9", "a", "-1", "18446744073709551615"] {
        let expected: Result<Vec<u64>, String> = s
            .split(',')
            .map(|p| p.trim().parse::<u64>().map_err(|e| format!("Invalid task ID '{}': {}", p.trim(), e)))
            .collect();
        assert_eq!(parse_id_list(s), expected);
    }
}

#[test]
fn url_fingerprints() {
    assert_eq!(url_hash("https://www.youtube.com/watch?v=test"), "acf33b4debf21dbf0ecda198a3a4ea32");
    assert_eq!(
        get_progress_file_path("https://test.com"),
        "/tmp/tsp_ytdlp/progress_33faa711a94a2028b5bae1778126aec0.txt"
    );
    let n = Notification::Normal {
        url: "https://test.com".to_string(),
        message: "hi".to_string(),
        timeout_ms: Some(1000),
    };
    assert_eq!(
        n.command_args(),
        strs(&["-h", "string:x-canonical-private-synchronous:33faa711a94a2028b5bae1778126aec0", "-t", "1000", "hi"])
    );
    let c = Notification::Critical { url: "https://test.com".to_string(), message: "bad".to_string() };
    assert_eq!(
        c.command_args(),
        strs(&[
            "-h",
            "string:x-canonical-private-synchronous:33faa711a94a2028b5bae1778126aec0",
            "-u",
            "critical",
            "-t",
            "0",
            "bad"
        ])
    );
}

#[test]
fn titles_become_directory_names() {
    assert_eq!(sanitize_title("a/b\\c:d*e?f\"g<h>i|j\u{7}k\u{85}l"), "a_b_c_d_e_f_g_h_i_j_k_l");
    let long: String = std::iter::repeat('é').take(150).collect();
    assert_eq!(sanitize_title(&long).chars().count(), 100);
    assert_eq!(sanitize_title("plain"), "plain");
}

#[test]
fn video_download_plan() {
    let mut c = config();
    c.cache_dir = "/tmp/tsp_ytdlp/cache".to_string();
    c.throttle = Some(100);
    c.sponsorblock_mark = Some("all".to_string());
    c.sponsorblock_remove = Some("sponsor,interaction".to_string());
    let m = GetNameMetadata {
        title: Some("My: Video".to_string()),
        expected_size_bytes: None,
        directory: "/videos".to_string(),
    };
    let p = download_plan("https://example.com/v", MediaType::Video, &m, &c);
    let cache = "/tmp/tsp_ytdlp/cache/a6469aa3680e2ac26c5db65e3f845dd3-My_ Video";
    assert_eq!(p.final_path, "/videos/My: Video.mp4");
    assert_eq!(p.cache_dir, cache);
    assert_eq!(p.temp_path, format!("{}/My: Video.mp4", cache));
    assert_eq!(p.file_name, "My: Video.mp4");
    let home = format!("home:{}", cache);
    let temp = format!("temp:{}/fragments", cache);
    assert_eq!(
        p.args,
        strs(&[
            "--newline",
            "--progress",
            "--restrict-filename",
            "--trim-filenames",
            "200",
            "--ignore-config",
            "--no-playlist",
            "--merge-output-format",
            "mp4",
            "--format",
            "best[height<=?720]",
            "--retries",
            "infinite",
            "--fragment-retries",
            "infinite",
            "--retry-sleep",
            "linear=1:120:2",
            "--continue",
            "--skip-unavailable-fragments",
            "--parse-metadata",
            "webpage_url:%(comment)s",
            "--embed-metadata",
            "--sponsorblock-mark",
            "all",
            "--sponsorblock-remove",
            "sponsor,interaction",
            "--paths",
            &home,
            "--paths",
            &temp,
            "--limit-rate",
            "100K",
            "-o",
            "My: Video.mp4",
            "https://example.com/v",
        ])
    );
    assert_eq!(
        missing_file_error(&p),
        format!("Downloaded file not found in cache. Expected: {}/My: Video.mp4, searched in: {}", cache, cache)
    );
}

#[test]
fn audio_download_plan() {
    let mut c = config();
    c.cookies_file = Some("/c.txt".to_string());
    c.sponsorblock_mark = Some("all".to_string());
    let m = GetNameMetadata { title: None, expected_size_bytes: None, directory: "/music/".to_string() };
    let p = download_plan("https://example.com/v", MediaType::Audio, &m, &c);
    assert_eq!(p.final_path, "/music/download.ogg");
    let a = p.args;
    assert!(a.windows(2).any(|w| w[0] == "--audio-format" && w[1] == "vorbis"));
    assert!(a.windows(2).any(|w| w[0] == "--sponsorblock-remove" && w[1] == "all"));
    assert!(!a.iter().any(|x| x == "--sponsorblock-mark"));
    assert!(a.windows(2).any(|w| w[0] == "--cookies" && w[1] == "/c.txt"));
    assert!(!a.iter().any(|x| x == "--limit-rate"));
}

#[test]
fn download_outcomes() {
    assert_eq!(download_failure("ERROR: boom\nmore"), "yt-dlp failed: ERROR: boom");
    assert_eq!(download_failure(""), "yt-dlp failed: unknown error");
    let names = strs(&["a.txt", "My Video.part", "My Video.webm"]);
    assert_eq!(find_media_file(&names, "My Video", MediaType::Video), 2);
    assert_eq!(find_media_file(&names, "My Video", MediaType::Audio), 3);
}

#[test]
fn locations() {
    assert_eq!(get_default_video_dir(Some("/home/u")), "/home/u/Videos/youtube");
    assert_eq!(get_default_video_dir(None), "/tmp/videos");
    assert_eq!(expand_path("~/x", Some("/home/u")), Ok("/home/u/x".to_string()));
    assert_eq!(expand_path("$HOME/x", Some("/home/u")), Ok("/home/u/x".to_string()));
    assert_eq!(expand_path("/abs", None), Ok("/abs".to_string()));
    assert_eq!(expand_path("~/x", None), Err("HOME environment variable is not set".to_string()));

    let mut c = config();
    assert_eq!(c.video_dir_script, Some("~/source/private/get_video_dir.sh".to_string()));
    assert_eq!(
        video_dir_script("https://vimeo.com/1", &c, Some("/home/u")),
        Some("/home/u/source/private/get_video_dir.sh".to_string())
    );
    assert_eq!(video_dir_script("https://youtu.be/abc", &c, Some("/home/u")), None);
    c.video_dir_script = Some("~/bin/dir.sh".to_string());
    assert_eq!(video_dir_script("https://www.youtube.com/watch?v=a", &c, Some("/home/u")), None);
    assert_eq!(video_dir_script("https://vimeo.com/1", &c, Some("/home/u")), Some("/home/u/bin/dir.sh".to_string()));
    c.video_dir_script = None;
    assert_eq!(video_dir_script("https://vimeo.com/1", &c, Some("/home/u")), None);

    let out = |s: &str| CommandOutcome::Exited { success: true, stdout: s.to_string(), stderr: String::new() };
    assert_eq!(video_dir_from_script(&out("  ~/Videos/music\n"), "/dl", Some("/home/u")), Some("/home/u/Videos/music".to_string()));
    assert_eq!(video_dir_from_script(&out("$HOME/a/$HOME"), "/dl", Some("/home/u")), Some("/home/u/a//home/u".to_string()));
    assert_eq!(video_dir_from_script(&out("/srv/v"), "/dl", None), Some("/srv/v".to_string()));
    assert_eq!(video_dir_from_script(&out("relative"), "/dl", None), None);
    assert_eq!(video_dir_from_script(&out("/dl\n"), "/dl", None), None);
    assert_eq!(video_dir_from_script(&out(""), "/dl", None), None);
    let failed = CommandOutcome::Exited { success: false, stdout: "/x".to_string(), stderr: String::new() };
    assert_eq!(video_dir_from_script(&failed, "/dl", None), None);
    assert!(needs_home_dir(&out("~/a"), "/dl"));
    assert!(!needs_home_dir(&out("/a"), "/dl"));
}

#[test]
fn disk_space() {
    let out = |ok: bool, s: &str| CommandOutcome::Exited { success: ok, stdout: s.to_string(), stderr: String::new() };
    assert_eq!(disk_space_from(&out(true, " Avail\n 1234\n")), Ok(1234));
    assert_eq!(disk_space_from(&out(true, "Avail\n")), Err("Failed to parse df output".to_string()));
    assert_eq!(disk_space_from(&out(true, "Avail\n12M\n")), Err("Failed to parse df output".to_string()));
    assert_eq!(disk_space_from(&out(false, "")), Err("df command failed".to_string()));
    assert_eq!(disk_space_from(&CommandOutcome::SpawnFailed { error: "nope".to_string() }), Err("nope".to_string()));
    assert_eq!(df_args("/v"), strs(&["--output=avail", "--block-size=1M", "/v"]));
}

#[test]
fn configuration() {
    let d = config();
    let c = load_config(None, d.clone());
    assert_eq!(c.socket_path, "/s.sock");
    let f = ConfigFile {
        concurrent_downloads: Some(0),
        socket_path: Some("/x.sock".to_string()),
        disk_threshold: None,
        download_dir: None,
        should_notify_send: Some(false),
        cache_dir: None,
        throttle: Some(5),
        video_quality: None,
        video_dir_script: None,
        sponsorblock_mark: None,
        sponsorblock_remove: None,
        cookies_file: None,
        internet_check_url: None,
        internet_poll_rate: Some(500),
    };
    let c = load_config(Some(f), d.clone());
    assert_eq!(c.concurrent_downloads, None);
    assert_eq!(c.socket_path, "/x.sock");
    assert_eq!(c.disk_threshold, 2048);
    assert!(!c.should_notify_send);
    assert_eq!(c.throttle, Some(5));
    assert_eq!(c.internet_poll_rate, 500);
    assert_eq!(get_socket_path(&c), "/x.sock");
    assert_eq!(
        default_config_text(&d),
        "# tsp_ytdlp Configuration File\n# Number of concurrent downloads (0 = unlimited)\nconcurrent_downloads = 1\n\n# Unix socket path for daemon communication\nsocket_path = \"/s.sock\"\n\n# Disk space threshold in MB to keep in reserve\ndisk_threshold = 2048\n\n# Default directory for downloads (fallback when get_video_dir.sh doesn't provide one)\ndownload_dir = \"/dl\"\n\n# Directory for temporary files (json, part files, etc)\ncache_dir = \"/cache\"\n\n# Whether to send desktop notifications (true/false)\nshould_notify_send = true\n\n# Download speed throttle in KB/s (optional, unlimited if not set)\n# throttle = 1500\n\n# Video quality setting: \"480p\", \"720p\", \"1080p\", \"1440p\", \"2160p\", \"best\", or custom format\nvideo_quality = \"720p\"\n"
    );
}

fn args() -> Args {
    Args {
        command: None,
        url: None,
        verbose: false,
        kill: false,
        remove: None,
        info: None,
        clear: false,
        failed: false,
        config: None,
    }
}

#[test]
fn command_lines() {
    let mut a = args();
    a.command = Some(Command::Daemon { tmux: true, kill: false });
    a.kill = true;
    assert!(matches!(invocation(&a), Ok(Invocation::Daemon { tmux: true, kill: false })));
    let mut a = args();
    a.kill = true;
    a.remove = Some("1".to_string());
    assert!(matches!(invocation(&a), Ok(Invocation::Client(ClientAction::Kill))));
    let mut a = args();
    a.remove = Some("1, 2".to_string());
    a.url = Some("u".to_string());
    assert!(matches!(invocation(&a), Ok(Invocation::Client(ClientAction::Remove(ref v))) if v == &vec![1, 2]));
    a.remove = Some("a".to_string());
    assert!(matches!(invocation(&a), Err(ref e) if e == "Invalid task ID 'a': invalid digit found in string"));
    let mut a = args();
    a.info = Some(3);
    a.clear = true;
    assert!(matches!(invocation(&a), Ok(Invocation::Client(ClientAction::Info(3)))));
    let mut a = args();
    a.clear = true;
    assert!(matches!(invocation(&a), Ok(Invocation::Client(ClientAction::Clear))));
    let mut a = args();
    a.url = Some("u".to_string());
    a.failed = true;
    assert!(matches!(invocation(&a), Ok(Invocation::Client(ClientAction::Add(ref u))) if u == "u"));
    let mut a = args();
    a.failed = true;
    assert!(matches!(invocation(&a), Ok(Invocation::Client(ClientAction::Failed))));
    let mut a = args();
    a.verbose = true;
    assert!(matches!(invocation(&a), Ok(Invocation::Client(ClientAction::Status { verbose: true }))));

    let argv = strs(&["tsp", "daemon", "--tmux", "--kill", "--config", "c.toml"]);
    assert_eq!(
        tmux_args("/bin/tsp", &argv),
        strs(&["new-session", "-d", "-s", "tsp_ytdlp", "-n", "tsp-ytdlp daemon", "--", "/bin/tsp", "daemon", "--config", "c.toml"])
    );
}

fn status(q: Vec<TaskSummary>, c: Vec<TaskSummary>, d: Vec<TaskSummary>, f: Vec<TaskSummary>) -> ServerResponse {
    ServerResponse::Status {
        queued_tasks: q,
        current_tasks: c,
        completed_tasks: d,
        failed_tasks: f,
        uptime_seconds: 42,
        config_summary: ConfigSummary { concurrent_downloads: Some(2), disk_threshold: 2048, socket_path: "/s".to_string() },
        has_internet: true,
        internet_check_url: "https://archlinux.org".to_string(),
    }
}

fn sample() -> ServerResponse {
    let mut cur = summary(1, "u1");
    cur.title = Some("T1".to_string());
    cur.task_type = "DownloadVideo".to_string();
    cur.current_size_bytes = Some(2048);
    let mut done = summary(2, "u2");
    done.path = Some("/v/x.mp4".to_string());
    let mut bad = summary(3, "u3");
    bad.error = Some("boom".to_string());
    status(vec![summary(0, "q0")], vec![cur], vec![done], vec![bad])
}

#[test]
fn verbose_status() {
    let r = status_reply(&sample(), &vec![Some("12.5".to_string())], true, false);
    assert!(!r.failed);
    assert_eq!(
        r.out,
        strs(&[
            "",
            "=== tsp_ytdlp Status ===",
            "Uptime: 42s",
            "Config: 2 concurrent downloads, 2048MB disk threshold",
            "",
            "Queued (1):",
            "  #0: q0",
            "",
            "Current Downloads (1/2):",
            "  #1: T1 (12.5%, 2.00 KB)",
            "",
            "Completed (1):",
            "  #2: u2",
            "      Path: /v/x.mp4",
            "",
            "Failed (1):",
            "  #3: u3",
            "      Error: boom",
            "",
        ])
    );
}

#[test]
fn short_status() {
    let r = status_reply(&sample(), &vec![], false, true);
    assert_eq!(
        r.out,
        strs(&[
            "Current Downloads (1/2):",
            "  #1: T1 (2.00 KB)",
            "Queued (1):",
            "  #0: q0",
            "",
            "Completed (1):",
            "  #2: u2",
        ])
    );
    let r = status_reply(&sample(), &vec![], false, false);
    assert_eq!(r.out.last().unwrap(), "Failed (1)");
    let r = status_reply(&status(vec![], vec![], vec![], vec![]), &vec![], false, true);
    assert_eq!(r.out, strs(&["No tasks"]));
    let mut p = summary(4, "u4");
    p.is_paused = true;
    p.task_type = "PausedGetName".to_string();
    let r = status_reply(&status(vec![], vec![p], vec![], vec![]), &vec![], false, true);
    assert_eq!(r.out, strs(&["Current Downloads (1/2):", "  #4: u4 (PausedGetName) (Paused)"]));
    let r = status_reply(&ServerResponse::Error { message: "no".to_string() }, &vec![], false, true);
    assert!(r.failed);
    assert_eq!(r.err, strs(&["Error: no"]));
}

#[test]
fn failed_listings() {
    let mut bad = summary(3, "u3");
    bad.error = Some("boom".to_string());
    let s = status(vec![], vec![], vec![], vec![bad, summary(12, "u12")]);
    let r = failed_reply(&s, false);
    let dashes = format!("{:-<6}-+-{:-<60}", "", "");
    assert_eq!(
        r.out,
        vec![
            String::new(),
            "=== Failed Tasks (2) ===".to_string(),
            String::new(),
            format!("{:<6} | URL", "ID"),
            dashes,
            format!("{:<6} | {}", 3, "u3"),
            format!("{:<6} | Error: {}", "", "boom"),
            format!("{:<6} | {}", 12, "u12"),
        ]
    );
    let r = failed_reply(&s, true);
    assert_eq!(r.out, strs(&["u3", "u12"]));
    let r = failed_reply(&status(vec![], vec![], vec![], vec![]), true);
    assert_eq!(r.out, strs(&["No failed tasks"]));
}

#[test]
fn replies() {
    let ok = ServerResponse::Success { message: "done".to_string() };
    let err = ServerResponse::Error { message: "bad".to_string() };
    let info = ServerResponse::Info { log_file_path: "/l".to_string() };
    let r = reply_lines(&ok);
    assert_eq!((r.out, r.failed), (strs(&["done"]), false));
    let r = reply_lines(&err);
    assert_eq!((r.err, r.failed), (strs(&["Error: bad"]), true));
    let r = reply_lines(&info);
    assert_eq!((r.err, r.failed), (strs(&["Unexpected response from daemon"]), true));
    let r = remove_reply(4, &err);
    assert_eq!(r.err, strs(&["Error removing task 4: bad"]));
    let r = remove_reply(4, &info);
    assert_eq!(r.err, strs(&["Unexpected response from daemon for task 4"]));
    let r = info_reply(&info, &LogFile::Missing);
    assert_eq!(r.out, strs(&["Log file: /l", "(Log file does not exist yet)"]));
    let r = info_reply(&info, &LogFile::Read("line".to_string()));
    assert_eq!(r.out, strs(&["Log file: /l", "", "--- Log contents ---", "line"]));
    let r = info_reply(&info, &LogFile::Unreadable("denied".to_string()));
    assert_eq!(r.err, strs(&["Error reading log file: denied"]));
    let r = info_reply(&ok, &LogFile::Missing);
    assert!(r.failed);
    let (r, n) = kill_reply(&None);
    assert_eq!(r.out, strs(&["Daemon killed"]));
    assert!(matches!(n, Some(Notification::Normal { ref message, .. }) if message == "Daemon killed 💀"));
    let (r, n) = kill_reply(&Some(err));
    assert!(r.out.is_empty() && n.is_none());
    let (line, n) = queued_offline("https://a");
    assert_eq!(line, "Daemon not running, queued for next startup: https://a");
    assert!(matches!(n, Notification::Normal { ref message, timeout_ms: None, .. } if message == "Added https://a to queued tasks\ndaemon is not running 🤨"));
    assert_eq!(not_running_error("tsp"), "Daemon is not running. Start it with: tsp daemon");
}
