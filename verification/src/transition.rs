//! How a task moves from one state to the next. Moving may need work
//! outside the library (running yt-dlp, asking where a URL is downloaded,
//! reading the free disk space, looking for a previous partial download);
//! a `Transition` says which work it needs next, takes its outcome as an
//! event, and ends with the new task and the notifications to show.
use vstd::prelude::*;
use crate::common::{url_hash, url_hash_text, Notification, NotificationView, opt_notification_view};
use crate::config::Config;
use crate::task::{
    media_extension, opt_view, DownloadMetadata, DownloadMetadataView, GetNameMetadata,
    GetNameMetadataView, MediaType, Task, TaskKind, TaskView, copy_opt_string,
};
use crate::text::{
    decimal, first_line_or, has_infix, join_path, line_bounds, lines, parse_unsigned,
    parse_unsigned_at, push_decimal, push_str, str_contains, trim, trim_bounds, trim_end_char,
    trim_end_char_bound, chars_of, string_of, join_path_str, IntErrorKind,
};

verus! {

// ---------------------------------------------------------------------------
// States, requests and events
// ---------------------------------------------------------------------------

/// Where a transition stands.
#[derive(Debug)]
pub enum Stage {
    /// Done: `Transition::task` is the new task.
    Finished,
    /// Waiting for yt-dlp's metadata output.
    AwaitMetadata,
    /// Metadata known; waiting for the directory of the URL.
    AwaitDirectory { title: String, expected_size_bytes: Option<u64> },
    /// Starting a download whose directory is unknown; waiting for it.
    AwaitDownloadDirectory { metadata: GetNameMetadata },
    /// Starting a download; waiting for the free space of its directory.
    AwaitDiskSpace { metadata: GetNameMetadata },
    /// Starting a download; waiting to learn whether it resumes a previous one.
    AwaitResumeCheck { metadata: GetNameMetadata },
}

/// A transition in progress: the task it started from (or, once finished,
/// the task it produced) and where it stands.
#[derive(Debug)]
pub struct Transition {
    pub task: Task,
    pub stage: Stage,
}

/// Work a transition needs done before it can go on.
#[derive(Debug)]
pub enum TransitionRequest {
    /// Nothing: the transition is finished.
    Nothing,
    /// Run `yt-dlp` with these arguments and report its outcome.
    FetchMetadata { args: Vec<String> },
    /// Find the download directory of `url`.
    ResolveDirectory { url: String, media_type: MediaType },
    /// Read the free space, in MB, of the file system holding `directory`.
    CheckDiskSpace { directory: String },
    /// Look in the cache for a directory whose name starts with `url_hash`,
    /// and report the current time.
    CheckResume { url_hash: String },
}

/// What a transition asks for after a step: a notification to show first,
/// then work to do.
#[derive(Debug)]
pub struct TransitionStep {
    pub notification: Option<Notification>,
    pub request: TransitionRequest,
}

/// How a command ended.
#[derive(Clone, Debug)]
pub enum CommandOutcome {
    Exited { success: bool, stdout: String, stderr: String },
    SpawnFailed { error: String },
}

/// The outcome of the work a transition asked for.
#[derive(Debug)]
pub enum TransitionEvent {
    MetadataFetched(CommandOutcome),
    DirectoryResolved(String),
    /// Free megabytes, or why they could not be read.
    DiskSpace(Result<u32, String>),
    /// Whether a previous partial download exists, and the current time in
    /// seconds since the Unix epoch.
    ResumeChecked { is_restart: bool, started_at: u64 },
}

// ---------------------------------------------------------------------------
// Views
// ---------------------------------------------------------------------------

pub enum StageView {
    Finished,
    AwaitMetadata,
    AwaitDirectory { title: Seq<char>, expected_size_bytes: Option<u64> },
    AwaitDownloadDirectory { metadata: GetNameMetadataView },
    AwaitDiskSpace { metadata: GetNameMetadataView },
    AwaitResumeCheck { metadata: GetNameMetadataView },
}

pub struct TransitionView {
    pub task: TaskView,
    pub stage: StageView,
}

pub enum RequestView {
    Nothing,
    FetchMetadata { args: Seq<Seq<char>> },
    ResolveDirectory { url: Seq<char>, media_type: MediaType },
    CheckDiskSpace { directory: Seq<char> },
    CheckResume { url_hash: Seq<char> },
}

pub struct StepView {
    pub notification: Option<NotificationView>,
    pub request: RequestView,
}

pub enum OutcomeView {
    Exited { success: bool, stdout: Seq<char>, stderr: Seq<char> },
    SpawnFailed { error: Seq<char> },
}

pub enum EventView {
    MetadataFetched(OutcomeView),
    DirectoryResolved(Seq<char>),
    DiskSpace(Result<u32, Seq<char>>),
    ResumeChecked { is_restart: bool, started_at: u64 },
}

impl View for Stage {
    type V = StageView;

    open spec fn view(&self) -> StageView {
        match *self {
            Stage::Finished => StageView::Finished,
            Stage::AwaitMetadata => StageView::AwaitMetadata,
            Stage::AwaitDirectory { title, expected_size_bytes } => StageView::AwaitDirectory {
                title: title@,
                expected_size_bytes,
            },
            Stage::AwaitDownloadDirectory { metadata } => StageView::AwaitDownloadDirectory {
                metadata: metadata@,
            },
            Stage::AwaitDiskSpace { metadata } => StageView::AwaitDiskSpace { metadata: metadata@ },
            Stage::AwaitResumeCheck { metadata } => StageView::AwaitResumeCheck {
                metadata: metadata@,
            },
        }
    }
}

impl View for Transition {
    type V = TransitionView;

    open spec fn view(&self) -> TransitionView {
        TransitionView { task: self.task@, stage: self.stage@ }
    }
}

impl View for TransitionRequest {
    type V = RequestView;

    open spec fn view(&self) -> RequestView {
        match *self {
            TransitionRequest::Nothing => RequestView::Nothing,
            TransitionRequest::FetchMetadata { args } => RequestView::FetchMetadata {
                args: args.deep_view(),
            },
            TransitionRequest::ResolveDirectory { url, media_type } =>
                RequestView::ResolveDirectory { url: url@, media_type },
            TransitionRequest::CheckDiskSpace { directory } => RequestView::CheckDiskSpace {
                directory: directory@,
            },
            TransitionRequest::CheckResume { url_hash } => RequestView::CheckResume {
                url_hash: url_hash@,
            },
        }
    }
}

impl View for TransitionStep {
    type V = StepView;

    open spec fn view(&self) -> StepView {
        StepView {
            notification: opt_notification_view(self.notification),
            request: self.request@,
        }
    }
}

impl View for CommandOutcome {
    type V = OutcomeView;

    open spec fn view(&self) -> OutcomeView {
        match *self {
            CommandOutcome::Exited { success, stdout, stderr } => OutcomeView::Exited {
                success,
                stdout: stdout@,
                stderr: stderr@,
            },
            CommandOutcome::SpawnFailed { error } => OutcomeView::SpawnFailed { error: error@ },
        }
    }
}

impl View for TransitionEvent {
    type V = EventView;

    open spec fn view(&self) -> EventView {
        match *self {
            TransitionEvent::MetadataFetched(o) => EventView::MetadataFetched(o@),
            TransitionEvent::DirectoryResolved(d) => EventView::DirectoryResolved(d@),
            TransitionEvent::DiskSpace(r) => EventView::DiskSpace(
                match r {
                    Ok(mb) => Ok(mb),
                    Err(e) => Err(e@),
                },
            ),
            TransitionEvent::ResumeChecked { is_restart, started_at } =>
                EventView::ResumeChecked { is_restart, started_at },
        }
    }
}

// ---------------------------------------------------------------------------
// The rules
// ---------------------------------------------------------------------------

/// `" to <dir>"` when a download directory was requested, else nothing.
pub open spec fn dir_suffix(dd: Option<Seq<char>>) -> Seq<char> {
    match dd {
        Some(d) => " to "@ + d,
        None => Seq::empty(),
    }
}

/// The critical notification announcing that a task failed.
pub open spec fn failure_notice(t: TaskView, msg: Seq<char>) -> NotificationView {
    NotificationView::Critical {
        url: t.url(),
        message: "❌ Download failed:"@ + dir_suffix(t.download_dir()) + " "@ + msg,
    }
}

/// `t` failed with `msg`; what it downloads, and where, is kept.
pub open spec fn failed_task(t: TaskView, msg: Seq<char>) -> TaskView {
    TaskView::Failed {
        media_type: t.media_type(),
        url: t.url(),
        human_readable_error: msg,
        download_dir: t.download_dir(),
    }
}

/// yt-dlp's output template for the file name of a URL.
pub open spec fn output_template(url: Seq<char>, media_type: MediaType) -> Seq<char> {
    match media_type {
        MediaType::Audio => "%(track)_%(artist)s"@,
        MediaType::Video => if has_infix(url, "youtube.com"@) || has_infix(url, "youtu.be"@) {
            "%(channel)s_%(title)s"@
        } else {
            "%(title)s"@
        },
    }
}

/// The arguments of the yt-dlp run that prints a URL's file name and
/// approximate size without downloading.
pub open spec fn metadata_args(
    url: Seq<char>,
    media_type: MediaType,
    cookies: Option<Seq<char>>,
) -> Seq<Seq<char>> {
    seq![
        "--print"@,
        "filename"@,
        "--print"@,
        "filesize_approx"@,
        "--restrict-filename"@,
        "--ignore-config"@,
        "--no-playlist"@,
        "--simulate"@,
        "-o"@,
        output_template(url, media_type),
    ] + match cookies {
        Some(c) => seq!["--cookies"@, c],
        None => seq![],
    } + seq![url]
}

/// A size as yt-dlp prints it, if it is one.
pub open spec fn parse_size(s: Seq<char>) -> Option<u64> {
    match parse_unsigned(s, u64::MAX as nat) {
        Ok(n) => Some(n as u64),
        Err(_) => None,
    }
}

/// The task once its metadata is known.
pub open spec fn named_task(t: TaskView, title: Seq<char>, size: Option<u64>, dir: Seq<char>) -> TaskView {
    TaskView::GetName {
        url: t.url(),
        metadata: Some(GetNameMetadataView { title: Some(title), expected_size_bytes: size, directory: dir }),
        media_type: t.media_type(),
        download_dir: t.download_dir(),
    }
}

/// The title to show and to name the file after.
pub open spec fn title_or_download(title: Option<Seq<char>>) -> Seq<char> {
    match title {
        Some(t) => t,
        None => "download"@,
    }
}

/// The file a download ends up in.
pub open spec fn download_path(m: GetNameMetadataView, media_type: MediaType) -> Seq<char> {
    join_path(m.directory, title_or_download(m.title) + "."@ + media_extension(media_type))
}

/// The task once its download has started at `started_at`.
pub open spec fn downloading_task(t: TaskView, m: GetNameMetadataView, started_at: u64) -> TaskView {
    TaskView::DownloadVideo {
        url: t.url(),
        path: download_path(m, t.media_type()),
        media_type: t.media_type(),
        metadata: DownloadMetadataView {
            title: m.title,
            expected_size_bytes: m.expected_size_bytes,
            directory: m.directory,
            started_at: Some(started_at),
            process_id: None,
            log_file: None,
        },
        download_dir: t.download_dir(),
    }
}

pub open spec fn emoji_text(m: MediaType) -> Seq<char> {
    match m {
        MediaType::Video => "🎬"@,
        MediaType::Audio => "🎵"@,
    }
}

/// The notification announcing that a download starts or resumes.
pub open spec fn start_notice(t: TaskView, m: GetNameMetadataView, is_restart: bool) -> NotificationView {
    NotificationView::Normal {
        url: t.url(),
        message: if is_restart {
            "Resuming download: "@ + title_or_download(m.title) + dir_suffix(t.download_dir()) + " 🔄"@
        } else {
            "Downloading: "@ + title_or_download(m.title) + dir_suffix(t.download_dir()) + " "@
                + emoji_text(t.media_type())
        },
        timeout_ms: Some(3000),
    }
}

pub open spec fn finished(t: TaskView, n: Option<NotificationView>) -> (TransitionView, StepView) {
    (
        TransitionView { task: t, stage: StageView::Finished },
        StepView { notification: n, request: RequestView::Nothing },
    )
}

pub open spec fn failing(t: TaskView, msg: Seq<char>) -> (TransitionView, StepView) {
    finished(failed_task(t, msg), Some(failure_notice(t, msg)))
}

pub open spec fn waiting(t: TaskView, stage: StageView, request: RequestView) -> (TransitionView, StepView) {
    (TransitionView { task: t, stage }, StepView { notification: None, request })
}

/// The notification announcing that a URL's metadata is being fetched.
pub open spec fn processing_notice(t: TaskView) -> NotificationView {
    NotificationView::Normal {
        url: t.url(),
        message: "Processing: "@ + t.url() + dir_suffix(t.download_dir()) + " 🔄"@,
        timeout_ms: Some(30000),
    }
}

/// The first step of moving `t` to state `next`. Paused tasks do not move.
/// Any other task can fail, with `context` (or "Unknown error") as the
/// error. Queued tasks move on to fetching their metadata; tasks that fetched
/// it start downloading (or fail when there is none); downloads complete.
/// Every other move is refused and leaves the task as it is.
pub open spec fn begin_spec(
    t: TaskView,
    next: TaskKind,
    context: Option<Seq<char>>,
    cookies: Option<Seq<char>>,
) -> (TransitionView, StepView) {
    if t.is_paused() {
        finished(t, None)
    } else if next == TaskKind::Failed {
        failing(
            t,
            match context {
                Some(c) => c,
                None => "Unknown error"@,
            },
        )
    } else {
        match t {
            TaskView::Queued { url, media_type, download_dir } => if next == TaskKind::GetName {
                (
                    TransitionView { task: t, stage: StageView::AwaitMetadata },
                    StepView {
                        notification: Some(processing_notice(t)),
                        request: RequestView::FetchMetadata {
                            args: metadata_args(url, media_type, cookies),
                        },
                    },
                )
            } else {
                finished(t, None)
            },
            TaskView::GetName { metadata, .. } => if next == TaskKind::DownloadVideo {
                match metadata {
                    None => finished(failed_task(t, "Missing metadata from GetName phase"@), None),
                    Some(m) => if m.directory.len() == 0 {
                        waiting(
                            t,
                            StageView::AwaitDownloadDirectory { metadata: m },
                            RequestView::ResolveDirectory { url: t.url(), media_type: t.media_type() },
                        )
                    } else {
                        waiting(
                            t,
                            StageView::AwaitDiskSpace { metadata: m },
                            RequestView::CheckDiskSpace { directory: m.directory },
                        )
                    },
                }
            } else {
                finished(t, None)
            },
            TaskView::DownloadVideo { url, path, media_type, download_dir, .. } => if next
                == TaskKind::Completed {
                finished(TaskView::Completed { url, media_type, path, download_dir }, None)
            } else {
                finished(t, None)
            },
            _ => finished(t, None),
        }
    }
}

/// What yt-dlp's metadata output leads to.
pub open spec fn after_metadata(t: TaskView, o: OutcomeView) -> (TransitionView, StepView) {
    match o {
        OutcomeView::Exited { success, stdout, stderr } => if success {
            let ls = lines(stdout);
            if ls.len() >= 2 {
                let title = trim_end_char(trim(ls[0]), '.');
                let size = parse_size(trim(ls[1]));
                match t.download_dir() {
                    Some(d) => finished(named_task(t, title, size, d), None),
                    None => waiting(
                        t,
                        StageView::AwaitDirectory { title, expected_size_bytes: size },
                        RequestView::ResolveDirectory { url: t.url(), media_type: t.media_type() },
                    ),
                }
            } else {
                failing(t, "Failed to parse yt-dlp metadata output"@)
            }
        } else {
            failing(t, "yt-dlp metadata fetch failed: "@ + first_line_or(stderr, "unknown error"@))
        },
        OutcomeView::SpawnFailed { error } => failing(t, "Failed to spawn yt-dlp: "@ + error),
    }
}

/// The next step of a transition given the outcome of the work it asked
/// for; an outcome of some other work leaves it as it is.
pub open spec fn advance_spec(tv: TransitionView, ev: EventView, threshold: u32) -> (
    TransitionView,
    StepView,
) {
    let t = tv.task;
    let unchanged = (tv, StepView { notification: None, request: RequestView::Nothing });
    match tv.stage {
        StageView::AwaitMetadata => match ev {
            EventView::MetadataFetched(o) => after_metadata(t, o),
            _ => unchanged,
        },
        StageView::AwaitDirectory { title, expected_size_bytes } => match ev {
            EventView::DirectoryResolved(dir) => finished(
                named_task(t, title, expected_size_bytes, dir),
                None,
            ),
            _ => unchanged,
        },
        StageView::AwaitDownloadDirectory { metadata } => match ev {
            EventView::DirectoryResolved(dir) => waiting(
                t,
                StageView::AwaitDiskSpace {
                    metadata: GetNameMetadataView { directory: dir, ..metadata },
                },
                RequestView::CheckDiskSpace { directory: dir },
            ),
            _ => unchanged,
        },
        StageView::AwaitDiskSpace { metadata } => match ev {
            EventView::DiskSpace(Err(e)) => failing(t, "Failed to check disk space: "@ + e),
            EventView::DiskSpace(Ok(mb)) => if mb < threshold {
                failing(
                    t,
                    "Disk space below threshold: "@ + decimal(mb as nat) + "MB < "@ + decimal(
                        threshold as nat,
                    ) + "MB"@,
                )
            } else {
                waiting(
                    t,
                    StageView::AwaitResumeCheck { metadata },
                    RequestView::CheckResume { url_hash: url_hash_text(t.url()) },
                )
            },
            _ => unchanged,
        },
        StageView::AwaitResumeCheck { metadata } => match ev {
            EventView::ResumeChecked { is_restart, started_at } => finished(
                downloading_task(t, metadata, started_at),
                Some(start_notice(t, metadata, is_restart)),
            ),
            _ => unchanged,
        },
        StageView::Finished => unchanged,
    }
}

// ---------------------------------------------------------------------------
// Building blocks
// ---------------------------------------------------------------------------

pub open spec fn opt_ref_view(dd: Option<&String>) -> Option<Seq<char>> {
    match dd {
        Some(d) => Some(d@),
        None => None,
    }
}

fn dir_suffix_exec(dd: Option<&String>) -> (s: String)
    ensures
        s@ == dir_suffix(opt_ref_view(dd)),
{
    let mut out = String::new();
    if let Some(d) = dd {
        push_str(&mut out, " to ");
        push_str(&mut out, d.as_str());
    }
    out
}

pub(crate) fn failed_task_exec(t: &Task, msg: String) -> (r: Task)
    ensures
        r@ == failed_task(t@, msg@),
{
    let d = copy_opt_string(&match t.download_dir() {
        Some(d) => Some(d.clone()),
        None => None,
    });
    Task::Failed { media_type: t.media_type(), url: t.url().to_owned(), human_readable_error: msg, download_dir: d }
}

fn failure_notice_exec(t: &Task, msg: &String) -> (n: Notification)
    ensures
        n@ == failure_notice(t@, msg@),
{
    let mut m = "❌ Download failed:".to_owned();
    let sfx = dir_suffix_exec(t.download_dir());
    push_str(&mut m, sfx.as_str());
    push_str(&mut m, " ");
    push_str(&mut m, msg.as_str());
    Notification::Critical { url: t.url().to_owned(), message: m }
}

fn finish(task: Task, n: Option<Notification>) -> (r: (Transition, TransitionStep))
    ensures
        (r.0@, r.1@) == finished(task@, opt_notification_view(n)),
{
    (Transition { task, stage: Stage::Finished }, TransitionStep { notification: n, request: TransitionRequest::Nothing })
}

fn fail_with(t: Task, msg: String) -> (r: (Transition, TransitionStep))
    ensures
        (r.0@, r.1@) == failing(t@, msg@),
{
    let n = failure_notice_exec(&t, &msg);
    let f = failed_task_exec(&t, msg);
    finish(f, Some(n))
}

fn wait_for(t: Task, stage: Stage, request: TransitionRequest) -> (r: (Transition, TransitionStep))
    ensures
        (r.0@, r.1@) == waiting(t@, stage@, request@),
{
    (Transition { task: t, stage }, TransitionStep { notification: None, request })
}

fn output_template_exec(url: &str, media_type: MediaType) -> (s: &'static str)
    ensures
        s@ == output_template(url@, media_type),
{
    match media_type {
        MediaType::Audio => "%(track)_%(artist)s",
        MediaType::Video => if str_contains(url, "youtube.com") || str_contains(url, "youtu.be") {
            "%(channel)s_%(title)s"
        } else {
            "%(title)s"
        },
    }
}

/// The arguments of the yt-dlp run that fetches a URL's metadata.
pub fn metadata_command_args(url: &str, media_type: MediaType, cookies: &Option<String>) -> (args: Vec<String>)
    ensures
        args.deep_view() == metadata_args(url@, media_type, opt_view(*cookies)),
{
    let mut args: Vec<String> = Vec::new();
    args.push("--print".to_owned());
    args.push("filename".to_owned());
    args.push("--print".to_owned());
    args.push("filesize_approx".to_owned());
    args.push("--restrict-filename".to_owned());
    args.push("--ignore-config".to_owned());
    args.push("--no-playlist".to_owned());
    args.push("--simulate".to_owned());
    args.push("-o".to_owned());
    args.push(output_template_exec(url, media_type).to_owned());
    match cookies {
        Some(c) => {
            args.push("--cookies".to_owned());
            args.push(c.clone());
        },
        None => {},
    }
    args.push(url.to_owned());
    assert(args.deep_view() =~= metadata_args(url@, media_type, opt_view(*cookies)));
    args
}

/// The title and size yt-dlp printed: the first line, trimmed and without
/// trailing dots, and the second line as a number of bytes, if it is one.
fn parse_metadata_lines(stdout: &str) -> (r: Option<(String, Option<u64>)>)
    ensures
        match r {
            Some((title, size)) => lines(stdout@).len() >= 2 && title@ == trim_end_char(trim(lines(stdout@)[0]), '.')
                && size == parse_size(trim(lines(stdout@)[1])),
            None => lines(stdout@).len() < 2,
        },
{
    let v = chars_of(stdout);
    let bounds = line_bounds(&v, 0, v.len());
    assert(v@.subrange(0, v@.len() as int) =~= v@);
    if bounds.len() < 2 {
        return None;
    }
    let (a0, b0) = bounds[0];
    let (t0, t1) = trim_bounds(&v, a0, b0);
    let te = trim_end_char_bound(&v, t0, t1, '.');
    let title = string_of(&v, t0, te);
    let (a1, b1) = bounds[1];
    let (s0, s1) = trim_bounds(&v, a1, b1);
    let size = match parse_unsigned_at(&v, s0, s1, u64::MAX) {
        Ok(n) => Some(n),
        Err(_) => None,
    };
    Some((title, size))
}

pub(crate) fn first_line_or_exec(s: &str, default: &str) -> (r: String)
    ensures
        r@ == first_line_or(s@, default@),
{
    let v = chars_of(s);
    let bounds = line_bounds(&v, 0, v.len());
    assert(v@.subrange(0, v@.len() as int) =~= v@);
    if bounds.len() == 0 {
        default.to_owned()
    } else {
        let (a, b) = bounds[0];
        string_of(&v, a, b)
    }
}

fn named_task_exec(t: &Task, title: String, size: Option<u64>, dir: String) -> (r: Task)
    ensures
        r@ == named_task(t@, title@, size, dir@),
{
    let d = match t.download_dir() {
        Some(d) => Some(d.clone()),
        None => None,
    };
    Task::GetName {
        url: t.url().to_owned(),
        metadata: Some(GetNameMetadata { title: Some(title), expected_size_bytes: size, directory: dir }),
        media_type: t.media_type(),
        download_dir: d,
    }
}

/// The file a download ends up in: `<directory>/<title or "download">.<ext>`.
pub fn download_path_exec(m: &GetNameMetadata, media_type: MediaType) -> (p: String)
    ensures
        p@ == download_path(m@, media_type),
{
    let mut name = match &m.title {
        Some(t) => t.clone(),
        None => "download".to_owned(),
    };
    push_str(&mut name, ".");
    push_str(&mut name, media_type.extension());
    join_path_str(m.directory.as_str(), name.as_str())
}

fn downloading_task_exec(t: &Task, m: &GetNameMetadata, started_at: u64) -> (r: Task)
    ensures
        r@ == downloading_task(t@, m@, started_at),
{
    let d = match t.download_dir() {
        Some(d) => Some(d.clone()),
        None => None,
    };
    Task::DownloadVideo {
        url: t.url().to_owned(),
        path: download_path_exec(m, t.media_type()),
        media_type: t.media_type(),
        metadata: DownloadMetadata {
            title: copy_opt_string(&m.title),
            expected_size_bytes: m.expected_size_bytes,
            directory: m.directory.clone(),
            started_at: Some(started_at),
            process_id: None,
            log_file: None,
        },
        download_dir: d,
    }
}

fn start_notice_exec(t: &Task, m: &GetNameMetadata, is_restart: bool) -> (n: Notification)
    ensures
        n@ == start_notice(t@, m@, is_restart),
{
    let title = match &m.title {
        Some(x) => x.as_str(),
        None => "download",
    };
    let sfx = dir_suffix_exec(t.download_dir());
    let mut msg = String::new();
    if is_restart {
        push_str(&mut msg, "Resuming download: ");
        push_str(&mut msg, title);
        push_str(&mut msg, sfx.as_str());
        push_str(&mut msg, " 🔄");
    } else {
        push_str(&mut msg, "Downloading: ");
        push_str(&mut msg, title);
        push_str(&mut msg, sfx.as_str());
        push_str(&mut msg, " ");
        push_str(&mut msg, t.media_type().emoji());
    }
    Notification::Normal { url: t.url().to_owned(), message: msg, timeout_ms: Some(3000) }
}

// ---------------------------------------------------------------------------
// The machine
// ---------------------------------------------------------------------------

impl Transition {
    /// Starts moving `task` to state `next` (see `begin_spec`).
    pub fn begin(task: Task, next: TaskKind, context: Option<String>, config: &Config) -> (r: (
        Transition,
        TransitionStep,
    ))
        ensures
            (r.0@, r.1@) == begin_spec(task@, next, opt_view(context), opt_view(config.cookies_file)),
    {
        if task.is_paused() {
            return finish(task, None);
        }
        if next == TaskKind::Failed {
            let msg = match context {
                Some(c) => c,
                None => "Unknown error".to_owned(),
            };
            return fail_with(task, msg);
        }
        match &task {
            Task::Queued { url, media_type, download_dir } => {
                if next == TaskKind::GetName {
                    let mut msg = "Processing: ".to_owned();
                    push_str(&mut msg, url.as_str());
                    let sfx = dir_suffix_exec(download_dir.as_ref());
                    push_str(&mut msg, sfx.as_str());
                    push_str(&mut msg, " 🔄");
                    let n = Notification::Normal { url: url.clone(), message: msg, timeout_ms: Some(30000) };
                    let args = metadata_command_args(url.as_str(), *media_type, &config.cookies_file);
                    (
                        Transition { task, stage: Stage::AwaitMetadata },
                        TransitionStep { notification: Some(n), request: TransitionRequest::FetchMetadata { args } },
                    )
                } else {
                    finish(task, None)
                }
            },
            Task::GetName { metadata, .. } => {
                if next == TaskKind::DownloadVideo {
                    match metadata {
                        None => {
                            let f = failed_task_exec(&task, "Missing metadata from GetName phase".to_owned());
                            finish(f, None)
                        },
                        Some(m) => {
                            let m = m.copy();
                            if m.directory.as_str().unicode_len() == 0 {
                                let req = TransitionRequest::ResolveDirectory {
                                    url: task.url().to_owned(),
                                    media_type: task.media_type(),
                                };
                                wait_for(task, Stage::AwaitDownloadDirectory { metadata: m }, req)
                            } else {
                                let req = TransitionRequest::CheckDiskSpace { directory: m.directory.clone() };
                                wait_for(task, Stage::AwaitDiskSpace { metadata: m }, req)
                            }
                        },
                    }
                } else {
                    finish(task, None)
                }
            },
            Task::DownloadVideo { url, path, media_type, download_dir, .. } => {
                if next == TaskKind::Completed {
                    let c = Task::Completed {
                        url: url.clone(),
                        media_type: *media_type,
                        path: path.clone(),
                        download_dir: copy_opt_string(download_dir),
                    };
                    finish(c, None)
                } else {
                    finish(task, None)
                }
            },
            _ => finish(task, None),
        }
    }

    /// The next step, given the outcome of the work last asked for (see
    /// `advance_spec`).
    pub fn advance(self, event: TransitionEvent, config: &Config) -> (r: (Transition, TransitionStep))
        ensures
            (r.0@, r.1@) == advance_spec(self@, event@, config.disk_threshold),
            reports_low_disk(self@.stage, event@, config.disk_threshold) ==> {
                &&& r.0@.task is Failed
                &&& r.0@.stage is Finished
                &&& r.1@.request is Nothing
                &&& r.1@.notification matches Some(NotificationView::Critical { .. })
            },
    {
        let Transition { task, stage } = self;
        match stage {
            Stage::AwaitMetadata => match event {
                TransitionEvent::MetadataFetched(o) => Self::after_metadata_exec(task, o),
                other => {
                    let ghost ev = other@;
                    (Transition { task, stage: Stage::AwaitMetadata }, TransitionStep { notification: None, request: TransitionRequest::Nothing })
                },
            },
            Stage::AwaitDirectory { title, expected_size_bytes } => match event {
                TransitionEvent::DirectoryResolved(dir) => {
                    let t = named_task_exec(&task, title, expected_size_bytes, dir);
                    finish(t, None)
                },
                _ => (Transition { task, stage: Stage::AwaitDirectory { title, expected_size_bytes } }, TransitionStep { notification: None, request: TransitionRequest::Nothing }),
            },
            Stage::AwaitDownloadDirectory { metadata } => match event {
                TransitionEvent::DirectoryResolved(dir) => {
                    let req = TransitionRequest::CheckDiskSpace { directory: dir.clone() };
                    let m = GetNameMetadata { directory: dir, ..metadata };
                    wait_for(task, Stage::AwaitDiskSpace { metadata: m }, req)
                },
                _ => (Transition { task, stage: Stage::AwaitDownloadDirectory { metadata } }, TransitionStep { notification: None, request: TransitionRequest::Nothing }),
            },
            Stage::AwaitDiskSpace { metadata } => match event {
                TransitionEvent::DiskSpace(Err(e)) => {
                    let mut msg = "Failed to check disk space: ".to_owned();
                    push_str(&mut msg, e.as_str());
                    fail_with(task, msg)
                },
                TransitionEvent::DiskSpace(Ok(mb)) => {
                    if mb < config.disk_threshold {
                        let mut msg = "Disk space below threshold: ".to_owned();
                        push_decimal(&mut msg, mb as u64);
                        push_str(&mut msg, "MB < ");
                        push_decimal(&mut msg, config.disk_threshold as u64);
                        push_str(&mut msg, "MB");
                        fail_with(task, msg)
                    } else {
                        let h = url_hash(task.url());
                        wait_for(task, Stage::AwaitResumeCheck { metadata }, TransitionRequest::CheckResume { url_hash: h })
                    }
                },
                _ => (Transition { task, stage: Stage::AwaitDiskSpace { metadata } }, TransitionStep { notification: None, request: TransitionRequest::Nothing }),
            },
            Stage::AwaitResumeCheck { metadata } => match event {
                TransitionEvent::ResumeChecked { is_restart, started_at } => {
                    let n = start_notice_exec(&task, &metadata, is_restart);
                    let t = downloading_task_exec(&task, &metadata, started_at);
                    finish(t, Some(n))
                },
                _ => (Transition { task, stage: Stage::AwaitResumeCheck { metadata } }, TransitionStep { notification: None, request: TransitionRequest::Nothing }),
            },
            Stage::Finished => (Transition { task, stage: Stage::Finished }, TransitionStep { notification: None, request: TransitionRequest::Nothing }),
        }
    }

    fn after_metadata_exec(task: Task, o: CommandOutcome) -> (r: (Transition, TransitionStep))
        ensures
            (r.0@, r.1@) == after_metadata(task@, o@),
    {
        match o {
            CommandOutcome::Exited { success, stdout, stderr } => {
                if success {
                    match parse_metadata_lines(stdout.as_str()) {
                        Some((title, size)) => {
                            match task.download_dir() {
                                Some(d) => {
                                    let d = d.clone();
                                    let t = named_task_exec(&task, title, size, d);
                                    finish(t, None)
                                },
                                None => {
                                    let req = TransitionRequest::ResolveDirectory {
                                        url: task.url().to_owned(),
                                        media_type: task.media_type(),
                                    };
                                    wait_for(task, Stage::AwaitDirectory { title, expected_size_bytes: size }, req)
                                },
                            }
                        },
                        None => fail_with(task, "Failed to parse yt-dlp metadata output".to_owned()),
                    }
                } else {
                    let mut msg = "yt-dlp metadata fetch failed: ".to_owned();
                    let first = first_line_or_exec(stderr.as_str(), "unknown error");
                    push_str(&mut msg, first.as_str());
                    fail_with(task, msg)
                }
            },
            CommandOutcome::SpawnFailed { error } => {
                let mut msg = "Failed to spawn yt-dlp: ".to_owned();
                push_str(&mut msg, error.as_str());
                fail_with(task, msg)
            },
        }
    }
}


// ---------------------------------------------------------------------------
// Laws of transitions
// ---------------------------------------------------------------------------

/// Two tasks download the same URL, as the same media type, to the same
/// requested directory.
pub open spec fn same_identity(a: TaskView, b: TaskView) -> bool {
    a.url() == b.url() && a.media_type() == b.media_type() && a.download_dir() == b.download_dir()
}

/// How many more outside answers a stage needs at most.
pub open spec fn stage_rank(s: StageView) -> nat {
    match s {
        StageView::Finished => 0,
        StageView::AwaitDirectory { .. } => 1,
        StageView::AwaitResumeCheck { .. } => 1,
        StageView::AwaitMetadata => 2,
        StageView::AwaitDiskSpace { .. } => 2,
        StageView::AwaitDownloadDirectory { .. } => 3,
    }
}

/// `ev` is the outcome of the work that stage `s` waits for.
pub open spec fn answers(s: StageView, ev: EventView) -> bool {
    match s {
        StageView::AwaitMetadata => ev is MetadataFetched,
        StageView::AwaitDirectory { .. } => ev is DirectoryResolved,
        StageView::AwaitDownloadDirectory { .. } => ev is DirectoryResolved,
        StageView::AwaitDiskSpace { .. } => ev is DiskSpace,
        StageView::AwaitResumeCheck { .. } => ev is ResumeChecked,
        StageView::Finished => false,
    }
}

/// The work a stage waits for is what its request asks.
pub open spec fn asks_for(s: StageView, r: RequestView) -> bool {
    match s {
        StageView::Finished => r is Nothing,
        StageView::AwaitMetadata => r is FetchMetadata,
        StageView::AwaitDirectory { .. } => r is ResolveDirectory,
        StageView::AwaitDownloadDirectory { .. } => r is ResolveDirectory,
        StageView::AwaitDiskSpace { .. } => r is CheckDiskSpace,
        StageView::AwaitResumeCheck { .. } => r is CheckResume,
    }
}

/// The state a stage works towards.
pub open spec fn stage_target(s: StageView) -> TaskKind {
    match s {
        StageView::AwaitMetadata => TaskKind::GetName,
        StageView::AwaitDirectory { .. } => TaskKind::GetName,
        _ => TaskKind::DownloadVideo,
    }
}

/// A transition never changes which URL a task downloads, as what, or to
/// which requested directory; whatever it waits for, its request asks for
/// exactly that work, and once it is finished it asks for nothing.
pub proof fn law_begin(t: TaskView, next: TaskKind, context: Option<Seq<char>>, cookies: Option<Seq<char>>)
    ensures
        same_identity(begin_spec(t, next, context, cookies).0.task, t),
        asks_for(begin_spec(t, next, context, cookies).0.stage, begin_spec(t, next, context, cookies).1.request),
        begin_spec(t, next, context, cookies).0.stage is Finished ==> {
            let r = begin_spec(t, next, context, cookies).0.task;
            r == t || r.kind() == next || r.kind() == TaskKind::Failed
        },
{
}

/// Paused tasks do not move, and nothing is shown about them; any other task
/// moved to `Failed` fails at once with the given error (or "Unknown
/// error"), announced by a critical notification.
pub proof fn law_begin_paused_or_failed(t: TaskView, next: TaskKind, context: Option<Seq<char>>, cookies: Option<Seq<char>>)
    ensures
        t.is_paused() ==> begin_spec(t, next, context, cookies) == finished(t, None),
        !t.is_paused() && next == TaskKind::Failed ==> {
            let msg = match context {
                Some(c) => c,
                None => "Unknown error"@,
            };
            &&& begin_spec(t, next, context, cookies).0.task == failed_task(t, msg)
            &&& begin_spec(t, next, context, cookies).1.notification == Some(failure_notice(t, msg))
        },
{
}

/// Answering what a transition waits for always brings it closer to its
/// end, keeps what the task downloads, asks for exactly the work the new
/// stage waits for, and finishes in the state worked towards or in failure.
pub proof fn law_advance(tv: TransitionView, ev: EventView, threshold: u32)
    requires
        answers(tv.stage, ev),
    ensures
        stage_rank(advance_spec(tv, ev, threshold).0.stage) < stage_rank(tv.stage),
        same_identity(advance_spec(tv, ev, threshold).0.task, tv.task),
        asks_for(advance_spec(tv, ev, threshold).0.stage, advance_spec(tv, ev, threshold).1.request),
        advance_spec(tv, ev, threshold).0.stage is Finished ==> {
            let k = advance_spec(tv, ev, threshold).0.task.kind();
            k == stage_target(tv.stage) || k == TaskKind::Failed
        },
{
}


/// Whether `ev` reports, to a transition waiting for the free disk space,
/// less free space than `threshold` megabytes.
pub open spec fn reports_low_disk(stage: StageView, ev: EventView, threshold: u32) -> bool {
    stage is AwaitDiskSpace && match ev {
        EventView::DiskSpace(Ok(mb)) => mb < threshold,
        _ => false,
    }
}

/// Whatever the media type, a download does not start when the free space
/// reported for its directory is below the threshold: the task fails with
/// an error that names both numbers, a critical notification announces it,
/// and no more work is asked for.
pub proof fn law_low_disk_space_fails(tv: TransitionView, mb: u32, threshold: u32)
    requires
        tv.stage is AwaitDiskSpace,
        mb < threshold,
    ensures
        ({
            let r = advance_spec(tv, EventView::DiskSpace(Ok(mb)), threshold);
            let msg = "Disk space below threshold: "@ + decimal(mb as nat) + "MB < "@ + decimal(
                threshold as nat,
            ) + "MB"@;
            &&& r.0.task == (TaskView::Failed {
                media_type: tv.task.media_type(),
                url: tv.task.url(),
                human_readable_error: msg,
                download_dir: tv.task.download_dir(),
            })
            &&& r.0.stage is Finished
            &&& r.1.request is Nothing
            &&& r.1.notification matches Some(NotificationView::Critical { message, .. }) && message
                == "❌ Download failed:"@ + dir_suffix(tv.task.download_dir()) + " "@ + msg
        }),
{
}

/// When the free space reported is at least the threshold, the task stays
/// as it is and the transition goes on to look for a previous partial
/// download of its URL.
pub proof fn law_enough_disk_space_goes_on(tv: TransitionView, mb: u32, threshold: u32)
    requires
        tv.stage is AwaitDiskSpace,
        mb >= threshold,
    ensures
        ({
            let r = advance_spec(tv, EventView::DiskSpace(Ok(mb)), threshold);
            &&& r.0.task == tv.task
            &&& r.0.stage is AwaitResumeCheck
            &&& r.1.request == RequestView::CheckResume { url_hash: url_hash_text(tv.task.url()) }
            &&& r.1.notification is None
        }),
{
}

} // verus!
