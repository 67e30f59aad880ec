//! What the client prints for the daemon's answers: the status report, the
//! failed tasks, and the replies to the other requests.
use vstd::prelude::*;
use crate::common::{format_bytes, format_bytes_text, Notification, NotificationView, APP};
use crate::manager::{summaries_view, ResponseView, ServerResponse, SummaryView, TaskSummary};
use crate::task::opt_view;
use crate::text::{decimal, push_decimal, push_str};

verus! {

// ---------------------------------------------------------------------------
// Replies
// ---------------------------------------------------------------------------

/// Lines for standard output and standard error, and whether the client
/// then exits with status 1.
pub struct ClientReply {
    pub out: Vec<String>,
    pub err: Vec<String>,
    pub failed: bool,
}

pub struct ReplyView {
    pub out: Seq<Seq<char>>,
    pub err: Seq<Seq<char>>,
    pub failed: bool,
}

impl View for ClientReply {
    type V = ReplyView;

    open spec fn view(&self) -> ReplyView {
        ReplyView { out: self.out.deep_view(), err: self.err.deep_view(), failed: self.failed }
    }
}

pub open spec fn printed(out: Seq<Seq<char>>) -> ReplyView {
    ReplyView { out, err: seq![], failed: false }
}

pub open spec fn failure(err: Seq<Seq<char>>) -> ReplyView {
    ReplyView { out: seq![], err, failed: true }
}

/// The reply to a request answered by a message: the message on success;
/// the error, or a complaint about an unexpected answer, with a failure.
pub open spec fn message_reply(r: ResponseView) -> ReplyView {
    match r {
        ResponseView::Success { message } => printed(seq![message]),
        ResponseView::Error { message } => failure(seq!["Error: "@ + message]),
        _ => failure(seq!["Unexpected response from daemon"@]),
    }
}

fn one_line(l: String) -> (v: Vec<String>)
    ensures
        v.deep_view() == seq![l@],
{
    let mut v: Vec<String> = Vec::new();
    v.push(l);
    assert(v.deep_view() =~= seq![l@]);
    v
}

fn print_reply(out: Vec<String>) -> (r: ClientReply)
    ensures
        r@ == printed(out.deep_view()),
{
    let r = ClientReply { out, err: Vec::new(), failed: false };
    assert(r@.err =~= Seq::<Seq<char>>::empty());
    r
}

fn fail_reply(err: Vec<String>) -> (r: ClientReply)
    ensures
        r@ == failure(err.deep_view()),
{
    let r = ClientReply { out: Vec::new(), err, failed: true };
    assert(r@.out =~= Seq::<Seq<char>>::empty());
    r
}

/// The reply to a request answered by a message (see `message_reply`).
pub fn reply_lines(response: &ServerResponse) -> (r: ClientReply)
    ensures
        r@ == message_reply(response@),
{
    match response {
        ServerResponse::Success { message } => print_reply(one_line(message.clone())),
        ServerResponse::Error { message } => {
            let mut l = "Error: ".to_owned();
            push_str(&mut l, message.as_str());
            fail_reply(one_line(l))
        },
        _ => fail_reply(one_line("Unexpected response from daemon".to_owned())),
    }
}

/// The reply to removing task `id`: the message on success; otherwise an
/// error naming the task, with a failure.
pub open spec fn remove_reply_of(id: u64, r: ResponseView) -> ReplyView {
    match r {
        ResponseView::Success { message } => printed(seq![message]),
        ResponseView::Error { message } => failure(
            seq!["Error removing task "@ + decimal(id as nat) + ": "@ + message],
        ),
        _ => failure(seq!["Unexpected response from daemon for task "@ + decimal(id as nat)]),
    }
}

/// The reply to removing task `id` (see `remove_reply_of`).
pub fn remove_reply(id: u64, response: &ServerResponse) -> (r: ClientReply)
    ensures
        r@ == remove_reply_of(id, response@),
{
    match response {
        ServerResponse::Success { message } => print_reply(one_line(message.clone())),
        ServerResponse::Error { message } => {
            let mut l = "Error removing task ".to_owned();
            push_decimal(&mut l, id);
            push_str(&mut l, ": ");
            push_str(&mut l, message.as_str());
            fail_reply(one_line(l))
        },
        _ => {
            let mut l = "Unexpected response from daemon for task ".to_owned();
            push_decimal(&mut l, id);
            fail_reply(one_line(l))
        },
    }
}

/// What the client says when the daemon does not run: the URL is kept for
/// the daemon's next start.
pub open spec fn queued_offline_line(url: Seq<char>) -> Seq<char> {
    "Daemon not running, queued for next startup: "@ + url
}

/// The notification that a URL was kept for the daemon's next start.
pub open spec fn queued_offline_notice(url: Seq<char>) -> NotificationView {
    NotificationView::Normal {
        url,
        message: "Added "@ + url + " to queued tasks\ndaemon is not running 🤨"@,
        timeout_ms: None,
    }
}

/// The line and notification when a URL is kept for the daemon's next
/// start (see `queued_offline_line` and `queued_offline_notice`).
pub fn queued_offline(url: &str) -> (r: (String, Notification))
    ensures
        r.0@ == queued_offline_line(url@),
        r.1@ == queued_offline_notice(url@),
{
    let mut l = "Daemon not running, queued for next startup: ".to_owned();
    push_str(&mut l, url);
    let mut m = "Added ".to_owned();
    push_str(&mut m, url);
    push_str(&mut m, " to queued tasks\ndaemon is not running 🤨");
    (l, Notification::Normal { url: url.to_owned(), message: m, timeout_ms: None })
}

/// The notification that the client killed the daemon.
pub fn killed_notice() -> (n: Notification)
    ensures
        n@ == (NotificationView::Normal {
            url: APP@,
            message: "Daemon killed 💀"@,
            timeout_ms: Some(1500),
        }),
{
    Notification::Normal {
        url: APP.to_owned(),
        message: "Daemon killed 💀".to_owned(),
        timeout_ms: Some(1500),
    }
}

/// The error when the daemon cannot be reached because it does not run.
pub open spec fn not_running_text(program: Seq<char>) -> Seq<char> {
    "Daemon is not running. Start it with: "@ + program + " daemon"@
}

/// The error when the daemon cannot be reached because it does not run
/// (see `not_running_text`).
pub fn not_running_error(program: &str) -> (e: String)
    ensures
        e@ == not_running_text(program@),
{
    let mut e = "Daemon is not running. Start it with: ".to_owned();
    push_str(&mut e, program);
    push_str(&mut e, " daemon");
    e
}

/// What reading a task's log file gave.
#[derive(Clone, Debug)]
pub enum LogFile {
    /// There is no such file yet.
    Missing,
    Read(String),
    /// The file exists but could not be read, for this reason.
    Unreadable(String),
}

pub enum LogView {
    Missing,
    Read(Seq<char>),
    Unreadable(Seq<char>),
}

impl View for LogFile {
    type V = LogView;

    open spec fn view(&self) -> LogView {
        match *self {
            LogFile::Missing => LogView::Missing,
            LogFile::Read(s) => LogView::Read(s@),
            LogFile::Unreadable(e) => LogView::Unreadable(e@),
        }
    }
}

/// The reply to an info request: the log file's path, then its contents, or
/// that it does not exist yet, or why it could not be read.
pub open spec fn info_reply_of(r: ResponseView, log: LogView) -> ReplyView {
    match r {
        ResponseView::Info { log_file_path } => {
            let head = "Log file: "@ + log_file_path;
            match log {
                LogView::Missing => printed(seq![head, "(Log file does not exist yet)"@]),
                LogView::Read(c) => printed(seq![head, Seq::empty(), "--- Log contents ---"@, c]),
                LogView::Unreadable(e) => ReplyView {
                    out: seq![head, Seq::empty(), "--- Log contents ---"@],
                    err: seq!["Error reading log file: "@ + e],
                    failed: false,
                },
            }
        },
        ResponseView::Error { message } => failure(seq!["Error: "@ + message]),
        _ => failure(seq!["Unexpected response from daemon"@]),
    }
}

/// The reply to an info request (see `info_reply_of`); `log` is what
/// reading the log file named in the answer gave.
pub fn info_reply(response: &ServerResponse, log: &LogFile) -> (r: ClientReply)
    ensures
        r@ == info_reply_of(response@, log@),
{
    match response {
        ServerResponse::Info { log_file_path } => {
            let mut head = "Log file: ".to_owned();
            push_str(&mut head, log_file_path.as_str());
            let mut out: Vec<String> = Vec::new();
            out.push(head);
            match log {
                LogFile::Missing => {
                    out.push("(Log file does not exist yet)".to_owned());
                    assert(out.deep_view() =~= info_reply_of(response@, log@).out);
                    print_reply(out)
                },
                LogFile::Read(c) => {
                    out.push(String::new());
                    out.push("--- Log contents ---".to_owned());
                    out.push(c.clone());
                    assert(out.deep_view() =~= info_reply_of(response@, log@).out);
                    print_reply(out)
                },
                LogFile::Unreadable(e) => {
                    out.push(String::new());
                    out.push("--- Log contents ---".to_owned());
                    let mut el = "Error reading log file: ".to_owned();
                    push_str(&mut el, e.as_str());
                    let err = one_line(el);
                    assert(out.deep_view() =~= info_reply_of(response@, log@).out);
                    ClientReply { out, err, failed: false }
                },
            }
        },
        ServerResponse::Error { message } => {
            let mut l = "Error: ".to_owned();
            push_str(&mut l, message.as_str());
            fail_reply(one_line(l))
        },
        _ => fail_reply(one_line("Unexpected response from daemon".to_owned())),
    }
}

/// The reply to a kill request: the daemon's message, or "Daemon killed"
/// when it stopped without answering (`None`); any other answer prints
/// nothing. The kill is announced whenever the daemon answered with success
/// or did not answer.
pub open spec fn kill_reply_of(r: Option<ResponseView>) -> (ReplyView, bool) {
    match r {
        Some(ResponseView::Success { message }) => (printed(seq![message]), true),
        None => (printed(seq!["Daemon killed"@]), true),
        _ => (printed(seq![]), false),
    }
}

/// The reply to a kill request (see `kill_reply_of`), with the notification
/// to show, if any.
pub fn kill_reply(response: &Option<ServerResponse>) -> (r: (ClientReply, Option<Notification>))
    ensures
        r.0@ == kill_reply_of(crate::daemon::opt_response_view(*response)).0,
        r.1 is Some == kill_reply_of(crate::daemon::opt_response_view(*response)).1,
        r.1 matches Some(n) ==> n@ == (NotificationView::Normal {
            url: APP@,
            message: "Daemon killed 💀"@,
            timeout_ms: Some(1500),
        }),
{
    match response {
        Some(ServerResponse::Success { message }) => (
            print_reply(one_line(message.clone())),
            Some(killed_notice()),
        ),
        None => (print_reply(one_line("Daemon killed".to_owned())), Some(killed_notice())),
        _ => {
            let r = print_reply(Vec::new());
            assert(r@.out =~= Seq::<Seq<char>>::empty());
            (r, None)
        },
    }
}

// ---------------------------------------------------------------------------
// The status report
// ---------------------------------------------------------------------------

pub open spec fn title_or_url(t: SummaryView) -> Seq<char> {
    match t.title {
        Some(x) => x,
        None => t.url,
    }
}

pub open spec fn task_head(t: SummaryView) -> Seq<char> {
    "  #"@ + decimal(t.id as nat) + ": "@
}

/// The progress shown after a running task: the percentage (text given),
/// the size reached, both, or else the task's state.
pub open spec fn progress_part(t: SummaryView, percent: Option<Seq<char>>) -> Seq<char> {
    match percent {
        Some(p) => match t.current_size_bytes {
            Some(b) => " ("@ + p + "%, "@ + format_bytes_text(b as nat) + ")"@,
            None => " ("@ + p + "%)"@,
        },
        None => match t.current_size_bytes {
            Some(b) => " ("@ + format_bytes_text(b as nat) + ")"@,
            None => " ("@ + t.task_type + ")"@,
        },
    }
}

/// The line of a running task.
pub open spec fn current_line(t: SummaryView, percent: Option<Seq<char>>) -> Seq<char> {
    task_head(t) + title_or_url(t) + progress_part(t, percent) + if t.is_paused {
        " (Paused)"@
    } else {
        Seq::empty()
    }
}

pub open spec fn path_lines(t: SummaryView) -> Seq<Seq<char>> {
    match t.path {
        Some(p) => seq!["      Path: "@ + p],
        None => seq![],
    }
}

/// The percentage text of the `i`th running task, if any.
pub open spec fn percent_at(percents: Seq<Option<Seq<char>>>, i: int) -> Option<Seq<char>> {
    if 0 <= i < percents.len() {
        percents[i]
    } else {
        None
    }
}

pub open spec fn queued_lines(ts: Seq<SummaryView>) -> Seq<Seq<char>>
    decreases ts.len(),
{
    if ts.len() == 0 {
        seq![]
    } else {
        queued_lines(ts.drop_last()).push(task_head(ts.last()) + ts.last().url)
    }
}

pub open spec fn current_lines(ts: Seq<SummaryView>, percents: Seq<Option<Seq<char>>>, with_path: bool) -> Seq<
    Seq<char>,
>
    decreases ts.len(),
{
    if ts.len() == 0 {
        seq![]
    } else {
        let i = ts.len() - 1;
        current_lines(ts.drop_last(), percents, with_path) + seq![
            current_line(ts[i], percent_at(percents, i)),
        ] + if with_path {
            path_lines(ts[i])
        } else {
            seq![]
        }
    }
}

pub open spec fn completed_lines(ts: Seq<SummaryView>) -> Seq<Seq<char>>
    decreases ts.len(),
{
    if ts.len() == 0 {
        seq![]
    } else {
        completed_lines(ts.drop_last()) + seq![task_head(ts.last()) + title_or_url(ts.last())]
            + path_lines(ts.last())
    }
}

pub open spec fn completed_short_lines(ts: Seq<SummaryView>) -> Seq<Seq<char>>
    decreases ts.len(),
{
    if ts.len() == 0 {
        seq![]
    } else {
        completed_short_lines(ts.drop_last()).push(
            task_head(ts.last()) + match ts.last().title {
                Some(x) => x + " "@,
                None => Seq::empty(),
            } + ts.last().url,
        )
    }
}

pub open spec fn failed_lines(ts: Seq<SummaryView>) -> Seq<Seq<char>>
    decreases ts.len(),
{
    if ts.len() == 0 {
        seq![]
    } else {
        failed_lines(ts.drop_last()) + seq![task_head(ts.last()) + ts.last().url] + match ts.last().error {
            Some(e) => seq!["      Error: "@ + e],
            None => seq![],
        }
    }
}

pub open spec fn section(cond: bool, lines: Seq<Seq<char>>) -> Seq<Seq<char>> {
    if cond {
        lines
    } else {
        seq![]
    }
}

/// The heading of the running tasks, with the limit when there is one.
pub open spec fn current_heading(n: nat, limit: Option<u64>) -> Seq<char> {
    "Current Downloads ("@ + decimal(n) + match limit {
        Some(l) => "/"@ + decimal(l as nat),
        None => Seq::empty(),
    } + "):"@
}

pub open spec fn verbose_header(uptime: u64, limit: Option<u64>, disk_threshold: u32) -> Seq<Seq<char>> {
    seq![
        Seq::empty(),
        "=== tsp_ytdlp Status ==="@,
        "Uptime: "@ + decimal(uptime as nat) + "s"@,
        "Config: "@ + match limit {
            Some(l) => decimal(l as nat),
            None => "unlimited"@,
        } + " concurrent downloads, "@ + decimal(disk_threshold as nat) + "MB disk threshold"@,
        Seq::empty(),
    ]
}

pub open spec fn verbose_queued(q: Seq<SummaryView>) -> Seq<Seq<char>> {
    section(q.len() > 0, seq!["Queued ("@ + decimal(q.len()) + "):"@] + queued_lines(q) + seq![Seq::empty()])
}

pub open spec fn verbose_current(c: Seq<SummaryView>, limit: Option<u64>, percents: Seq<Option<Seq<char>>>) -> Seq<
    Seq<char>,
> {
    section(
        c.len() > 0,
        seq![current_heading(c.len(), limit)] + current_lines(c, percents, true) + seq![Seq::empty()],
    )
}

pub open spec fn verbose_completed(d: Seq<SummaryView>) -> Seq<Seq<char>> {
    section(
        d.len() > 0,
        seq!["Completed ("@ + decimal(d.len()) + "):"@] + completed_lines(d) + seq![Seq::empty()],
    )
}

pub open spec fn verbose_failed(f: Seq<SummaryView>, filter_failed: bool) -> Seq<Seq<char>> {
    section(
        !filter_failed && f.len() > 0,
        seq!["Failed ("@ + decimal(f.len()) + "):"@] + failed_lines(f) + seq![Seq::empty()],
    )
}

pub open spec fn short_current(c: Seq<SummaryView>, limit: Option<u64>, percents: Seq<Option<Seq<char>>>) -> Seq<
    Seq<char>,
> {
    section(c.len() > 0, seq![current_heading(c.len(), limit)] + current_lines(c, percents, false))
}

pub open spec fn short_queued(q: Seq<SummaryView>) -> Seq<Seq<char>> {
    section(q.len() > 0, seq!["Queued ("@ + decimal(q.len()) + "):"@] + queued_lines(q))
}

pub open spec fn short_completed(d: Seq<SummaryView>) -> Seq<Seq<char>> {
    section(
        d.len() > 0,
        seq![Seq::empty(), "Completed ("@ + decimal(d.len()) + "):"@] + completed_short_lines(d),
    )
}

pub open spec fn short_failed(f: Seq<SummaryView>, filter_failed: bool) -> Seq<Seq<char>> {
    section(!filter_failed && f.len() > 0, seq!["Failed ("@ + decimal(f.len()) + ")"@])
}

/// The status report as printed. Verbose: a header, then queued, running
/// (with paths), completed and (unless left out) failed tasks, each section
/// followed by an empty line. Short: running, queued, completed tasks (with
/// titles and URLs), and only the number of failed tasks. "No tasks" when
/// there are none.
pub open spec fn status_lines(
    q: Seq<SummaryView>,
    c: Seq<SummaryView>,
    d: Seq<SummaryView>,
    f: Seq<SummaryView>,
    uptime: u64,
    limit: Option<u64>,
    disk_threshold: u32,
    percents: Seq<Option<Seq<char>>>,
    verbose: bool,
    filter_failed: bool,
) -> Seq<Seq<char>> {
    let body = if verbose {
        verbose_header(uptime, limit, disk_threshold) + verbose_queued(q) + verbose_current(
            c,
            limit,
            percents,
        ) + verbose_completed(d) + verbose_failed(f, filter_failed)
    } else {
        short_current(c, limit, percents) + short_queued(q) + short_completed(d) + short_failed(
            f,
            filter_failed,
        )
    };
    body + section(
        q.len() == 0 && c.len() == 0 && d.len() == 0 && f.len() == 0,
        seq!["No tasks"@],
    )
}

/// The reply to a status request: the report (`percents` gives the
/// percentage text of each running task that has one), or the error.
pub open spec fn status_reply_of(
    r: ResponseView,
    percents: Seq<Option<Seq<char>>>,
    verbose: bool,
    filter_failed: bool,
) -> ReplyView {
    match r {
        ResponseView::Status {
            queued_tasks,
            current_tasks,
            completed_tasks,
            failed_tasks,
            uptime_seconds,
            concurrent_downloads,
            disk_threshold,
            ..
        } => printed(
            status_lines(
                queued_tasks,
                current_tasks,
                completed_tasks,
                failed_tasks,
                uptime_seconds,
                concurrent_downloads,
                disk_threshold,
                percents,
                verbose,
                filter_failed,
            ),
        ),
        _ => message_reply(r),
    }
}

pub open spec fn opt_strings_view(v: Seq<Option<String>>) -> Seq<Option<Seq<char>>> {
    v.map_values(|o: Option<String>| opt_view(o))
}

fn push_line(lines: &mut Vec<String>, l: String)
    ensures
        final(lines).deep_view() == old(lines).deep_view().push(l@),
{
    lines.push(l);
    assert(lines.deep_view() =~= old(lines).deep_view().push(l@));
}

fn head_of(t: &TaskSummary) -> (s: String)
    ensures
        s@ == task_head(t@),
{
    let mut s = "  #".to_owned();
    push_decimal(&mut s, t.id);
    push_str(&mut s, ": ");
    s
}

fn counted(label: &str, n: usize, end: &str) -> (s: String)
    ensures
        s@ == label@ + decimal(n as nat) + end@,
{
    let mut s = label.to_owned();
    push_decimal(&mut s, n as u64);
    push_str(&mut s, end);
    s
}

fn push_queued(lines: &mut Vec<String>, ts: &Vec<TaskSummary>)
    ensures
        final(lines).deep_view() == old(lines).deep_view() + queued_lines(summaries_view(ts@)),
{
    let ghost sv = summaries_view(ts@);
    let mut i: usize = 0;
    assert(sv.take(0) =~= Seq::<SummaryView>::empty());
    assert(lines.deep_view() =~= old(lines).deep_view() + queued_lines(sv.take(0)));
    while i < ts.len()
        invariant
            i <= ts@.len(),
            sv == summaries_view(ts@),
            lines.deep_view() == old(lines).deep_view() + queued_lines(sv.take(i as int)),
        decreases ts.len() - i,
    {
        assert(sv.take(i + 1).drop_last() =~= sv.take(i as int));
        assert(sv.take(i + 1).last() == ts@[i as int]@);
        let mut l = head_of(&ts[i]);
        push_str(&mut l, ts[i].url.as_str());
        push_line(lines, l);
        assert(lines.deep_view() =~= old(lines).deep_view() + queued_lines(sv.take(i + 1)));
        i += 1;
    }
    assert(sv.take(ts@.len() as int) =~= sv);
}

fn current_line_exec(t: &TaskSummary, percent: &Option<String>) -> (s: String)
    ensures
        s@ == current_line(t@, opt_view(*percent)),
{
    let mut s = head_of(t);
    match &t.title {
        Some(x) => push_str(&mut s, x.as_str()),
        None => push_str(&mut s, t.url.as_str()),
    }
    match percent {
        Some(p) => match t.current_size_bytes {
            Some(b) => {
                push_str(&mut s, " (");
                push_str(&mut s, p.as_str());
                push_str(&mut s, "%, ");
                let fb = format_bytes(b);
                push_str(&mut s, fb.as_str());
                push_str(&mut s, ")");
            },
            None => {
                push_str(&mut s, " (");
                push_str(&mut s, p.as_str());
                push_str(&mut s, "%)");
            },
        },
        None => match t.current_size_bytes {
            Some(b) => {
                push_str(&mut s, " (");
                let fb = format_bytes(b);
                push_str(&mut s, fb.as_str());
                push_str(&mut s, ")");
            },
            None => {
                push_str(&mut s, " (");
                push_str(&mut s, t.task_type.as_str());
                push_str(&mut s, ")");
            },
        },
    }
    if t.is_paused {
        push_str(&mut s, " (Paused)");
    }
    s
}

fn push_path(lines: &mut Vec<String>, t: &TaskSummary)
    ensures
        final(lines).deep_view() == old(lines).deep_view() + path_lines(t@),
{
    match &t.path {
        Some(p) => {
            let mut l = "      Path: ".to_owned();
            push_str(&mut l, p.as_str());
            push_line(lines, l);
            assert(lines.deep_view() =~= old(lines).deep_view() + path_lines(t@));
        },
        None => {
            assert(lines.deep_view() =~= old(lines).deep_view() + path_lines(t@));
        },
    }
}

fn push_current(lines: &mut Vec<String>, ts: &Vec<TaskSummary>, percents: &Vec<Option<String>>, with_path: bool)
    ensures
        final(lines).deep_view() == old(lines).deep_view() + current_lines(
            summaries_view(ts@),
            opt_strings_view(percents@),
            with_path,
        ),
{
    let ghost sv = summaries_view(ts@);
    let ghost pv = opt_strings_view(percents@);
    let mut i: usize = 0;
    assert(sv.take(0) =~= Seq::<SummaryView>::empty());
    assert(lines.deep_view() =~= old(lines).deep_view() + current_lines(sv.take(0), pv, with_path));
    while i < ts.len()
        invariant
            i <= ts@.len(),
            sv == summaries_view(ts@),
            pv == opt_strings_view(percents@),
            lines.deep_view() == old(lines).deep_view() + current_lines(sv.take(i as int), pv, with_path),
        decreases ts.len() - i,
    {
        let ghost before = lines.deep_view();
        assert(sv.take(i + 1).drop_last() =~= sv.take(i as int));
        assert(sv.take(i + 1)[i as int] == ts@[i as int]@);
        let none: Option<String> = None;
        let p: &Option<String> = if i < percents.len() {
            &percents[i]
        } else {
            &none
        };
        assert(opt_view(*p) == percent_at(pv, i as int));
        let l = current_line_exec(&ts[i], p);
        push_line(lines, l);
        let ghost mid = lines.deep_view();
        if with_path {
            push_path(lines, &ts[i]);
        }
        assert(lines.deep_view() =~= before + seq![current_line(ts@[i as int]@, percent_at(pv, i as int))]
            + (if with_path {
            path_lines(ts@[i as int]@)
        } else {
            Seq::<Seq<char>>::empty()
        }));
        assert(lines.deep_view() =~= old(lines).deep_view() + current_lines(sv.take(i + 1), pv, with_path));
        i += 1;
    }
    assert(sv.take(ts@.len() as int) =~= sv);
}

fn push_completed(lines: &mut Vec<String>, ts: &Vec<TaskSummary>)
    ensures
        final(lines).deep_view() == old(lines).deep_view() + completed_lines(summaries_view(ts@)),
{
    let ghost sv = summaries_view(ts@);
    let mut i: usize = 0;
    assert(sv.take(0) =~= Seq::<SummaryView>::empty());
    assert(lines.deep_view() =~= old(lines).deep_view() + completed_lines(sv.take(0)));
    while i < ts.len()
        invariant
            i <= ts@.len(),
            sv == summaries_view(ts@),
            lines.deep_view() == old(lines).deep_view() + completed_lines(sv.take(i as int)),
        decreases ts.len() - i,
    {
        let ghost before = lines.deep_view();
        assert(sv.take(i + 1).drop_last() =~= sv.take(i as int));
        assert(sv.take(i + 1).last() == ts@[i as int]@);
        let mut l = head_of(&ts[i]);
        match &ts[i].title {
            Some(x) => push_str(&mut l, x.as_str()),
            None => push_str(&mut l, ts[i].url.as_str()),
        }
        push_line(lines, l);
        push_path(lines, &ts[i]);
        assert(lines.deep_view() =~= old(lines).deep_view() + completed_lines(sv.take(i + 1)));
        i += 1;
    }
    assert(sv.take(ts@.len() as int) =~= sv);
}

fn push_completed_short(lines: &mut Vec<String>, ts: &Vec<TaskSummary>)
    ensures
        final(lines).deep_view() == old(lines).deep_view() + completed_short_lines(
            summaries_view(ts@),
        ),
{
    let ghost sv = summaries_view(ts@);
    let mut i: usize = 0;
    assert(sv.take(0) =~= Seq::<SummaryView>::empty());
    assert(lines.deep_view() =~= old(lines).deep_view() + completed_short_lines(sv.take(0)));
    while i < ts.len()
        invariant
            i <= ts@.len(),
            sv == summaries_view(ts@),
            lines.deep_view() == old(lines).deep_view() + completed_short_lines(sv.take(i as int)),
        decreases ts.len() - i,
    {
        assert(sv.take(i + 1).drop_last() =~= sv.take(i as int));
        assert(sv.take(i + 1).last() == ts@[i as int]@);
        let mut l = head_of(&ts[i]);
        match &ts[i].title {
            Some(x) => {
                push_str(&mut l, x.as_str());
                push_str(&mut l, " ");
            },
            None => {},
        }
        push_str(&mut l, ts[i].url.as_str());
        assert(l@ =~= task_head(ts@[i as int]@) + match ts@[i as int]@.title {
            Some(x) => x + " "@,
            None => Seq::<char>::empty(),
        } + ts@[i as int]@.url);
        push_line(lines, l);
        assert(lines.deep_view() =~= old(lines).deep_view() + completed_short_lines(sv.take(i + 1)));
        i += 1;
    }
    assert(sv.take(ts@.len() as int) =~= sv);
}

fn push_failed(lines: &mut Vec<String>, ts: &Vec<TaskSummary>)
    ensures
        final(lines).deep_view() == old(lines).deep_view() + failed_lines(summaries_view(ts@)),
{
    let ghost sv = summaries_view(ts@);
    let mut i: usize = 0;
    assert(sv.take(0) =~= Seq::<SummaryView>::empty());
    assert(lines.deep_view() =~= old(lines).deep_view() + failed_lines(sv.take(0)));
    while i < ts.len()
        invariant
            i <= ts@.len(),
            sv == summaries_view(ts@),
            lines.deep_view() == old(lines).deep_view() + failed_lines(sv.take(i as int)),
        decreases ts.len() - i,
    {
        let ghost before = lines.deep_view();
        assert(sv.take(i + 1).drop_last() =~= sv.take(i as int));
        assert(sv.take(i + 1).last() == ts@[i as int]@);
        let mut l = head_of(&ts[i]);
        push_str(&mut l, ts[i].url.as_str());
        push_line(lines, l);
        match &ts[i].error {
            Some(e) => {
                let mut el = "      Error: ".to_owned();
                push_str(&mut el, e.as_str());
                push_line(lines, el);
            },
            None => {},
        }
        assert(lines.deep_view() =~= old(lines).deep_view() + failed_lines(sv.take(i + 1)));
        i += 1;
    }
    assert(sv.take(ts@.len() as int) =~= sv);
}

fn current_heading_exec(n: usize, limit: Option<u64>) -> (s: String)
    ensures
        s@ == current_heading(n as nat, limit),
{
    let mut s = "Current Downloads (".to_owned();
    push_decimal(&mut s, n as u64);
    match limit {
        Some(l) => {
            push_str(&mut s, "/");
            push_decimal(&mut s, l);
        },
        None => {},
    }
    push_str(&mut s, "):");
    s
}

fn push_verbose_header(lines: &mut Vec<String>, uptime: u64, limit: Option<u64>, disk_threshold: u32)
    ensures
        final(lines).deep_view() == old(lines).deep_view() + verbose_header(uptime, limit, disk_threshold),
{
    push_line(lines, String::new());
    push_line(lines, "=== tsp_ytdlp Status ===".to_owned());
    let mut u = "Uptime: ".to_owned();
    push_decimal(&mut u, uptime);
    push_str(&mut u, "s");
    push_line(lines, u);
    let mut cfg = "Config: ".to_owned();
    match limit {
        Some(l) => push_decimal(&mut cfg, l),
        None => push_str(&mut cfg, "unlimited"),
    }
    push_str(&mut cfg, " concurrent downloads, ");
    push_decimal(&mut cfg, disk_threshold as u64);
    push_str(&mut cfg, "MB disk threshold");
    push_line(lines, cfg);
    push_line(lines, String::new());
    assert(lines.deep_view() =~= old(lines).deep_view() + verbose_header(uptime, limit, disk_threshold));
}

fn push_verbose_queued(lines: &mut Vec<String>, q: &Vec<TaskSummary>)
    ensures
        final(lines).deep_view() == old(lines).deep_view() + verbose_queued(summaries_view(q@)),
{
    if q.len() > 0 {
        push_line(lines, counted("Queued (", q.len(), "):"));
        push_queued(lines, q);
        push_line(lines, String::new());
    }
    assert(lines.deep_view() =~= old(lines).deep_view() + verbose_queued(summaries_view(q@)));
}

fn push_verbose_current(lines: &mut Vec<String>, c: &Vec<TaskSummary>, limit: Option<u64>, percents: &Vec<Option<String>>)
    ensures
        final(lines).deep_view() == old(lines).deep_view() + verbose_current(
            summaries_view(c@),
            limit,
            opt_strings_view(percents@),
        ),
{
    if c.len() > 0 {
        push_line(lines, current_heading_exec(c.len(), limit));
        push_current(lines, c, percents, true);
        push_line(lines, String::new());
    }
    assert(lines.deep_view() =~= old(lines).deep_view() + verbose_current(
        summaries_view(c@),
        limit,
        opt_strings_view(percents@),
    ));
}

fn push_verbose_completed(lines: &mut Vec<String>, d: &Vec<TaskSummary>)
    ensures
        final(lines).deep_view() == old(lines).deep_view() + verbose_completed(summaries_view(d@)),
{
    if d.len() > 0 {
        push_line(lines, counted("Completed (", d.len(), "):"));
        push_completed(lines, d);
        push_line(lines, String::new());
    }
    assert(lines.deep_view() =~= old(lines).deep_view() + verbose_completed(summaries_view(d@)));
}

fn push_verbose_failed(lines: &mut Vec<String>, f: &Vec<TaskSummary>, filter_failed: bool)
    ensures
        final(lines).deep_view() == old(lines).deep_view() + verbose_failed(summaries_view(f@), filter_failed),
{
    if !filter_failed && f.len() > 0 {
        push_line(lines, counted("Failed (", f.len(), "):"));
        push_failed(lines, f);
        push_line(lines, String::new());
    }
    assert(lines.deep_view() =~= old(lines).deep_view() + verbose_failed(summaries_view(f@), filter_failed));
}

fn push_short_current(lines: &mut Vec<String>, c: &Vec<TaskSummary>, limit: Option<u64>, percents: &Vec<Option<String>>)
    ensures
        final(lines).deep_view() == old(lines).deep_view() + short_current(
            summaries_view(c@),
            limit,
            opt_strings_view(percents@),
        ),
{
    if c.len() > 0 {
        push_line(lines, current_heading_exec(c.len(), limit));
        push_current(lines, c, percents, false);
    }
    assert(lines.deep_view() =~= old(lines).deep_view() + short_current(
        summaries_view(c@),
        limit,
        opt_strings_view(percents@),
    ));
}

fn push_short_queued(lines: &mut Vec<String>, q: &Vec<TaskSummary>)
    ensures
        final(lines).deep_view() == old(lines).deep_view() + short_queued(summaries_view(q@)),
{
    if q.len() > 0 {
        push_line(lines, counted("Queued (", q.len(), "):"));
        push_queued(lines, q);
    }
    assert(lines.deep_view() =~= old(lines).deep_view() + short_queued(summaries_view(q@)));
}

fn push_short_completed(lines: &mut Vec<String>, d: &Vec<TaskSummary>)
    ensures
        final(lines).deep_view() == old(lines).deep_view() + short_completed(summaries_view(d@)),
{
    if d.len() > 0 {
        push_line(lines, String::new());
        push_line(lines, counted("Completed (", d.len(), "):"));
        push_completed_short(lines, d);
    }
    assert(lines.deep_view() =~= old(lines).deep_view() + short_completed(summaries_view(d@)));
}

fn push_short_failed(lines: &mut Vec<String>, f: &Vec<TaskSummary>, filter_failed: bool)
    ensures
        final(lines).deep_view() == old(lines).deep_view() + short_failed(summaries_view(f@), filter_failed),
{
    if !filter_failed && f.len() > 0 {
        push_line(lines, counted("Failed (", f.len(), ")"));
    }
    assert(lines.deep_view() =~= old(lines).deep_view() + short_failed(summaries_view(f@), filter_failed));
}

fn status_body(
    q: &Vec<TaskSummary>,
    c: &Vec<TaskSummary>,
    d: &Vec<TaskSummary>,
    f: &Vec<TaskSummary>,
    uptime: u64,
    limit: Option<u64>,
    disk_threshold: u32,
    percents: &Vec<Option<String>>,
    verbose: bool,
    filter_failed: bool,
) -> (lines: Vec<String>)
    ensures
        lines.deep_view() == status_lines(
            summaries_view(q@),
            summaries_view(c@),
            summaries_view(d@),
            summaries_view(f@),
            uptime,
            limit,
            disk_threshold,
            opt_strings_view(percents@),
            verbose,
            filter_failed,
        ),
{
    let mut lines: Vec<String> = Vec::new();
    let ghost e = lines.deep_view();
    if verbose {
        push_verbose_header(&mut lines, uptime, limit, disk_threshold);
        push_verbose_queued(&mut lines, q);
        push_verbose_current(&mut lines, c, limit, percents);
        push_verbose_completed(&mut lines, d);
        push_verbose_failed(&mut lines, f, filter_failed);
    } else {
        push_short_current(&mut lines, c, limit, percents);
        push_short_queued(&mut lines, q);
        push_short_completed(&mut lines, d);
        push_short_failed(&mut lines, f, filter_failed);
    }
    let ghost body = lines.deep_view();
    if verbose {
        assert(body =~= verbose_header(uptime, limit, disk_threshold) + verbose_queued(summaries_view(q@))
            + verbose_current(summaries_view(c@), limit, opt_strings_view(percents@))
            + verbose_completed(summaries_view(d@)) + verbose_failed(summaries_view(f@), filter_failed));
    } else {
        assert(body =~= short_current(summaries_view(c@), limit, opt_strings_view(percents@))
            + short_queued(summaries_view(q@)) + short_completed(summaries_view(d@)) + short_failed(
            summaries_view(f@),
            filter_failed,
        ));
    }
    if q.len() == 0 && c.len() == 0 && d.len() == 0 && f.len() == 0 {
        push_line(&mut lines, "No tasks".to_owned());
    }
    assert(lines.deep_view() =~= body + section(
        summaries_view(q@).len() == 0 && summaries_view(c@).len() == 0 && summaries_view(d@).len() == 0
            && summaries_view(f@).len() == 0,
        seq!["No tasks"@],
    ));
    lines
}

/// The reply to a status request (see `status_reply_of`).
pub fn status_reply(
    response: &ServerResponse,
    percents: &Vec<Option<String>>,
    verbose: bool,
    filter_failed: bool,
) -> (r: ClientReply)
    ensures
        r@ == status_reply_of(response@, opt_strings_view(percents@), verbose, filter_failed),
{
    match response {
        ServerResponse::Status {
            queued_tasks,
            current_tasks,
            completed_tasks,
            failed_tasks,
            uptime_seconds,
            config_summary,
            ..
        } => print_reply(
            status_body(
                queued_tasks,
                current_tasks,
                completed_tasks,
                failed_tasks,
                *uptime_seconds,
                config_summary.concurrent_downloads,
                config_summary.disk_threshold,
                percents,
                verbose,
                filter_failed,
            ),
        ),
        _ => reply_lines(response),
    }
}

// ---------------------------------------------------------------------------
// Failed tasks
// ---------------------------------------------------------------------------

/// `s` padded with spaces to 6 characters (`{:<6}`).
pub open spec fn pad6(s: Seq<char>) -> Seq<char> {
    if s.len() >= 6 {
        s
    } else {
        s + Seq::new((6 - s.len()) as nat, |_i: int| ' ')
    }
}

pub open spec fn dashes(n: nat) -> Seq<char> {
    Seq::new(n, |_i: int| '-')
}

pub open spec fn failed_table_rows(ts: Seq<SummaryView>) -> Seq<Seq<char>>
    decreases ts.len(),
{
    if ts.len() == 0 {
        seq![]
    } else {
        failed_table_rows(ts.drop_last()) + seq![pad6(decimal(ts.last().id as nat)) + " | "@ + ts.last().url]
            + match ts.last().error {
            Some(e) => seq![pad6(Seq::empty()) + " | Error: "@ + e],
            None => seq![],
        }
    }
}

pub open spec fn failed_urls(ts: Seq<SummaryView>) -> Seq<Seq<char>>
    decreases ts.len(),
{
    if ts.len() == 0 {
        seq![]
    } else {
        failed_urls(ts.drop_last()).push(ts.last().url)
    }
}

/// The failed tasks as printed: their URLs one per line when the output is
/// piped, else a table of ids, URLs and errors.
pub open spec fn failed_listing(f: Seq<SummaryView>, piped: bool) -> Seq<Seq<char>> {
    if f.len() == 0 {
        seq!["No failed tasks"@]
    } else if piped {
        failed_urls(f)
    } else {
        seq![
            Seq::empty(),
            "=== Failed Tasks ("@ + decimal(f.len()) + ") ==="@,
            Seq::empty(),
            pad6("ID"@) + " | URL"@,
            dashes(6) + "-+-"@ + dashes(60),
        ] + failed_table_rows(f)
    }
}

/// The reply to a request for the failed tasks (see `failed_listing`).
pub open spec fn failed_reply_of(r: ResponseView, piped: bool) -> ReplyView {
    match r {
        ResponseView::Status { failed_tasks, .. } => printed(failed_listing(failed_tasks, piped)),
        _ => message_reply(r),
    }
}

fn pad6_exec(s: &mut String, n: usize)
    requires
        n == old(s)@.len(),
    ensures
        final(s)@ == pad6(old(s)@),
{
    let mut k = n;
    while k < 6
        invariant
            n <= k <= 6 || (k == n && n >= 6),
            s@ == old(s)@ + Seq::new((k - n) as nat, |_i: int| ' '),
        decreases 6 - k,
    {
        crate::text::push_char(s, ' ');
        assert(s@ =~= old(s)@ + Seq::new((k + 1 - n) as nat, |_i: int| ' '));
        k += 1;
    }
    if n >= 6 {
        assert(s@ =~= old(s)@);
    } else {
        assert(k == 6);
    }
}

fn dash_line() -> (s: String)
    ensures
        s@ == dashes(6) + "-+-"@ + dashes(60),
{
    let mut s = String::new();
    let mut k: usize = 0;
    while k < 6
        invariant
            k <= 6,
            s@ == dashes(k as nat),
        decreases 6 - k,
    {
        crate::text::push_char(&mut s, '-');
        assert(s@ =~= dashes((k + 1) as nat));
        k += 1;
    }
    push_str(&mut s, "-+-");
    let ghost head = s@;
    let mut j: usize = 0;
    while j < 60
        invariant
            j <= 60,
            s@ == head + dashes(j as nat),
        decreases 60 - j,
    {
        crate::text::push_char(&mut s, '-');
        assert(s@ =~= head + dashes((j + 1) as nat));
        j += 1;
    }
    s
}

/// The reply to a request for the failed tasks (see `failed_reply_of`).
pub fn failed_reply(response: &ServerResponse, piped: bool) -> (r: ClientReply)
    ensures
        r@ == failed_reply_of(response@, piped),
{
    match response {
        ServerResponse::Status { failed_tasks, .. } => {
            let ghost fv = summaries_view(failed_tasks@);
            let mut lines: Vec<String> = Vec::new();
            if failed_tasks.len() == 0 {
                push_line(&mut lines, "No failed tasks".to_owned());
                assert(lines.deep_view() =~= failed_listing(fv, piped));
                return print_reply(lines);
            }
            if piped {
                let mut i: usize = 0;
                assert(fv.take(0) =~= Seq::<SummaryView>::empty());
                while i < failed_tasks.len()
                    invariant
                        i <= failed_tasks@.len(),
                        fv == summaries_view(failed_tasks@),
                        lines.deep_view() == failed_urls(fv.take(i as int)),
                    decreases failed_tasks.len() - i,
                {
                    assert(fv.take(i + 1).drop_last() =~= fv.take(i as int));
                    assert(fv.take(i + 1).last() == failed_tasks@[i as int]@);
                    push_line(&mut lines, failed_tasks[i].url.clone());
                    i += 1;
                }
                assert(fv.take(fv.len() as int) =~= fv);
                return print_reply(lines);
            }
            push_line(&mut lines, String::new());
            push_line(&mut lines, counted("=== Failed Tasks (", failed_tasks.len(), ") ==="));
            push_line(&mut lines, String::new());
            let mut h = "ID".to_owned();
            proof {
                reveal_strlit("ID");
            }
            pad6_exec(&mut h, 2);
            push_str(&mut h, " | URL");
            push_line(&mut lines, h);
            push_line(&mut lines, dash_line());
            let ghost head = lines.deep_view();
            let mut i: usize = 0;
            assert(fv.take(0) =~= Seq::<SummaryView>::empty());
            assert(head =~= head + failed_table_rows(fv.take(0)));
            while i < failed_tasks.len()
                invariant
                    i <= failed_tasks@.len(),
                    fv == summaries_view(failed_tasks@),
                    lines.deep_view() == head + failed_table_rows(fv.take(i as int)),
                decreases failed_tasks.len() - i,
            {
                let ghost before = lines.deep_view();
                assert(fv.take(i + 1).drop_last() =~= fv.take(i as int));
                assert(fv.take(i + 1).last() == failed_tasks@[i as int]@);
                let t = &failed_tasks[i];
                let mut row = crate::text::decimal_string(t.id);
                let len = crate::text::chars_of(row.as_str()).len();
                pad6_exec(&mut row, len);
                push_str(&mut row, " | ");
                push_str(&mut row, t.url.as_str());
                push_line(&mut lines, row);
                match &t.error {
                    Some(e) => {
                        let mut er = String::new();
                        pad6_exec(&mut er, 0);
                        push_str(&mut er, " | Error: ");
                        push_str(&mut er, e.as_str());
                        push_line(&mut lines, er);
                    },
                    None => {},
                }
                assert(lines.deep_view() =~= head + failed_table_rows(fv.take(i + 1)));
                i += 1;
            }
            assert(fv.take(fv.len() as int) =~= fv);
            assert(lines.deep_view() =~= failed_listing(fv, piped));
            print_reply(lines)
        },
        _ => reply_lines(response),
    }
}

} // verus!
