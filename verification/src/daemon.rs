//! What the daemon does with a client request: the new state of its tasks,
//! the answer, and the work left to the program that runs it (notifications
//! to show, cache directories to delete, running operations to cancel,
//! whether to save the tasks).
use vstd::prelude::*;
use crate::common::{url_hash, url_hash_text, Notification, NotificationView, APP};
use crate::config::Config;
use crate::manager::{
    pause_refusal, resume_refusal, status_report, ClientRequest, ResponseView, ServerResponse,
    TaskManager, TaskByUrl,
};
use crate::task::{kind_name, MediaType, Task, TaskKind, TaskStatus, TaskView};
use crate::tasks::{
    add_refusal, completed_ids, count_paused, count_running, lookup, pause_running_view,
    position_of, remove_key, remove_keys, status_set, unpause_all_view, url_position,
    without_completed, Tasks,
};
use crate::text::{decimal, join_path, join_path_str, push_decimal, push_str};

verus! {

// ---------------------------------------------------------------------------
// Outcomes
// ---------------------------------------------------------------------------

/// What the daemon knows besides its tasks when it answers a request.
pub struct RequestContext {
    pub has_internet: bool,
    pub uptime_seconds: u64,
    /// The directory holding the tasks file and the task logs.
    pub data_dir: String,
}

/// The result of handling a request.
pub struct RequestOutcome {
    /// The answer to send; `None`: the daemon shuts down without answering.
    pub response: Option<ServerResponse>,
    /// Notifications to show, in order.
    pub notifications: Vec<Notification>,
    /// Cache directories to delete.
    pub cleanup_dirs: Vec<String>,
    /// Tasks whose running operation must be cancelled.
    pub aborted: Vec<u64>,
    /// Whether the tasks must be saved.
    pub save: bool,
}

pub struct OutcomeView {
    pub response: Option<ResponseView>,
    pub notifications: Seq<NotificationView>,
    pub cleanup_dirs: Seq<Seq<char>>,
    pub save: bool,
}

pub open spec fn opt_response_view(r: Option<ServerResponse>) -> Option<ResponseView> {
    match r {
        Some(r) => Some(r@),
        None => None,
    }
}

pub open spec fn notifications_view(ns: Seq<Notification>) -> Seq<NotificationView> {
    ns.map_values(|n: Notification| n@)
}

impl View for RequestOutcome {
    type V = OutcomeView;

    open spec fn view(&self) -> OutcomeView {
        OutcomeView {
            response: opt_response_view(self.response),
            notifications: notifications_view(self.notifications@),
            cleanup_dirs: self.cleanup_dirs.deep_view(),
            save: self.save,
        }
    }
}

/// An outcome that answers `response` and asks for nothing else but,
/// maybe, saving.
pub open spec fn answer(response: ResponseView, save: bool) -> OutcomeView {
    OutcomeView { response: Some(response), notifications: seq![], cleanup_dirs: seq![], save }
}

// ---------------------------------------------------------------------------
// The cache directory of a URL
// ---------------------------------------------------------------------------

/// The directory under `cache_dir` that holds the partial downloads of
/// `url`: named by the URL's fingerprint.
pub open spec fn url_cache_path(cache_dir: Seq<char>, url: Seq<char>) -> Seq<char> {
    join_path(cache_dir, url_hash_text(url))
}

/// The cache directory of `url` that deleting its cache removes.
pub fn url_cache_dir(cache_dir: &str, url: &str) -> (p: String)
    ensures
        p@ == url_cache_path(cache_dir@, url@),
{
    let h = url_hash(url);
    join_path_str(cache_dir, h.as_str())
}

// ---------------------------------------------------------------------------
// What each request does
// ---------------------------------------------------------------------------

/// The registries `a` and `b` hold the same tasks, ids, operations and
/// statuses.
pub open spec fn same_tasks(a: Tasks, b: Tasks) -> bool {
    &&& a.entries() == b.entries()
    &&& a.next_id() == b.next_id()
    &&& a.active() == b.active()
    &&& a.statuses() == b.statuses()
}

/// Status: the report, nothing changes.
pub open spec fn status_handled(
    old: TaskManager,
    new: TaskManager,
    ctx: RequestContext,
    out: OutcomeView,
) -> bool {
    &&& same_tasks(old.tasks, new.tasks)
    &&& out == answer(
        status_report(old.tasks.entries(), old.config, ctx.has_internet, ctx.uptime_seconds),
        false,
    )
}

/// The log file of task `id`.
pub open spec fn log_file_path(data_dir: Seq<char>, id: u64) -> Seq<char> {
    join_path(data_dir, "task_"@ + decimal(id as nat) + ".log"@)
}

pub open spec fn not_found(id: u64) -> Seq<char> {
    "Task "@ + decimal(id as nat) + " not found"@
}

/// Info: the log file of the task, nothing changes.
pub open spec fn info_handled(
    old: TaskManager,
    new: TaskManager,
    id: u64,
    ctx: RequestContext,
    out: OutcomeView,
) -> bool {
    &&& same_tasks(old.tasks, new.tasks)
    &&& out == answer(
        if lookup(old.tasks.entries(), id) is Some {
            ResponseView::Info { log_file_path: log_file_path(ctx.data_dir@, id) }
        } else {
            ResponseView::Error { message: not_found(id) }
        },
        false,
    )
}

/// The notification that the daemon stops.
pub open spec fn shutdown_notice() -> NotificationView {
    NotificationView::Normal { url: APP@, message: "Daemon is dead 💀🥺"@, timeout_ms: Some(1500) }
}

/// Kill: save, say so, stop without answering.
pub open spec fn kill_handled(old: TaskManager, new: TaskManager, out: OutcomeView) -> bool {
    &&& same_tasks(old.tasks, new.tasks)
    &&& out == OutcomeView {
        response: None,
        notifications: seq![shutdown_notice()],
        cleanup_dirs: seq![],
        save: true,
    }
}

/// Remove: the task goes, with its operation and status; its cache is
/// deleted.
pub open spec fn remove_handled(old: TaskManager, new: TaskManager, id: u64, out: OutcomeView) -> bool {
    let es = old.tasks.entries();
    &&& new.tasks.entries() == remove_key(es, id)
    &&& new.tasks.next_id() == old.tasks.next_id()
    &&& new.tasks.active() == old.tasks.active().remove(id)
    &&& new.tasks.statuses() == remove_key(old.tasks.statuses(), id)
    &&& out == match lookup(es, id) {
        Some(t) => OutcomeView {
            response: Some(
                ResponseView::Success {
                    message: "Task "@ + decimal(id as nat) + " removed and cache cleaned"@,
                },
            ),
            notifications: seq![],
            cleanup_dirs: seq![url_cache_path(old.config.cache_dir@, t.url())],
            save: true,
        },
        None => answer(ResponseView::Error { message: not_found(id) }, false),
    }
}

/// Clear: completed tasks go.
pub open spec fn clear_handled(old: TaskManager, new: TaskManager, out: OutcomeView) -> bool {
    let es = old.tasks.entries();
    &&& new.tasks.entries() == without_completed(es)
    &&& new.tasks.next_id() == old.tasks.next_id()
    &&& new.tasks.active() == old.tasks.active().difference(completed_ids(es).to_set())
    &&& new.tasks.statuses() == remove_keys(old.tasks.statuses(), completed_ids(es))
    &&& out == answer(ResponseView::Success { message: "Completed tasks cleared"@ }, true)
}

/// The task that adding `url` creates.
pub open spec fn queued_video(url: Seq<char>) -> TaskView {
    TaskView::Queued { url, media_type: MediaType::Video, download_dir: None }
}

/// The message announcing task `id` for `url`.
pub open spec fn added_message(id: u64, url: Seq<char>, paused: bool) -> Seq<char> {
    "Task "@ + decimal(id as nat) + " added"@ + (if paused {
        " (paused)"@
    } else {
        Seq::empty()
    }) + " for URL: "@ + url
}

/// Add: a URL no task downloads becomes a new queued task (paused if asked);
/// a URL whose task failed is downloaded anew by a new task, after the
/// failed task and its cache are deleted; any other known URL is refused.
pub open spec fn add_handled(
    old: TaskManager,
    new: TaskManager,
    url: Seq<char>,
    start_paused: bool,
    out: OutcomeView,
) -> bool {
    let es = old.tasks.entries();
    let p = url_position(es, url);
    let n = old.tasks.next_id();
    if p < es.len() && es[p].1 is Failed {
        let failed = es[p].0;
        let rest = remove_key(es, failed);
        let cache = url_cache_path(old.config.cache_dir@, url);
        &&& new.tasks.active() == old.tasks.active().remove(failed)
        &&& match add_refusal(rest, url, None) {
            Some(msg) => {
                &&& new.tasks.entries() == rest
                &&& new.tasks.next_id() == n
                &&& new.tasks.statuses() == remove_key(old.tasks.statuses(), failed)
                &&& out == OutcomeView {
                    response: Some(ResponseView::Error { message: "Failed to re-add task: "@ + msg }),
                    notifications: seq![],
                    cleanup_dirs: seq![cache],
                    save: false,
                }
            },
            None => {
                &&& new.tasks.entries() == rest.push((n, queued_video(url)))
                &&& new.tasks.next_id() == n + 1
                &&& new.tasks.statuses() == status_set(
                    remove_key(old.tasks.statuses(), failed),
                    n,
                    TaskStatus::Queued,
                )
                &&& out == OutcomeView {
                    response: Some(
                        ResponseView::Success {
                            message: "Removed failed task "@ + decimal(failed as nat)
                                + " and added new task "@ + decimal(n as nat) + " for URL: "@ + url,
                        },
                    ),
                    notifications: seq![
                        NotificationView::Normal {
                            url,
                            message: "🔄 Retrying failed download (new task ID: "@ + decimal(
                                n as nat,
                            ) + ")"@,
                            timeout_ms: Some(3000),
                        },
                    ],
                    cleanup_dirs: seq![cache],
                    save: true,
                }
            },
        }
    } else if p < es.len() {
        &&& same_tasks(old.tasks, new.tasks)
        &&& out == OutcomeView {
            response: Some(
                ResponseView::Error {
                    message: "URL already exists with task ID "@ + decimal(es[p].0 as nat)
                        + " (state: "@ + kind_name(es[p].1.kind()) + ")"@,
                },
            ),
            notifications: seq![
                NotificationView::Normal {
                    url,
                    message: "URL already queued/finished: "@ + url + " 🕺"@,
                    timeout_ms: Some(1200),
                },
            ],
            cleanup_dirs: seq![],
            save: false,
        }
    } else {
        let t = if start_paused {
            queued_video(url).paused()
        } else {
            queued_video(url)
        };
        &&& new.tasks.entries() == es.push((n, t))
        &&& new.tasks.next_id() == n + 1
        &&& new.tasks.active() == old.tasks.active()
        &&& new.tasks.statuses() == status_set(old.tasks.statuses(), n, TaskStatus::Queued)
        &&& out == OutcomeView {
            response: Some(ResponseView::Success { message: added_message(n, url, start_paused) }),
            notifications: seq![
                NotificationView::Normal {
                    url,
                    message: added_message(n, url, start_paused),
                    timeout_ms: Some(3000),
                },
            ],
            cleanup_dirs: seq![],
            save: true,
        }
    }
}

/// Where a run through a list of task ids stands: the tasks, the running
/// operations, how many ids succeeded and the errors of the others.
pub struct BatchView {
    pub entries: Seq<(u64, TaskView)>,
    pub active: Set<u64>,
    pub done: nat,
    pub errors: Seq<Seq<char>>,
}

pub open spec fn batch_error(id: u64, msg: Seq<char>) -> Seq<char> {
    "Task "@ + decimal(id as nat) + ": "@ + msg
}

/// Pausing the tasks `ids` one after the other, from the tasks `es` with the
/// running operations `active`: a paused task's operation is cancelled.
pub open spec fn pause_batch(es: Seq<(u64, TaskView)>, active: Set<u64>, ids: Seq<u64>) -> BatchView
    decreases ids.len(),
{
    if ids.len() == 0 {
        BatchView { entries: es, active, done: 0, errors: seq![] }
    } else {
        let b = pause_batch(es, active, ids.drop_last());
        let id = ids.last();
        match pause_refusal(b.entries, id) {
            Some(msg) => BatchView { errors: b.errors.push(batch_error(id, msg)), ..b },
            None => BatchView {
                entries: b.entries.update(
                    position_of(b.entries, id),
                    (id, lookup(b.entries, id)->0.paused()),
                ),
                active: b.active.remove(id),
                done: b.done + 1,
                errors: b.errors,
            },
        }
    }
}

/// Resuming the tasks `ids` one after the other.
pub open spec fn resume_batch(es: Seq<(u64, TaskView)>, active: Set<u64>, ids: Seq<u64>) -> BatchView
    decreases ids.len(),
{
    if ids.len() == 0 {
        BatchView { entries: es, active, done: 0, errors: seq![] }
    } else {
        let b = resume_batch(es, active, ids.drop_last());
        let id = ids.last();
        match resume_refusal(b.entries, id) {
            Some(msg) => BatchView { errors: b.errors.push(batch_error(id, msg)), ..b },
            None => BatchView {
                entries: b.entries.update(
                    position_of(b.entries, id),
                    (id, lookup(b.entries, id)->0.unpaused()),
                ),
                active: b.active,
                done: b.done + 1,
                errors: b.errors,
            },
        }
    }
}

/// The parts joined with `sep` between each two.
pub open spec fn join_with(parts: Seq<Seq<char>>, sep: Seq<char>) -> Seq<char>
    decreases parts.len(),
{
    if parts.len() == 0 {
        Seq::empty()
    } else if parts.len() == 1 {
        parts[0]
    } else {
        join_with(parts.drop_last(), sep) + sep + parts.last()
    }
}

/// The answer to a run through a list (`verb` ends with a space): success
/// when no id failed.
pub open spec fn batch_response(verb: Seq<char>, b: BatchView) -> ResponseView {
    let head = verb + decimal(b.done) + " task(s)"@;
    if b.errors.len() == 0 {
        ResponseView::Success { message: head }
    } else {
        ResponseView::Error { message: head + ", errors: "@ + join_with(b.errors, "; "@) }
    }
}

/// Pause: the listed tasks, or every running task; paused tasks' running
/// operations are cancelled.
pub open spec fn pause_handled(
    old: TaskManager,
    new: TaskManager,
    ids: Option<Seq<u64>>,
    out: OutcomeView,
) -> bool {
    let es = old.tasks.entries();
    &&& new.tasks.next_id() == old.tasks.next_id()
    &&& new.tasks.statuses() == old.tasks.statuses()
    &&& match ids {
        Some(ids) => {
            let b = pause_batch(es, old.tasks.active(), ids);
            &&& new.tasks.entries() == b.entries
            &&& new.tasks.active() == b.active
            &&& out == answer(batch_response("Paused "@, b), true)
        },
        None => {
            &&& new.tasks.entries() == pause_running_view(es)
            &&& new.tasks.active() == old.tasks.active().difference(
                crate::tasks::paused_ids(pause_running_view(es)),
            )
            &&& out == answer(
                ResponseView::Success {
                    message: "Paused "@ + decimal(count_running(es)) + " active task(s)"@,
                },
                true,
            )
        },
    }
}

/// Resume: the listed tasks, or every paused task.
pub open spec fn resume_handled(
    old: TaskManager,
    new: TaskManager,
    ids: Option<Seq<u64>>,
    out: OutcomeView,
) -> bool {
    let es = old.tasks.entries();
    &&& new.tasks.next_id() == old.tasks.next_id()
    &&& new.tasks.statuses() == old.tasks.statuses()
    &&& new.tasks.active() == old.tasks.active()
    &&& match ids {
        Some(ids) => {
            let b = resume_batch(es, old.tasks.active(), ids);
            &&& new.tasks.entries() == b.entries
            &&& out == answer(batch_response("Resumed "@, b), true)
        },
        None => {
            &&& new.tasks.entries() == unpause_all_view(es)
            &&& out == answer(
                ResponseView::Success {
                    message: "Resumed "@ + decimal(count_paused(es)) + " paused task(s)"@,
                },
                true,
            )
        },
    }
}

pub open spec fn opt_ids(ids: Option<Vec<u64>>) -> Option<Seq<u64>> {
    match ids {
        Some(v) => Some(v@),
        None => None,
    }
}

/// What handling `request` does, request by request.
pub open spec fn request_handled(
    old: TaskManager,
    new: TaskManager,
    request: ClientRequest,
    ctx: RequestContext,
    out: OutcomeView,
) -> bool {
    &&& new.config == old.config
    &&& match request {
        ClientRequest::Add { url, start_paused } => add_handled(old, new, url@, start_paused, out),
        ClientRequest::Remove { id } => remove_handled(old, new, id, out),
        ClientRequest::Clear => clear_handled(old, new, out),
        ClientRequest::Status { .. } => status_handled(old, new, ctx, out),
        ClientRequest::Kill { .. } => kill_handled(old, new, out),
        ClientRequest::Info { id } => info_handled(old, new, id, ctx, out),
        ClientRequest::Pause { ids } => pause_handled(old, new, opt_ids(ids), out),
        ClientRequest::Resume { ids } => resume_handled(old, new, opt_ids(ids), out),
    }
}

// ---------------------------------------------------------------------------
// Handlers
// ---------------------------------------------------------------------------

fn reply(response: ServerResponse, save: bool) -> (o: RequestOutcome)
    ensures
        o@ == answer(response@, save),
        o.aborted@.len() == 0,
{
    let o = RequestOutcome {
        response: Some(response),
        notifications: Vec::new(),
        cleanup_dirs: Vec::new(),
        aborted: Vec::new(),
        save,
    };
    assert(o@.notifications =~= Seq::<NotificationView>::empty());
    assert(o@.cleanup_dirs =~= Seq::<Seq<char>>::empty());
    o
}

/// The ids of `before` whose operation no longer runs in `after`.
fn stopped_operations(before: &Vec<u64>, after: &Tasks) -> (r: Vec<u64>)
    requires
        before@.no_duplicates(),
    ensures
        r@.no_duplicates(),
        r@.to_set() == before@.to_set().difference(after.active()),
{
    let mut r: Vec<u64> = Vec::new();
    let mut i: usize = 0;
    while i < before.len()
        invariant
            i <= before@.len(),
            before@.no_duplicates(),
            r@.no_duplicates(),
            forall|y: u64| r@.contains(y) <==> (before@.take(i as int).contains(y) && !after.active().contains(y)),
        decreases before.len() - i,
    {
        let x = before[i];
        let ghost t0 = before@.take(i as int);
        let ghost t1 = before@.take(i + 1);
        assert(t1 =~= t0.push(x));
        assert(!t0.contains(x)) by {
            if t0.contains(x) {
                let k = choose|k: int| 0 <= k < t0.len() && t0[k] == x;
                assert(before@[k] == before@[i as int]);
            }
        }
        let ghost r0 = r@;
        if !after.has_active_task(x) {
            r.push(x);
            assert forall|y: u64| r@.contains(y) <==> (r0.contains(y) || y == x) by {
                if r@.contains(y) {
                    let k = choose|k: int| 0 <= k < r@.len() && r@[k] == y;
                    if k < r0.len() {
                        assert(r0[k] == y);
                    }
                }
                if r0.contains(y) {
                    let k = choose|k: int| 0 <= k < r0.len() && r0[k] == y;
                    assert(r@[k] == y);
                }
                if y == x {
                    assert(r@[r0.len() as int] == x);
                }
            }
        }
        assert forall|y: u64| t1.contains(y) <==> (t0.contains(y) || y == x) by {
            if t1.contains(y) {
                let k = choose|k: int| 0 <= k < t1.len() && t1[k] == y;
                if k < i {
                    assert(t0[k] == y);
                }
            }
            if t0.contains(y) {
                let k = choose|k: int| 0 <= k < t0.len() && t0[k] == y;
                assert(t1[k] == y);
            }
            if y == x {
                assert(t1[i as int] == x);
            }
        }
        assert forall|y: u64| r@.contains(y) <==> (t1.contains(y) && !after.active().contains(y)) by {
            assert(r0.contains(y) <==> (t0.contains(y) && !after.active().contains(y)));
        }
        i += 1;
    }
    assert(before@.take(before@.len() as int) =~= before@);
    assert(r@.to_set() =~= before@.to_set().difference(after.active()));
    r
}

fn not_found_message(id: u64) -> (m: String)
    ensures
        m@ == not_found(id),
{
    let mut m = "Task ".to_owned();
    push_decimal(&mut m, id);
    push_str(&mut m, " not found");
    m
}

impl TaskManager {
    /// Handles a client request (see `request_handled`). The operations
    /// that stop running are listed in `aborted`, each once.
    pub fn process_request(&mut self, request: ClientRequest, ctx: &RequestContext) -> (o:
        RequestOutcome)
        requires
            old(self).tasks.wf(),
            request is Add ==> old(self).tasks.next_id() < u64::MAX,
        ensures
            final(self).tasks.wf(),
            request_handled(*old(self), *final(self), request, *ctx, o@),
            o.aborted@.no_duplicates(),
            o.aborted@.to_set() == old(self).tasks.active().difference(final(self).tasks.active()),
    {
        let before = self.tasks.active_ids();
        let mut o = match request {
            ClientRequest::Add { url, start_paused } => self.handle_add(url, start_paused),
            ClientRequest::Remove { id } => self.handle_remove(id),
            ClientRequest::Clear => self.handle_clear(),
            ClientRequest::Status { .. } => self.handle_status(ctx),
            ClientRequest::Kill { .. } => self.handle_kill(),
            ClientRequest::Info { id } => self.handle_info(id, ctx),
            ClientRequest::Pause { ids } => self.handle_pause(ids),
            ClientRequest::Resume { ids } => self.handle_resume(ids),
        };
        o.aborted = stopped_operations(&before, &self.tasks);
        o
    }

    fn handle_status(&self, ctx: &RequestContext) -> (o: RequestOutcome)
        ensures
            status_handled(*self, *self, *ctx, o@),
    {
        let r = self.get_status(false, ctx.has_internet, ctx.uptime_seconds);
        reply(r, false)
    }

    fn handle_info(&self, id: u64, ctx: &RequestContext) -> (o: RequestOutcome)
        ensures
            info_handled(*self, *self, id, *ctx, o@),
    {
        match self.tasks.get_task(id) {
            Some(_) => {
                let mut name = "task_".to_owned();
                push_decimal(&mut name, id);
                push_str(&mut name, ".log");
                let p = join_path_str(ctx.data_dir.as_str(), name.as_str());
                reply(ServerResponse::Info { log_file_path: p }, false)
            },
            None => reply(ServerResponse::Error { message: not_found_message(id) }, false),
        }
    }

    fn handle_kill(&self) -> (o: RequestOutcome)
        ensures
            kill_handled(*self, *self, o@),
    {
        let mut notifications: Vec<Notification> = Vec::new();
        notifications.push(
            Notification::Normal {
                url: APP.to_owned(),
                message: "Daemon is dead 💀🥺".to_owned(),
                timeout_ms: Some(1500),
            },
        );
        let o = RequestOutcome {
            response: None,
            notifications,
            cleanup_dirs: Vec::new(),
            aborted: Vec::new(),
            save: true,
        };
        assert(o@.notifications =~= seq![shutdown_notice()]);
        assert(o@.cleanup_dirs =~= Seq::<Seq<char>>::empty());
        o
    }

    fn handle_remove(&mut self, id: u64) -> (o: RequestOutcome)
        requires
            old(self).tasks.wf(),
        ensures
            final(self).tasks.wf(),
            final(self).config == old(self).config,
            remove_handled(*old(self), *final(self), id, o@),
    {
        let url = match self.tasks.get_task(id) {
            Some(t) => Some(t.url().to_owned()),
            None => None,
        };
        let removed = self.remove_task(id);
        match url {
            Some(u) => {
                let dir = url_cache_dir(self.config.cache_dir.as_str(), u.as_str());
                let mut m = "Task ".to_owned();
                push_decimal(&mut m, id);
                push_str(&mut m, " removed and cache cleaned");
                let mut cleanup_dirs: Vec<String> = Vec::new();
                cleanup_dirs.push(dir);
                let o = RequestOutcome {
                    response: Some(ServerResponse::Success { message: m }),
                    notifications: Vec::new(),
                    cleanup_dirs,
                    aborted: Vec::new(),
                    save: true,
                };
                assert(o@.notifications =~= Seq::<NotificationView>::empty());
                assert(o@.cleanup_dirs =~= seq![url_cache_path(self.config.cache_dir@, u@)]);
                o
            },
            None => reply(ServerResponse::Error { message: not_found_message(id) }, false),
        }
    }

    fn handle_add(&mut self, url: String, start_paused: bool) -> (o: RequestOutcome)
        requires
            old(self).tasks.wf(),
            old(self).tasks.next_id() < u64::MAX,
        ensures
            final(self).tasks.wf(),
            final(self).config == old(self).config,
            add_handled(*old(self), *final(self), url@, start_paused, o@),
    {
        let ghost es = self.tasks.entries();
        proof {
            crate::tasks::lemma_url_position(es, url@);
        }
        match self.find_task_by_url(url.as_str()) {
            TaskByUrl::Exists { id, kind: TaskKind::Failed } => {
                let _ = self.remove_task(id);
                let dir = url_cache_dir(self.config.cache_dir.as_str(), url.as_str());
                let mut cleanup_dirs: Vec<String> = Vec::new();
                cleanup_dirs.push(dir);
                let u = url.clone();
                match self.add_task(url) {
                    Ok(n) => {
                        let mut m = "Removed failed task ".to_owned();
                        push_decimal(&mut m, id);
                        push_str(&mut m, " and added new task ");
                        push_decimal(&mut m, n);
                        push_str(&mut m, " for URL: ");
                        push_str(&mut m, u.as_str());
                        let mut note = "🔄 Retrying failed download (new task ID: ".to_owned();
                        push_decimal(&mut note, n);
                        push_str(&mut note, ")");
                        let mut notifications: Vec<Notification> = Vec::new();
                        notifications.push(
                            Notification::Normal { url: u, message: note, timeout_ms: Some(3000) },
                        );
                        let o = RequestOutcome {
                            response: Some(ServerResponse::Success { message: m }),
                            notifications,
                            cleanup_dirs,
                            aborted: Vec::new(),
                            save: true,
                        };
                        assert(o@.notifications =~= seq![o.notifications@[0]@]);
                        assert(o@.cleanup_dirs =~= seq![o.cleanup_dirs@[0]@]);
                        o
                    },
                    Err(e) => {
                        let mut m = "Failed to re-add task: ".to_owned();
                        push_str(&mut m, e.as_str());
                        let o = RequestOutcome {
                            response: Some(ServerResponse::Error { message: m }),
                            notifications: Vec::new(),
                            cleanup_dirs,
                            aborted: Vec::new(),
                            save: false,
                        };
                        assert(o@.notifications =~= Seq::<NotificationView>::empty());
                        assert(o@.cleanup_dirs =~= seq![o.cleanup_dirs@[0]@]);
                        o
                    },
                }
            },
            TaskByUrl::Exists { id, kind } => {
                let mut m = "URL already exists with task ID ".to_owned();
                push_decimal(&mut m, id);
                push_str(&mut m, " (state: ");
                push_str(&mut m, kind.name());
                push_str(&mut m, ")");
                let mut note = "URL already queued/finished: ".to_owned();
                push_str(&mut note, url.as_str());
                push_str(&mut note, " 🕺");
                let mut notifications: Vec<Notification> = Vec::new();
                notifications.push(
                    Notification::Normal { url, message: note, timeout_ms: Some(1200) },
                );
                let o = RequestOutcome {
                    response: Some(ServerResponse::Error { message: m }),
                    notifications,
                    cleanup_dirs: Vec::new(),
                    aborted: Vec::new(),
                    save: false,
                };
                assert(o@.notifications =~= seq![o.notifications@[0]@]);
                assert(o@.cleanup_dirs =~= Seq::<Seq<char>>::empty());
                o
            },
            TaskByUrl::DoesntExist => {
                let u = url.clone();
                match self.add_task(url) {
                    Ok(n) => {
                        if start_paused {
                            proof {
                                self.tasks.lemma_wf();
                                crate::tasks::lemma_position_unique(
                                    self.tasks.entries(),
                                    n,
                                    es.len() as int,
                                );
                            }
                            let ghost before = self.tasks.entries();
                            match self.tasks.get_task_mut(n) {
                                Some(t) => t.pause(),
                                None => {},
                            }
                            proof {
                                assert(before == es.push((n, queued_video(url@))));
                                assert(self.tasks.entries() =~= es.push((n, queued_video(url@).paused())));
                            }
                        }
                        let mut m = "Task ".to_owned();
                        push_decimal(&mut m, n);
                        push_str(&mut m, " added");
                        if start_paused {
                            push_str(&mut m, " (paused)");
                        }
                        push_str(&mut m, " for URL: ");
                        push_str(&mut m, u.as_str());
                        let mut notifications: Vec<Notification> = Vec::new();
                        notifications.push(
                            Notification::Normal {
                                url: u,
                                message: m.clone(),
                                timeout_ms: Some(3000),
                            },
                        );
                        let o = RequestOutcome {
                            response: Some(ServerResponse::Success { message: m }),
                            notifications,
                            cleanup_dirs: Vec::new(),
                            aborted: Vec::new(),
                            save: true,
                        };
                        assert(o@.notifications =~= seq![o.notifications@[0]@]);
                        assert(o@.cleanup_dirs =~= Seq::<Seq<char>>::empty());
                        o
                    },
                    Err(e) => {
                        let mut m = "Failed to add task: ".to_owned();
                        push_str(&mut m, e.as_str());
                        reply(ServerResponse::Error { message: m }, false)
                    },
                }
            },
        }
    }

    fn handle_pause(&mut self, ids: Option<Vec<u64>>) -> (o: RequestOutcome)
        requires
            old(self).tasks.wf(),
        ensures
            final(self).tasks.wf(),
            final(self).config == old(self).config,
            pause_handled(
                *old(self),
                *final(self),
                opt_ids(ids),
                o@,
            ),
    {
        match ids {
            None => {
                let ghost es = self.tasks.entries();
                let n = self.pause_all_active();
                self.tasks.abort_paused();
                let mut m = "Paused ".to_owned();
                push_decimal(&mut m, n as u64);
                push_str(&mut m, " active task(s)");
                reply(ServerResponse::Success { message: m }, true)
            },
            Some(ids) => {
                let ghost es = self.tasks.entries();
                let ghost a0 = self.tasks.active();
                let mut done: usize = 0;
                let mut errors = String::new();
                let mut has_errors = false;
                let mut i: usize = 0;
                assert(ids@.take(0) =~= Seq::<u64>::empty());
                while i < ids.len()
                    invariant
                        i <= ids@.len(),
                        done <= i,
                        self.tasks.wf(),
                        self.config == old(self).config,
                        self.tasks.next_id() == old(self).tasks.next_id(),
                        self.tasks.statuses() == old(self).tasks.statuses(),
                        es == old(self).tasks.entries(),
                        a0 == old(self).tasks.active(),
                        self.tasks.entries() == pause_batch(es, a0, ids@.take(i as int)).entries,
                        self.tasks.active() == pause_batch(es, a0, ids@.take(i as int)).active,
                        done == pause_batch(es, a0, ids@.take(i as int)).done,
                        errors@ == join_with(pause_batch(es, a0, ids@.take(i as int)).errors, "; "@),
                        has_errors == (pause_batch(es, a0, ids@.take(i as int)).errors.len() > 0),
                    decreases ids.len() - i,
                {
                    let id = ids[i];
                    let ghost b = pause_batch(es, a0, ids@.take(i as int));
                    assert(ids@.take(i + 1).drop_last() =~= ids@.take(i as int));
                    match self.pause_task(id) {
                        Ok(()) => {
                            let _ = self.tasks.abort_active_task(id);
                            done = done + 1;
                        },
                        Err(e) => {
                            let ghost e0 = errors@;
                            if has_errors {
                                push_str(&mut errors, "; ");
                            }
                            has_errors = true;
                            push_str(&mut errors, "Task ");
                            push_decimal(&mut errors, id);
                            push_str(&mut errors, ": ");
                            push_str(&mut errors, e.as_str());
                            proof {
                                let errs = b.errors.push(batch_error(id, e@));
                                assert(errs.drop_last() =~= b.errors);
                                if b.errors.len() == 0 {
                                    assert(errors@ =~= batch_error(id, e@));
                                } else {
                                    assert(errors@ =~= e0 + "; "@ + batch_error(id, e@));
                                }
                            }
                        },
                    }
                    i += 1;
                }
                assert(ids@.take(ids.len() as int) =~= ids@);
                let ghost b = pause_batch(es, a0, ids@);
                let mut m = "Paused ".to_owned();
                push_decimal(&mut m, done as u64);
                push_str(&mut m, " task(s)");
                if !has_errors {
                    reply(ServerResponse::Success { message: m }, true)
                } else {
                    push_str(&mut m, ", errors: ");
                    push_str(&mut m, errors.as_str());
                    reply(ServerResponse::Error { message: m }, true)
                }
            },
        }
    }

    fn handle_resume(&mut self, ids: Option<Vec<u64>>) -> (o: RequestOutcome)
        requires
            old(self).tasks.wf(),
        ensures
            final(self).tasks.wf(),
            final(self).config == old(self).config,
            resume_handled(
                *old(self),
                *final(self),
                opt_ids(ids),
                o@,
            ),
    {
        match ids {
            None => {
                let n = self.resume_all();
                let mut m = "Resumed ".to_owned();
                push_decimal(&mut m, n as u64);
                push_str(&mut m, " paused task(s)");
                reply(ServerResponse::Success { message: m }, true)
            },
            Some(ids) => {
                let ghost es = self.tasks.entries();
                let ghost a0 = self.tasks.active();
                let mut done: usize = 0;
                let mut errors = String::new();
                let mut has_errors = false;
                let mut i: usize = 0;
                assert(ids@.take(0) =~= Seq::<u64>::empty());
                while i < ids.len()
                    invariant
                        i <= ids@.len(),
                        done <= i,
                        self.tasks.wf(),
                        self.config == old(self).config,
                        self.tasks.next_id() == old(self).tasks.next_id(),
                        self.tasks.statuses() == old(self).tasks.statuses(),
                        self.tasks.active() == a0,
                        es == old(self).tasks.entries(),
                        a0 == old(self).tasks.active(),
                        self.tasks.entries() == resume_batch(es, a0, ids@.take(i as int)).entries,
                        a0 == resume_batch(es, a0, ids@.take(i as int)).active,
                        done == resume_batch(es, a0, ids@.take(i as int)).done,
                        errors@ == join_with(resume_batch(es, a0, ids@.take(i as int)).errors, "; "@),
                        has_errors == (resume_batch(es, a0, ids@.take(i as int)).errors.len() > 0),
                    decreases ids.len() - i,
                {
                    let id = ids[i];
                    let ghost b = resume_batch(es, a0, ids@.take(i as int));
                    assert(ids@.take(i + 1).drop_last() =~= ids@.take(i as int));
                    match self.resume_task(id) {
                        Ok(()) => {
                            done = done + 1;
                        },
                        Err(e) => {
                            let ghost e0 = errors@;
                            if has_errors {
                                push_str(&mut errors, "; ");
                            }
                            has_errors = true;
                            push_str(&mut errors, "Task ");
                            push_decimal(&mut errors, id);
                            push_str(&mut errors, ": ");
                            push_str(&mut errors, e.as_str());
                            proof {
                                let errs = b.errors.push(batch_error(id, e@));
                                assert(errs.drop_last() =~= b.errors);
                                if b.errors.len() == 0 {
                                    assert(errors@ =~= batch_error(id, e@));
                                } else {
                                    assert(errors@ =~= e0 + "; "@ + batch_error(id, e@));
                                }
                            }
                        },
                    }
                    i += 1;
                }
                assert(ids@.take(ids.len() as int) =~= ids@);
                let ghost b = resume_batch(es, a0, ids@);
                let mut m = "Resumed ".to_owned();
                push_decimal(&mut m, done as u64);
                push_str(&mut m, " task(s)");
                if !has_errors {
                    reply(ServerResponse::Success { message: m }, true)
                } else {
                    push_str(&mut m, ", errors: ");
                    push_str(&mut m, errors.as_str());
                    reply(ServerResponse::Error { message: m }, true)
                }
            },
        }
    }

    fn handle_clear(&mut self) -> (o: RequestOutcome)
        requires
            old(self).tasks.wf(),
        ensures
            final(self).tasks.wf(),
            final(self).config == old(self).config,
            clear_handled(*old(self), *final(self), o@),
    {
        let _ = self.clear_completed();
        reply(ServerResponse::Success { message: "Completed tasks cleared".to_owned() }, true)
    }
}

// ---------------------------------------------------------------------------
// URLs queued while the daemon was not running
// ---------------------------------------------------------------------------

/// Where adding queued URLs one after the other stands.
pub struct ImportView {
    pub entries: Seq<(u64, TaskView)>,
    pub next_id: nat,
    pub statuses: Seq<(u64, TaskStatus)>,
    /// The ids of the tasks added so far.
    pub added: Seq<u64>,
}

/// Adding the URLs `urls` in order: each URL no task downloads yet becomes
/// a queued task; the others are skipped.
pub open spec fn import_urls(
    es: Seq<(u64, TaskView)>,
    next_id: nat,
    statuses: Seq<(u64, TaskStatus)>,
    urls: Seq<Seq<char>>,
) -> ImportView
    decreases urls.len(),
{
    if urls.len() == 0 {
        ImportView { entries: es, next_id, statuses, added: seq![] }
    } else {
        let b = import_urls(es, next_id, statuses, urls.drop_last());
        let u = urls.last();
        if crate::tasks::has_url(b.entries, u) {
            b
        } else {
            ImportView {
                entries: b.entries.push((b.next_id as u64, queued_video(u))),
                next_id: b.next_id + 1,
                statuses: status_set(b.statuses, b.next_id as u64, TaskStatus::Queued),
                added: b.added.push(b.next_id as u64),
            }
        }
    }
}

proof fn lemma_import_bound(
    es: Seq<(u64, TaskView)>,
    next_id: nat,
    statuses: Seq<(u64, TaskStatus)>,
    urls: Seq<Seq<char>>,
)
    ensures
        next_id <= import_urls(es, next_id, statuses, urls).next_id <= next_id + urls.len(),
    decreases urls.len(),
{
    if urls.len() > 0 {
        lemma_import_bound(es, next_id, statuses, urls.drop_last());
    }
}

impl TaskManager {
    /// Adds the URLs queued while the daemon was not running (see
    /// `import_urls`); returns the ids of the new tasks. The tasks must be
    /// saved afterwards.
    pub fn import_queued_urls(&mut self, urls: &Vec<String>) -> (added: Vec<u64>)
        requires
            old(self).tasks.wf(),
            old(self).tasks.next_id() + urls@.len() <= u64::MAX,
        ensures
            final(self).tasks.wf(),
            final(self).config == old(self).config,
            final(self).tasks.active() == old(self).tasks.active(),
            final(self).tasks.entries() == import_urls(
                old(self).tasks.entries(),
                old(self).tasks.next_id() as nat,
                old(self).tasks.statuses(),
                urls.deep_view(),
            ).entries,
            final(self).tasks.next_id() == import_urls(
                old(self).tasks.entries(),
                old(self).tasks.next_id() as nat,
                old(self).tasks.statuses(),
                urls.deep_view(),
            ).next_id,
            final(self).tasks.statuses() == import_urls(
                old(self).tasks.entries(),
                old(self).tasks.next_id() as nat,
                old(self).tasks.statuses(),
                urls.deep_view(),
            ).statuses,
            added@ == import_urls(
                old(self).tasks.entries(),
                old(self).tasks.next_id() as nat,
                old(self).tasks.statuses(),
                urls.deep_view(),
            ).added,
    {
        let ghost es = self.tasks.entries();
        let ghost n0 = self.tasks.next_id() as nat;
        let ghost st = self.tasks.statuses();
        let ghost us = urls.deep_view();
        let mut added: Vec<u64> = Vec::new();
        let mut i: usize = 0;
        assert(us.take(0) =~= Seq::<Seq<char>>::empty());
        while i < urls.len()
            invariant
                i <= urls@.len(),
                us == urls.deep_view(),
                us.len() == urls@.len(),
                n0 + us.len() <= u64::MAX,
                self.tasks.wf(),
                self.config == old(self).config,
                self.tasks.active() == old(self).tasks.active(),
                self.tasks.entries() == import_urls(es, n0, st, us.take(i as int)).entries,
                self.tasks.next_id() == import_urls(es, n0, st, us.take(i as int)).next_id,
                self.tasks.statuses() == import_urls(es, n0, st, us.take(i as int)).statuses,
                added@ == import_urls(es, n0, st, us.take(i as int)).added,
            decreases urls.len() - i,
        {
            let ghost b = import_urls(es, n0, st, us.take(i as int));
            assert(us.take(i + 1).drop_last() =~= us.take(i as int));
            assert(us.take(i + 1).last() == urls@[i as int]@);
            proof {
                lemma_import_bound(es, n0, st, us.take(i as int));
                crate::tasks::lemma_url_position(b.entries, urls@[i as int]@);
            }
            let url = urls[i].clone();
            if self.check_duplicate_url(url.as_str()).is_none() {
                match self.add_task(url) {
                    Ok(id) => added.push(id),
                    Err(_) => {},
                }
            }
            i += 1;
        }
        assert(us.take(us.len() as int) =~= us);
        added
    }
}

// ---------------------------------------------------------------------------
// Laws
// ---------------------------------------------------------------------------

proof fn lemma_update_keeps_position(es: Seq<(u64, TaskView)>, id: u64, t: TaskView)
    requires
        position_of(es, id) < es.len(),
    ensures
        position_of(es.update(position_of(es, id), (id, t)), id) == position_of(es, id),
{
    let p = position_of(es, id);
    let es2 = es.update(p, (id, t));
    crate::tasks::lemma_position_of(es, id);
    crate::tasks::lemma_position_of(es2, id);
    assert(es2[p].0 == id);
    if position_of(es2, id) < p {
        assert(es2[position_of(es2, id)] == es[position_of(es2, id)]);
    }
}

/// Pausing a queued or running task by its id, then resuming it by its id,
/// gives back the tasks as they were.
pub proof fn law_pause_then_resume(es: Seq<(u64, TaskView)>, active: Set<u64>, id: u64)
    requires
        lookup(es, id) matches Some(t) && crate::manager::pausable(t),
    ensures
        resume_batch(pause_batch(es, active, seq![id]).entries, active, seq![id]).entries == es,
        pause_batch(es, active, seq![id]).errors.len() == 0,
        resume_batch(pause_batch(es, active, seq![id]).entries, active, seq![id]).errors.len() == 0,
{
    let t = lookup(es, id)->0;
    let p = position_of(es, id);
    crate::tasks::lemma_position_of(es, id);
    let ids = seq![id];
    assert(ids.drop_last() =~= Seq::<u64>::empty());
    assert(ids.last() == id);
    assert(pause_batch(es, active, ids.drop_last()) == BatchView { entries: es, active, done: 0, errors: seq![] });
    assert(pause_refusal(es, id) is None);
    let paused = pause_batch(es, active, ids);
    assert(paused.entries == es.update(p, (id, t.paused())));
    lemma_update_keeps_position(es, id, t.paused());
    crate::task::lemma_unpause_after_pause(t);
    let es2 = paused.entries;
    assert(lookup(es2, id) == Some(t.paused()));
    assert(resume_batch(es2, active, ids.drop_last()) == BatchView { entries: es2, active, done: 0, errors: seq![] });
    assert(resume_refusal(es2, id) is None);
    let resumed = resume_batch(es2, active, ids);
    assert(resumed.entries == es2.update(p, (id, t.paused().unpaused())));
    assert(resumed.entries =~= es);
}

/// Adding queued URLs never makes two tasks download the same URL.
pub proof fn law_import_keeps_urls_distinct(
    es: Seq<(u64, TaskView)>,
    next_id: nat,
    statuses: Seq<(u64, TaskStatus)>,
    urls: Seq<Seq<char>>,
)
    requires
        crate::tasks::urls_distinct(es),
    ensures
        crate::tasks::urls_distinct(import_urls(es, next_id, statuses, urls).entries),
    decreases urls.len(),
{
    if urls.len() > 0 {
        law_import_keeps_urls_distinct(es, next_id, statuses, urls.drop_last());
        let b = import_urls(es, next_id, statuses, urls.drop_last());
        let u = urls.last();
        if !crate::tasks::has_url(b.entries, u) {
            let e2 = b.entries.push((b.next_id as u64, queued_video(u)));
            assert forall|a: int, c: int| 0 <= a < c < e2.len() implies e2[a].1.url() != e2[c].1.url() by {
                if c == b.entries.len() {
                    assert(e2[a] == b.entries[a]);
                } else {
                    assert(e2[a] == b.entries[a]);
                    assert(e2[c] == b.entries[c]);
                }
            }
        }
    }
}

proof fn lemma_update_same_url(es: Seq<(u64, TaskView)>, p: int, e: (u64, TaskView))
    requires
        0 <= p < es.len(),
        e.1.url() == es[p].1.url(),
        crate::tasks::urls_distinct(es),
    ensures
        crate::tasks::urls_distinct(es.update(p, e)),
{
    let e2 = es.update(p, e);
    assert forall|a: int, b: int| 0 <= a < b < e2.len() implies e2[a].1.url() != e2[b].1.url() by {
        assert(e2[a].1.url() == es[a].1.url());
        assert(e2[b].1.url() == es[b].1.url());
    }
}

proof fn lemma_push_new_url(es: Seq<(u64, TaskView)>, e: (u64, TaskView))
    requires
        crate::tasks::urls_distinct(es),
        url_position(es, e.1.url()) == es.len(),
    ensures
        crate::tasks::urls_distinct(es.push(e)),
{
    crate::tasks::lemma_url_position(es, e.1.url());
    let e2 = es.push(e);
    assert forall|a: int, b: int| 0 <= a < b < e2.len() implies e2[a].1.url() != e2[b].1.url() by {
        assert(e2[a] == es[a]);
        if b < es.len() {
            assert(e2[b] == es[b]);
        }
    }
}

proof fn lemma_remove_key_distinct(es: Seq<(u64, TaskView)>, id: u64)
    requires
        crate::tasks::urls_distinct(es),
    ensures
        crate::tasks::urls_distinct(remove_key(es, id)),
{
    let p = position_of(es, id);
    if p < es.len() {
        crate::tasks::lemma_position_of(es, id);
        let r = es.remove(p);
        assert forall|a: int, b: int| 0 <= a < b < r.len() implies r[a].1.url() != r[b].1.url() by {
            let a2 = if a < p { a } else { a + 1 };
            let b2 = if b < p { b } else { b + 1 };
            assert(r[a] == es[a2]);
            assert(r[b] == es[b2]);
        }
    }
}

proof fn lemma_without_completed_distinct(es: Seq<(u64, TaskView)>)
    requires
        crate::tasks::urls_distinct(es),
    ensures
        crate::tasks::urls_distinct(without_completed(es)),
        forall|i: int|
            0 <= i < without_completed(es).len() ==> exists|j: int|
                0 <= j < es.len() && es[j] == #[trigger] without_completed(es)[i],
    decreases es.len(),
{
    if es.len() > 0 {
        let t = es.drop_last();
        assert(crate::tasks::urls_distinct(t)) by {
            assert forall|a: int, b: int| 0 <= a < b < t.len() implies t[a].1.url() != t[b].1.url() by {
                assert(t[a] == es[a]);
                assert(t[b] == es[b]);
            }
        }
        lemma_without_completed_distinct(t);
        let w = without_completed(es);
        let wt = without_completed(t);
        assert forall|i: int| 0 <= i < w.len() implies exists|j: int| 0 <= j < es.len() && es[j] == #[trigger] w[i] by {
            if i < wt.len() {
                assert(w[i] == wt[i]);
                let j = choose|j: int| 0 <= j < t.len() && t[j] == #[trigger] wt[i];
                assert(es[j] == t[j]);
            } else {
                assert(es[es.len() - 1] == w[i]);
            }
        }
        if !(es.last().1 is Completed) {
            assert forall|a: int, b: int| 0 <= a < b < w.len() implies w[a].1.url() != w[b].1.url() by {
                assert(w[a] == wt[a]);
                if b < wt.len() {
                    assert(w[b] == wt[b]);
                } else {
                    let j = choose|j: int| 0 <= j < t.len() && t[j] == #[trigger] wt[a];
                    assert(es[j] == t[j]);
                    assert(w[b] == es.last());
                }
            }
        }
    }
}

proof fn lemma_pause_batch_distinct(es: Seq<(u64, TaskView)>, active: Set<u64>, ids: Seq<u64>)
    requires
        crate::tasks::urls_distinct(es),
    ensures
        crate::tasks::urls_distinct(pause_batch(es, active, ids).entries),
    decreases ids.len(),
{
    if ids.len() > 0 {
        lemma_pause_batch_distinct(es, active, ids.drop_last());
        let b = pause_batch(es, active, ids.drop_last());
        let id = ids.last();
        if pause_refusal(b.entries, id) is None {
            crate::tasks::lemma_position_of(b.entries, id);
            let t = lookup(b.entries, id)->0;
            crate::task::lemma_pause_keeps_identity(t);
            lemma_update_same_url(b.entries, position_of(b.entries, id), (id, t.paused()));
        }
    }
}

proof fn lemma_resume_batch_distinct(es: Seq<(u64, TaskView)>, active: Set<u64>, ids: Seq<u64>)
    requires
        crate::tasks::urls_distinct(es),
    ensures
        crate::tasks::urls_distinct(resume_batch(es, active, ids).entries),
    decreases ids.len(),
{
    if ids.len() > 0 {
        lemma_resume_batch_distinct(es, active, ids.drop_last());
        let b = resume_batch(es, active, ids.drop_last());
        let id = ids.last();
        if resume_refusal(b.entries, id) is None {
            crate::tasks::lemma_position_of(b.entries, id);
            let t = lookup(b.entries, id)->0;
            crate::task::lemma_pause_keeps_identity(t);
            lemma_update_same_url(b.entries, position_of(b.entries, id), (id, t.unpaused()));
        }
    }
}

proof fn lemma_map_keeps_distinct(es: Seq<(u64, TaskView)>, pause: bool)
    requires
        crate::tasks::urls_distinct(es),
    ensures
        pause ==> crate::tasks::urls_distinct(pause_running_view(es)),
        !pause ==> crate::tasks::urls_distinct(unpause_all_view(es)),
{
    let m = if pause {
        pause_running_view(es)
    } else {
        unpause_all_view(es)
    };
    assert forall|i: int| 0 <= i < m.len() implies (#[trigger] m[i]).1.url() == es[i].1.url() by {
        crate::task::lemma_pause_keeps_identity(es[i].1);
    }
    assert forall|a: int, b: int| 0 <= a < b < m.len() implies m[a].1.url() != m[b].1.url() by {
        assert(m[a].1.url() == es[a].1.url());
        assert(m[b].1.url() == es[b].1.url());
    }
}

/// Handling a request never makes two tasks download the same URL: the
/// registry keeps the property that saving and loading it back relies on.
pub proof fn law_requests_keep_urls_distinct(
    old: TaskManager,
    new: TaskManager,
    request: ClientRequest,
    ctx: RequestContext,
    out: OutcomeView,
)
    requires
        request_handled(old, new, request, ctx, out),
        crate::tasks::urls_distinct(old.tasks.entries()),
    ensures
        crate::tasks::urls_distinct(new.tasks.entries()),
{
    let es = old.tasks.entries();
    match request {
        ClientRequest::Add { url, start_paused } => {
            crate::tasks::lemma_url_position(es, url@);
            let p = url_position(es, url@);
            if p < es.len() && es[p].1 is Failed {
                let failed = es[p].0;
                let rest = remove_key(es, failed);
                lemma_remove_key_distinct(es, failed);
                crate::tasks::lemma_url_position(rest, url@);
                if add_refusal(rest, url@, None) is None {
                    lemma_push_new_url(rest, (old.tasks.next_id(), queued_video(url@)));
                }
            } else if p >= es.len() {
                let t = if start_paused {
                    queued_video(url@).paused()
                } else {
                    queued_video(url@)
                };
                crate::task::lemma_pause_keeps_identity(queued_video(url@));
                lemma_push_new_url(es, (old.tasks.next_id(), t));
            }
        },
        ClientRequest::Remove { id } => {
            lemma_remove_key_distinct(es, id);
        },
        ClientRequest::Clear => {
            lemma_without_completed_distinct(es);
        },
        ClientRequest::Pause { ids } => match opt_ids(ids) {
            Some(v) => lemma_pause_batch_distinct(es, old.tasks.active(), v),
            None => lemma_map_keeps_distinct(es, true),
        },
        ClientRequest::Resume { ids } => match opt_ids(ids) {
            Some(v) => lemma_resume_batch_distinct(es, old.tasks.active(), v),
            None => lemma_map_keeps_distinct(es, false),
        },
        _ => {},
    }
}

} // verus!
