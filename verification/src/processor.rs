//! How the daemon moves its tasks along: which task's operation starts
//! next, what starting it changes, and what the end of an operation does to
//! its task. Running the operations (yt-dlp, the transitions' outside work)
//! belongs to the program that runs the daemon.
use vstd::prelude::*;
use crate::common::{opt_notification_view, Notification, NotificationView};
use crate::manager::TaskManager;
use crate::task::{
    opt_view, DownloadMetadataView, GetNameMetadata, GetNameMetadataView, MediaType, StatusView,
    Task, TaskStatus, TaskView,
};
use crate::tasks::{lookup, position_of, status_set, Tasks};
use crate::text::push_str;
use crate::transition::{failed_task, failed_task_exec};

verus! {

// ---------------------------------------------------------------------------
// Choosing the next operation
// ---------------------------------------------------------------------------

/// A task whose operation can start: a queued task (fetch its metadata), a
/// task that fetched its metadata (download it), or an interrupted download
/// (resume it).
pub open spec fn spawnable(t: TaskView) -> bool {
    match t {
        TaskView::Queued { .. } => true,
        TaskView::GetName { metadata: Some(_), .. } => true,
        TaskView::DownloadVideo { .. } => true,
        _ => false,
    }
}

/// Index of the first task, by id, that can start and is not running
/// already; `es.len()` if there is none.
pub open spec fn next_start(es: Seq<(u64, TaskView)>, active: Set<u64>) -> int
    decreases es.len(),
{
    if es.len() == 0 {
        0
    } else if !active.contains(es[0].0) && spawnable(es[0].1) {
        0
    } else {
        1 + next_start(es.drop_first(), active)
    }
}

pub proof fn lemma_next_start(es: Seq<(u64, TaskView)>, active: Set<u64>)
    ensures
        0 <= next_start(es, active) <= es.len(),
        next_start(es, active) < es.len() ==> !active.contains(es[next_start(es, active)].0)
            && spawnable(es[next_start(es, active)].1),
        forall|j: int|
            0 <= j < next_start(es, active) ==> active.contains(#[trigger] es[j].0) || !spawnable(
                es[j].1,
            ),
    decreases es.len(),
{
    if es.len() > 0 && !(!active.contains(es[0].0) && spawnable(es[0].1)) {
        lemma_next_start(es.drop_first(), active);
        assert forall|j: int| 0 <= j < next_start(es, active) implies active.contains(
            #[trigger] es[j].0,
        ) || !spawnable(es[j].1) by {
            if j > 0 {
                assert(es[j] == es.drop_first()[j - 1]);
            }
        }
    }
}

/// How many operations may run at once.
pub open spec fn capacity(limit: Option<u64>) -> int {
    match limit {
        None => usize::MAX as int,
        Some(n) => n as int,
    }
}

/// Whether `running` operations fill the limit.
pub fn at_capacity(running: usize, limit: Option<u64>) -> (b: bool)
    ensures
        b == (running >= capacity(limit)),
{
    match limit {
        None => running == usize::MAX,
        Some(n) => running as u64 >= n,
    }
}

/// An operation to run for a task.
#[derive(Debug)]
pub enum OperationPlan {
    /// Fetch the metadata of this queued task (a transition to `GetName`).
    FetchMetadata { task: Task },
    /// Download `url` with `metadata`, once `task` has moved to
    /// `DownloadVideo` and `set_download_task` has stored what it became.
    StartDownload { task: Task, url: String, media_type: MediaType, metadata: GetNameMetadata },
    /// Show `notification`, then download `url` again with `metadata`: an
    /// interrupted download goes on from what is in the cache.
    ResumeDownload {
        url: String,
        media_type: MediaType,
        metadata: GetNameMetadata,
        notification: Notification,
    },
}

pub enum PlanView {
    FetchMetadata { task: TaskView },
    StartDownload { task: TaskView, url: Seq<char>, media_type: MediaType, metadata: GetNameMetadataView },
    ResumeDownload {
        url: Seq<char>,
        media_type: MediaType,
        metadata: GetNameMetadataView,
        notification: NotificationView,
    },
}

impl View for OperationPlan {
    type V = PlanView;

    open spec fn view(&self) -> PlanView {
        match *self {
            OperationPlan::FetchMetadata { task } => PlanView::FetchMetadata { task: task@ },
            OperationPlan::StartDownload { task, url, media_type, metadata } =>
                PlanView::StartDownload { task: task@, url: url@, media_type, metadata: metadata@ },
            OperationPlan::ResumeDownload { url, media_type, metadata, notification } =>
                PlanView::ResumeDownload {
                url: url@,
                media_type,
                metadata: metadata@,
                notification: notification@,
            },
        }
    }
}

/// The title a download shows, or `default`.
pub open spec fn title_or(title: Option<Seq<char>>, default: Seq<char>) -> Seq<char> {
    match title {
        Some(t) => t,
        None => default,
    }
}

/// The metadata a resumed download starts from.
pub open spec fn resume_metadata(m: DownloadMetadataView) -> GetNameMetadataView {
    GetNameMetadataView {
        title: m.title,
        expected_size_bytes: m.expected_size_bytes,
        directory: m.directory,
    }
}

/// The plan for a task that can start, and what its entry becomes.
pub open spec fn plan_for(t: TaskView) -> (PlanView, TaskView) {
    match t {
        TaskView::Queued { url, media_type, download_dir } => (
            PlanView::FetchMetadata { task: t },
            TaskView::GetName { url, metadata: None, media_type, download_dir },
        ),
        TaskView::GetName { url, metadata, media_type, .. } => (
            PlanView::StartDownload { task: t, url, media_type, metadata: metadata->0 },
            t,
        ),
        TaskView::DownloadVideo { url, media_type, metadata, .. } => (
            PlanView::ResumeDownload {
                url,
                media_type,
                metadata: resume_metadata(metadata),
                notification: NotificationView::Normal {
                    url,
                    message: "Resuming download: "@ + title_or(metadata.title, "video"@) + " 🔄"@,
                    timeout_ms: Some(3000),
                },
            },
            t,
        ),
        _ => (PlanView::FetchMetadata { task: t }, t),
    }
}

fn plan_exec(t: &Task) -> (r: OperationPlan)
    requires
        spawnable(t@),
    ensures
        r@ == plan_for(t@).0,
{
    match t {
        Task::GetName { url, metadata: Some(m), media_type, .. } => OperationPlan::StartDownload {
            task: t.copy(),
            url: url.clone(),
            media_type: *media_type,
            metadata: m.copy(),
        },
        Task::DownloadVideo { url, media_type, metadata, .. } => {
            let mut message = "Resuming download: ".to_owned();
            match &metadata.title {
                Some(title) => push_str(&mut message, title.as_str()),
                None => push_str(&mut message, "video"),
            }
            push_str(&mut message, " 🔄");
            OperationPlan::ResumeDownload {
                url: url.clone(),
                media_type: *media_type,
                metadata: GetNameMetadata {
                    title: crate::task::copy_opt_string(&metadata.title),
                    expected_size_bytes: metadata.expected_size_bytes,
                    directory: metadata.directory.clone(),
                },
                notification: Notification::Normal {
                    url: url.clone(),
                    message,
                    timeout_ms: Some(3000),
                },
            }
        },
        _ => OperationPlan::FetchMetadata { task: t.copy() },
    }
}

impl TaskManager {
    /// The first task, by id, whose operation can start and is not running,
    /// unless the running operations already fill the limit.
    pub fn next_task_to_start(&self) -> (r: Option<u64>)
        requires
            self.tasks.wf(),
        ensures
            r is Some ==> {
                let t = self.tasks.entries()[next_start(self.tasks.entries(), self.tasks.active())].1;
                t is Queued || t matches TaskView::GetName { metadata: Some(_), .. } || t is DownloadVideo
            },
            match r {
                Some(id) => {
                    &&& self.tasks.active().len() < capacity(self.config.concurrent_downloads)
                    &&& next_start(self.tasks.entries(), self.tasks.active()) < self.tasks.entries().len()
                    &&& id == self.tasks.entries()[next_start(self.tasks.entries(), self.tasks.active())].0
                },
                None => self.tasks.active().len() >= capacity(self.config.concurrent_downloads)
                    || next_start(self.tasks.entries(), self.tasks.active()) == self.tasks.entries().len(),
            },
    {
        if at_capacity(self.tasks.active_task_count(), self.config.concurrent_downloads) {
            return None;
        }
        let list = self.tasks.task_list_ref();
        let ghost es = self.tasks.entries();
        let ghost active = self.tasks.active();
        proof {
            lemma_next_start(es, active);
        }
        let mut i: usize = 0;
        while i < list.len()
            invariant
                i <= list@.len(),
                es == crate::tasks::entries_view(list@),
                es == self.tasks.entries(),
                active == self.tasks.active(),
                active.len() < capacity(self.config.concurrent_downloads),
                forall|j: int| 0 <= j < i ==> active.contains(#[trigger] es[j].0) || !spawnable(es[j].1),
                0 <= next_start(es, active) <= es.len(),
                next_start(es, active) < es.len() ==> !active.contains(es[next_start(es, active)].0)
                    && spawnable(es[next_start(es, active)].1),
                forall|j: int|
                    0 <= j < next_start(es, active) ==> active.contains(#[trigger] es[j].0)
                        || !spawnable(es[j].1),
            decreases list.len() - i,
        {
            assert(es[i as int] == (list@[i as int].0, list@[i as int].1@));
            let id = list[i].0;
            let ok = match &list[i].1 {
                Task::Queued { .. } => true,
                Task::GetName { metadata: Some(_), .. } => true,
                Task::DownloadVideo { .. } => true,
                _ => false,
            };
            assert(ok == spawnable(es[i as int].1));
            if ok && !self.tasks.has_active_task(id) {
                assert(!active.contains(es[i as int].0) && spawnable(es[i as int].1));
                proof {
                    if next_start(es, active) < i {
                        let k = next_start(es, active);
                        assert(active.contains(es[k].0) || !spawnable(es[k].1));
                    }
                }
                assert(next_start(es, active) == i);
                return Some(id);
            }
            i += 1;
        }
        None
    }

    /// Starts the operation of task `id`, which can start: it is marked as
    /// running and the plan to run it is returned. A queued task now shows
    /// its metadata fetch, and publishes `GetName`. The tasks must be saved
    /// afterwards.
    pub fn start_operation(&mut self, id: u64) -> (r: Option<OperationPlan>)
        requires
            old(self).tasks.wf(),
        ensures
            final(self).tasks.wf(),
            final(self).config == old(self).config,
            final(self).tasks.next_id() == old(self).tasks.next_id(),
            r is Some ==> lookup(old(self).tasks.entries(), id) is Some && ({
                let t = lookup(old(self).tasks.entries(), id)->0;
                t is Queued || t matches TaskView::GetName { metadata: Some(_), .. } || t is DownloadVideo
            }),
            match lookup(old(self).tasks.entries(), id) {
                Some(t) => if spawnable(t) {
                    &&& r matches Some(p) && p@ == plan_for(t).0
                    &&& final(self).tasks.entries() == old(self).tasks.entries().update(
                        position_of(old(self).tasks.entries(), id),
                        (id, plan_for(t).1),
                    )
                    &&& final(self).tasks.active() == old(self).tasks.active().insert(id)
                    &&& final(self).tasks.statuses() == (if t is Queued && lookup(
                        old(self).tasks.statuses(),
                        id,
                    ) is Some {
                        status_set(old(self).tasks.statuses(), id, TaskStatus::GetName)
                    } else {
                        old(self).tasks.statuses()
                    })
                } else {
                    &&& r is None
                    &&& crate::daemon::same_tasks(old(self).tasks, final(self).tasks)
                },
                None => {
                    &&& r is None
                    &&& crate::daemon::same_tasks(old(self).tasks, final(self).tasks)
                },
            },
    {
        let ghost es = self.tasks.entries();
        proof {
            crate::tasks::lemma_position_of(es, id);
        }
        let plan = match self.tasks.get_task_mut(id) {
            None => return None,
            Some(t) => {
                proof {
                    assert(es.update(position_of(es, id), (id, t@)) =~= es);
                }
                let ok = match &*t {
                    Task::Queued { .. } => true,
                    Task::GetName { metadata: Some(_), .. } => true,
                    Task::DownloadVideo { .. } => true,
                    _ => false,
                };
                if !ok {
                    return None;
                }
                let plan = plan_exec(t);
                let next = match &*t {
                    Task::Queued { url, media_type, download_dir } => Some(
                        Task::GetName {
                            url: url.clone(),
                            metadata: None,
                            media_type: *media_type,
                            download_dir: crate::task::copy_opt_string(download_dir),
                        },
                    ),
                    _ => None,
                };
                match next {
                    Some(n) => {
                        *t = n;
                    },
                    None => {},
                }
                plan
            },
        };
        if let OperationPlan::FetchMetadata { .. } = plan {
            self.tasks.set_task_status(id, TaskStatus::GetName);
        }
        self.tasks.insert_active_task(id);
        Some(plan)
    }

    /// Records the task that the transition of task `id` to `DownloadVideo`
    /// produced; `DownloadVideo` is published.
    pub fn set_download_task(&mut self, id: u64, task: Task)
        requires
            old(self).tasks.wf(),
        ensures
            final(self).tasks.wf(),
            final(self).config == old(self).config,
            final(self).tasks.next_id() == old(self).tasks.next_id(),
            final(self).tasks.active() == old(self).tasks.active(),
            match lookup(old(self).tasks.entries(), id) {
                Some(_) => {
                    &&& final(self).tasks.entries() == old(self).tasks.entries().update(
                        position_of(old(self).tasks.entries(), id),
                        (id, task@),
                    )
                    &&& final(self).tasks.statuses() == (if lookup(old(self).tasks.statuses(), id) is Some {
                        status_set(old(self).tasks.statuses(), id, TaskStatus::DownloadVideo)
                    } else {
                        old(self).tasks.statuses()
                    })
                },
                None => crate::daemon::same_tasks(old(self).tasks, final(self).tasks),
            },
    {
        match self.tasks.get_task_mut(id) {
            Some(t) => {
                *t = task;
            },
            None => {
                return ;
            },
        }
        self.tasks.set_task_status(id, TaskStatus::DownloadVideo);
    }

    /// Whether the download of task `id` begins once its transition to
    /// `DownloadVideo` is recorded: only when the task is downloading now. A
    /// task that the transition failed (short of disk space, say) downloads
    /// nothing and no longer counts as running.
    pub fn download_begins(&mut self, id: u64) -> (b: bool)
        requires
            old(self).tasks.wf(),
        ensures
            final(self).tasks.wf(),
            b == (lookup(old(self).tasks.entries(), id) matches Some(t) && t is DownloadVideo),
            final(self).config == old(self).config,
            final(self).tasks.entries() == old(self).tasks.entries(),
            final(self).tasks.next_id() == old(self).tasks.next_id(),
            final(self).tasks.statuses() == old(self).tasks.statuses(),
            final(self).tasks.active() == (if b {
                old(self).tasks.active()
            } else {
                old(self).tasks.active().remove(id)
            }),
    {
        let downloading = match self.tasks.get_task(id) {
            Some(Task::DownloadVideo { .. }) => true,
            _ => false,
        };
        if !downloading {
            self.tasks.remove_active_task(id);
        }
        downloading
    }
}

// ---------------------------------------------------------------------------
// The end of an operation
// ---------------------------------------------------------------------------

/// What a successful operation produced.
#[derive(Debug)]
pub enum TaskOperationResult {
    /// The metadata of the URL.
    GetNameComplete(GetNameMetadata),
    /// The file the download ended in.
    DownloadComplete(String),
}

/// How an operation ended.
#[derive(Debug)]
pub enum OperationEnd {
    Finished(TaskOperationResult),
    Failed(String),
    /// Cancelled on purpose (its task was removed or paused).
    Cancelled,
    /// The operation crashed, for the given reason.
    Panicked(String),
}

pub enum EndView {
    GetNameComplete(GetNameMetadataView),
    DownloadComplete(Seq<char>),
    Failed(Seq<char>),
    Cancelled,
    Panicked(Seq<char>),
}

impl View for OperationEnd {
    type V = EndView;

    open spec fn view(&self) -> EndView {
        match *self {
            OperationEnd::Finished(TaskOperationResult::GetNameComplete(m)) =>
                EndView::GetNameComplete(m@),
            OperationEnd::Finished(TaskOperationResult::DownloadComplete(p)) =>
                EndView::DownloadComplete(p@),
            OperationEnd::Failed(e) => EndView::Failed(e@),
            OperationEnd::Cancelled => EndView::Cancelled,
            OperationEnd::Panicked(e) => EndView::Panicked(e@),
        }
    }
}

/// How a metadata fetch ended, from the task its transition produced: the
/// metadata when the task has them, else a failure.
pub fn fetch_result(task: Task) -> (r: OperationEnd)
    ensures
        r@ == match task@ {
            TaskView::GetName { metadata: Some(m), .. } => EndView::GetNameComplete(m),
            _ => EndView::Failed("GetName transition failed"@),
        },
{
    match task {
        Task::GetName { metadata: Some(m), .. } => OperationEnd::Finished(
            TaskOperationResult::GetNameComplete(m),
        ),
        _ => OperationEnd::Failed("GetName transition failed".to_owned()),
    }
}

/// The file name of the path `p ++ seg`, where `seg` holds no '/': `seg`
/// when it is a real name, else, when `seg` is empty or `.`, the file name
/// of what comes before the last '/' of `p`; none for `..` or when nothing is
/// left.
pub open spec fn file_name_after(p: Seq<char>, seg: Seq<char>) -> Option<Seq<char>>
    decreases p.len(),
{
    if p.len() == 0 {
        if seg.len() == 0 || seg == "."@ || seg == ".."@ {
            None
        } else {
            Some(seg)
        }
    } else if p.last() == '/' {
        if seg.len() == 0 || seg == "."@ {
            file_name_after(p.drop_last(), seq![])
        } else if seg == ".."@ {
            None
        } else {
            Some(seg)
        }
    } else {
        file_name_after(p.drop_last(), seq![p.last()] + seg)
    }
}

/// The last component of a Unix path, as `std::path::Path::file_name` gives
/// it: trailing separators and `.` components are skipped; none when what is
/// left ends in `..`, is the root, or is empty.
pub open spec fn file_name_of(path: Seq<char>) -> Option<Seq<char>> {
    file_name_after(path, seq![])
}

/// `std::path::Path::file_name` on a Unix path, read as text (a `&str` path
/// is valid UTF-8, so `to_str` always succeeds): its last component, as
/// `file_name_of` states it.
#[verifier::external_body]
fn path_file_name(path: &str) -> (r: Option<String>)
    ensures
        opt_view(r) == file_name_of(path@),
{
    match std::path::Path::new(path).file_name() {
        Some(f) => match f.to_str() {
            Some(s) => Some(s.to_owned()),
            None => None,
        },
        None => None,
    }
}

/// The text announcing a finished download: the file's name, else the
/// title, else "video".
pub open spec fn completion_text(file_name: Option<Seq<char>>, title: Option<Seq<char>>) -> Seq<char> {
    "Download completed: "@ + match file_name {
        Some(f) => f,
        None => title_or(title, "video"@),
    } + " 🤗✅"@
}

/// The text announcing a finished download (see `completion_text`).
pub fn completion_message(file_name: Option<String>, title: &Option<String>) -> (m: String)
    ensures
        m@ == completion_text(opt_view(file_name), opt_view(*title)),
{
    let mut m = "Download completed: ".to_owned();
    match file_name {
        Some(f) => push_str(&mut m, f.as_str()),
        None => match title {
            Some(t) => push_str(&mut m, t.as_str()),
            None => push_str(&mut m, "video"),
        },
    }
    push_str(&mut m, " 🤗✅");
    m
}

/// What the end of an operation does to its task `t`: the new task, the
/// status to publish, the notification to show and the file to touch.
pub struct EffectView {
    pub task: TaskView,
    pub status: Option<StatusView>,
    pub notification: Option<NotificationView>,
    pub touch: Option<Seq<char>>,
}

/// Metadata reach a task that is fetching them; a finished download
/// completes a downloading task, which is announced and its file touched; a
/// failure or a crash fails the task, a failure is announced; a cancelled
/// operation changes nothing. The task of any other result stays as it is.
pub open spec fn end_effect(t: TaskView, end: EndView) -> EffectView {
    let unchanged = EffectView { task: t, status: None, notification: None, touch: None };
    match end {
        EndView::GetNameComplete(m) => match t {
            TaskView::GetName { url, media_type, download_dir, .. } => EffectView {
                task: TaskView::GetName { url, metadata: Some(m), media_type, download_dir },
                ..unchanged
            },
            _ => unchanged,
        },
        EndView::DownloadComplete(path) => match t {
            TaskView::DownloadVideo { url, media_type, metadata, download_dir, .. } => EffectView {
                task: TaskView::Completed { url, media_type, path, download_dir },
                status: Some(StatusView::Completed),
                notification: Some(
                    NotificationView::Normal {
                        url,
                        message: completion_text(file_name_of(path), metadata.title),
                        timeout_ms: Some(5000),
                    },
                ),
                touch: Some(path),
            },
            _ => unchanged,
        },
        EndView::Failed(e) => EffectView {
            task: failed_task(t, e),
            status: Some(StatusView::Failed(e)),
            notification: Some(
                NotificationView::Critical { url: t.url(), message: "❌ Download failed: "@ + e },
            ),
            touch: None,
        },
        EndView::Panicked(e) => EffectView {
            task: failed_task(t, "Task panicked: "@ + e),
            status: Some(StatusView::Failed("Task panicked: "@ + e)),
            notification: None,
            touch: None,
        },
        EndView::Cancelled => unchanged,
    }
}

/// What the program does after an operation ended: show `notification`,
/// touch the file `touch`; `status` is the status published, if any. The
/// tasks must be saved afterwards.
pub struct EndEffects {
    pub notification: Option<Notification>,
    pub touch: Option<String>,
    pub status: Option<TaskStatus>,
}

pub open spec fn opt_status_view(s: Option<TaskStatus>) -> Option<StatusView> {
    match s {
        Some(s) => Some(s@),
        None => None,
    }
}

fn end_effects_of(t: &Task, end: OperationEnd) -> (r: (Task, EndEffects))
    ensures
        r.0@ == end_effect(t@, end@).task,
        opt_status_view(r.1.status) == end_effect(t@, end@).status,
        opt_notification_view(r.1.notification) == end_effect(t@, end@).notification,
        opt_view(r.1.touch) == end_effect(t@, end@).touch,
{
    let none = EndEffects { notification: None, touch: None, status: None };
    match end {
        OperationEnd::Finished(TaskOperationResult::GetNameComplete(m)) => match t {
            Task::GetName { url, media_type, download_dir, .. } => (
                Task::GetName {
                    url: url.clone(),
                    metadata: Some(m),
                    media_type: *media_type,
                    download_dir: crate::task::copy_opt_string(download_dir),
                },
                none,
            ),
            _ => (t.copy(), none),
        },
        OperationEnd::Finished(TaskOperationResult::DownloadComplete(path)) => match t {
            Task::DownloadVideo { url, media_type, metadata, download_dir, .. } => {
                let name = path_file_name(path.as_str());
                let message = completion_message(name, &metadata.title);
                (
                    Task::Completed {
                        url: url.clone(),
                        media_type: *media_type,
                        path: path.clone(),
                        download_dir: crate::task::copy_opt_string(download_dir),
                    },
                    EndEffects {
                        notification: Some(
                            Notification::Normal { url: url.clone(), message, timeout_ms: Some(5000) },
                        ),
                        touch: Some(path),
                        status: Some(TaskStatus::Completed),
                    },
                )
            },
            _ => (t.copy(), none),
        },
        OperationEnd::Failed(e) => {
            let mut message = "❌ Download failed: ".to_owned();
            push_str(&mut message, e.as_str());
            (
                failed_task_exec(t, e.clone()),
                EndEffects {
                    notification: Some(
                        Notification::Critical { url: t.url().to_owned(), message },
                    ),
                    touch: None,
                    status: Some(TaskStatus::Failed(e)),
                },
            )
        },
        OperationEnd::Panicked(e) => {
            let mut msg = "Task panicked: ".to_owned();
            push_str(&mut msg, e.as_str());
            (
                failed_task_exec(t, msg.clone()),
                EndEffects { notification: None, touch: None, status: Some(TaskStatus::Failed(msg)) },
            )
        },
        OperationEnd::Cancelled => (t.copy(), none),
    }
}

impl TaskManager {
    /// Applies the end of the operation of task `id` (see `end_effect`);
    /// nothing happens when the task is gone.
    pub fn apply_operation_end(&mut self, id: u64, end: OperationEnd) -> (r: EndEffects)
        requires
            old(self).tasks.wf(),
        ensures
            final(self).tasks.wf(),
            final(self).config == old(self).config,
            final(self).tasks.next_id() == old(self).tasks.next_id(),
            final(self).tasks.active() == old(self).tasks.active(),
            match lookup(old(self).tasks.entries(), id) {
                Some(t) => {
                    &&& final(self).tasks.entries() == old(self).tasks.entries().update(
                        position_of(old(self).tasks.entries(), id),
                        (id, end_effect(t, end@).task),
                    )
                    &&& opt_status_view(r.status) == end_effect(t, end@).status
                    &&& final(self).tasks.statuses() == match r.status {
                        Some(st) => if lookup(old(self).tasks.statuses(), id) is Some {
                            status_set(old(self).tasks.statuses(), id, st)
                        } else {
                            old(self).tasks.statuses()
                        },
                        None => old(self).tasks.statuses(),
                    }
                    &&& opt_notification_view(r.notification) == end_effect(t, end@).notification
                    &&& opt_view(r.touch) == end_effect(t, end@).touch
                },
                None => {
                    &&& crate::daemon::same_tasks(old(self).tasks, final(self).tasks)
                    &&& r.notification is None
                    &&& r.touch is None
                    &&& r.status is None
                },
            },
    {
        let (new_task, effects) = match self.tasks.get_task(id) {
            Some(t) => end_effects_of(t, end),
            None => {
                return EndEffects { notification: None, touch: None, status: None };
            },
        };
        match self.tasks.get_task_mut(id) {
            Some(t) => {
                *t = new_task;
            },
            None => {},
        }
        match &effects.status {
            Some(st) => self.tasks.set_task_status(id, st.copy()),
            None => {},
        }
        effects
    }
}

/// A paused task never starts: the task chosen to start is not paused, and
/// its operation does not run yet.
pub proof fn law_paused_never_started(es: Seq<(u64, TaskView)>, active: Set<u64>)
    ensures
        next_start(es, active) < es.len() ==> {
            &&& !es[next_start(es, active)].1.is_paused()
            &&& !active.contains(es[next_start(es, active)].0)
        },
{
    lemma_next_start(es, active);
}

/// Starting or ending an operation never changes which URL a task
/// downloads, as which media, nor where: a task keeps its identity from
/// queued to completed or failed.
pub proof fn law_operations_keep_identity(t: TaskView, end: EndView)
    ensures
        spawnable(t) ==> {
            &&& plan_for(t).1.url() == t.url()
            &&& plan_for(t).1.media_type() == t.media_type()
            &&& plan_for(t).1.download_dir() == t.download_dir()
        },
        end_effect(t, end).task.url() == t.url(),
        end_effect(t, end).task.media_type() == t.media_type(),
        end_effect(t, end).task.download_dir() == t.download_dir(),
{
}


/// Only a task with work left is started: the task chosen to start is
/// queued, has fetched its metadata, or is an interrupted download, and is
/// not running already. A failed, completed or paused task, or one whose
/// metadata is still unknown, is never started, by the queue or by
/// `start_operation`.
pub proof fn law_only_pending_tasks_start(es: Seq<(u64, TaskView)>, active: Set<u64>)
    ensures
        next_start(es, active) < es.len() ==> {
            let e = es[next_start(es, active)];
            &&& !active.contains(e.0)
            &&& e.1 is Queued || e.1 matches TaskView::GetName { metadata: Some(_), .. }
                || e.1 is DownloadVideo
        },
        forall|t: TaskView|
            (t is Failed || t is Completed || t.is_paused() || t matches TaskView::GetName {
                metadata: None,
                ..
            }) ==> !#[trigger] spawnable(t),
{
    lemma_next_start(es, active);
}

} // verus!
