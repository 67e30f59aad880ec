//! The daemon's view of its tasks: the messages exchanged with clients, the
//! status report, and the decisions taken on each client request.
use vstd::prelude::*;
use crate::config::Config;
use crate::task::{kind_name, opt_view, MediaType, Task, TaskKind, TaskView};
use crate::tasks::{
    completed_ids, count_paused, count_running, entries_view, has_url, lookup, pause_running_view,
    position_of, remove_keys, unpause_all_view, url_position, lemma_url_position, without_completed,
    Tasks,
};
use crate::text::{decimal, push_decimal, push_str, str_eq};

verus! {

// ---------------------------------------------------------------------------
// Messages between client and daemon
// ---------------------------------------------------------------------------

/// A request a client sends to the daemon.
#[derive(Clone, Debug)]
pub enum ClientRequest {
    Add { url: String, start_paused: bool },
    Remove { id: u64 },
    Clear,
    Status { verbose: bool },
    Kill { sender_pid: u32 },
    Info { id: u64 },
    /// Pause the listed tasks, or every running task.
    Pause { ids: Option<Vec<u64>> },
    /// Resume the listed tasks, or every paused task.
    Resume { ids: Option<Vec<u64>> },
}

/// One task as the status report shows it.
#[derive(Clone, Debug)]
pub struct TaskSummary {
    pub id: u64,
    pub url: String,
    pub title: Option<String>,
    pub path: Option<String>,
    pub task_type: String,
    pub error: Option<String>,
    pub timestamp: Option<String>,
    pub elapsed_seconds: Option<u64>,
    pub is_paused: bool,
    pub paused_reason: Option<String>,
    /// Bytes downloaded so far, when known.
    pub current_size_bytes: Option<u64>,
}

/// The settings the status report shows.
#[derive(Clone, Debug)]
pub struct ConfigSummary {
    pub concurrent_downloads: Option<u64>,
    pub disk_threshold: u32,
    pub socket_path: String,
}

/// The daemon's answer to a request.
#[derive(Clone, Debug)]
pub enum ServerResponse {
    Success { message: String },
    Error { message: String },
    Status {
        queued_tasks: Vec<TaskSummary>,
        current_tasks: Vec<TaskSummary>,
        completed_tasks: Vec<TaskSummary>,
        failed_tasks: Vec<TaskSummary>,
        uptime_seconds: u64,
        config_summary: ConfigSummary,
        has_internet: bool,
        internet_check_url: String,
    },
    Info { log_file_path: String },
}

/// URLs added while the daemon was not running.
#[derive(Clone, Debug)]
pub struct QueuedTasks {
    pub urls: Vec<String>,
}

/// Whether a task downloads a URL, and which.
#[derive(Clone, Copy, Debug, PartialEq, Eq, Structural)]
pub enum TaskByUrl {
    Exists { id: u64, kind: TaskKind },
    DoesntExist,
}

// ---------------------------------------------------------------------------
// Views
// ---------------------------------------------------------------------------

pub struct SummaryView {
    pub id: u64,
    pub url: Seq<char>,
    pub title: Option<Seq<char>>,
    pub path: Option<Seq<char>>,
    pub task_type: Seq<char>,
    pub error: Option<Seq<char>>,
    pub timestamp: Option<Seq<char>>,
    pub elapsed_seconds: Option<u64>,
    pub is_paused: bool,
    pub paused_reason: Option<Seq<char>>,
    pub current_size_bytes: Option<u64>,
}

impl View for TaskSummary {
    type V = SummaryView;

    open spec fn view(&self) -> SummaryView {
        SummaryView {
            id: self.id,
            url: self.url@,
            title: opt_view(self.title),
            path: opt_view(self.path),
            task_type: self.task_type@,
            error: opt_view(self.error),
            timestamp: opt_view(self.timestamp),
            elapsed_seconds: self.elapsed_seconds,
            is_paused: self.is_paused,
            paused_reason: opt_view(self.paused_reason),
            current_size_bytes: self.current_size_bytes,
        }
    }
}

pub open spec fn summaries_view(s: Seq<TaskSummary>) -> Seq<SummaryView> {
    s.map_values(|x: TaskSummary| x@)
}

pub enum ResponseView {
    Success { message: Seq<char> },
    Error { message: Seq<char> },
    Status {
        queued_tasks: Seq<SummaryView>,
        current_tasks: Seq<SummaryView>,
        completed_tasks: Seq<SummaryView>,
        failed_tasks: Seq<SummaryView>,
        uptime_seconds: u64,
        concurrent_downloads: Option<u64>,
        disk_threshold: u32,
        socket_path: Seq<char>,
        has_internet: bool,
        internet_check_url: Seq<char>,
    },
    Info { log_file_path: Seq<char> },
}

impl View for ServerResponse {
    type V = ResponseView;

    open spec fn view(&self) -> ResponseView {
        match *self {
            ServerResponse::Success { message } => ResponseView::Success { message: message@ },
            ServerResponse::Error { message } => ResponseView::Error { message: message@ },
            ServerResponse::Status {
                queued_tasks,
                current_tasks,
                completed_tasks,
                failed_tasks,
                uptime_seconds,
                config_summary,
                has_internet,
                internet_check_url,
            } => ResponseView::Status {
                queued_tasks: summaries_view(queued_tasks@),
                current_tasks: summaries_view(current_tasks@),
                completed_tasks: summaries_view(completed_tasks@),
                failed_tasks: summaries_view(failed_tasks@),
                uptime_seconds,
                concurrent_downloads: config_summary.concurrent_downloads,
                disk_threshold: config_summary.disk_threshold,
                socket_path: config_summary.socket_path@,
                has_internet,
                internet_check_url: internet_check_url@,
            },
            ServerResponse::Info { log_file_path } => ResponseView::Info {
                log_file_path: log_file_path@,
            },
        }
    }
}

// ---------------------------------------------------------------------------
// The status report
// ---------------------------------------------------------------------------

/// The section of the status report a task is listed in.
#[derive(Clone, Copy, Debug, PartialEq, Eq, Structural)]
pub enum Section {
    Queued,
    Current,
    Completed,
    Failed,
}

/// Queued tasks (paused or not) are listed as queued; metadata fetches and
/// downloads (paused or not) as current; then completed and failed tasks.
pub open spec fn section_of(t: TaskView) -> Section {
    match t {
        TaskView::Queued { .. } => Section::Queued,
        TaskView::PausedQueued { .. } => Section::Queued,
        TaskView::GetName { .. } => Section::Current,
        TaskView::DownloadVideo { .. } => Section::Current,
        TaskView::PausedGetName { .. } => Section::Current,
        TaskView::PausedDownloadVideo { .. } => Section::Current,
        TaskView::Completed { .. } => Section::Completed,
        TaskView::Failed { .. } => Section::Failed,
    }
}

/// The title known for a task.
pub open spec fn title_of(t: TaskView) -> Option<Seq<char>> {
    match t {
        TaskView::GetName { metadata: Some(m), .. } => m.title,
        TaskView::PausedGetName { metadata: Some(m), .. } => m.title,
        TaskView::DownloadVideo { metadata, .. } => metadata.title,
        TaskView::PausedDownloadVideo { metadata, .. } => metadata.title,
        _ => None,
    }
}

/// The file a task writes or wrote.
pub open spec fn path_of(t: TaskView) -> Option<Seq<char>> {
    match t {
        TaskView::DownloadVideo { path, .. } => Some(path),
        TaskView::PausedDownloadVideo { path, .. } => Some(path),
        TaskView::Completed { path, .. } => Some(path),
        _ => None,
    }
}

/// Why a task failed.
pub open spec fn error_of(t: TaskView) -> Option<Seq<char>> {
    match t {
        TaskView::Failed { human_readable_error, .. } => Some(human_readable_error),
        _ => None,
    }
}

/// How the status report shows a task.
pub open spec fn summary_of(id: u64, t: TaskView) -> SummaryView {
    SummaryView {
        id,
        url: t.url(),
        title: title_of(t),
        path: path_of(t),
        task_type: kind_name(t.kind()),
        error: error_of(t),
        timestamp: None,
        elapsed_seconds: None,
        is_paused: t.is_paused(),
        paused_reason: None,
        current_size_bytes: None,
    }
}

/// The tasks of a section, in id order.
pub open spec fn section_summaries(es: Seq<(u64, TaskView)>, s: Section) -> Seq<SummaryView>
    decreases es.len(),
{
    if es.len() == 0 {
        seq![]
    } else if section_of(es.last().1) == s {
        section_summaries(es.drop_last(), s).push(summary_of(es.last().0, es.last().1))
    } else {
        section_summaries(es.drop_last(), s)
    }
}

/// The status report of the tasks `es` under the settings `config`.
pub open spec fn status_report(
    es: Seq<(u64, TaskView)>,
    config: Config,
    has_internet: bool,
    uptime_seconds: u64,
) -> ResponseView {
    ResponseView::Status {
        queued_tasks: section_summaries(es, Section::Queued),
        current_tasks: section_summaries(es, Section::Current),
        completed_tasks: section_summaries(es, Section::Completed),
        failed_tasks: section_summaries(es, Section::Failed),
        uptime_seconds,
        concurrent_downloads: config.concurrent_downloads,
        disk_threshold: config.disk_threshold,
        socket_path: config.socket_path@,
        has_internet,
        internet_check_url: config.internet_check_url@,
    }
}

fn summary_exec(id: u64, t: &Task) -> (s: TaskSummary)
    ensures
        s@ == summary_of(id, t@),
{
    let title = match t {
        Task::GetName { metadata: Some(m), .. } => crate::task::copy_opt_string(&m.title),
        Task::PausedGetName { metadata: Some(m), .. } => crate::task::copy_opt_string(&m.title),
        Task::DownloadVideo { metadata, .. } => crate::task::copy_opt_string(&metadata.title),
        Task::PausedDownloadVideo { metadata, .. } => crate::task::copy_opt_string(&metadata.title),
        _ => None,
    };
    let path = match t {
        Task::DownloadVideo { path, .. } => Some(path.clone()),
        Task::PausedDownloadVideo { path, .. } => Some(path.clone()),
        Task::Completed { path, .. } => Some(path.clone()),
        _ => None,
    };
    let error = match t {
        Task::Failed { human_readable_error, .. } => Some(human_readable_error.clone()),
        _ => None,
    };
    TaskSummary {
        id,
        url: t.url().to_owned(),
        title,
        path,
        task_type: t.kind().name().to_owned(),
        error,
        timestamp: None,
        elapsed_seconds: None,
        is_paused: t.is_paused(),
        paused_reason: None,
        current_size_bytes: None,
    }
}

fn section_exec(t: &Task) -> (s: Section)
    ensures
        s == section_of(t@),
        s == Section::Queued <==> (t@ is Queued || t@ is PausedQueued),
        s == Section::Current <==> (t@ is GetName || t@ is DownloadVideo || t@ is PausedGetName
            || t@ is PausedDownloadVideo),
        s == Section::Completed <==> t@ is Completed,
        s == Section::Failed <==> t@ is Failed,
{
    match t {
        Task::Queued { .. } | Task::PausedQueued { .. } => Section::Queued,
        Task::GetName { .. } | Task::DownloadVideo { .. } | Task::PausedGetName { .. }
        | Task::PausedDownloadVideo { .. } => Section::Current,
        Task::Completed { .. } => Section::Completed,
        Task::Failed { .. } => Section::Failed,
    }
}

/// Every task is listed in exactly one section of the status report: the
/// sections together hold as many tasks as the registry.
pub proof fn law_sections_partition(es: Seq<(u64, TaskView)>)
    ensures
        section_summaries(es, Section::Queued).len() + section_summaries(es, Section::Current).len()
            + section_summaries(es, Section::Completed).len() + section_summaries(
            es,
            Section::Failed,
        ).len() == es.len(),
    decreases es.len(),
{
    if es.len() > 0 {
        law_sections_partition(es.drop_last());
    }
}

// ---------------------------------------------------------------------------
// The manager
// ---------------------------------------------------------------------------

/// The tasks of the daemon and its settings.
pub struct TaskManager {
    pub tasks: Tasks,
    pub config: Config,
}

impl TaskManager {
    /// A manager with no tasks.
    pub fn new_with_config(config: Config) -> (m: TaskManager)
        ensures
            m.tasks.wf(),
            m.tasks.entries() == Seq::<(u64, TaskView)>::empty(),
            m.tasks.next_id() == 0,
            m.tasks.active() == Set::<u64>::empty(),
            m.config == config,
    {
        TaskManager { tasks: Tasks::new(), config }
    }

    /// Adds a queued video download for `url` (see `Tasks::add_url_as_task`).
    pub fn add_task(&mut self, url: String) -> (r: Result<u64, String>)
        requires
            old(self).tasks.wf(),
            old(self).tasks.next_id() < u64::MAX,
        ensures
            final(self).tasks.wf(),
            final(self).config == old(self).config,
            match crate::tasks::add_refusal(old(self).tasks.entries(), url@, None) {
                Some(msg) => {
                    &&& r matches Err(e) && e@ == msg
                    &&& final(self).tasks == old(self).tasks
                },
                None => {
                    &&& r == Ok::<u64, String>(old(self).tasks.next_id())
                    &&& final(self).tasks.entries() == old(self).tasks.entries().push(
                        (
                            old(self).tasks.next_id(),
                            TaskView::Queued { url: url@, media_type: MediaType::Video, download_dir: None },
                        ),
                    )
                    &&& final(self).tasks.next_id() == old(self).tasks.next_id() + 1
                    &&& final(self).tasks.active() == old(self).tasks.active()
                    &&& final(self).tasks.statuses() == crate::tasks::status_set(
                        old(self).tasks.statuses(),
                        old(self).tasks.next_id(),
                        crate::task::TaskStatus::Queued,
                    )
                },
            },
    {
        self.tasks.add_url_as_task(url, MediaType::Video, None)
    }

    /// Removes a task (see `Tasks::remove_task`).
    pub fn remove_task(&mut self, id: u64) -> (removed: bool)
        requires
            old(self).tasks.wf(),
        ensures
            final(self).tasks.wf(),
            final(self).config == old(self).config,
            removed == (lookup(old(self).tasks.entries(), id) is Some),
            final(self).tasks.entries() == crate::tasks::remove_key(old(self).tasks.entries(), id),
            final(self).tasks.next_id() == old(self).tasks.next_id(),
            final(self).tasks.active() == old(self).tasks.active().remove(id),
            final(self).tasks.statuses() == crate::tasks::remove_key(old(self).tasks.statuses(), id),
    {
        self.tasks.remove_task(id)
    }

    fn url_index(&self, url: &str) -> (i: usize)
        ensures
            i == url_position(self.tasks.entries(), url@),
            i <= self.tasks.entries().len(),
    {
        let list = self.tasks.task_list_ref();
        let ghost es = self.tasks.entries();
        proof {
            lemma_url_position(es, url@);
        }
        let mut i: usize = 0;
        while i < list.len()
            invariant
                i <= list@.len(),
                es == entries_view(list@),
                es == self.tasks.entries(),
                forall|k: int| 0 <= k < i ==> es[k].1.url() != url@,
                0 <= url_position(es, url@) <= es.len(),
                url_position(es, url@) < es.len() ==> es[url_position(es, url@)].1.url() == url@,
                forall|j: int| 0 <= j < url_position(es, url@) ==> es[j].1.url() != url@,
            decreases list.len() - i,
        {
            assert(es[i as int] == (list@[i as int].0, list@[i as int].1@));
            if str_eq(list[i].1.url(), url) {
                assert(url_position(es, url@) == i);
                return i;
            }
            i += 1;
        }
        i
    }

    /// The message refusing `url` when a task already downloads it.
    pub fn check_duplicate_url(&self, url: &str) -> (r: Option<String>)
        ensures
            match r {
                Some(m) => url_position(self.tasks.entries(), url@) < self.tasks.entries().len()
                    && m@ == "URL already exists with task ID "@ + decimal(
                    self.tasks.entries()[url_position(self.tasks.entries(), url@)].0 as nat,
                ),
                None => !has_url(self.tasks.entries(), url@),
            },
    {
        let i = self.url_index(url);
        let list = self.tasks.task_list_ref();
        proof {
            lemma_url_position(self.tasks.entries(), url@);
        }
        if i < list.len() {
            assert(self.tasks.entries()[i as int].0 == list@[i as int].0);
            let mut m = "URL already exists with task ID ".to_owned();
            push_decimal(&mut m, list[i].0);
            Some(m)
        } else {
            None
        }
    }

    /// The first task (by id) that downloads `url`, with its state.
    pub fn find_task_by_url(&self, url: &str) -> (r: TaskByUrl)
        ensures
            r == (if url_position(self.tasks.entries(), url@) < self.tasks.entries().len() {
                TaskByUrl::Exists {
                    id: self.tasks.entries()[url_position(self.tasks.entries(), url@)].0,
                    kind: self.tasks.entries()[url_position(self.tasks.entries(), url@)].1.kind(),
                }
            } else {
                TaskByUrl::DoesntExist
            }),
    {
        let i = self.url_index(url);
        let list = self.tasks.task_list_ref();
        if i < list.len() {
            assert(self.tasks.entries()[i as int] == (list@[i as int].0, list@[i as int].1@));
            TaskByUrl::Exists { id: list[i].0, kind: list[i].1.kind() }
        } else {
            TaskByUrl::DoesntExist
        }
    }

    /// The status report: every task in its section (see `section_of`),
    /// the settings, how long the daemon has run and whether it reaches the
    /// internet.
    pub fn get_status(&self, verbose: bool, has_internet: bool, uptime_seconds: u64) -> (r: ServerResponse)
        ensures
            r@ == status_report(self.tasks.entries(), self.config, has_internet, uptime_seconds),
    {
        let list = self.tasks.task_list_ref();
        let ghost es = self.tasks.entries();
        let mut queued: Vec<TaskSummary> = Vec::new();
        let mut current: Vec<TaskSummary> = Vec::new();
        let mut completed: Vec<TaskSummary> = Vec::new();
        let mut failed: Vec<TaskSummary> = Vec::new();
        let mut i: usize = 0;
        assert(es.take(0) =~= Seq::<(u64, TaskView)>::empty());
        assert(summaries_view(queued@) =~= Seq::<SummaryView>::empty());
        assert(summaries_view(current@) =~= Seq::<SummaryView>::empty());
        assert(summaries_view(completed@) =~= Seq::<SummaryView>::empty());
        assert(summaries_view(failed@) =~= Seq::<SummaryView>::empty());
        while i < list.len()
            invariant
                i <= list@.len(),
                es == entries_view(list@),
                summaries_view(queued@) == section_summaries(es.take(i as int), Section::Queued),
                summaries_view(current@) == section_summaries(es.take(i as int), Section::Current),
                summaries_view(completed@) == section_summaries(es.take(i as int), Section::Completed),
                summaries_view(failed@) == section_summaries(es.take(i as int), Section::Failed),
            decreases list.len() - i,
        {
            assert(es.take(i + 1).drop_last() =~= es.take(i as int));
            assert(es.take(i + 1).last() == (list@[i as int].0, list@[i as int].1@));
            let (id, t) = (list[i].0, &list[i].1);
            let s = summary_exec(id, t);
            let ghost (q0, c0, d0, f0) = (queued@, current@, completed@, failed@);
            match section_exec(t) {
                Section::Queued => {
                    queued.push(s);
                    assert(summaries_view(queued@) =~= summaries_view(q0).push(s@));
                },
                Section::Current => {
                    current.push(s);
                    assert(summaries_view(current@) =~= summaries_view(c0).push(s@));
                },
                Section::Completed => {
                    completed.push(s);
                    assert(summaries_view(completed@) =~= summaries_view(d0).push(s@));
                },
                Section::Failed => {
                    failed.push(s);
                    assert(summaries_view(failed@) =~= summaries_view(f0).push(s@));
                },
            }
            i += 1;
        }
        assert(es.take(es.len() as int) =~= es);
        ServerResponse::Status {
            queued_tasks: queued,
            current_tasks: current,
            completed_tasks: completed,
            failed_tasks: failed,
            uptime_seconds,
            config_summary: ConfigSummary {
                concurrent_downloads: self.config.concurrent_downloads,
                disk_threshold: self.config.disk_threshold,
                socket_path: self.config.socket_path.clone(),
            },
            has_internet,
            internet_check_url: self.config.internet_check_url.clone(),
        }
    }
}


/// A task that pausing applies to: queued or running.
pub open spec fn pausable(t: TaskView) -> bool {
    t is Queued || t is GetName || t is DownloadVideo
}

/// Why pausing task `id` fails, if it does.
pub open spec fn pause_refusal(es: Seq<(u64, TaskView)>, id: u64) -> Option<Seq<char>> {
    match lookup(es, id) {
        None => Some("not found"@),
        Some(t) => if pausable(t) {
            None
        } else {
            Some("cannot be paused"@)
        },
    }
}

/// Why resuming task `id` fails, if it does.
pub open spec fn resume_refusal(es: Seq<(u64, TaskView)>, id: u64) -> Option<Seq<char>> {
    match lookup(es, id) {
        None => Some("not found"@),
        Some(t) => if t.is_paused() {
            None
        } else {
            Some("is not paused"@)
        },
    }
}

impl TaskManager {
    /// Removes every completed task; returns their ids.
    pub fn clear_completed(&mut self) -> (ids: Vec<u64>)
        requires
            old(self).tasks.wf(),
        ensures
            final(self).tasks.wf(),
            final(self).config == old(self).config,
            ids@ == completed_ids(old(self).tasks.entries()),
            final(self).tasks.entries() == without_completed(old(self).tasks.entries()),
            final(self).tasks.next_id() == old(self).tasks.next_id(),
            final(self).tasks.active() == old(self).tasks.active().difference(ids@.to_set()),
            final(self).tasks.statuses() == remove_keys(old(self).tasks.statuses(), ids@),
    {
        self.tasks.remove_completed()
    }

    /// Pauses task `id` (see `TaskView::paused`); refused when there is no
    /// such task or it is neither queued nor running.
    pub fn pause_task(&mut self, id: u64) -> (r: Result<(), String>)
        requires
            old(self).tasks.wf(),
        ensures
            final(self).tasks.wf(),
            final(self).config == old(self).config,
            final(self).tasks.next_id() == old(self).tasks.next_id(),
            final(self).tasks.active() == old(self).tasks.active(),
            final(self).tasks.statuses() == old(self).tasks.statuses(),
            lookup(old(self).tasks.entries(), id) is Some && ({
                let t = lookup(old(self).tasks.entries(), id)->0;
                t is Queued || t is GetName || t is DownloadVideo
            }) ==> r is Ok,
            match pause_refusal(old(self).tasks.entries(), id) {
                Some(msg) => r matches Err(e) && e@ == msg && final(self).tasks.entries() == old(
                    self,
                ).tasks.entries(),
                None => r is Ok && final(self).tasks.entries() == old(self).tasks.entries().update(
                    position_of(old(self).tasks.entries(), id),
                    (id, lookup(old(self).tasks.entries(), id)->0.paused()),
                ),
            },
    {
        let ghost es = self.tasks.entries();
        proof {
            crate::tasks::lemma_position_of(es, id);
        }
        match self.tasks.get_task_mut(id) {
            None => Err("not found".to_owned()),
            Some(t) => {
                proof {
                    assert(es[position_of(es, id)] == (id, t@));
                    assert(es.update(position_of(es, id), (id, t@)) =~= es);
                }
                match t {
                    Task::Queued { .. } | Task::GetName { .. } | Task::DownloadVideo { .. } => {
                        t.pause();
                        Ok(())
                    },
                    _ => Err("cannot be paused".to_owned()),
                }
            },
        }
    }

    /// Resumes task `id` (see `TaskView::unpaused`); refused when there is no
    /// such task or it is not paused.
    pub fn resume_task(&mut self, id: u64) -> (r: Result<(), String>)
        requires
            old(self).tasks.wf(),
        ensures
            final(self).tasks.wf(),
            final(self).config == old(self).config,
            final(self).tasks.next_id() == old(self).tasks.next_id(),
            final(self).tasks.active() == old(self).tasks.active(),
            final(self).tasks.statuses() == old(self).tasks.statuses(),
            match resume_refusal(old(self).tasks.entries(), id) {
                Some(msg) => r matches Err(e) && e@ == msg && final(self).tasks.entries() == old(
                    self,
                ).tasks.entries(),
                None => r is Ok && final(self).tasks.entries() == old(self).tasks.entries().update(
                    position_of(old(self).tasks.entries(), id),
                    (id, lookup(old(self).tasks.entries(), id)->0.unpaused()),
                ),
            },
    {
        let ghost es = self.tasks.entries();
        proof {
            crate::tasks::lemma_position_of(es, id);
        }
        match self.tasks.get_task_mut(id) {
            None => Err("not found".to_owned()),
            Some(t) => {
                proof {
                    assert(es[position_of(es, id)] == (id, t@));
                    assert(es.update(position_of(es, id), (id, t@)) =~= es);
                }
                if t.is_paused() {
                    t.unpause();
                    Ok(())
                } else {
                    Err("is not paused".to_owned())
                }
            },
        }
    }

    /// Pauses every running task; tells how many.
    pub fn pause_all_active(&mut self) -> (n: usize)
        requires
            old(self).tasks.wf(),
        ensures
            final(self).tasks.wf(),
            final(self).config == old(self).config,
            n == count_running(old(self).tasks.entries()),
            final(self).tasks.entries() == pause_running_view(old(self).tasks.entries()),
            final(self).tasks.next_id() == old(self).tasks.next_id(),
            final(self).tasks.active() == old(self).tasks.active(),
            final(self).tasks.statuses() == old(self).tasks.statuses(),
    {
        self.tasks.pause_running()
    }

    /// Resumes every paused task; tells how many.
    pub fn resume_all(&mut self) -> (n: usize)
        requires
            old(self).tasks.wf(),
        ensures
            final(self).tasks.wf(),
            final(self).config == old(self).config,
            n == count_paused(old(self).tasks.entries()),
            final(self).tasks.entries() == unpause_all_view(old(self).tasks.entries()),
            final(self).tasks.next_id() == old(self).tasks.next_id(),
            final(self).tasks.active() == old(self).tasks.active(),
            final(self).tasks.statuses() == old(self).tasks.statuses(),
    {
        self.tasks.unpause_all()
    }
}

/// A queued or running task can always be paused by its id: pausing is not
/// refused and gives the paused state of the same stage, for the same URL
/// and media type. Any other task, or a missing one, is refused.
pub proof fn law_running_tasks_pause(es: Seq<(u64, TaskView)>, id: u64)
    ensures
        lookup(es, id) is None ==> pause_refusal(es, id) == Some("not found"@),
        lookup(es, id) matches Some(t) ==> {
            &&& (t is Queued || t is GetName || t is DownloadVideo) <==> pause_refusal(es, id) is None
            &&& t is Queued ==> t.paused() is PausedQueued
            &&& t is GetName ==> t.paused() is PausedGetName
            &&& t is DownloadVideo ==> t.paused() is PausedDownloadVideo
            &&& (t is Queued || t is GetName || t is DownloadVideo) ==> {
                &&& t.paused().is_paused()
                &&& t.paused().url() == t.url()
                &&& t.paused().media_type() == t.media_type()
                &&& t.paused().download_dir() == t.download_dir()
            }
        },
{
}

proof fn lemma_section_members(es: Seq<(u64, TaskView)>, s: Section)
    ensures
        forall|i: int|
            0 <= i < es.len() && section_of(#[trigger] es[i].1) == s ==> section_summaries(
                es,
                s,
            ).contains(summary_of(es[i].0, es[i].1)),
        forall|k: int|
            #![trigger section_summaries(es, s)[k]]
            0 <= k < section_summaries(es, s).len() ==> exists|i: int|
                0 <= i < es.len() && section_of(#[trigger] es[i].1) == s && section_summaries(es, s)[k]
                    == summary_of(es[i].0, es[i].1),
    decreases es.len(),
{
    if es.len() > 0 {
        let t = es.drop_last();
        lemma_section_members(t, s);
        let st = section_summaries(t, s);
        let se = section_summaries(es, s);
        let n = es.len() - 1;
        assert forall|i: int| 0 <= i < es.len() && section_of(#[trigger] es[i].1) == s implies se.contains(
            summary_of(es[i].0, es[i].1),
        ) by {
            if i < n {
                assert(es[i] == t[i]);
                assert(section_of(t[i].1) == s);
                assert(st.contains(summary_of(t[i].0, t[i].1)));
                let k = choose|k: int| 0 <= k < st.len() && st[k] == summary_of(t[i].0, t[i].1);
                assert(se[k] == st[k]);
            } else {
                assert(se[se.len() - 1] == summary_of(es.last().0, es.last().1));
            }
        }
        assert forall|k: int| #![trigger se[k]] 0 <= k < se.len() implies exists|i: int|
            0 <= i < es.len() && section_of(#[trigger] es[i].1) == s && se[k] == summary_of(
                es[i].0,
                es[i].1,
            ) by {
            if k < st.len() {
                assert(se[k] == st[k]);
                let i = choose|i: int|
                    0 <= i < t.len() && section_of(#[trigger] t[i].1) == s && st[k] == summary_of(
                        t[i].0,
                        t[i].1,
                    );
                assert(es[i] == t[i]);
            } else {
                assert(se[k] == summary_of(es[n].0, es[n].1));
                assert(section_of(es[n].1) == s);
            }
        }
    }
}

/// Where the status report lists a task: every metadata fetch and download,
/// paused or not, under the current tasks, and only those; every queued
/// task, paused or not, under the queued tasks, and only those.
pub proof fn law_report_sections(es: Seq<(u64, TaskView)>)
    ensures
        forall|i: int|
            0 <= i < es.len() && ((#[trigger] es[i]).1 is GetName || es[i].1 is DownloadVideo
                || es[i].1 is PausedGetName || es[i].1 is PausedDownloadVideo) ==> section_summaries(
                es,
                Section::Current,
            ).contains(summary_of(es[i].0, es[i].1)),
        forall|i: int|
            0 <= i < es.len() && ((#[trigger] es[i]).1 is Queued || es[i].1 is PausedQueued)
                ==> section_summaries(es, Section::Queued).contains(summary_of(es[i].0, es[i].1)),
        forall|k: int|
            #![trigger section_summaries(es, Section::Current)[k]]
            0 <= k < section_summaries(es, Section::Current).len() ==> exists|i: int|
                0 <= i < es.len() && ((#[trigger] es[i]).1 is GetName || es[i].1 is DownloadVideo
                    || es[i].1 is PausedGetName || es[i].1 is PausedDownloadVideo)
                    && section_summaries(es, Section::Current)[k] == summary_of(es[i].0, es[i].1),
        forall|k: int|
            #![trigger section_summaries(es, Section::Queued)[k]]
            0 <= k < section_summaries(es, Section::Queued).len() ==> exists|i: int|
                0 <= i < es.len() && ((#[trigger] es[i]).1 is Queued || es[i].1 is PausedQueued)
                    && section_summaries(es, Section::Queued)[k] == summary_of(es[i].0, es[i].1),
{
    lemma_section_members(es, Section::Current);
    lemma_section_members(es, Section::Queued);
    assert forall|k: int|
        #![trigger section_summaries(es, Section::Current)[k]]
        0 <= k < section_summaries(es, Section::Current).len() implies exists|i: int|
        0 <= i < es.len() && ((#[trigger] es[i]).1 is GetName || es[i].1 is DownloadVideo
            || es[i].1 is PausedGetName || es[i].1 is PausedDownloadVideo)
            && section_summaries(es, Section::Current)[k] == summary_of(es[i].0, es[i].1) by {
        let i = choose|i: int|
            0 <= i < es.len() && section_of(#[trigger] es[i].1) == Section::Current
                && section_summaries(es, Section::Current)[k] == summary_of(es[i].0, es[i].1);
        assert(es[i].1 is GetName || es[i].1 is DownloadVideo || es[i].1 is PausedGetName
            || es[i].1 is PausedDownloadVideo);
    }
    assert forall|k: int|
        #![trigger section_summaries(es, Section::Queued)[k]]
        0 <= k < section_summaries(es, Section::Queued).len() implies exists|i: int|
        0 <= i < es.len() && ((#[trigger] es[i]).1 is Queued || es[i].1 is PausedQueued)
            && section_summaries(es, Section::Queued)[k] == summary_of(es[i].0, es[i].1) by {
        let i = choose|i: int|
            0 <= i < es.len() && section_of(#[trigger] es[i].1) == Section::Queued
                && section_summaries(es, Section::Queued)[k] == summary_of(es[i].0, es[i].1);
        assert(es[i].1 is Queued || es[i].1 is PausedQueued);
    }
    assert forall|i: int|
        0 <= i < es.len() && ((#[trigger] es[i]).1 is GetName || es[i].1 is DownloadVideo
            || es[i].1 is PausedGetName || es[i].1 is PausedDownloadVideo) implies section_summaries(
        es,
        Section::Current,
    ).contains(summary_of(es[i].0, es[i].1)) by {
        assert(section_of(es[i].1) == Section::Current);
    }
    assert forall|i: int|
        0 <= i < es.len() && ((#[trigger] es[i]).1 is Queued || es[i].1 is PausedQueued)
        implies section_summaries(es, Section::Queued).contains(summary_of(es[i].0, es[i].1)) by {
        assert(section_of(es[i].1) == Section::Queued);
    }
}

} // verus!
