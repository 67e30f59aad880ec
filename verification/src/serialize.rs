//! The persistent form of the registry and the recovery of tasks from it
//! after a restart.
use vstd::prelude::*;
use crate::task::{MediaType, Task, TaskKind, TaskView};
use crate::tasks::{entries_view, Tasks};
use crate::text::str_eq;

verus! {

/// What is saved of a task: its URL, its state and what it downloads.
#[derive(Clone, Debug)]
pub struct SerializableTask {
    pub url: String,
    pub task_kind: TaskKind,
    pub media_type: MediaType,
}

/// What is saved of the registry.
#[derive(Clone, Debug)]
pub struct SerializableTasks {
    pub tasks: Vec<SerializableTask>,
}

/// The content of a saved task.
pub type SavedView = (Seq<char>, TaskKind, MediaType);

impl View for SerializableTask {
    type V = SavedView;

    open spec fn view(&self) -> SavedView {
        (self.url@, self.task_kind, self.media_type)
    }
}

pub open spec fn saved_seq_view(s: Seq<SerializableTask>) -> Seq<SavedView> {
    s.map_values(|e: SerializableTask| e@)
}

impl View for SerializableTasks {
    type V = Seq<SavedView>;

    open spec fn view(&self) -> Seq<SavedView> {
        saved_seq_view(self.tasks@)
    }
}

/// What is saved of a list of tasks: every task that is not completed, in
/// order.
pub open spec fn saved_view(es: Seq<(u64, TaskView)>) -> Seq<SavedView>
    decreases es.len(),
{
    if es.len() == 0 {
        seq![]
    } else if es.last().1 is Completed {
        saved_view(es.drop_last())
    } else {
        saved_view(es.drop_last()).push(
            (es.last().1.url(), es.last().1.kind(), es.last().1.media_type()),
        )
    }
}

/// The task a saved entry comes back as: failed tasks stay failed (their
/// error is lost), paused tasks come back paused and resume by themselves
/// (a paused download restarts from its metadata), and every other task is
/// queued again. The requested download directory is not saved.
#[verifier::opaque]
pub open spec fn recovered_task(e: SavedView) -> TaskView {
    match e.1 {
        TaskKind::Failed => TaskView::Failed {
            media_type: e.2,
            url: e.0,
            human_readable_error: "Recovered from previous session"@,
            download_dir: None,
        },
        TaskKind::PausedQueued => TaskView::PausedQueued {
            url: e.0,
            media_type: e.2,
            should_auto_resume: true,
            download_dir: None,
        },
        TaskKind::PausedGetName => TaskView::PausedGetName {
            url: e.0,
            metadata: None,
            should_auto_resume: true,
            media_type: e.2,
            download_dir: None,
        },
        TaskKind::PausedDownloadVideo => TaskView::PausedQueued {
            url: e.0,
            media_type: e.2,
            should_auto_resume: true,
            download_dir: None,
        },
        _ => TaskView::Queued { url: e.0, media_type: e.2, download_dir: None },
    }
}

/// A recovered task downloads the saved URL, as the saved media type, in
/// the state `recovered_kind` gives, and nowhere in particular.
pub proof fn lemma_recovered_task(e: SavedView)
    ensures
        recovered_task(e).url() == e.0,
        recovered_task(e).media_type() == e.2,
        recovered_task(e).kind() == recovered_kind(e.1),
        recovered_task(e).download_dir() is None,
{
    reveal(recovered_task);
}

/// The state a task saved in state `k` comes back in.
pub open spec fn recovered_kind(k: TaskKind) -> TaskKind {
    match k {
        TaskKind::Failed => TaskKind::Failed,
        TaskKind::PausedQueued => TaskKind::PausedQueued,
        TaskKind::PausedGetName => TaskKind::PausedGetName,
        TaskKind::PausedDownloadVideo => TaskKind::PausedQueued,
        _ => TaskKind::Queued,
    }
}

/// Some task of `acc` downloads `url`.
pub open spec fn mentions_url(acc: Seq<TaskView>, url: Seq<char>) -> bool {
    exists|i: int| 0 <= i < acc.len() && acc[i].url() == url
}

/// One recovery pass: the saved entries of state `k`, in order, are added
/// after `acc`; except in the pass over failed tasks, an entry whose URL is
/// already there is skipped.
pub open spec fn recover_pass(acc: Seq<TaskView>, saved: Seq<SavedView>, k: TaskKind) -> Seq<
    TaskView,
>
    decreases saved.len(),
{
    if saved.len() == 0 {
        acc
    } else {
        let before = recover_pass(acc, saved.drop_last(), k);
        let e = saved.last();
        if e.1 == k && (k == TaskKind::Failed || !mentions_url(before, e.0)) {
            before.push(recovered_task(e))
        } else {
            before
        }
    }
}

/// The tasks recovered from saved entries, in the order they are given ids:
/// failed tasks first, then paused queued, paused metadata fetches, paused
/// downloads, downloads, metadata fetches and queued tasks.
pub open spec fn recover_all(saved: Seq<SavedView>) -> Seq<TaskView> {
    let a = recover_pass(seq![], saved, TaskKind::Failed);
    let a = recover_pass(a, saved, TaskKind::PausedQueued);
    let a = recover_pass(a, saved, TaskKind::PausedGetName);
    let a = recover_pass(a, saved, TaskKind::PausedDownloadVideo);
    let a = recover_pass(a, saved, TaskKind::DownloadVideo);
    let a = recover_pass(a, saved, TaskKind::GetName);
    recover_pass(a, saved, TaskKind::Queued)
}

/// Tasks numbered from 0 in order.
pub open spec fn numbered(ts: Seq<TaskView>) -> Seq<(u64, TaskView)> {
    Seq::new(ts.len(), |i: int| (i as u64, ts[i]))
}

fn recovered_task_exec(e: &SerializableTask) -> (t: Task)
    ensures
        t@ == recovered_task(e@),
{
    reveal(recovered_task);
    let url = e.url.clone();
    match e.task_kind {
        TaskKind::Failed => Task::Failed {
            media_type: e.media_type,
            url,
            human_readable_error: "Recovered from previous session".to_owned(),
            download_dir: None,
        },
        TaskKind::PausedQueued => Task::PausedQueued {
            url,
            media_type: e.media_type,
            should_auto_resume: true,
            download_dir: None,
        },
        TaskKind::PausedGetName => Task::PausedGetName {
            url,
            metadata: None,
            should_auto_resume: true,
            media_type: e.media_type,
            download_dir: None,
        },
        TaskKind::PausedDownloadVideo => Task::PausedQueued {
            url,
            media_type: e.media_type,
            should_auto_resume: true,
            download_dir: None,
        },
        _ => Task::Queued { url, media_type: e.media_type, download_dir: None },
    }
}

/// Whether some task of `list` downloads `url`.
fn list_mentions(list: &Vec<(u64, Task)>, url: &str) -> (b: bool)
    ensures
        b == mentions_url(entries_view(list@).map_values(|e: (u64, TaskView)| e.1), url@),
{
    let ghost vs = entries_view(list@).map_values(|e: (u64, TaskView)| e.1);
    let mut i: usize = 0;
    while i < list.len()
        invariant
            i <= list@.len(),
            vs == entries_view(list@).map_values(|e: (u64, TaskView)| e.1),
            forall|k: int| 0 <= k < i ==> vs[k].url() != url@,
        decreases list.len() - i,
    {
        assert(vs[i as int] == list@[i as int].1@);
        if str_eq(list[i].1.url(), url) {
            return true;
        }
        i += 1;
    }
    false
}

/// Runs one recovery pass over `saved`, adding to `list`, whose tasks are
/// numbered from 0.
fn run_pass(list: &mut Vec<(u64, Task)>, saved: &Vec<SerializableTask>, k: TaskKind)
    requires
        forall|i: int| 0 <= i < old(list)@.len() ==> old(list)@[i].0 == i,
    ensures
        final(list)@.len() <= old(list)@.len() + saved@.len(),
        forall|i: int| 0 <= i < final(list)@.len() ==> final(list)@[i].0 == i,
        entries_view(final(list)@).map_values(|e: (u64, TaskView)| e.1) == recover_pass(
            entries_view(old(list)@).map_values(|e: (u64, TaskView)| e.1),
            saved_seq_view(saved@),
            k,
        ),
{
    let ghost acc0 = entries_view(old(list)@).map_values(|e: (u64, TaskView)| e.1);
    let ghost sv = saved_seq_view(saved@);
    let mut j: usize = 0;
    assert(sv.take(0) =~= Seq::<SavedView>::empty());
    while j < saved.len()
        invariant
            j <= saved@.len(),
            sv == saved_seq_view(saved@),
            list@.len() <= old(list)@.len() + j,
            forall|i: int| 0 <= i < list@.len() ==> list@[i].0 == i,
            entries_view(list@).map_values(|e: (u64, TaskView)| e.1) == recover_pass(acc0, sv.take(j as int), k),
        decreases saved.len() - j,
    {
        let e = &saved[j];
        assert(sv.take(j + 1).drop_last() =~= sv.take(j as int));
        assert(sv.take(j + 1).last() == e@);
        let ghost before = list@;
        if e.task_kind == k && (k == TaskKind::Failed || !list_mentions(list, e.url.as_str())) {
            let id: u64 = list.len() as u64;
            list.push((id, recovered_task_exec(e)));
            assert(entries_view(list@).map_values(|e: (u64, TaskView)| e.1) =~= entries_view(before).map_values(|e: (u64, TaskView)| e.1).push(list@.last().1@));
        }
        j += 1;
    }
    assert(sv.take(saved@.len() as int) =~= sv);
}

impl Tasks {
    /// The registry recovered from saved tasks (see `recover_all`): ids from
    /// 0 in recovery order, nothing running, no statuses.
    pub fn from_serializable(saved: SerializableTasks) -> (t: Tasks)
        ensures
            t.wf(),
            t.entries() == numbered(recover_all(saved@)),
            t.next_id() == recover_all(saved@).len(),
            t.active() == Set::<u64>::empty(),
            t.statuses() == Seq::<(u64, crate::task::TaskStatus)>::empty(),
    {
        let mut list: Vec<(u64, Task)> = Vec::new();
        assert(entries_view(list@).map_values(|e: (u64, TaskView)| e.1) =~= Seq::<TaskView>::empty());
        run_pass(&mut list, &saved.tasks, TaskKind::Failed);
        run_pass(&mut list, &saved.tasks, TaskKind::PausedQueued);
        run_pass(&mut list, &saved.tasks, TaskKind::PausedGetName);
        run_pass(&mut list, &saved.tasks, TaskKind::PausedDownloadVideo);
        run_pass(&mut list, &saved.tasks, TaskKind::DownloadVideo);
        run_pass(&mut list, &saved.tasks, TaskKind::GetName);
        run_pass(&mut list, &saved.tasks, TaskKind::Queued);
        let ghost rs = recover_all(saved@);
        assert(entries_view(list@).map_values(|e: (u64, TaskView)| e.1) == rs);
        assert(entries_view(list@) =~= numbered(rs)) by {
            assert forall|i: int| 0 <= i < list@.len() implies entries_view(list@)[i] == numbered(rs)[i] by {
                assert(entries_view(list@).map_values(|e: (u64, TaskView)| e.1)[i] == entries_view(list@)[i].1);
            }
        }
        let n = list.len() as u64;
        Tasks::from_parts(list, n)
    }
}

impl SerializableTasks {
    /// What is saved of a registry: every task that is not completed, in id
    /// order, with its URL, state and media type.
    pub fn of_tasks(tasks: &Tasks) -> (s: SerializableTasks)
        ensures
            s@ == saved_view(tasks.entries()),
    {
        let list = tasks.task_list_ref();
        let ghost es = tasks.entries();
        let mut out: Vec<SerializableTask> = Vec::new();
        let mut i: usize = 0;
        assert(es.take(0) =~= Seq::<(u64, TaskView)>::empty());
        assert(saved_seq_view(out@) =~= Seq::<SavedView>::empty());
        while i < list.len()
            invariant
                i <= list@.len(),
                es == entries_view(list@),
                saved_seq_view(out@) == saved_view(es.take(i as int)),
            decreases list.len() - i,
        {
            assert(es.take(i + 1).drop_last() =~= es.take(i as int));
            let t = &list[i].1;
            assert(es.take(i + 1).last() == (list@[i as int].0, t@));
            let ghost before = out@;
            match t {
                Task::Completed { .. } => {},
                _ => {
                    out.push(
                        SerializableTask {
                            url: t.url().to_owned(),
                            task_kind: t.kind(),
                            media_type: t.media_type(),
                        },
                    );
                    assert(saved_seq_view(out@) =~= saved_seq_view(before).push(out@.last()@));
                },
            }
            i += 1;
        }
        assert(es.take(es.len() as int) =~= es);
        SerializableTasks { tasks: out }
    }
}

} // verus!

verus! {

// ---------------------------------------------------------------------------
// Saving then loading
// ---------------------------------------------------------------------------

/// The saved entries of state `k`, recovered, in order.
pub open spec fn selected(saved: Seq<SavedView>, k: TaskKind) -> Seq<TaskView>
    decreases saved.len(),
{
    if saved.len() == 0 {
        seq![]
    } else if saved.last().1 == k {
        selected(saved.drop_last(), k).push(recovered_task(saved.last()))
    } else {
        selected(saved.drop_last(), k)
    }
}

/// No two saved entries have the same URL.
pub open spec fn saved_urls_distinct(saved: Seq<SavedView>) -> bool {
    forall|a: int, b: int| 0 <= a < b < saved.len() ==> saved[a].0 != saved[b].0
}

/// No two tasks have the same URL.
pub open spec fn views_urls_distinct(ts: Seq<TaskView>) -> bool {
    forall|a: int, b: int| 0 <= a < b < ts.len() ==> ts[a].url() != ts[b].url()
}

/// Every task of `sel` is the recovery of a saved entry of state `k`.
pub open spec fn all_from(sel: Seq<TaskView>, saved: Seq<SavedView>, k: TaskKind) -> bool {
    forall|i: int|
        #![trigger sel[i]]
        0 <= i < sel.len() ==> exists|j: int|
            #![trigger saved[j]]
            0 <= j < saved.len() && saved[j].1 == k && sel[i] == recovered_task(saved[j])
}

/// Every saved entry of state `k` is recovered in `sel`.
pub open spec fn all_in(sel: Seq<TaskView>, saved: Seq<SavedView>, k: TaskKind) -> bool {
    forall|j: int|
        #![trigger saved[j]]
        0 <= j < saved.len() && saved[j].1 == k ==> exists|i: int|
            #![trigger sel[i]]
            0 <= i < sel.len() && sel[i] == recovered_task(saved[j])
}

proof fn lemma_selected_from(saved: Seq<SavedView>, k: TaskKind)
    ensures
        all_from(selected(saved, k), saved, k),
    decreases saved.len(),
{
    if saved.len() > 0 {
        let t = saved.drop_last();
        lemma_selected_from(t, k);
        let sel = selected(saved, k);
        let prev = selected(t, k);
        assert forall|i: int| #![trigger sel[i]] 0 <= i < sel.len() implies exists|j: int|
            #![trigger saved[j]]
            0 <= j < saved.len() && saved[j].1 == k && sel[i] == recovered_task(saved[j]) by {
            if i < prev.len() {
                assert(prev[i] == sel[i]);
                let j = choose|j: int| #![trigger t[j]] 0 <= j < t.len() && t[j].1 == k && prev[i] == recovered_task(t[j]);
                assert(saved[j] == t[j]);
            } else {
                assert(saved[saved.len() - 1] == saved.last());
            }
        }
    }
}

proof fn lemma_selected_in(saved: Seq<SavedView>, k: TaskKind)
    ensures
        all_in(selected(saved, k), saved, k),
    decreases saved.len(),
{
    if saved.len() > 0 {
        let t = saved.drop_last();
        lemma_selected_in(t, k);
        let sel = selected(saved, k);
        let prev = selected(t, k);
        assert forall|j: int| #![trigger saved[j]] 0 <= j < saved.len() && saved[j].1 == k implies exists|i: int|
            #![trigger sel[i]]
            0 <= i < sel.len() && sel[i] == recovered_task(saved[j]) by {
            if j < t.len() {
                assert(saved[j] == t[j]);
                let i = choose|i: int| #![trigger prev[i]] 0 <= i < prev.len() && prev[i] == recovered_task(t[j]);
                assert(sel[i] == prev[i]);
            } else {
                assert(sel[sel.len() - 1] == recovered_task(saved.last()));
            }
        }
    }
}

proof fn lemma_selected_distinct(saved: Seq<SavedView>, k: TaskKind)
    requires
        saved_urls_distinct(saved),
    ensures
        views_urls_distinct(selected(saved, k)),
    decreases saved.len(),
{
    if saved.len() > 0 {
        let t = saved.drop_last();
        assert(saved_urls_distinct(t)) by {
            assert forall|a: int, b: int| 0 <= a < b < t.len() implies t[a].0 != t[b].0 by {
                assert(t[a] == saved[a]);
                assert(t[b] == saved[b]);
            }
        }
        lemma_selected_distinct(t, k);
        lemma_selected_from(t, k);
        let sel = selected(saved, k);
        let prev = selected(t, k);
        if saved.last().1 == k {
            assert forall|a: int, b: int| 0 <= a < b < sel.len() implies sel[a].url() != sel[b].url() by {
                assert(sel[a] == prev[a]);
                if b < prev.len() {
                    assert(sel[b] == prev[b]);
                } else {
                    let j = choose|j: int| #![trigger t[j]] 0 <= j < t.len() && t[j].1 == k && prev[a] == recovered_task(t[j]);
                    assert(saved[j] == t[j]);
                    lemma_recovered_task(t[j]);
                    lemma_recovered_task(saved.last());
                }
            }
        } else {
            assert(sel == prev);
        }
    }
}

/// Every selected task is the recovery of a saved entry of state `k`, and
/// every saved entry of state `k` is selected.
proof fn lemma_selected(saved: Seq<SavedView>, k: TaskKind)
    ensures
        all_from(selected(saved, k), saved, k),
        all_in(selected(saved, k), saved, k),
        saved_urls_distinct(saved) ==> views_urls_distinct(selected(saved, k)),
{
    lemma_selected_from(saved, k);
    lemma_selected_in(saved, k);
    if saved_urls_distinct(saved) {
        lemma_selected_distinct(saved, k);
    }
}

/// Some saved entry that is not of state `k` has the URL `url`.
pub open spec fn saved_elsewhere(saved: Seq<SavedView>, url: Seq<char>, k: TaskKind) -> bool {
    exists|j: int| #![trigger saved[j]] 0 <= j < saved.len() && saved[j].0 == url && saved[j].1 != k
}

/// Every task of `acc` has the URL of a saved entry that is not of state `k`.
pub open spec fn urls_outside(acc: Seq<TaskView>, saved: Seq<SavedView>, k: TaskKind) -> bool {
    forall|i: int| #![trigger acc[i]] 0 <= i < acc.len() ==> saved_elsewhere(saved, acc[i].url(), k)
}

/// A pass adds exactly the entries of its state when no URL it meets is
/// already there.
proof fn lemma_pass_no_skip(acc: Seq<TaskView>, saved: Seq<SavedView>, k: TaskKind, n: int)
    requires
        0 <= n <= saved.len(),
        saved_urls_distinct(saved),
        urls_outside(acc, saved, k),
    ensures
        recover_pass(acc, saved.take(n), k) == acc + selected(saved.take(n), k),
    decreases n,
{
    if n == 0 {
        assert(saved.take(0) =~= Seq::<SavedView>::empty());
        assert(acc + Seq::<TaskView>::empty() =~= acc);
    } else {
        let t = saved.take(n);
        let p = saved.take(n - 1);
        assert(t.drop_last() =~= p);
        lemma_pass_no_skip(acc, saved, k, n - 1);
        let before = acc + selected(p, k);
        let e = t.last();
        assert(e == saved[n - 1]);
        if e.1 == k && k != TaskKind::Failed {
            lemma_selected(p, k);
            assert(!mentions_url(before, e.0)) by {
                assert forall|i: int| 0 <= i < before.len() implies before[i].url() != e.0 by {
                    if i < acc.len() {
                        assert(before[i] == acc[i]);
                        let j = choose|j: int| #![trigger saved[j]] 0 <= j < saved.len() && saved[j].0 == acc[i].url() && saved[j].1 != k;
                        assert(j != n - 1);
                    } else {
                        let i2 = i - acc.len();
                        let sp = selected(p, k);
                        assert(before[i] == sp[i2]);
                        let j = choose|j: int| #![trigger p[j]] 0 <= j < p.len() && p[j].1 == k && sp[i2] == recovered_task(p[j]);
                        assert(p[j] == saved[j]);
                        lemma_recovered_task(p[j]);
                    }
                }
            }
        }
        if e.1 == k {
            assert(before.push(recovered_task(e)) =~= acc + selected(p, k).push(recovered_task(e)));
        }
    }
}

/// Every task of `acc` is the recovery of a saved entry of one of the
/// states `done`.
pub open spec fn from_states(acc: Seq<TaskView>, saved: Seq<SavedView>, done: Set<TaskKind>) -> bool {
    forall|i: int|
        #![trigger acc[i]]
        0 <= i < acc.len() ==> exists|j: int|
            #![trigger saved[j]]
            0 <= j < saved.len() && done.contains(saved[j].1) && acc[i] == recovered_task(saved[j])
}

/// Every saved entry of one of the states `done` is recovered in `acc`.
pub open spec fn covers_states(acc: Seq<TaskView>, saved: Seq<SavedView>, done: Set<TaskKind>) -> bool {
    forall|j: int|
        #![trigger saved[j]]
        0 <= j < saved.len() && done.contains(saved[j].1) ==> exists|i: int|
            #![trigger acc[i]]
            0 <= i < acc.len() && acc[i] == recovered_task(saved[j])
}

proof fn lemma_outside(acc: Seq<TaskView>, saved: Seq<SavedView>, k: TaskKind, done: Set<TaskKind>)
    requires
        !done.contains(k),
        from_states(acc, saved, done),
    ensures
        urls_outside(acc, saved, k),
{
    assert forall|i: int| #![trigger acc[i]] 0 <= i < acc.len() implies exists|j: int|
        #![trigger saved[j]]
        0 <= j < saved.len() && saved[j].0 == acc[i].url() && saved[j].1 != k by {
        let j = choose|j: int|
            #![trigger saved[j]]
            0 <= j < saved.len() && done.contains(saved[j].1) && acc[i] == recovered_task(saved[j]);
        lemma_recovered_task(saved[j]);
        assert(saved[j].0 == acc[i].url());
        assert(saved[j].1 != k);
    }
    assert(urls_outside(acc, saved, k));
}

proof fn lemma_step_from(acc: Seq<TaskView>, sel: Seq<TaskView>, saved: Seq<SavedView>, k: TaskKind, done: Set<TaskKind>)
    requires
        from_states(acc, saved, done),
        all_from(sel, saved, k),
    ensures
        from_states(acc + sel, saved, done.insert(k)),
{
    let r = acc + sel;
    assert forall|i: int| #![trigger r[i]] 0 <= i < r.len() implies exists|j: int|
        #![trigger saved[j]]
        0 <= j < saved.len() && done.insert(k).contains(saved[j].1) && r[i] == recovered_task(saved[j]) by {
        if i < acc.len() {
            assert(r[i] == acc[i]);
            let j = choose|j: int|
                #![trigger saved[j]]
                0 <= j < saved.len() && done.contains(saved[j].1) && acc[i] == recovered_task(saved[j]);
        } else {
            assert(r[i] == sel[i - acc.len()]);
            let j = choose|j: int| #![trigger saved[j]] 0 <= j < saved.len() && saved[j].1 == k && sel[i - acc.len()] == recovered_task(saved[j]);
        }
    }
}

proof fn lemma_step_covers(acc: Seq<TaskView>, sel: Seq<TaskView>, saved: Seq<SavedView>, k: TaskKind, done: Set<TaskKind>)
    requires
        covers_states(acc, saved, done),
        all_in(sel, saved, k),
    ensures
        covers_states(acc + sel, saved, done.insert(k)),
{
    let r = acc + sel;
    assert forall|j: int| #![trigger saved[j]] 0 <= j < saved.len() && done.insert(k).contains(saved[j].1) implies exists|i: int|
        #![trigger r[i]]
        0 <= i < r.len() && r[i] == recovered_task(saved[j]) by {
        if done.contains(saved[j].1) {
            let i = choose|i: int| #![trigger acc[i]] 0 <= i < acc.len() && acc[i] == recovered_task(saved[j]);
            assert(r[i] == acc[i]);
        } else {
            let i = choose|i: int| #![trigger sel[i]] 0 <= i < sel.len() && sel[i] == recovered_task(saved[j]);
            assert(r[acc.len() + i] == sel[i]);
        }
    }
}

proof fn lemma_step_distinct(acc: Seq<TaskView>, sel: Seq<TaskView>, saved: Seq<SavedView>, k: TaskKind, done: Set<TaskKind>)
    requires
        saved_urls_distinct(saved),
        !done.contains(k),
        from_states(acc, saved, done),
        views_urls_distinct(acc),
        all_from(sel, saved, k),
        views_urls_distinct(sel),
    ensures
        views_urls_distinct(acc + sel),
{
    let r = acc + sel;
    assert forall|a: int, b: int| 0 <= a < b < r.len() implies r[a].url() != r[b].url() by {
        if b < acc.len() {
            assert(r[a] == acc[a]);
            assert(r[b] == acc[b]);
        } else if a >= acc.len() {
            assert(r[a] == sel[a - acc.len()]);
            assert(r[b] == sel[b - acc.len()]);
        } else {
            assert(r[a] == acc[a]);
            assert(r[b] == sel[b - acc.len()]);
            let ja = choose|j: int|
                #![trigger saved[j]]
                0 <= j < saved.len() && done.contains(saved[j].1) && acc[a] == recovered_task(saved[j]);
            let jb = choose|j: int| #![trigger saved[j]] 0 <= j < saved.len() && saved[j].1 == k && sel[b - acc.len()] == recovered_task(saved[j]);
            assert(ja != jb);
            lemma_recovered_task(saved[ja]);
            lemma_recovered_task(saved[jb]);
        }
    }
}

/// One pass, seen from what it accumulates.
proof fn lemma_pass_step(acc: Seq<TaskView>, saved: Seq<SavedView>, k: TaskKind, done: Set<TaskKind>)
    requires
        saved_urls_distinct(saved),
        !done.contains(k),
        from_states(acc, saved, done),
        covers_states(acc, saved, done),
        views_urls_distinct(acc),
    ensures
        recover_pass(acc, saved, k) == acc + selected(saved, k),
        from_states(recover_pass(acc, saved, k), saved, done.insert(k)),
        covers_states(recover_pass(acc, saved, k), saved, done.insert(k)),
        views_urls_distinct(recover_pass(acc, saved, k)),
{
    lemma_outside(acc, saved, k, done);
    lemma_pass_no_skip(acc, saved, k, saved.len() as int);
    assert(saved.take(saved.len() as int) =~= saved);
    lemma_selected(saved, k);
    let sel = selected(saved, k);
    lemma_step_from(acc, sel, saved, k, done);
    lemma_step_covers(acc, sel, saved, k, done);
    lemma_step_distinct(acc, sel, saved, k, done);
}

/// How many saved entries there are, counted by state.
proof fn lemma_selected_len(saved: Seq<SavedView>)
    ensures
        selected(saved, TaskKind::Failed).len() + selected(saved, TaskKind::PausedQueued).len()
            + selected(saved, TaskKind::PausedGetName).len() + selected(
            saved,
            TaskKind::PausedDownloadVideo,
        ).len() + selected(saved, TaskKind::DownloadVideo).len() + selected(
            saved,
            TaskKind::GetName,
        ).len() + selected(saved, TaskKind::Queued).len() + selected(
            saved,
            TaskKind::Completed,
        ).len() == saved.len(),
    decreases saved.len(),
{
    if saved.len() > 0 {
        lemma_selected_len(saved.drop_last());
    }
}

/// What is saved of one task.
pub open spec fn saved_of(t: TaskView) -> SavedView {
    (t.url(), t.kind(), t.media_type())
}

/// `x` is what is saved of some unfinished task of `es`.
pub open spec fn saved_from(es: Seq<(u64, TaskView)>, x: SavedView) -> bool {
    exists|i: int| #![trigger es[i]] 0 <= i < es.len() && !(es[i].1 is Completed) && x == saved_of(es[i].1)
}

/// `x` is one of the saved entries `sv`.
pub open spec fn saved_has(sv: Seq<SavedView>, x: SavedView) -> bool {
    exists|j: int| #![trigger sv[j]] 0 <= j < sv.len() && sv[j] == x
}

proof fn lemma_saved_from(es: Seq<(u64, TaskView)>)
    ensures
        forall|j: int| 0 <= j < saved_view(es).len() ==> saved_from(es, #[trigger] saved_view(es)[j]),
        forall|j: int|
            0 <= j < saved_view(es).len() ==> (#[trigger] saved_view(es)[j]).1 != TaskKind::Completed,
    decreases es.len(),
{
    if es.len() > 0 {
        let t = es.drop_last();
        lemma_saved_from(t);
        let sv = saved_view(es);
        let pv = saved_view(t);
        assert forall|j: int| 0 <= j < sv.len() implies saved_from(es, #[trigger] sv[j]) && sv[j].1
            != TaskKind::Completed by {
            if j < pv.len() {
                assert(sv[j] == pv[j]);
                assert(saved_from(t, pv[j]));
                let i = choose|i: int| #![trigger t[i]] 0 <= i < t.len() && !(t[i].1 is Completed) && pv[j] == saved_of(t[i].1);
                assert(es[i] == t[i]);
            } else {
                assert(es[es.len() - 1] == es.last());
            }
        }
    }
}

proof fn lemma_saved_has(es: Seq<(u64, TaskView)>)
    ensures
        forall|i: int|
            0 <= i < es.len() && !((#[trigger] es[i]).1 is Completed) ==> saved_has(saved_view(es), saved_of(es[i].1)),
    decreases es.len(),
{
    if es.len() > 0 {
        let t = es.drop_last();
        lemma_saved_has(t);
        let sv = saved_view(es);
        let pv = saved_view(t);
        assert forall|i: int| 0 <= i < es.len() && !((#[trigger] es[i]).1 is Completed) implies saved_has(sv, saved_of(es[i].1)) by {
            if i < t.len() {
                assert(es[i] == t[i]);
                assert(saved_has(pv, saved_of(t[i].1)));
                let j = choose|j: int| #![trigger pv[j]] 0 <= j < pv.len() && pv[j] == saved_of(t[i].1);
                assert(sv[j] == pv[j]);
            } else {
                assert(sv[sv.len() - 1] == saved_of(es.last().1));
            }
        }
    }
}

proof fn lemma_saved_distinct(es: Seq<(u64, TaskView)>)
    requires
        crate::tasks::urls_distinct(es),
    ensures
        saved_urls_distinct(saved_view(es)),
    decreases es.len(),
{
    if es.len() > 0 {
        let t = es.drop_last();
        assert(crate::tasks::urls_distinct(t)) by {
            assert forall|a: int, b: int| 0 <= a < b < t.len() implies t[a].1.url() != t[b].1.url() by {
                assert(t[a] == es[a]);
                assert(t[b] == es[b]);
            }
        }
        lemma_saved_distinct(t);
        lemma_saved_from(t);
        let sv = saved_view(es);
        let pv = saved_view(t);
        if !(es.last().1 is Completed) {
            assert forall|a: int, b: int| 0 <= a < b < sv.len() implies sv[a].0 != sv[b].0 by {
                assert(sv[a] == pv[a]);
                if b < pv.len() {
                    assert(sv[b] == pv[b]);
                } else {
                    assert(saved_from(t, pv[a]));
                    let i = choose|i: int| #![trigger t[i]] 0 <= i < t.len() && !(t[i].1 is Completed) && pv[a] == saved_of(t[i].1);
                    assert(es[i] == t[i]);
                }
            }
        } else {
            assert(sv == pv);
        }
    }
}

/// A task recovered from what is saved of an unfinished task of `es`.
pub open spec fn recovered_from(es: Seq<(u64, TaskView)>, t: TaskView) -> bool {
    exists|j: int|
        #![trigger es[j]]
        0 <= j < es.len() && !(es[j].1 is Completed) && t == recovered_task(saved_of(es[j].1))
}

/// `t` is one of the tasks `ts`.
pub open spec fn among(ts: Seq<TaskView>, t: TaskView) -> bool {
    exists|i: int| #![trigger ts[i]] 0 <= i < ts.len() && ts[i] == t
}

/// Saving the registry and loading it back keeps every unfinished task once,
/// each in the state it is recovered in (see `recovered_task`), and nothing
/// else; completed tasks are not kept. This holds when no two tasks download
/// the same URL, which adding tasks guarantees.
pub proof fn law_save_then_load(es: Seq<(u64, TaskView)>)
    requires
        crate::tasks::urls_distinct(es),
    ensures
        recover_all(saved_view(es)).len() == saved_view(es).len(),
        views_urls_distinct(recover_all(saved_view(es))),
        forall|i: int|
            0 <= i < recover_all(saved_view(es)).len() ==> recovered_from(
                es,
                #[trigger] recover_all(saved_view(es))[i],
            ),
        forall|j: int|
            0 <= j < es.len() && !((#[trigger] es[j]).1 is Completed) ==> among(
                recover_all(saved_view(es)),
                recovered_task(saved_of(es[j].1)),
            ),
{
    let saved = saved_view(es);
    lemma_saved_from(es);
    lemma_saved_has(es);
    lemma_saved_distinct(es);
    let e0 = Set::<TaskKind>::empty();
    assert(from_states(Seq::<TaskView>::empty(), saved, e0));
    assert(covers_states(Seq::<TaskView>::empty(), saved, e0));
    lemma_pass_step(seq![], saved, TaskKind::Failed, e0);
    let a1 = recover_pass(seq![], saved, TaskKind::Failed);
    let d1 = e0.insert(TaskKind::Failed);
    lemma_pass_step(a1, saved, TaskKind::PausedQueued, d1);
    let a2 = recover_pass(a1, saved, TaskKind::PausedQueued);
    let d2 = d1.insert(TaskKind::PausedQueued);
    lemma_pass_step(a2, saved, TaskKind::PausedGetName, d2);
    let a3 = recover_pass(a2, saved, TaskKind::PausedGetName);
    let d3 = d2.insert(TaskKind::PausedGetName);
    lemma_pass_step(a3, saved, TaskKind::PausedDownloadVideo, d3);
    let a4 = recover_pass(a3, saved, TaskKind::PausedDownloadVideo);
    let d4 = d3.insert(TaskKind::PausedDownloadVideo);
    lemma_pass_step(a4, saved, TaskKind::DownloadVideo, d4);
    let a5 = recover_pass(a4, saved, TaskKind::DownloadVideo);
    let d5 = d4.insert(TaskKind::DownloadVideo);
    lemma_pass_step(a5, saved, TaskKind::GetName, d5);
    let a6 = recover_pass(a5, saved, TaskKind::GetName);
    let d6 = d5.insert(TaskKind::GetName);
    lemma_pass_step(a6, saved, TaskKind::Queued, d6);
    let r = recover_all(saved);
    let d7 = d6.insert(TaskKind::Queued);
    lemma_selected_len(saved);
    assert(selected(saved, TaskKind::Completed).len() == 0) by {
        lemma_selected(saved, TaskKind::Completed);
        let sc = selected(saved, TaskKind::Completed);
        if sc.len() > 0 {
            assert(sc[0] == sc[0]);
            let j = choose|j: int| #![trigger saved[j]] 0 <= j < saved.len() && saved[j].1 == TaskKind::Completed && sc[0] == recovered_task(saved[j]);
        }
    }
    assert forall|i: int| 0 <= i < r.len() implies recovered_from(es, #[trigger] r[i]) by {
        let j = choose|j: int|
            #![trigger saved[j]]
            0 <= j < saved.len() && d7.contains(saved[j].1) && r[i] == recovered_task(saved[j]);
        assert(saved_from(es, saved[j]));
        let k = choose|k: int| #![trigger es[k]] 0 <= k < es.len() && !(es[k].1 is Completed) && saved[j] == saved_of(es[k].1);
    }
    assert forall|j: int| 0 <= j < es.len() && !((#[trigger] es[j]).1 is Completed) implies among(
        r,
        recovered_task(saved_of(es[j].1)),
    ) by {
        assert(saved_has(saved, saved_of(es[j].1)));
        let k = choose|k: int| #![trigger saved[k]] 0 <= k < saved.len() && saved[k] == saved_of(es[j].1);
        assert(saved[k].1 != TaskKind::Completed);
        assert(d7.contains(saved[k].1));
        let i = choose|i: int| #![trigger r[i]] 0 <= i < r.len() && r[i] == recovered_task(saved[k]);
    }
}

} // verus!
