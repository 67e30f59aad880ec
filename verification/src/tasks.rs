//! The task registry: tasks keyed by increasing ids, the ids whose operation
//! is running, and the last status published for each task.
use vstd::prelude::*;
use crate::task::{opt_view, MediaType, Task, TaskKind, TaskStatus, TaskView};
use crate::text::{decimal, push_decimal, push_str, str_eq};

verus! {

// ---------------------------------------------------------------------------
// Keyed sequences
// ---------------------------------------------------------------------------

/// Index of the first entry with key `id`, or `s.len()`.
pub open spec fn position_of<T>(s: Seq<(u64, T)>, id: u64) -> int
    decreases s.len(),
{
    if s.len() == 0 {
        0
    } else if s[0].0 == id {
        0
    } else {
        1 + position_of(s.drop_first(), id)
    }
}

/// The value of the first entry with key `id`.
pub open spec fn lookup<T>(s: Seq<(u64, T)>, id: u64) -> Option<T> {
    if position_of(s, id) < s.len() {
        Some(s[position_of(s, id)].1)
    } else {
        None
    }
}

pub proof fn lemma_position_of<T>(s: Seq<(u64, T)>, id: u64)
    ensures
        0 <= position_of(s, id) <= s.len(),
        position_of(s, id) < s.len() ==> s[position_of(s, id)].0 == id,
        forall|j: int| 0 <= j < position_of(s, id) ==> s[j].0 != id,
    decreases s.len(),
{
    if s.len() > 0 && s[0].0 != id {
        lemma_position_of(s.drop_first(), id);
        assert forall|j: int| 0 <= j < position_of(s, id) implies s[j].0 != id by {
            if j > 0 {
                assert(s[j] == s.drop_first()[j - 1]);
            }
        }
    }
}

/// The position of `id` is the index of any entry that has it, when keys are
/// distinct.
pub proof fn lemma_position_unique<T>(s: Seq<(u64, T)>, id: u64, i: int)
    requires
        0 <= i < s.len(),
        s[i].0 == id,
        forall|a: int, b: int| 0 <= a < b < s.len() ==> s[a].0 != s[b].0,
    ensures
        position_of(s, id) == i,
{
    lemma_position_of(s, id);
}

/// Keys strictly increase along `s`.
pub open spec fn ids_increasing<T>(s: Seq<(u64, T)>) -> bool {
    forall|a: int, b: int| 0 <= a < b < s.len() ==> s[a].0 < s[b].0
}

/// The views of the tasks of a list, with their ids.
pub open spec fn entries_view(s: Seq<(u64, Task)>) -> Seq<(u64, TaskView)> {
    s.map_values(|e: (u64, Task)| (e.0, e.1@))
}

/// Index of the first task whose URL is `url`, or `s.len()`.
pub open spec fn url_position(s: Seq<(u64, TaskView)>, url: Seq<char>) -> int
    decreases s.len(),
{
    if s.len() == 0 {
        0
    } else if s[0].1.url() == url {
        0
    } else {
        1 + url_position(s.drop_first(), url)
    }
}

pub proof fn lemma_url_position(s: Seq<(u64, TaskView)>, url: Seq<char>)
    ensures
        0 <= url_position(s, url) <= s.len(),
        url_position(s, url) < s.len() ==> s[url_position(s, url)].1.url() == url,
        forall|j: int| 0 <= j < url_position(s, url) ==> s[j].1.url() != url,
    decreases s.len(),
{
    if s.len() > 0 && s[0].1.url() != url {
        lemma_url_position(s.drop_first(), url);
        assert forall|j: int| 0 <= j < url_position(s, url) implies s[j].1.url() != url by {
            if j > 0 {
                assert(s[j] == s.drop_first()[j - 1]);
            }
        }
    }
}

/// Some task of `s` downloads `url`.
pub open spec fn has_url(s: Seq<(u64, TaskView)>, url: Seq<char>) -> bool {
    exists|i: int| 0 <= i < s.len() && s[i].1.url() == url
}

/// No two tasks of `s` download the same URL.
pub open spec fn urls_distinct(s: Seq<(u64, TaskView)>) -> bool {
    forall|a: int, b: int| 0 <= a < b < s.len() ==> s[a].1.url() != s[b].1.url()
}

/// How many tasks of `s` are running.
pub open spec fn count_running(s: Seq<(u64, TaskView)>) -> nat
    decreases s.len(),
{
    if s.len() == 0 {
        0
    } else {
        count_running(s.drop_last()) + if s.last().1.is_active() {
            1nat
        } else {
            0nat
        }
    }
}

/// A directory named for a download, as found on disk when it was requested.
#[derive(Clone, Copy, Debug, PartialEq, Eq, Structural)]
pub enum PathState {
    Missing,
    NotADirectory,
    Directory,
}

/// A download directory given with a new task, and what the file system
/// showed of it.
#[derive(Clone, Debug)]
pub struct DownloadDir {
    pub path: String,
    pub state: PathState,
}

/// Why `add_url_as_task` refused a URL.
pub open spec fn add_refusal(
    s: Seq<(u64, TaskView)>,
    url: Seq<char>,
    dir: Option<(Seq<char>, PathState)>,
) -> Option<Seq<char>> {
    match dir {
        Some((p, PathState::Missing)) => Some("Download directory does not exist: "@ + p),
        Some((p, PathState::NotADirectory)) => Some("Download path is not a directory: "@ + p),
        _ => if url_position(s, url) < s.len() {
            Some("URL already exists with task ID "@ + decimal(s[url_position(s, url)].0 as nat))
        } else {
            None
        },
    }
}

pub open spec fn dir_view(d: Option<DownloadDir>) -> Option<(Seq<char>, PathState)> {
    match d {
        Some(d) => Some((d.path@, d.state)),
        None => None,
    }
}

pub open spec fn dir_path(d: Option<DownloadDir>) -> Option<Seq<char>> {
    match d {
        Some(d) => Some(d.path@),
        None => None,
    }
}


/// The statuses after publishing `st` for `id`: replaces the status of `id`,
/// or adds it last.
pub open spec fn status_set(s: Seq<(u64, TaskStatus)>, id: u64, st: TaskStatus) -> Seq<(u64, TaskStatus)> {
    if position_of(s, id) < s.len() {
        s.update(position_of(s, id), (id, st))
    } else {
        s.push((id, st))
    }
}

/// The entries of `s` without the one keyed `id`, if any.
pub open spec fn remove_key<T>(s: Seq<(u64, T)>, id: u64) -> Seq<(u64, T)> {
    if position_of(s, id) < s.len() {
        s.remove(position_of(s, id))
    } else {
        s
    }
}

/// Keys of `s` are distinct.
pub open spec fn keys_distinct<T>(s: Seq<(u64, T)>) -> bool {
    forall|a: int, b: int| 0 <= a < b < s.len() ==> s[a].0 != s[b].0
}

fn key_index<T>(v: &Vec<(u64, T)>, id: u64) -> (r: usize)
    ensures
        r == position_of(v@, id),
        r <= v@.len(),
{
    let mut i: usize = 0;
    proof {
        assert(v@.skip(0) =~= v@);
    }
    while i < v.len()
        invariant
            i <= v@.len(),
            position_of(v@, id) == i + position_of(v@.skip(i as int), id),
        decreases v.len() - i,
    {
        assert(v@.skip(i as int).drop_first() =~= v@.skip(i + 1));
        if v[i].0 == id {
            return i;
        }
        i += 1;
    }
    i
}

fn remove_keyed<T>(v: &mut Vec<(u64, T)>, id: u64) -> (found: bool)
    requires
        keys_distinct(old(v)@),
    ensures
        found == (position_of(old(v)@, id) < old(v)@.len()),
        final(v)@ == remove_key(old(v)@, id),
        keys_distinct(final(v)@),
{
    let i = key_index(v, id);
    if i < v.len() {
        let ghost before = v@;
        v.remove(i);
        proof {
            before.remove_ensures(i as int);
        }
        assert forall|a: int, b: int| 0 <= a < b < v@.len() implies v@[a].0 != v@[b].0 by {
            let a2 = if a < i { a } else { a + 1 };
            let b2 = if b < i { b } else { b + 1 };
            assert(v@[a] == old(v)@[a2]);
            assert(v@[b] == old(v)@[b2]);
        }
        true
    } else {
        false
    }
}

fn set_keyed<T>(v: &mut Vec<(u64, T)>, id: u64, val: T)
    requires
        keys_distinct(old(v)@),
    ensures
        final(v)@ == (if position_of(old(v)@, id) < old(v)@.len() {
            old(v)@.update(position_of(old(v)@, id), (id, val))
        } else {
            old(v)@.push((id, val))
        }),
        keys_distinct(final(v)@),
{
    let i = key_index(v, id);
    proof {
        lemma_position_of(v@, id);
    }
    if i < v.len() {
        v.set(i, (id, val));
    } else {
        v.push((id, val));
    }
}

fn remove_id(v: &mut Vec<u64>, id: u64) -> (found: bool)
    requires
        old(v)@.no_duplicates(),
    ensures
        found == old(v)@.to_set().contains(id),
        final(v)@.to_set() == old(v)@.to_set().remove(id),
        final(v)@.no_duplicates(),
{
    let mut i: usize = 0;
    while i < v.len()
        invariant
            i <= v@.len(),
            v@ == old(v)@,
            old(v)@.no_duplicates(),
            forall|k: int| 0 <= k < i ==> v@[k] != id,
        decreases v.len() - i,
    {
        if v[i] == id {
            let ghost before = v@;
            v.remove(i);
            proof {
                before.remove_ensures(i as int);
                assert forall|a: int, b: int| 0 <= a < b < v@.len() implies v@[a] != v@[b] by {
                    let a2 = if a < i { a } else { a + 1 };
                    let b2 = if b < i { b } else { b + 1 };
                    assert(v@[a] == before[a2]);
                    assert(v@[b] == before[b2]);
                }
                assert forall|x: u64| v@.to_set().contains(x) <==> before.to_set().remove(id).contains(x) by {
                    if v@.to_set().contains(x) {
                        let k = choose|k: int| 0 <= k < v@.len() && v@[k] == x;
                        let k2 = if k < i { k } else { k + 1 };
                        assert(v@[k] == before[k2]);
                        assert(before[k2] != id);
                    }
                    if before.to_set().remove(id).contains(x) {
                        let k = choose|k: int| 0 <= k < before.len() && before[k] == x;
                        assert(k != i);
                        let k2 = if k < i { k } else { k - 1 };
                        assert(v@[k2] == x);
                    }
                }
                assert(v@.to_set() =~= before.to_set().remove(id));
                assert(before[i as int] == id);
            }
            return true;
        }
        i += 1;
    }
    assert(v@.to_set() =~= v@.to_set().remove(id));
    false
}

fn insert_id(v: &mut Vec<u64>, id: u64)
    requires
        old(v)@.no_duplicates(),
    ensures
        final(v)@.to_set() == old(v)@.to_set().insert(id),
        final(v)@.no_duplicates(),
{
    let mut i: usize = 0;
    while i < v.len()
        invariant
            i <= v@.len(),
            v@ == old(v)@,
            old(v)@.no_duplicates(),
            forall|k: int| 0 <= k < i ==> v@[k] != id,
        decreases v.len() - i,
    {
        if v[i] == id {
            assert(v@.to_set() =~= v@.to_set().insert(id));
            return ;
        }
        i += 1;
    }
    let ghost before = v@;
    v.push(id);
    assert(v@.to_set() =~= before.to_set().insert(id)) by {
        assert forall|x: u64| v@.to_set().contains(x) implies before.to_set().insert(id).contains(x) by {
            let k = choose|k: int| 0 <= k < v@.len() && v@[k] == x;
            if k < before.len() {
                assert(before[k] == x);
            }
        }
        assert forall|x: u64| before.to_set().insert(id).contains(x) implies v@.to_set().contains(x) by {
            if x == id {
                assert(v@[before.len() as int] == id);
            } else {
                let k = choose|k: int| 0 <= k < before.len() && before[k] == x;
                assert(v@[k] == x);
            }
        }
    }
}


/// `es` with every running task paused.
pub open spec fn pause_running_view(es: Seq<(u64, TaskView)>) -> Seq<(u64, TaskView)> {
    es.map_values(|e: (u64, TaskView)| if e.1.is_active() { (e.0, e.1.paused()) } else { e })
}

/// The ids of the paused tasks of `es`.
pub open spec fn paused_ids(es: Seq<(u64, TaskView)>) -> Set<u64> {
    Set::new(|x: u64| exists|k: int| 0 <= k < es.len() && es[k].0 == x && es[k].1.is_paused())
}

/// `es` with every paused task resumed.
pub open spec fn unpause_all_view(es: Seq<(u64, TaskView)>) -> Seq<(u64, TaskView)> {
    es.map_values(|e: (u64, TaskView)| if e.1.is_paused() { (e.0, e.1.unpaused()) } else { e })
}

/// How many tasks of `s` are paused.
pub open spec fn count_paused(s: Seq<(u64, TaskView)>) -> nat
    decreases s.len(),
{
    if s.len() == 0 {
        0
    } else {
        count_paused(s.drop_last()) + if s.last().1.is_paused() {
            1nat
        } else {
            0nat
        }
    }
}

/// `es` without its completed tasks.
pub open spec fn without_completed(es: Seq<(u64, TaskView)>) -> Seq<(u64, TaskView)>
    decreases es.len(),
{
    if es.len() == 0 {
        seq![]
    } else if es.last().1 is Completed {
        without_completed(es.drop_last())
    } else {
        without_completed(es.drop_last()).push(es.last())
    }
}

/// The ids of the completed tasks of `es`, in order.
pub open spec fn completed_ids(es: Seq<(u64, TaskView)>) -> Seq<u64>
    decreases es.len(),
{
    if es.len() == 0 {
        seq![]
    } else if es.last().1 is Completed {
        completed_ids(es.drop_last()).push(es.last().0)
    } else {
        completed_ids(es.drop_last())
    }
}

/// `s` without the entries keyed by `ids`.
pub open spec fn remove_keys<T>(s: Seq<(u64, T)>, ids: Seq<u64>) -> Seq<(u64, T)>
    decreases ids.len(),
{
    if ids.len() == 0 {
        s
    } else {
        remove_key(remove_keys(s, ids.drop_last()), ids.last())
    }
}

/// The registry of tasks.
pub struct Tasks {
    task_list: Vec<(u64, Task)>,
    index_counter: u64,
    active_tasks: Vec<u64>,
    status_channels: Vec<(u64, TaskStatus)>,
}

impl Tasks {
    /// The tasks with their ids, in increasing id order.
    pub closed spec fn entries(&self) -> Seq<(u64, TaskView)> {
        entries_view(self.task_list@)
    }

    /// The id the next added task receives.
    pub closed spec fn next_id(&self) -> u64 {
        self.index_counter
    }

    /// Ids whose operation (metadata fetch or download) is running.
    pub closed spec fn active(&self) -> Set<u64> {
        self.active_tasks@.to_set()
    }

    /// Number of running operations.
    pub closed spec fn active_len(&self) -> nat {
        self.active_tasks@.len()
    }

    /// The last status published for each task that has observers.
    pub closed spec fn statuses(&self) -> Seq<(u64, TaskStatus)> {
        self.status_channels@
    }

    /// Internal consistency: ids increase and stay below the next id; a
    /// running id is listed once; one status per task.
    pub closed spec fn wf(&self) -> bool {
        &&& ids_increasing(self.task_list@)
        &&& forall|i: int| 0 <= i < self.task_list@.len() ==> self.task_list@[i].0 < self.index_counter
        &&& self.active_tasks@.no_duplicates()
        &&& forall|a: int, b: int|
            0 <= a < b < self.status_channels@.len() ==> self.status_channels@[a].0
                != self.status_channels@[b].0
    }

    pub proof fn lemma_wf(&self)
        requires
            self.wf(),
        ensures
            ids_increasing(self.entries()),
            forall|i: int| 0 <= i < self.entries().len() ==> self.entries()[i].0 < self.next_id(),
            self.active().finite(),
            self.active_len() == self.active().len(),
            forall|a: int, b: int|
                0 <= a < b < self.statuses().len() ==> self.statuses()[a].0 != self.statuses()[b].0,
    {
        self.active_tasks@.unique_seq_to_set();
        vstd::seq_lib::seq_to_set_is_finite(self.active_tasks@);
    }

    /// An empty registry; the first task gets id 0.
    pub fn new() -> (t: Tasks)
        ensures
            t.wf(),
            t.entries() == Seq::<(u64, TaskView)>::empty(),
            t.next_id() == 0,
            t.active() == Set::<u64>::empty(),
            t.statuses() == Seq::<(u64, TaskStatus)>::empty(),
    {
        let t = Tasks {
            task_list: Vec::new(),
            index_counter: 0,
            active_tasks: Vec::new(),
            status_channels: Vec::new(),
        };
        assert(t.entries() =~= Seq::<(u64, TaskView)>::empty());
        assert(t.active() =~= Set::<u64>::empty());
        t
    }

    fn find_index(&self, id: u64) -> (r: usize)
        ensures
            r == position_of(self.task_list@, id),
            r <= self.task_list@.len(),
    {
        let mut i: usize = 0;
        proof {
            lemma_position_of(self.task_list@, id);
            assert(self.task_list@.skip(0) =~= self.task_list@);
        }
        while i < self.task_list.len()
            invariant
                i <= self.task_list@.len(),
                position_of(self.task_list@, id) == i + position_of(self.task_list@.skip(i as int), id),
            decreases self.task_list.len() - i,
        {
            assert(self.task_list@.skip(i as int).drop_first() =~= self.task_list@.skip(i + 1));
            if self.task_list[i].0 == id {
                return i;
            }
            i += 1;
        }
        i
    }

    proof fn lemma_position_view(&self, id: u64)
        ensures
            position_of(self.entries(), id) == position_of(self.task_list@, id),
        decreases self.task_list@.len(),
    {
        lemma_position_map(self.task_list@, id);
    }

    /// The task with id `id`.
    pub fn get_task(&self, id: u64) -> (r: Option<&Task>)
        ensures
            match r {
                Some(t) => lookup(self.entries(), id) == Some(t@),
                None => lookup(self.entries(), id) is None,
            },
    {
        let i = self.find_index(id);
        proof {
            self.lemma_position_view(id);
        }
        if i < self.task_list.len() {
            Some(&self.task_list[i].1)
        } else {
            None
        }
    }

    /// The task with id `id`, to change in place; ids and every other task
    /// stay as they are.
    pub fn get_task_mut(&mut self, id: u64) -> (r: Option<&mut Task>)
        requires
            old(self).wf(),
        ensures
            final(self).wf(),
            final(self).next_id() == old(self).next_id(),
            final(self).active() == old(self).active(),
            final(self).statuses() == old(self).statuses(),
            match r {
                Some(t) => {
                    &&& lookup(old(self).entries(), id) == Some(t@)
                    &&& final(self).entries() == old(self).entries().update(
                        position_of(old(self).entries(), id),
                        (id, final(t)@),
                    )
                },
                None => {
                    &&& lookup(old(self).entries(), id) is None
                    &&& final(self).entries() == old(self).entries()
                },
            },
    {
        let i = self.find_index(id);
        proof {
            self.lemma_position_view(id);
            lemma_position_of(self.task_list@, id);
        }
        if i < self.task_list.len() {
            let ghost before = self.task_list@;
            let r = &mut self.task_list[i].1;
            proof {
                assert(entries_view(before.update(i as int, (id, *final(r)))) =~= entries_view(before).update(i as int, (id, final(r)@)));
            }
            Some(r)
        } else {
            None
        }
    }


    /// Adds a queued task for `url` under the next id. Refused when the
    /// download directory named with it is missing or not a directory, or
    /// when a task already downloads `url`.
    pub fn add_url_as_task(
        &mut self,
        url: String,
        media_type: MediaType,
        download_dir: Option<DownloadDir>,
    ) -> (r: Result<u64, String>)
        requires
            old(self).wf(),
            old(self).next_id() < u64::MAX,
        ensures
            final(self).wf(),
            match add_refusal(old(self).entries(), url@, dir_view(download_dir)) {
                Some(msg) => {
                    &&& r matches Err(e) && e@ == msg
                    &&& *final(self) == *old(self)
                },
                None => {
                    &&& r == Ok::<u64, String>(old(self).next_id())
                    &&& final(self).entries() == old(self).entries().push(
                        (
                            old(self).next_id(),
                            TaskView::Queued {
                                url: url@,
                                media_type,
                                download_dir: dir_path(download_dir),
                            },
                        ),
                    )
                    &&& final(self).next_id() == old(self).next_id() + 1
                    &&& final(self).active() == old(self).active()
                    &&& final(self).statuses() == status_set(
                        old(self).statuses(),
                        old(self).next_id(),
                        TaskStatus::Queued,
                    )
                },
            },
    {
        let ghost dd = download_dir;
        let mut dir_path_value: Option<String> = None;
        match &download_dir {
            Some(d) => {
                match d.state {
                    PathState::Missing => {
                        let mut e = "Download directory does not exist: ".to_owned();
                        push_str(&mut e, d.path.as_str());
                        return Err(e);
                    },
                    PathState::NotADirectory => {
                        let mut e = "Download path is not a directory: ".to_owned();
                        push_str(&mut e, d.path.as_str());
                        return Err(e);
                    },
                    PathState::Directory => {
                        dir_path_value = Some(d.path.clone());
                    },
                }
            },
            None => {},
        }
        let ghost es = self.entries();
        let mut i: usize = 0;
        proof {
            lemma_url_position(es, url@);
        }
        while i < self.task_list.len()
            invariant
                i <= self.task_list@.len(),
                *self == *old(self),
                old(self).wf(),
                old(self).next_id() < u64::MAX,
                match dir_view(dd) {
                    Some((_, st)) => st == PathState::Directory,
                    None => true,
                },
                opt_view(dir_path_value) == dir_path(dd),
                dd == download_dir,
                es == entries_view(self.task_list@),
                forall|k: int| 0 <= k < i ==> es[k].1.url() != url@,
                0 <= url_position(es, url@) <= es.len(),
                url_position(es, url@) < es.len() ==> es[url_position(es, url@)].1.url() == url@,
                forall|j: int| 0 <= j < url_position(es, url@) ==> es[j].1.url() != url@,
            decreases self.task_list.len() - i,
        {
            assert(es[i as int] == (self.task_list@[i as int].0, self.task_list@[i as int].1@));
            if str_eq(self.task_list[i].1.url(), url.as_str()) {
                assert(url_position(es, url@) == i);
                let mut e = "URL already exists with task ID ".to_owned();
                push_decimal(&mut e, self.task_list[i].0);
                return Err(e);
            }
            i += 1;
        }
        assert(url_position(es, url@) == es.len());
        assert(self.task_list@.len() < u64::MAX) by {
            lemma_ids_bound(self.task_list@, self.index_counter);
        }
        let task_id = self.index_counter;
        let ghost old_list = self.task_list@;
        self.index_counter = self.index_counter + 1;
        self.task_list.push(
            (task_id, Task::Queued { url, media_type, download_dir: dir_path_value }),
        );
        set_keyed(&mut self.status_channels, task_id, TaskStatus::Queued);
        proof {
            assert(entries_view(self.task_list@) =~= entries_view(old_list).push(
                (task_id, self.task_list@.last().1@),
            ));
        }
        Ok(task_id)
    }

    /// Removes the task with id `id`, with its running operation and its
    /// status; tells whether there was such a task.
    pub fn remove_task(&mut self, id: u64) -> (removed: bool)
        requires
            old(self).wf(),
        ensures
            final(self).wf(),
            removed == (lookup(old(self).entries(), id) is Some),
            final(self).entries() == remove_key(old(self).entries(), id),
            final(self).next_id() == old(self).next_id(),
            final(self).active() == old(self).active().remove(id),
            final(self).statuses() == remove_key(old(self).statuses(), id),
    {
        remove_id(&mut self.active_tasks, id);
        remove_keyed(&mut self.status_channels, id);
        let ghost before = self.task_list@;
        let removed = remove_keyed(&mut self.task_list, id);
        proof {
            lemma_position_map(before, id);
            lemma_position_of(before, id);
            if removed {
                let p = position_of(before, id);
                before.remove_ensures(p);
                assert(entries_view(before.remove(p)) =~= entries_view(before).remove(p));
                assert forall|a: int, b: int| 0 <= a < b < self.task_list@.len() implies self.task_list@[a].0 < self.task_list@[b].0 by {
                    let a2 = if a < p { a } else { a + 1 };
                    let b2 = if b < p { b } else { b + 1 };
                    assert(self.task_list@[a] == before[a2]);
                    assert(self.task_list@[b] == before[b2]);
                }
                assert forall|a: int| 0 <= a < self.task_list@.len() implies self.task_list@[a].0 < self.index_counter by {
                    let a2 = if a < p { a } else { a + 1 };
                    assert(self.task_list@[a] == before[a2]);
                }
            }
        }
        removed
    }

    /// Forgets the running operation of `id`; tells whether there was one.
    pub fn abort_active_task(&mut self, id: u64) -> (was_running: bool)
        requires
            old(self).wf(),
        ensures
            final(self).wf(),
            was_running == old(self).active().contains(id),
            final(self).active() == old(self).active().remove(id),
            final(self).entries() == old(self).entries(),
            final(self).next_id() == old(self).next_id(),
            final(self).statuses() == old(self).statuses(),
    {
        remove_id(&mut self.active_tasks, id)
    }

    /// Records that the operation of `id` is running.
    pub fn insert_active_task(&mut self, id: u64)
        requires
            old(self).wf(),
        ensures
            final(self).wf(),
            final(self).active() == old(self).active().insert(id),
            final(self).entries() == old(self).entries(),
            final(self).next_id() == old(self).next_id(),
            final(self).statuses() == old(self).statuses(),
    {
        insert_id(&mut self.active_tasks, id);
    }

    /// Records that the operation of `id` stopped; tells whether it was
    /// running.
    pub fn remove_active_task(&mut self, id: u64) -> (was_running: bool)
        requires
            old(self).wf(),
        ensures
            final(self).wf(),
            was_running == old(self).active().contains(id),
            final(self).active() == old(self).active().remove(id),
            final(self).entries() == old(self).entries(),
            final(self).next_id() == old(self).next_id(),
            final(self).statuses() == old(self).statuses(),
    {
        remove_id(&mut self.active_tasks, id)
    }

    /// How many operations are running.
    pub fn active_task_count(&self) -> (n: usize)
        requires
            self.wf(),
        ensures
            n == self.active().len(),
    {
        proof {
            self.lemma_wf();
        }
        self.active_tasks.len()
    }

    /// Whether the operation of `id` is running.
    pub fn has_active_task(&self, id: u64) -> (b: bool)
        ensures
            b == self.active().contains(id),
    {
        let mut i: usize = 0;
        while i < self.active_tasks.len()
            invariant
                i <= self.active_tasks@.len(),
                forall|k: int| 0 <= k < i ==> self.active_tasks@[k] != id,
            decreases self.active_tasks.len() - i,
        {
            if self.active_tasks[i] == id {
                assert(self.active_tasks@.to_set().contains(id));
                return true;
            }
            i += 1;
        }
        false
    }

    /// Takes out every running operation: their ids, each once.
    pub fn drain_active_tasks(&mut self) -> (ids: Vec<u64>)
        requires
            old(self).wf(),
        ensures
            final(self).wf(),
            ids@.to_set() == old(self).active(),
            ids@.no_duplicates(),
            final(self).active() == Set::<u64>::empty(),
            final(self).entries() == old(self).entries(),
            final(self).next_id() == old(self).next_id(),
            final(self).statuses() == old(self).statuses(),
    {
        let mut ids: Vec<u64> = Vec::new();
        std::mem::swap(&mut ids, &mut self.active_tasks);
        assert(self.active_tasks@.to_set() =~= Set::<u64>::empty());
        ids
    }

    /// How many tasks are running (fetching metadata or downloading).
    pub fn count_active_tasks(&self) -> (n: usize)
        ensures
            n == count_running(self.entries()),
    {
        let ghost es = self.entries();
        let mut n: usize = 0;
        let mut i: usize = 0;
        while i < self.task_list.len()
            invariant
                i <= self.task_list@.len(),
                es == entries_view(self.task_list@),
                n == count_running(es.take(i as int)),
                n <= i,
            decreases self.task_list.len() - i,
        {
            assert(es.take(i + 1).drop_last() =~= es.take(i as int));
            if self.task_list[i].1.is_active() {
                n += 1;
            }
            i += 1;
        }
        assert(es.take(es.len() as int) =~= es);
        n
    }

    /// Starts publishing statuses of `id`; its status becomes `Queued`.
    pub fn create_completion_handle(&mut self, id: u64)
        requires
            old(self).wf(),
        ensures
            final(self).wf(),
            final(self).statuses() == status_set(old(self).statuses(), id, TaskStatus::Queued),
            final(self).entries() == old(self).entries(),
            final(self).next_id() == old(self).next_id(),
            final(self).active() == old(self).active(),
    {
        set_keyed(&mut self.status_channels, id, TaskStatus::Queued);
    }

    /// Publishes `status` for `id`, if its statuses are published.
    pub fn set_task_status(&mut self, id: u64, status: TaskStatus)
        requires
            old(self).wf(),
        ensures
            final(self).wf(),
            final(self).statuses() == (if lookup(old(self).statuses(), id) is Some {
                status_set(old(self).statuses(), id, status)
            } else {
                old(self).statuses()
            }),
            final(self).entries() == old(self).entries(),
            final(self).next_id() == old(self).next_id(),
            final(self).active() == old(self).active(),
    {
        let i = key_index(&self.status_channels, id);
        if i < self.status_channels.len() {
            set_keyed(&mut self.status_channels, id, status);
        }
    }

    /// The last status published for `id`.
    pub fn task_status(&self, id: u64) -> (r: Option<&TaskStatus>)
        ensures
            match r {
                Some(st) => lookup(self.statuses(), id) == Some(*st),
                None => lookup(self.statuses(), id) is None,
            },
    {
        let i = key_index(&self.status_channels, id);
        if i < self.status_channels.len() {
            Some(&self.status_channels[i].1)
        } else {
            None
        }
    }


    /// Pauses every running task (see `TaskView::paused`); tells how many.
    pub fn pause_running(&mut self) -> (n: usize)
        requires
            old(self).wf(),
        ensures
            final(self).wf(),
            n == count_running(old(self).entries()),
            final(self).entries() == pause_running_view(old(self).entries()),
            final(self).next_id() == old(self).next_id(),
            final(self).active() == old(self).active(),
            final(self).statuses() == old(self).statuses(),
    {
        let ghost es = self.entries();
        let mut n: usize = 0;
        let mut i: usize = 0;
        while i < self.task_list.len()
            invariant
                old(self).wf(),
                i <= self.task_list@.len(),
                es == old(self).entries(),
                self.task_list@.len() == es.len(),
                forall|k: int| 0 <= k < self.task_list@.len() ==> self.task_list@[k].0 == old(self).task_list@[k].0,
                forall|k: int| 0 <= k < i ==> entries_view(self.task_list@)[k] == pause_running_view(es)[k],
                forall|k: int| i <= k < self.task_list@.len() ==> entries_view(self.task_list@)[k] == es[k],
                self.index_counter == old(self).index_counter,
                self.active_tasks == old(self).active_tasks,
                self.status_channels == old(self).status_channels,
                n == count_running(es.take(i as int)),
                n <= i,
            decreases self.task_list.len() - i,
        {
            assert(es.take(i + 1).drop_last() =~= es.take(i as int));
            assert(entries_view(self.task_list@)[i as int] == (self.task_list@[i as int].0, self.task_list@[i as int].1@));
            if self.task_list[i].1.is_active() {
                let ghost before = self.task_list@;
                let r = &mut self.task_list[i].1;
                r.pause();
                n += 1;
                assert(self.task_list@ == before.update(i as int, (before[i as int].0, self.task_list@[i as int].1)));
            }
            i += 1;
        }
        assert(es.take(es.len() as int) =~= es);
        assert(self.entries() =~= pause_running_view(es));
        proof {
            assert forall|a: int, b: int| 0 <= a < b < self.task_list@.len() implies self.task_list@[a].0 < self.task_list@[b].0 by {
                assert(self.task_list@[a].0 == old(self).task_list@[a].0);
                assert(self.task_list@[b].0 == old(self).task_list@[b].0);
            }
            assert forall|a: int| 0 <= a < self.task_list@.len() implies self.task_list@[a].0 < self.index_counter by {
                assert(self.task_list@[a].0 == old(self).task_list@[a].0);
            }
        }
        n
    }

    /// Resumes every paused task (see `TaskView::unpaused`); tells how many.
    pub fn unpause_all(&mut self) -> (n: usize)
        requires
            old(self).wf(),
        ensures
            final(self).wf(),
            n == count_paused(old(self).entries()),
            final(self).entries() == unpause_all_view(old(self).entries()),
            final(self).next_id() == old(self).next_id(),
            final(self).active() == old(self).active(),
            final(self).statuses() == old(self).statuses(),
    {
        let ghost es = self.entries();
        let mut n: usize = 0;
        let mut i: usize = 0;
        while i < self.task_list.len()
            invariant
                old(self).wf(),
                i <= self.task_list@.len(),
                es == old(self).entries(),
                self.task_list@.len() == es.len(),
                forall|k: int| 0 <= k < self.task_list@.len() ==> self.task_list@[k].0 == old(self).task_list@[k].0,
                forall|k: int| 0 <= k < i ==> entries_view(self.task_list@)[k] == unpause_all_view(es)[k],
                forall|k: int| i <= k < self.task_list@.len() ==> entries_view(self.task_list@)[k] == es[k],
                self.index_counter == old(self).index_counter,
                self.active_tasks == old(self).active_tasks,
                self.status_channels == old(self).status_channels,
                n == count_paused(es.take(i as int)),
                n <= i,
            decreases self.task_list.len() - i,
        {
            assert(es.take(i + 1).drop_last() =~= es.take(i as int));
            assert(entries_view(self.task_list@)[i as int] == (self.task_list@[i as int].0, self.task_list@[i as int].1@));
            if self.task_list[i].1.is_paused() {
                let ghost before = self.task_list@;
                let r = &mut self.task_list[i].1;
                r.unpause();
                n += 1;
                assert(self.task_list@ == before.update(i as int, (before[i as int].0, self.task_list@[i as int].1)));
            }
            i += 1;
        }
        assert(es.take(es.len() as int) =~= es);
        assert(self.entries() =~= unpause_all_view(es));
        proof {
            assert forall|a: int, b: int| 0 <= a < b < self.task_list@.len() implies self.task_list@[a].0 < self.task_list@[b].0 by {
                assert(self.task_list@[a].0 == old(self).task_list@[a].0);
                assert(self.task_list@[b].0 == old(self).task_list@[b].0);
            }
            assert forall|a: int| 0 <= a < self.task_list@.len() implies self.task_list@[a].0 < self.index_counter by {
                assert(self.task_list@[a].0 == old(self).task_list@[a].0);
            }
        }
        n
    }


    /// Removes every completed task, with its running operation and status;
    /// returns their ids in order.
    pub fn remove_completed(&mut self) -> (ids: Vec<u64>)
        requires
            old(self).wf(),
        ensures
            final(self).wf(),
            ids@ == completed_ids(old(self).entries()),
            final(self).entries() == without_completed(old(self).entries()),
            final(self).next_id() == old(self).next_id(),
            final(self).active() == old(self).active().difference(ids@.to_set()),
            final(self).statuses() == remove_keys(old(self).statuses(), ids@),
    {
        let ghost orig = self.task_list@;
        let ghost es = self.entries();
        let mut rest: Vec<(u64, Task)> = Vec::new();
        std::mem::swap(&mut rest, &mut self.task_list);
        let mut kept: Vec<(u64, Task)> = Vec::new();
        let mut ids: Vec<u64> = Vec::new();
        let ghost mut j: int = 0;
        assert(es.take(0) =~= Seq::<(u64, TaskView)>::empty());
        assert(entries_view(kept@) =~= Seq::<(u64, TaskView)>::empty());
        assert(orig.skip(0) =~= orig);
        while rest.len() > 0
            invariant
                old(self).wf(),
                orig == old(self).task_list@,
                es == entries_view(orig),
                0 <= j <= orig.len(),
                rest@ == orig.skip(j),
                entries_view(kept@) == without_completed(es.take(j)),
                ids@ == completed_ids(es.take(j)),
                ids_increasing(kept@),
                forall|a: int, b: int| 0 <= a < kept@.len() && j <= b < orig.len() ==> kept@[a].0 < orig[b].0,
                forall|a: int| 0 <= a < kept@.len() ==> kept@[a].0 < old(self).index_counter,
            decreases rest.len(),
        {
            let e = rest.remove(0);
            proof {
                assert(orig.skip(j)[0] == orig[j]);
                assert(rest@ =~= orig.skip(j + 1));
                assert(es.take(j + 1).drop_last() =~= es.take(j));
                assert(es.take(j + 1).last() == (orig[j].0, orig[j].1@));
            }
            let ghost k0 = kept@;
            match &e.1 {
                Task::Completed { .. } => {
                    ids.push(e.0);
                },
                _ => {
                    kept.push(e);
                    proof {
                        assert(entries_view(kept@) =~= entries_view(k0).push((orig[j].0, orig[j].1@)));
                        assert forall|a: int, b: int| 0 <= a < b < kept@.len() implies kept@[a].0 < kept@[b].0 by {
                            if b == kept@.len() - 1 {
                                assert(kept@[a] == k0[a]);
                            } else {
                                assert(kept@[a] == k0[a]);
                                assert(kept@[b] == k0[b]);
                            }
                        }
                        assert forall|a: int, b: int| 0 <= a < kept@.len() && j + 1 <= b < orig.len() implies kept@[a].0 < orig[b].0 by {
                            if a < k0.len() {
                                assert(kept@[a] == k0[a]);
                            } else {
                                assert(kept@[a] == orig[j]);
                            }
                        }
                    }
                },
            }
            proof {
                j = j + 1;
            }
        }
        proof {
            assert(j == orig.len());
            assert(es.take(j) =~= es);
        }
        self.task_list = kept;
        let ghost kept_view = self.task_list@;
        assert(entries_view(kept_view) == without_completed(es));
        assert(forall|a: int| 0 <= a < kept_view.len() ==> kept_view[a].0 < self.index_counter);
        let mut k: usize = 0;
        assert(ids@.take(0).to_set() =~= Set::<u64>::empty());
        assert(old(self).active().difference(Set::<u64>::empty()) =~= old(self).active());
        assert(ids@.take(0) =~= Seq::<u64>::empty());
        while k < ids.len()
            invariant
                old(self).wf(),
                k <= ids@.len(),
                self.active_tasks@.no_duplicates(),
                self.active_tasks@.to_set() == old(self).active().difference(ids@.take(k as int).to_set()),
                self.status_channels@ == remove_keys(old(self).status_channels@, ids@.take(k as int)),
                keys_distinct(self.status_channels@),
                self.task_list@ == kept_view,
                entries_view(kept_view) == without_completed(es),
                es == old(self).entries(),
                ids_increasing(kept_view),
                forall|a: int| 0 <= a < kept_view.len() ==> kept_view[a].0 < self.index_counter,
                self.index_counter == old(self).index_counter,
            decreases ids.len() - k,
        {
            let id = ids[k];
            remove_id(&mut self.active_tasks, id);
            remove_keyed(&mut self.status_channels, id);
            proof {
                assert(ids@.take(k + 1).drop_last() =~= ids@.take(k as int));
                assert(ids@.take(k + 1).last() == id);
                assert(ids@.take(k + 1).to_set() =~= ids@.take(k as int).to_set().insert(id)) by {
                    assert forall|x: u64| ids@.take(k + 1).to_set().contains(x) implies ids@.take(k as int).to_set().insert(id).contains(x) by {
                        let q = choose|q: int| #![trigger ids@.take(k + 1)[q]] 0 <= q < ids@.take(k + 1).len() && ids@.take(k + 1)[q] == x;
                        if q < k {
                            assert(ids@.take(k as int)[q] == x);
                        }
                    }
                    assert forall|x: u64| ids@.take(k as int).to_set().insert(id).contains(x) implies ids@.take(k + 1).to_set().contains(x) by {
                        if x == id {
                            assert(ids@.take(k + 1)[k as int] == id);
                        } else {
                            let q = choose|q: int| #![trigger ids@.take(k as int)[q]] 0 <= q < ids@.take(k as int).len() && ids@.take(k as int)[q] == x;
                            assert(ids@.take(k + 1)[q] == x);
                        }
                    }
                }
                assert(self.active_tasks@.to_set() =~= old(self).active().difference(ids@.take(k + 1).to_set()));
            }
            k += 1;
        }
        proof {
            assert(ids@.take(ids@.len() as int) =~= ids@);
        }
        ids
    }

    /// A registry holding `list`, numbered from 0, with the next id `n`.
    pub(crate) fn from_parts(list: Vec<(u64, Task)>, n: u64) -> (t: Tasks)
        requires
            list@.len() == n,
            forall|i: int| 0 <= i < list@.len() ==> list@[i].0 == i,
        ensures
            t.wf(),
            t.entries() == entries_view(list@),
            t.next_id() == n,
            t.active() == Set::<u64>::empty(),
            t.statuses() == Seq::<(u64, TaskStatus)>::empty(),
    {
        let t = Tasks {
            task_list: list,
            index_counter: n,
            active_tasks: Vec::new(),
            status_channels: Vec::new(),
        };
        assert(t.active_tasks@.to_set() =~= Set::<u64>::empty());
        t
    }

    /// The tasks with their ids, in increasing id order.
    pub fn task_list_ref(&self) -> (l: &Vec<(u64, Task)>)
        ensures
            entries_view(l@) == self.entries(),
    {
        &self.task_list
    }

    /// The tasks with their ids, one by one, in increasing id order.
    pub fn iter(&self) -> (it: std::slice::Iter<'_, (u64, Task)>)
        ensures
            entries_view(vstd::std_specs::iter::IteratorSpec::remaining(&it).unref()) == self.entries(),
    {
        proof {
            broadcast use vstd::std_specs::slice::axiom_spec_slice_iter;
        }
        let it = self.task_list.as_slice().iter();
        proof {
            assert(vstd::std_specs::iter::IteratorSpec::remaining(&it).unref() =~= self.task_list@);
        }
        it
    }

    /// The number of tasks.
    pub fn len(&self) -> (n: usize)
        ensures
            n == self.entries().len(),
    {
        self.task_list.len()
    }

    /// Forgets the running operations of paused tasks.
    pub fn abort_paused(&mut self)
        requires
            old(self).wf(),
        ensures
            final(self).wf(),
            final(self).active() == old(self).active().difference(paused_ids(old(self).entries())),
            final(self).entries() == old(self).entries(),
            final(self).next_id() == old(self).next_id(),
            final(self).statuses() == old(self).statuses(),
    {
        let ghost es = self.entries();
        let ghost a0 = self.active();
        let mut i: usize = 0;
        assert(paused_ids(es.take(0)) =~= Set::<u64>::empty());
        assert(a0.difference(Set::<u64>::empty()) =~= a0);
        while i < self.task_list.len()
            invariant
                i <= self.task_list@.len(),
                es == entries_view(self.task_list@),
                self.task_list@ == old(self).task_list@,
                self.index_counter == old(self).index_counter,
                self.status_channels@ == old(self).status_channels@,
                old(self).wf(),
                self.active_tasks@.no_duplicates(),
                self.active_tasks@.to_set() == a0.difference(paused_ids(es.take(i as int))),
            decreases self.task_list.len() - i,
        {
            let ghost before = self.active_tasks@.to_set();
            let id = self.task_list[i].0;
            let p = self.task_list[i].1.is_paused();
            assert(es[i as int] == (id, self.task_list@[i as int].1@));
            if p {
                remove_id(&mut self.active_tasks, id);
            }
            proof {
                let t0 = es.take(i as int);
                let t1 = es.take(i + 1);
                let s0 = paused_ids(t0);
                let s1 = paused_ids(t1);
                assert forall|x: u64| s1.contains(x) <==> (s0.contains(x) || (p && x == id)) by {
                    if s1.contains(x) {
                        let k = choose|k: int| 0 <= k < t1.len() && (#[trigger] t1[k]).0 == x
                            && t1[k].1.is_paused();
                        if k < i {
                            assert(t0[k] == t1[k]);
                        }
                    }
                    if s0.contains(x) {
                        let k = choose|k: int| 0 <= k < t0.len() && (#[trigger] t0[k]).0 == x
                            && t0[k].1.is_paused();
                        assert(t1[k] == t0[k]);
                    }
                    if p && x == id {
                        assert(t1[i as int] == es[i as int]);
                    }
                }
                assert(self.active_tasks@.to_set() =~= a0.difference(s1));
            }
            i += 1;
        }
        assert(es.take(es.len() as int) =~= es);
    }

    /// The ids whose operation is running, each once.
    pub fn active_ids(&self) -> (ids: Vec<u64>)
        requires
            self.wf(),
        ensures
            ids@.to_set() == self.active(),
            ids@.no_duplicates(),
    {
        let mut ids: Vec<u64> = Vec::new();
        let mut i: usize = 0;
        while i < self.active_tasks.len()
            invariant
                i <= self.active_tasks@.len(),
                ids@ == self.active_tasks@.take(i as int),
            decreases self.active_tasks.len() - i,
        {
            ids.push(self.active_tasks[i]);
            assert(ids@ =~= self.active_tasks@.take(i + 1));
            i += 1;
        }
        assert(ids@ =~= self.active_tasks@);
        ids
    }

    /// The id the next added task will receive.
    pub fn next_task_id(&self) -> (n: u64)
        ensures
            n == self.next_id(),
    {
        self.index_counter
    }
}

/// Increasing ids below `bound` are fewer than `bound`.
pub proof fn lemma_ids_bound<T>(s: Seq<(u64, T)>, bound: u64)
    requires
        ids_increasing(s),
        forall|i: int| 0 <= i < s.len() ==> s[i].0 < bound,
    ensures
        s.len() <= bound,
    decreases s.len(),
{
    if s.len() > 0 {
        let t = s.drop_last();
        assert forall|i: int| 0 <= i < t.len() implies t[i].0 < s.last().0 by {
            assert(t[i] == s[i]);
        }
        lemma_ids_bound(t, s.last().0);
    }
}

pub proof fn lemma_position_map(s: Seq<(u64, Task)>, id: u64)
    ensures
        position_of(entries_view(s), id) == position_of(s, id),
    decreases s.len(),
{
    if s.len() > 0 {
        assert(entries_view(s).drop_first() =~= entries_view(s.drop_first()));
        lemma_position_map(s.drop_first(), id);
    }
}


// ---------------------------------------------------------------------------
// Laws of the registry
// ---------------------------------------------------------------------------

/// A URL that is refused as a duplicate is one that some task downloads,
/// and a URL that some task downloads is refused (unless its directory was
/// refused first).
pub proof fn law_duplicates_refused(es: Seq<(u64, TaskView)>, url: Seq<char>, dir: Option<(Seq<char>, PathState)>)
    requires
        match dir {
            Some(d) => d.1 == PathState::Directory,
            None => true,
        },
    ensures
        add_refusal(es, url, dir) is Some <==> has_url(es, url),
{
    lemma_url_position(es, url);
    if has_url(es, url) {
        let i = choose|i: int| 0 <= i < es.len() && es[i].1.url() == url;
        assert(url_position(es, url) <= i);
    }
}

/// Adding a task keeps URLs distinct, and the added task is found under the
/// id it was given.
pub proof fn law_add_then_get(
    es: Seq<(u64, TaskView)>,
    next: u64,
    url: Seq<char>,
    media_type: MediaType,
    dir: Option<(Seq<char>, PathState)>,
)
    requires
        ids_increasing(es),
        forall|i: int| 0 <= i < es.len() ==> es[i].0 < next,
        add_refusal(es, url, dir) is None,
    ensures
        urls_distinct(es) ==> urls_distinct(
            es.push(
                (
                    next,
                    TaskView::Queued {
                        url,
                        media_type,
                        download_dir: match dir {
                            Some(d) => Some(d.0),
                            None => None,
                        },
                    },
                ),
            ),
        ),
        lookup(
            es.push(
                (
                    next,
                    TaskView::Queued {
                        url,
                        media_type,
                        download_dir: match dir {
                            Some(d) => Some(d.0),
                            None => None,
                        },
                    },
                ),
            ),
            next,
        ) == Some(
            TaskView::Queued {
                url,
                media_type,
                download_dir: match dir {
                    Some(d) => Some(d.0),
                    None => None,
                },
            },
        ),
{
    let t = TaskView::Queued {
        url,
        media_type,
        download_dir: match dir {
            Some(d) => Some(d.0),
            None => None,
        },
    };
    let es2 = es.push((next, t));
    lemma_url_position(es, url);
    assert forall|i: int| 0 <= i < es.len() implies es[i].1.url() != url by {
        assert(url_position(es, url) == es.len());
    }
    assert forall|a: int, b: int| 0 <= a < b < es2.len() implies es2[a].0 != es2[b].0 by {
        if b < es.len() {
            assert(es2[a] == es[a]);
            assert(es2[b] == es[b]);
        } else {
            assert(es2[a] == es[a]);
        }
    }
    lemma_position_unique(es2, next, es.len() as int);
    if urls_distinct(es) {
        assert forall|a: int, b: int| 0 <= a < b < es2.len() implies es2[a].1.url() != es2[b].1.url() by {
            assert(es2[a] == es[a]);
            if b < es.len() {
                assert(es2[b] == es[b]);
            }
        }
    }
}

/// A removed task is gone; every other task stays, and URLs stay distinct.
pub proof fn law_remove_then_get(es: Seq<(u64, TaskView)>, id: u64, other: u64)
    requires
        ids_increasing(es),
        other != id,
    ensures
        lookup(remove_key(es, id), id) is None,
        lookup(remove_key(es, id), other) == lookup(es, other),
        urls_distinct(es) ==> urls_distinct(remove_key(es, id)),
{
    lemma_position_of(es, id);
    lemma_position_of(es, other);
    let r = remove_key(es, id);
    lemma_position_of(r, id);
    lemma_position_of(r, other);
    if position_of(es, id) < es.len() {
        let p = position_of(es, id);
        es.remove_ensures(p);
        assert forall|k: int| 0 <= k < r.len() implies r[k].0 != id by {
            if k < p {
                assert(r[k] == es[k]);
            } else {
                assert(r[k] == es[k + 1]);
            }
        }
        assert forall|a: int, b: int| 0 <= a < b < r.len() implies r[a].0 != r[b].0 by {
            let a2 = if a < p { a } else { a + 1 };
            let b2 = if b < p { b } else { b + 1 };
            assert(r[a] == es[a2]);
            assert(r[b] == es[b2]);
        }
        if position_of(es, other) < es.len() {
            let q = position_of(es, other);
            let q2 = if q < p { q } else { q - 1 };
            assert(r[q2] == es[q]);
            lemma_position_unique(r, other, q2);
        } else {
            assert forall|k: int| 0 <= k < r.len() implies r[k].0 != other by {
                if k < p {
                    assert(r[k] == es[k]);
                } else {
                    assert(r[k] == es[k + 1]);
                }
            }
        }
        if urls_distinct(es) {
            assert forall|a: int, b: int| 0 <= a < b < r.len() implies r[a].1.url() != r[b].1.url() by {
                let a2 = if a < p { a } else { a + 1 };
                let b2 = if b < p { b } else { b + 1 };
                assert(r[a] == es[a2]);
                assert(r[b] == es[b2]);
            }
        }
    }
}
/// Clearing completed tasks keeps every other task, in order, and no
/// completed one.
pub proof fn law_clear_keeps_unfinished(es: Seq<(u64, TaskView)>)
    ensures
        forall|i: int|
            0 <= i < without_completed(es).len() ==> !((#[trigger] without_completed(es)[i]).1 is Completed),
        forall|i: int|
            0 <= i < es.len() && !((#[trigger] es[i]).1 is Completed) ==> without_completed(es).contains(es[i]),
        without_completed(es).len() + completed_ids(es).len() == es.len(),
    decreases es.len(),
{
    if es.len() > 0 {
        let t = es.drop_last();
        law_clear_keeps_unfinished(t);
        let w = without_completed(es);
        let wt = without_completed(t);
        assert forall|i: int| 0 <= i < w.len() implies !((#[trigger] w[i]).1 is Completed) by {
            if i < wt.len() {
                assert(w[i] == wt[i]);
            }
        }
        assert forall|i: int| 0 <= i < es.len() && !((#[trigger] es[i]).1 is Completed) implies w.contains(es[i]) by {
            if i < t.len() {
                assert(es[i] == t[i]);
                assert(wt.contains(t[i]));
                let k = choose|k: int| 0 <= k < wt.len() && wt[k] == t[i];
                assert(w[k] == wt[k]);
            } else {
                assert(w[w.len() - 1] == es.last());
            }
        }
    }
}


/// One call that changes the registry, as far as its tasks and ids go.
pub enum RegistryCall {
    /// `add_url_as_task` with a URL, media type and download directory.
    Add { url: Seq<char>, media_type: MediaType, dir: Option<(Seq<char>, PathState)> },
    /// `remove_task` of an id.
    Remove { id: u64 },
    /// `remove_completed`.
    ClearCompleted,
}

/// The tasks and next id after `c`, and the id it returned, if it added a
/// task: what the contracts of `add_url_as_task`, `remove_task` and
/// `remove_completed` state of the entries and the next id.
pub open spec fn after_call(es: Seq<(u64, TaskView)>, next: int, c: RegistryCall) -> (
    Seq<(u64, TaskView)>,
    int,
    Option<int>,
) {
    match c {
        RegistryCall::Add { url, media_type, dir } => if add_refusal(es, url, dir) is None {
            (
                es.push(
                    (
                        next as u64,
                        TaskView::Queued {
                            url,
                            media_type,
                            download_dir: match dir {
                                Some(d) => Some(d.0),
                                None => None,
                            },
                        },
                    ),
                ),
                next + 1,
                Some(next),
            )
        } else {
            (es, next, None)
        },
        RegistryCall::Remove { id } => (remove_key(es, id), next, None),
        RegistryCall::ClearCompleted => (without_completed(es), next, None),
    }
}

/// The tasks and next id after the calls `cs` in order, and the ids that the
/// successful adds among them returned, in order.
pub open spec fn after_calls(es: Seq<(u64, TaskView)>, next: int, cs: Seq<RegistryCall>) -> (
    Seq<(u64, TaskView)>,
    int,
    Seq<int>,
)
    decreases cs.len(),
{
    if cs.len() == 0 {
        (es, next, seq![])
    } else {
        let before = after_calls(es, next, cs.drop_last());
        let step = after_call(before.0, before.1, cs.last());
        (
            step.0,
            step.1,
            match step.2 {
                Some(i) => before.2.push(i),
                None => before.2,
            },
        )
    }
}

/// Every id in `es` is below `n`.
pub open spec fn ids_below(es: Seq<(u64, TaskView)>, n: int) -> bool {
    forall|i: int| 0 <= i < es.len() ==> es[i].0 < n
}

proof fn lemma_without_completed_ids_below(es: Seq<(u64, TaskView)>, n: int)
    requires
        ids_below(es, n),
    ensures
        ids_below(without_completed(es), n),
    decreases es.len(),
{
    if es.len() > 0 {
        let t = es.drop_last();
        assert(ids_below(t, n)) by {
            assert forall|i: int| 0 <= i < t.len() implies t[i].0 < n by {
                assert(t[i] == es[i]);
            }
        }
        lemma_without_completed_ids_below(t, n);
        let w = without_completed(es);
        let wt = without_completed(t);
        assert forall|i: int| 0 <= i < w.len() implies w[i].0 < n by {
            if i < wt.len() {
                assert(w[i] == wt[i]);
            }
        }
    }
}

/// Ids are handed out in order and never reused: over any run of adds,
/// removals and clears, the k-th successful add returns the id that was next
/// at the start plus k. So every id returned is greater than each id returned
/// before it and than each id the registry held at the start, also once the
/// tasks holding those ids are removed, and a refused add uses up no id. The
/// registry's ids stay below its next id throughout.
pub proof fn law_ids_never_reused(es: Seq<(u64, TaskView)>, next: int, cs: Seq<RegistryCall>)
    requires
        0 <= next,
        next + cs.len() <= u64::MAX,
        ids_below(es, next),
    ensures
        forall|k: int|
            0 <= k < after_calls(es, next, cs).2.len() ==> #[trigger] after_calls(es, next, cs).2[k]
                == next + k,
        after_calls(es, next, cs).1 == next + after_calls(es, next, cs).2.len(),
        after_calls(es, next, cs).2.len() <= cs.len(),
        ids_below(after_calls(es, next, cs).0, after_calls(es, next, cs).1),
    decreases cs.len(),
{
    if cs.len() > 0 {
        let pre = cs.drop_last();
        law_ids_never_reused(es, next, pre);
        let before = after_calls(es, next, pre);
        let r = after_calls(es, next, cs);
        match cs.last() {
            RegistryCall::Add { url, media_type, dir } => {
                if add_refusal(before.0, url, dir) is None {
                    assert forall|i: int| 0 <= i < r.0.len() implies r.0[i].0 < r.1 by {
                        if i < before.0.len() {
                            assert(r.0[i] == before.0[i]);
                        }
                    }
                    assert forall|k: int| 0 <= k < r.2.len() implies #[trigger] r.2[k] == next + k by {
                        if k < before.2.len() {
                            assert(r.2[k] == before.2[k]);
                        }
                    }
                }
            },
            RegistryCall::Remove { id } => {
                let p = position_of(before.0, id);
                lemma_position_of(before.0, id);
                if p < before.0.len() {
                    assert(r.0 == before.0.remove(p));
                    assert forall|i: int| 0 <= i < r.0.len() implies r.0[i].0 < r.1 by {
                        if i < p {
                            assert(r.0[i] == before.0[i]);
                        } else {
                            assert(r.0[i] == before.0[i + 1]);
                        }
                    }
                }
            },
            RegistryCall::ClearCompleted => {
                lemma_without_completed_ids_below(before.0, before.1);
            },
        }
    }
}

} // verus!
