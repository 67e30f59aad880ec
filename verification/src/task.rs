//! Tasks: what is downloaded (`MediaType`), the life cycle of a download
//! (`Task`, `TaskKind`, `TaskStatus`) and the pause/resume operations on it.
use vstd::prelude::*;

verus! {

/// What a task downloads.
#[derive(Clone, Copy, Debug, PartialEq, Eq, Structural)]
pub enum MediaType {
    Video,
    Audio,
}

impl Default for MediaType {
    fn default() -> (m: MediaType)
        ensures
            m == MediaType::Video,
    {
        MediaType::Video
    }
}

impl MediaType {
    /// The symbol shown next to a download of this type.
    pub fn emoji(&self) -> (s: &'static str)
        ensures
            s@ == (match *self {
                MediaType::Video => "🎬"@,
                MediaType::Audio => "🎵"@,
            }),
    {
        match self {
            MediaType::Video => "🎬",
            MediaType::Audio => "🎵",
        }
    }

    /// The name of the type, as it is displayed (`Video` / `Audio`).
    pub fn name(&self) -> (s: &'static str)
        ensures
            s@ == (match *self {
                MediaType::Video => "Video"@,
                MediaType::Audio => "Audio"@,
            }),
    {
        match self {
            MediaType::Video => "Video",
            MediaType::Audio => "Audio",
        }
    }

    /// Extension of the final file: `mp4` for video, `ogg` for audio.
    pub fn extension(&self) -> (s: &'static str)
        ensures
            s@ == media_extension(*self),
    {
        match self {
            MediaType::Video => "mp4",
            MediaType::Audio => "ogg",
        }
    }
}

pub open spec fn media_extension(m: MediaType) -> Seq<char> {
    match m {
        MediaType::Video => "mp4"@,
        MediaType::Audio => "ogg"@,
    }
}

/// The state a task is in, without its data.
#[derive(Clone, Copy, Debug, PartialEq, Eq, Structural)]
pub enum TaskKind {
    Queued,
    GetName,
    DownloadVideo,
    PausedQueued,
    PausedGetName,
    PausedDownloadVideo,
    Completed,
    Failed,
}

impl TaskKind {
    /// The variant's name (the `Debug` text of the kind).
    pub fn name(&self) -> (s: &'static str)
        ensures
            s@ == kind_name(*self),
    {
        match self {
            TaskKind::Queued => "Queued",
            TaskKind::GetName => "GetName",
            TaskKind::DownloadVideo => "DownloadVideo",
            TaskKind::PausedQueued => "PausedQueued",
            TaskKind::PausedGetName => "PausedGetName",
            TaskKind::PausedDownloadVideo => "PausedDownloadVideo",
            TaskKind::Completed => "Completed",
            TaskKind::Failed => "Failed",
        }
    }
}

pub open spec fn kind_name(k: TaskKind) -> Seq<char> {
    match k {
        TaskKind::Queued => "Queued"@,
        TaskKind::GetName => "GetName"@,
        TaskKind::DownloadVideo => "DownloadVideo"@,
        TaskKind::PausedQueued => "PausedQueued"@,
        TaskKind::PausedGetName => "PausedGetName"@,
        TaskKind::PausedDownloadVideo => "PausedDownloadVideo"@,
        TaskKind::Completed => "Completed"@,
        TaskKind::Failed => "Failed"@,
    }
}

/// The status published to observers of a task.
#[derive(Clone, Debug)]
pub enum TaskStatus {
    Queued,
    GetName,
    DownloadVideo,
    PausedQueued,
    PausedGetName,
    PausedDownloadVideo,
    Completed,
    Failed(String),
}

/// The content of a `TaskStatus`.
pub enum StatusView {
    Queued,
    GetName,
    DownloadVideo,
    PausedQueued,
    PausedGetName,
    PausedDownloadVideo,
    Completed,
    Failed(Seq<char>),
}

impl View for TaskStatus {
    type V = StatusView;

    open spec fn view(&self) -> StatusView {
        match *self {
            TaskStatus::Queued => StatusView::Queued,
            TaskStatus::GetName => StatusView::GetName,
            TaskStatus::DownloadVideo => StatusView::DownloadVideo,
            TaskStatus::PausedQueued => StatusView::PausedQueued,
            TaskStatus::PausedGetName => StatusView::PausedGetName,
            TaskStatus::PausedDownloadVideo => StatusView::PausedDownloadVideo,
            TaskStatus::Completed => StatusView::Completed,
            TaskStatus::Failed(e) => StatusView::Failed(e@),
        }
    }
}

/// What fetching a URL's metadata found.
#[derive(Clone, Debug)]
pub struct GetNameMetadata {
    pub title: Option<String>,
    pub expected_size_bytes: Option<u64>,
    pub directory: String,
}

/// What a running download knows about itself.
#[derive(Clone, Debug)]
pub struct DownloadMetadata {
    pub title: Option<String>,
    pub expected_size_bytes: Option<u64>,
    pub directory: String,
    /// When the download started, in seconds since the Unix epoch.
    pub started_at: Option<u64>,
    pub process_id: Option<u32>,
    pub log_file: Option<String>,
}

/// A download task in one of its states.
#[derive(Clone, Debug)]
pub enum Task {
    Queued { url: String, media_type: MediaType, download_dir: Option<String> },
    GetName {
        url: String,
        metadata: Option<GetNameMetadata>,
        media_type: MediaType,
        download_dir: Option<String>,
    },
    DownloadVideo {
        url: String,
        path: String,
        media_type: MediaType,
        metadata: DownloadMetadata,
        download_dir: Option<String>,
    },
    PausedQueued {
        url: String,
        media_type: MediaType,
        should_auto_resume: bool,
        download_dir: Option<String>,
    },
    PausedGetName {
        url: String,
        metadata: Option<GetNameMetadata>,
        should_auto_resume: bool,
        media_type: MediaType,
        download_dir: Option<String>,
    },
    PausedDownloadVideo {
        media_type: MediaType,
        url: String,
        path: String,
        metadata: DownloadMetadata,
        should_auto_resume: bool,
        download_dir: Option<String>,
    },
    Completed { url: String, media_type: MediaType, path: String, download_dir: Option<String> },
    Failed {
        media_type: MediaType,
        url: String,
        human_readable_error: String,
        download_dir: Option<String>,
    },
}

// ---------------------------------------------------------------------------
// Mathematical views
// ---------------------------------------------------------------------------

pub open spec fn opt_view(o: Option<String>) -> Option<Seq<char>> {
    match o {
        Some(s) => Some(s@),
        None => None,
    }
}

/// The content of a `GetNameMetadata`.
pub struct GetNameMetadataView {
    pub title: Option<Seq<char>>,
    pub expected_size_bytes: Option<u64>,
    pub directory: Seq<char>,
}

/// The content of a `DownloadMetadata`.
pub struct DownloadMetadataView {
    pub title: Option<Seq<char>>,
    pub expected_size_bytes: Option<u64>,
    pub directory: Seq<char>,
    pub started_at: Option<u64>,
    pub process_id: Option<u32>,
    pub log_file: Option<Seq<char>>,
}

/// The content of a `Task`.
pub enum TaskView {
    Queued { url: Seq<char>, media_type: MediaType, download_dir: Option<Seq<char>> },
    GetName {
        url: Seq<char>,
        metadata: Option<GetNameMetadataView>,
        media_type: MediaType,
        download_dir: Option<Seq<char>>,
    },
    DownloadVideo {
        url: Seq<char>,
        path: Seq<char>,
        media_type: MediaType,
        metadata: DownloadMetadataView,
        download_dir: Option<Seq<char>>,
    },
    PausedQueued {
        url: Seq<char>,
        media_type: MediaType,
        should_auto_resume: bool,
        download_dir: Option<Seq<char>>,
    },
    PausedGetName {
        url: Seq<char>,
        metadata: Option<GetNameMetadataView>,
        should_auto_resume: bool,
        media_type: MediaType,
        download_dir: Option<Seq<char>>,
    },
    PausedDownloadVideo {
        media_type: MediaType,
        url: Seq<char>,
        path: Seq<char>,
        metadata: DownloadMetadataView,
        should_auto_resume: bool,
        download_dir: Option<Seq<char>>,
    },
    Completed {
        url: Seq<char>,
        media_type: MediaType,
        path: Seq<char>,
        download_dir: Option<Seq<char>>,
    },
    Failed {
        media_type: MediaType,
        url: Seq<char>,
        human_readable_error: Seq<char>,
        download_dir: Option<Seq<char>>,
    },
}

impl View for GetNameMetadata {
    type V = GetNameMetadataView;

    open spec fn view(&self) -> GetNameMetadataView {
        GetNameMetadataView {
            title: opt_view(self.title),
            expected_size_bytes: self.expected_size_bytes,
            directory: self.directory@,
        }
    }
}

impl View for DownloadMetadata {
    type V = DownloadMetadataView;

    open spec fn view(&self) -> DownloadMetadataView {
        DownloadMetadataView {
            title: opt_view(self.title),
            expected_size_bytes: self.expected_size_bytes,
            directory: self.directory@,
            started_at: self.started_at,
            process_id: self.process_id,
            log_file: opt_view(self.log_file),
        }
    }
}

pub open spec fn opt_meta_view(o: Option<GetNameMetadata>) -> Option<GetNameMetadataView> {
    match o {
        Some(m) => Some(m@),
        None => None,
    }
}

impl View for Task {
    type V = TaskView;

    open spec fn view(&self) -> TaskView {
        match *self {
            Task::Queued { url, media_type, download_dir } => TaskView::Queued {
                url: url@,
                media_type,
                download_dir: opt_view(download_dir),
            },
            Task::GetName { url, metadata, media_type, download_dir } => TaskView::GetName {
                url: url@,
                metadata: opt_meta_view(metadata),
                media_type,
                download_dir: opt_view(download_dir),
            },
            Task::DownloadVideo { url, path, media_type, metadata, download_dir } =>
                TaskView::DownloadVideo {
                url: url@,
                path: path@,
                media_type,
                metadata: metadata@,
                download_dir: opt_view(download_dir),
            },
            Task::PausedQueued { url, media_type, should_auto_resume, download_dir } =>
                TaskView::PausedQueued {
                url: url@,
                media_type,
                should_auto_resume,
                download_dir: opt_view(download_dir),
            },
            Task::PausedGetName { url, metadata, should_auto_resume, media_type, download_dir } =>
                TaskView::PausedGetName {
                url: url@,
                metadata: opt_meta_view(metadata),
                should_auto_resume,
                media_type,
                download_dir: opt_view(download_dir),
            },
            Task::PausedDownloadVideo {
                media_type,
                url,
                path,
                metadata,
                should_auto_resume,
                download_dir,
            } => TaskView::PausedDownloadVideo {
                media_type,
                url: url@,
                path: path@,
                metadata: metadata@,
                should_auto_resume,
                download_dir: opt_view(download_dir),
            },
            Task::Completed { url, media_type, path, download_dir } => TaskView::Completed {
                url: url@,
                media_type,
                path: path@,
                download_dir: opt_view(download_dir),
            },
            Task::Failed { media_type, url, human_readable_error, download_dir } =>
                TaskView::Failed {
                media_type,
                url: url@,
                human_readable_error: human_readable_error@,
                download_dir: opt_view(download_dir),
            },
        }
    }
}

impl TaskView {
    pub open spec fn url(self) -> Seq<char> {
        match self {
            TaskView::Queued { url, .. } => url,
            TaskView::GetName { url, .. } => url,
            TaskView::DownloadVideo { url, .. } => url,
            TaskView::PausedQueued { url, .. } => url,
            TaskView::PausedGetName { url, .. } => url,
            TaskView::PausedDownloadVideo { url, .. } => url,
            TaskView::Completed { url, .. } => url,
            TaskView::Failed { url, .. } => url,
        }
    }

    pub open spec fn media_type(self) -> MediaType {
        match self {
            TaskView::Queued { media_type, .. } => media_type,
            TaskView::GetName { media_type, .. } => media_type,
            TaskView::DownloadVideo { media_type, .. } => media_type,
            TaskView::PausedQueued { media_type, .. } => media_type,
            TaskView::PausedGetName { media_type, .. } => media_type,
            TaskView::PausedDownloadVideo { media_type, .. } => media_type,
            TaskView::Completed { media_type, .. } => media_type,
            TaskView::Failed { media_type, .. } => media_type,
        }
    }

    pub open spec fn download_dir(self) -> Option<Seq<char>> {
        match self {
            TaskView::Queued { download_dir, .. } => download_dir,
            TaskView::GetName { download_dir, .. } => download_dir,
            TaskView::DownloadVideo { download_dir, .. } => download_dir,
            TaskView::PausedQueued { download_dir, .. } => download_dir,
            TaskView::PausedGetName { download_dir, .. } => download_dir,
            TaskView::PausedDownloadVideo { download_dir, .. } => download_dir,
            TaskView::Completed { download_dir, .. } => download_dir,
            TaskView::Failed { download_dir, .. } => download_dir,
        }
    }

    pub open spec fn kind(self) -> TaskKind {
        match self {
            TaskView::Queued { .. } => TaskKind::Queued,
            TaskView::GetName { .. } => TaskKind::GetName,
            TaskView::DownloadVideo { .. } => TaskKind::DownloadVideo,
            TaskView::PausedQueued { .. } => TaskKind::PausedQueued,
            TaskView::PausedGetName { .. } => TaskKind::PausedGetName,
            TaskView::PausedDownloadVideo { .. } => TaskKind::PausedDownloadVideo,
            TaskView::Completed { .. } => TaskKind::Completed,
            TaskView::Failed { .. } => TaskKind::Failed,
        }
    }

    /// A paused task that the daemon resumes by itself after a restart.
    pub open spec fn auto_resumes(self) -> bool {
        match self {
            TaskView::PausedQueued { should_auto_resume, .. } => should_auto_resume,
            TaskView::PausedGetName { should_auto_resume, .. } => should_auto_resume,
            TaskView::PausedDownloadVideo { should_auto_resume, .. } => should_auto_resume,
            _ => false,
        }
    }

    /// Running: fetching metadata or downloading.
    pub open spec fn is_active(self) -> bool {
        self is GetName || self is DownloadVideo
    }

    pub open spec fn is_paused(self) -> bool {
        self is PausedQueued || self is PausedGetName || self is PausedDownloadVideo
    }

    /// The paused counterpart of a queued or running task, which will not
    /// resume on its own; any other task is left as it is.
    pub open spec fn paused(self) -> TaskView {
        match self {
            TaskView::Queued { url, media_type, download_dir } => TaskView::PausedQueued {
                url,
                media_type,
                should_auto_resume: false,
                download_dir,
            },
            TaskView::GetName { url, metadata, media_type, download_dir } =>
                TaskView::PausedGetName {
                url,
                metadata,
                should_auto_resume: false,
                media_type,
                download_dir,
            },
            TaskView::DownloadVideo { url, path, media_type, metadata, download_dir } =>
                TaskView::PausedDownloadVideo {
                media_type,
                url,
                path,
                metadata,
                should_auto_resume: false,
                download_dir,
            },
            _ => self,
        }
    }

    /// The running or queued counterpart of a paused task; any other task is
    /// left as it is.
    pub open spec fn unpaused(self) -> TaskView {
        match self {
            TaskView::PausedQueued { url, media_type, download_dir, .. } => TaskView::Queued {
                url,
                media_type,
                download_dir,
            },
            TaskView::PausedGetName { url, metadata, media_type, download_dir, .. } =>
                TaskView::GetName { url, metadata, media_type, download_dir },
            TaskView::PausedDownloadVideo { url, path, metadata, media_type, download_dir, .. } =>
                TaskView::DownloadVideo { url, path, media_type, metadata, download_dir },
            _ => self,
        }
    }
}

// ---------------------------------------------------------------------------
// Copies with known content
// ---------------------------------------------------------------------------

pub fn copy_opt_string(o: &Option<String>) -> (r: Option<String>)
    ensures
        r == *o,
{
    match o {
        Some(s) => Some(s.clone()),
        None => None,
    }
}

impl TaskStatus {
    /// A copy of the status.
    pub fn copy(&self) -> (r: TaskStatus)
        ensures
            r == *self,
    {
        match self {
            TaskStatus::Queued => TaskStatus::Queued,
            TaskStatus::GetName => TaskStatus::GetName,
            TaskStatus::DownloadVideo => TaskStatus::DownloadVideo,
            TaskStatus::PausedQueued => TaskStatus::PausedQueued,
            TaskStatus::PausedGetName => TaskStatus::PausedGetName,
            TaskStatus::PausedDownloadVideo => TaskStatus::PausedDownloadVideo,
            TaskStatus::Completed => TaskStatus::Completed,
            TaskStatus::Failed(e) => TaskStatus::Failed(e.clone()),
        }
    }
}

impl GetNameMetadata {
    /// A copy of the metadata.
    pub fn copy(&self) -> (r: GetNameMetadata)
        ensures
            r == *self,
    {
        GetNameMetadata {
            title: copy_opt_string(&self.title),
            expected_size_bytes: self.expected_size_bytes,
            directory: self.directory.clone(),
        }
    }
}

pub fn copy_opt_metadata(o: &Option<GetNameMetadata>) -> (r: Option<GetNameMetadata>)
    ensures
        r == *o,
{
    match o {
        Some(m) => Some(m.copy()),
        None => None,
    }
}

impl DownloadMetadata {
    /// A copy of the metadata.
    pub fn copy(&self) -> (r: DownloadMetadata)
        ensures
            r == *self,
    {
        DownloadMetadata {
            title: copy_opt_string(&self.title),
            expected_size_bytes: self.expected_size_bytes,
            directory: self.directory.clone(),
            started_at: self.started_at,
            process_id: self.process_id,
            log_file: copy_opt_string(&self.log_file),
        }
    }
}

impl Task {
    /// A copy of the task.
    pub fn copy(&self) -> (r: Task)
        ensures
            r == *self,
    {
        match self {
            Task::Queued { url, media_type, download_dir } => Task::Queued {
                url: url.clone(),
                media_type: *media_type,
                download_dir: copy_opt_string(download_dir),
            },
            Task::GetName { url, metadata, media_type, download_dir } => Task::GetName {
                url: url.clone(),
                metadata: copy_opt_metadata(metadata),
                media_type: *media_type,
                download_dir: copy_opt_string(download_dir),
            },
            Task::DownloadVideo { url, path, media_type, metadata, download_dir } =>
                Task::DownloadVideo {
                url: url.clone(),
                path: path.clone(),
                media_type: *media_type,
                metadata: metadata.copy(),
                download_dir: copy_opt_string(download_dir),
            },
            Task::PausedQueued { url, media_type, should_auto_resume, download_dir } =>
                Task::PausedQueued {
                url: url.clone(),
                media_type: *media_type,
                should_auto_resume: *should_auto_resume,
                download_dir: copy_opt_string(download_dir),
            },
            Task::PausedGetName { url, metadata, should_auto_resume, media_type, download_dir } =>
                Task::PausedGetName {
                url: url.clone(),
                metadata: copy_opt_metadata(metadata),
                should_auto_resume: *should_auto_resume,
                media_type: *media_type,
                download_dir: copy_opt_string(download_dir),
            },
            Task::PausedDownloadVideo {
                media_type,
                url,
                path,
                metadata,
                should_auto_resume,
                download_dir,
            } => Task::PausedDownloadVideo {
                media_type: *media_type,
                url: url.clone(),
                path: path.clone(),
                metadata: metadata.copy(),
                should_auto_resume: *should_auto_resume,
                download_dir: copy_opt_string(download_dir),
            },
            Task::Completed { url, media_type, path, download_dir } => Task::Completed {
                url: url.clone(),
                media_type: *media_type,
                path: path.clone(),
                download_dir: copy_opt_string(download_dir),
            },
            Task::Failed { media_type, url, human_readable_error, download_dir } => Task::Failed {
                media_type: *media_type,
                url: url.clone(),
                human_readable_error: human_readable_error.clone(),
                download_dir: copy_opt_string(download_dir),
            },
        }
    }

    /// The URL the task downloads.
    pub fn url(&self) -> (u: &str)
        ensures
            u@ == self@.url(),
    {
        match self {
            Task::Queued { url, .. } => url.as_str(),
            Task::GetName { url, .. } => url.as_str(),
            Task::DownloadVideo { url, .. } => url.as_str(),
            Task::PausedQueued { url, .. } => url.as_str(),
            Task::PausedGetName { url, .. } => url.as_str(),
            Task::PausedDownloadVideo { url, .. } => url.as_str(),
            Task::Completed { url, .. } => url.as_str(),
            Task::Failed { url, .. } => url.as_str(),
        }
    }

    /// Whether the task is running: fetching metadata or downloading.
    pub fn is_active(&self) -> (b: bool)
        ensures
            b == self@.is_active(),
    {
        match self {
            Task::GetName { .. } | Task::DownloadVideo { .. } => true,
            _ => false,
        }
    }

    /// Whether the task is paused.
    pub fn is_paused(&self) -> (b: bool)
        ensures
            b == self@.is_paused(),
    {
        match self {
            Task::PausedQueued { .. } | Task::PausedGetName { .. } | Task::PausedDownloadVideo {
                ..
            } => true,
            _ => false,
        }
    }

    /// The state the task is in.
    pub fn kind(&self) -> (k: TaskKind)
        ensures
            k == self@.kind(),
    {
        match self {
            Task::Queued { .. } => TaskKind::Queued,
            Task::GetName { .. } => TaskKind::GetName,
            Task::DownloadVideo { .. } => TaskKind::DownloadVideo,
            Task::PausedQueued { .. } => TaskKind::PausedQueued,
            Task::PausedGetName { .. } => TaskKind::PausedGetName,
            Task::PausedDownloadVideo { .. } => TaskKind::PausedDownloadVideo,
            Task::Completed { .. } => TaskKind::Completed,
            Task::Failed { .. } => TaskKind::Failed,
        }
    }

    /// What the task downloads.
    pub fn media_type(&self) -> (m: MediaType)
        ensures
            m == self@.media_type(),
    {
        match self {
            Task::Queued { media_type, .. } => *media_type,
            Task::GetName { media_type, .. } => *media_type,
            Task::DownloadVideo { media_type, .. } => *media_type,
            Task::PausedQueued { media_type, .. } => *media_type,
            Task::PausedGetName { media_type, .. } => *media_type,
            Task::PausedDownloadVideo { media_type, .. } => *media_type,
            Task::Completed { media_type, .. } => *media_type,
            Task::Failed { media_type, .. } => *media_type,
        }
    }

    /// The directory requested for the download, if any.
    pub fn download_dir(&self) -> (d: Option<&String>)
        ensures
            match d {
                Some(s) => self@.download_dir() == Some(s@),
                None => self@.download_dir() is None,
            },
    {
        match self {
            Task::Queued { download_dir, .. } => download_dir.as_ref(),
            Task::GetName { download_dir, .. } => download_dir.as_ref(),
            Task::DownloadVideo { download_dir, .. } => download_dir.as_ref(),
            Task::PausedQueued { download_dir, .. } => download_dir.as_ref(),
            Task::PausedGetName { download_dir, .. } => download_dir.as_ref(),
            Task::PausedDownloadVideo { download_dir, .. } => download_dir.as_ref(),
            Task::Completed { download_dir, .. } => download_dir.as_ref(),
            Task::Failed { download_dir, .. } => download_dir.as_ref(),
        }
    }

    /// Pauses a queued or running task (it will not resume on its own); a
    /// task that is already paused, completed or failed is left as it is.
    pub fn pause(&mut self)
        ensures
            final(self)@ == old(self)@.paused(),
    {
        let paused = match self {
            Task::Queued { url, media_type, download_dir } => Task::PausedQueued {
                url: url.clone(),
                media_type: *media_type,
                should_auto_resume: false,
                download_dir: copy_opt_string(download_dir),
            },
            Task::GetName { url, metadata, media_type, download_dir } => Task::PausedGetName {
                url: url.clone(),
                metadata: copy_opt_metadata(metadata),
                should_auto_resume: false,
                media_type: *media_type,
                download_dir: copy_opt_string(download_dir),
            },
            Task::DownloadVideo { url, path, metadata, media_type, download_dir } =>
                Task::PausedDownloadVideo {
                url: url.clone(),
                path: path.clone(),
                metadata: metadata.copy(),
                should_auto_resume: false,
                media_type: *media_type,
                download_dir: copy_opt_string(download_dir),
            },
            _ => return ,
        };
        *self = paused;
    }

    /// Takes a paused task back to where it was paused; any other task is
    /// left as it is.
    pub fn unpause(&mut self)
        ensures
            final(self)@ == old(self)@.unpaused(),
    {
        let unpaused = match self {
            Task::PausedQueued { url, media_type, download_dir, .. } => Task::Queued {
                url: url.clone(),
                media_type: *media_type,
                download_dir: copy_opt_string(download_dir),
            },
            Task::PausedGetName { url, metadata, media_type, download_dir, .. } => Task::GetName {
                url: url.clone(),
                metadata: copy_opt_metadata(metadata),
                media_type: *media_type,
                download_dir: copy_opt_string(download_dir),
            },
            Task::PausedDownloadVideo { url, path, metadata, media_type, download_dir, .. } =>
                Task::DownloadVideo {
                url: url.clone(),
                path: path.clone(),
                metadata: metadata.copy(),
                media_type: *media_type,
                download_dir: copy_opt_string(download_dir),
            },
            _ => return ,
        };
        *self = unpaused;
    }
}

// ---------------------------------------------------------------------------
// Laws of pausing
// ---------------------------------------------------------------------------

/// Resuming a task that was just paused gives back the task: pausing loses
/// nothing of a queued or running task.
pub proof fn lemma_unpause_after_pause(t: TaskView)
    requires
        t is Queued || t is GetName || t is DownloadVideo,
    ensures
        t.paused().unpaused() == t,
        t.paused().is_paused(),
{
}

/// Pausing a task that was resumed from a manual pause gives back the task.
pub proof fn lemma_pause_after_unpause(t: TaskView)
    requires
        t.is_paused(),
        !t.auto_resumes(),
    ensures
        t.unpaused().paused() == t,
        !t.unpaused().is_paused(),
{
}

/// Pausing and resuming never change what a task downloads, where, nor
/// from which URL; pausing twice is pausing once.
pub proof fn lemma_pause_keeps_identity(t: TaskView)
    ensures
        t.paused().url() == t.url(),
        t.paused().media_type() == t.media_type(),
        t.paused().download_dir() == t.download_dir(),
        t.unpaused().url() == t.url(),
        t.unpaused().media_type() == t.media_type(),
        t.unpaused().download_dir() == t.download_dir(),
        t.paused().paused() == t.paused(),
        t.unpaused().unpaused() == t.unpaused(),
        t.is_paused() || t is Completed || t is Failed <==> t.paused() == t,
{
}

} // verus!
