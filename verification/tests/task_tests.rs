use tsp_ytdlp::config::Config;
use tsp_ytdlp::serialize::SerializableTasks;
use tsp_ytdlp::task::{GetNameMetadata, MediaType, Task, TaskKind};
use tsp_ytdlp::tasks::{DownloadDir, PathState, Tasks};
use tsp_ytdlp::transition::{
    CommandOutcome, Stage, Transition, TransitionEvent, TransitionRequest,
};

fn test_config() -> Config {
    let mut c = Config::with_locations(
        "/tmp/tsp_ytdlp/test.sock".to_string(),
        "/tmp/tsp_ytdlp".to_string(),
        "/tmp/tsp_ytdlp/cache".to_string(),
    );
    c.concurrent_downloads = Some(1);
    c.disk_threshold = 1024;
    c.should_notify_send = false;
    c.throttle = Some(100);
    c.sponsorblock_mark = Some("all".to_string());
    c.sponsorblock_remove = Some("sponsor,interaction".to_string());
    c
}

/// Runs the outside work of a transition with the given answers.
fn drive(task: Task, next: TaskKind, context: Option<String>, config: &Config, answers: Vec<TransitionEvent>) -> Task {
    let (mut t, mut step) = Transition::begin(task, next, context, config);
    let mut answers = answers.into_iter();
    loop {
        if let TransitionRequest::Nothing = step.request {
            break;
        }
        let ev = answers.next().expect("an answer for every request");
        let (t2, s2) = t.advance(ev, config);
        t = t2;
        step = s2;
    }
    assert!(matches!(t.stage, Stage::Finished));
    t.task
}

#[test]
fn test_task_creation() {
    let mut tasks = Tasks::new();

    let url = "https://www.youtube.com/watch?v=test123".to_string();
    let task_id = tasks
        .add_url_as_task(url.clone(), MediaType::Video, None)
        .expect("Failed to add task");

    assert_eq!(tasks.len(), 1);
    assert_eq!(task_id, 0);

    let task = tasks.get_task(task_id).expect("Task not found");
    assert!(matches!(task, Task::Queued { .. }));
    assert_eq!(task.url(), url);
}

#[test]
fn test_task_transitions() {
    let test_config = test_config();

    let task = Task::Queued {
        url: "https://www.youtube.com/watch?v=jNQXAC9IVRw".to_string(),
        media_type: MediaType::Video,
        download_dir: None,
    };

    let task = drive(
        task,
        TaskKind::GetName,
        None,
        &test_config,
        vec![
            TransitionEvent::MetadataFetched(CommandOutcome::Exited {
                success: true,
                stdout: "Test Video\n1048576\n".to_string(),
                stderr: String::new(),
            }),
            TransitionEvent::DirectoryResolved("/tmp/test".to_string()),
        ],
    );
    assert!(matches!(task, Task::GetName { .. }));

    let task = match task {
        Task::GetName { url, media_type, download_dir, .. } => Task::GetName {
            url,
            media_type,
            download_dir,
            metadata: Some(GetNameMetadata {
                title: Some("Test Video".to_string()),
                expected_size_bytes: Some(1024 * 1024),
                directory: "/tmp/test".to_string(),
            }),
        },
        other => other,
    };

    let task = drive(
        task,
        TaskKind::DownloadVideo,
        None,
        &test_config,
        vec![
            TransitionEvent::DiskSpace(Ok(50_000)),
            TransitionEvent::ResumeChecked { is_restart: false, started_at: 1_700_000_000 },
        ],
    );
    assert!(matches!(task, Task::DownloadVideo { .. }));

    let task = drive(task, TaskKind::Completed, None, &test_config, vec![]);
    assert!(matches!(task, Task::Completed { .. }));
}

#[test]
fn test_task_serialization() {
    let mut tasks = Tasks::new();

    let url1 = "https://www.youtube.com/watch?v=test1".to_string();
    let url2 = "https://www.youtube.com/watch?v=test2".to_string();

    tasks.add_url_as_task(url1.clone(), MediaType::Video, None).unwrap();
    tasks.add_url_as_task(url2.clone(), MediaType::Video, None).unwrap();

    let saved = SerializableTasks::of_tasks(&tasks);
    let loaded_tasks = Tasks::from_serializable(saved);

    assert_eq!(loaded_tasks.len(), 2);

    let urls: Vec<String> = loaded_tasks
        .iter()
        .map(|(_, task)| task.url().to_string())
        .collect();
    assert!(urls.contains(&url1));
    assert!(urls.contains(&url2));
}

#[test]
fn test_duplicate_url_prevention() {
    let mut tasks = Tasks::new();

    let url = "https://www.youtube.com/watch?v=test123".to_string();

    assert!(tasks.add_url_as_task(url.clone(), MediaType::Video, None).is_ok());
    assert!(tasks.add_url_as_task(url, MediaType::Video, None).is_err());

    assert_eq!(tasks.len(), 1);
}

#[test]
fn test_enhanced_ytdlp_options() {
    let task = Task::Queued {
        url: "https://www.youtube.com/watch?v=test".to_string(),
        media_type: MediaType::Video,
        download_dir: None,
    };

    assert!(matches!(task, Task::Queued { .. }));
    assert!(!task.is_active());
    assert_eq!(task.url(), "https://www.youtube.com/watch?v=test");
}

#[test]
fn test_notification_config() {
    let config_disabled = test_config();
    assert!(!config_disabled.should_notify_send);

    let default_config = Config::with_locations(
        "/run/user/1000/tsp_ytdlp/tsp_ytdlp.sock".to_string(),
        "/home/user/Videos/youtube".to_string(),
        "/home/user/.cache/tsp_ytdlp".to_string(),
    );
    assert_eq!(default_config.should_notify_send, true);
}

#[test]
fn test_task_with_notification_config() {
    let config_disabled = test_config();

    let task = Task::Queued {
        url: "https://www.youtube.com/watch?v=jNQXAC9IVRw".to_string(),
        media_type: MediaType::Video,
        download_dir: None,
    };

    let task = drive(
        task,
        TaskKind::GetName,
        None,
        &config_disabled,
        vec![
            TransitionEvent::MetadataFetched(CommandOutcome::Exited {
                success: true,
                stdout: "Some Title\n2048\n".to_string(),
                stderr: String::new(),
            }),
            TransitionEvent::DirectoryResolved("/tmp/tsp_ytdlp".to_string()),
        ],
    );
    assert!(matches!(task, Task::GetName { .. }));

    let task = drive(task, TaskKind::Failed, Some("Custom error".to_string()), &config_disabled, vec![]);
    assert!(
        matches!(task, Task::Failed { ref human_readable_error, .. } if human_readable_error == "Custom error")
    );

    let mut tasks = Tasks::new();
    let result = tasks.add_url_as_task("https://test.com".to_string(), MediaType::Video, None);
    assert!(result.is_ok());
}

#[test]
fn saved_states_come_back() {
    let mut tasks = Tasks::new();
    let urls = ["https://a/1", "https://a/2", "https://a/3", "https://a/4"];
    for u in urls {
        tasks.add_url_as_task(u.to_string(), MediaType::Audio, None).unwrap();
    }
    if let Some(t) = tasks.get_task_mut(1) {
        t.pause();
    }
    if let Some(t) = tasks.get_task_mut(2) {
        *t = Task::Failed {
            media_type: MediaType::Audio,
            url: "https://a/3".to_string(),
            human_readable_error: "x".to_string(),
            download_dir: None,
        };
    }
    if let Some(t) = tasks.get_task_mut(3) {
        *t = Task::Completed {
            url: "https://a/4".to_string(),
            media_type: MediaType::Audio,
            path: "/m/4.ogg".to_string(),
            download_dir: None,
        };
    }
    let saved = SerializableTasks::of_tasks(&tasks);
    assert_eq!(saved.tasks.len(), 3);
    let loaded = Tasks::from_serializable(saved);
    let list = loaded.task_list_ref();
    assert_eq!(list.len(), 3);
    assert!(matches!(&list[0].1, Task::Failed { url, human_readable_error, .. } if url == "https://a/3" && human_readable_error == "Recovered from previous session"));
    assert!(matches!(&list[1].1, Task::PausedQueued { url, should_auto_resume: true, .. } if url == "https://a/2"));
    assert!(matches!(&list[2].1, Task::Queued { url, media_type: MediaType::Audio, .. } if url == "https://a/1"));
    assert_eq!(list.iter().map(|(id, _)| *id).collect::<Vec<_>>(), vec![0, 1, 2]);
}

#[test]
fn paused_tasks_do_not_move() {
    let config = test_config();
    let mut task = Task::Queued { url: "https://x/1".to_string(), media_type: MediaType::Video, download_dir: None };
    task.pause();
    let task = drive(task, TaskKind::GetName, None, &config, vec![]);
    assert!(matches!(task, Task::PausedQueued { .. }));
    let task = drive(task, TaskKind::Failed, None, &config, vec![]);
    assert!(matches!(task, Task::PausedQueued { .. }));
    let queued = Task::Queued { url: "https://x/1".to_string(), media_type: MediaType::Video, download_dir: None };
    let failed = drive(queued, TaskKind::Failed, None, &config, vec![]);
    assert!(matches!(failed, Task::Failed { ref human_readable_error, .. } if human_readable_error == "Unknown error"));
}

#[test]
fn low_disk_space_fails_the_download() {
    let config = test_config();
    let task = Task::GetName {
        url: "https://x/1".to_string(),
        metadata: Some(GetNameMetadata { title: Some("T".to_string()), expected_size_bytes: None, directory: "/v".to_string() }),
        media_type: MediaType::Video,
        download_dir: None,
    };
    let task = drive(task, TaskKind::DownloadVideo, None, &config, vec![TransitionEvent::DiskSpace(Ok(10))]);
    assert!(matches!(task, Task::Failed { ref human_readable_error, .. } if human_readable_error == "Disk space below threshold: 10MB < 1024MB"));
}

#[test]
fn download_directories_are_checked() {
    let mut tasks = Tasks::new();
    let r = tasks.add_url_as_task(
        "https://a/1".to_string(),
        MediaType::Video,
        Some(DownloadDir { path: "/nope".to_string(), state: PathState::Missing }),
    );
    assert_eq!(r, Err("Download directory does not exist: /nope".to_string()));
    let r = tasks.add_url_as_task(
        "https://a/1".to_string(),
        MediaType::Video,
        Some(DownloadDir { path: "/etc/passwd".to_string(), state: PathState::NotADirectory }),
    );
    assert_eq!(r, Err("Download path is not a directory: /etc/passwd".to_string()));
    assert_eq!(tasks.len(), 0);
    let r = tasks.add_url_as_task(
        "https://a/1".to_string(),
        MediaType::Audio,
        Some(DownloadDir { path: "/music".to_string(), state: PathState::Directory }),
    );
    assert_eq!(r, Ok(0));
    assert!(matches!(tasks.get_task(0), Some(Task::Queued { download_dir: Some(d), .. }) if d == "/music"));
}

fn queued(url: &str) -> Task {
    Task::Queued { url: url.to_string(), media_type: MediaType::Video, download_dir: None }
}

fn failure_of(t: Task) -> String {
    match t {
        Task::Failed { human_readable_error, .. } => human_readable_error,
        other => panic!("not failed: {:?}", other),
    }
}

#[test]
fn metadata_failures() {
    let config = test_config();
    let t = drive(
        queued("https://x/1"),
        TaskKind::GetName,
        None,
        &config,
        vec![TransitionEvent::MetadataFetched(CommandOutcome::SpawnFailed { error: "no such file".to_string() })],
    );
    assert_eq!(failure_of(t), "Failed to spawn yt-dlp: no such file");
    let t = drive(
        queued("https://x/1"),
        TaskKind::GetName,
        None,
        &config,
        vec![TransitionEvent::MetadataFetched(CommandOutcome::Exited {
            success: false,
            stdout: String::new(),
            stderr: "ERROR: gone\nmore".to_string(),
        })],
    );
    assert_eq!(failure_of(t), "yt-dlp metadata fetch failed: ERROR: gone");
    let t = drive(
        queued("https://x/1"),
        TaskKind::GetName,
        None,
        &config,
        vec![TransitionEvent::MetadataFetched(CommandOutcome::Exited {
            success: true,
            stdout: "only one line".to_string(),
            stderr: String::new(),
        })],
    );
    assert_eq!(failure_of(t), "Failed to parse yt-dlp metadata output");
}

#[test]
fn download_start_failures() {
    let config = test_config();
    let no_meta = Task::GetName { url: "https://x/1".to_string(), metadata: None, media_type: MediaType::Video, download_dir: None };
    let t = drive(no_meta, TaskKind::DownloadVideo, None, &config, vec![]);
    assert_eq!(failure_of(t), "Missing metadata from GetName phase");
    let with_meta = Task::GetName {
        url: "https://x/1".to_string(),
        metadata: Some(GetNameMetadata { title: None, expected_size_bytes: None, directory: String::new() }),
        media_type: MediaType::Video,
        download_dir: None,
    };
    let t = drive(
        with_meta,
        TaskKind::DownloadVideo,
        None,
        &config,
        vec![
            TransitionEvent::DirectoryResolved("/v".to_string()),
            TransitionEvent::DiskSpace(Err("df command failed".to_string())),
        ],
    );
    assert_eq!(failure_of(t), "Failed to check disk space: df command failed");
}

#[test]
fn metadata_title_and_size_are_read() {
    let config = test_config();
    let t = drive(
        queued("https://x/1"),
        TaskKind::GetName,
        None,
        &config,
        vec![
            TransitionEvent::MetadataFetched(CommandOutcome::Exited {
                success: true,
                stdout: "  Chan_Title...  \r\nNA\n".to_string(),
                stderr: String::new(),
            }),
            TransitionEvent::DirectoryResolved("/v".to_string()),
        ],
    );
    match t {
        Task::GetName { metadata: Some(m), .. } => {
            assert_eq!(m.title, Some("Chan_Title".to_string()));
            assert_eq!(m.expected_size_bytes, None);
            assert_eq!(m.directory, "/v");
        },
        other => panic!("unexpected {:?}", other),
    }
}

#[test]
fn processing_notice_lasts_thirty_seconds() {
    let config = test_config();
    let task = Task::Queued {
        url: "https://youtu.be/abc".to_string(),
        media_type: MediaType::Video,
        download_dir: Some("/dl".to_string()),
    };
    let (_, step) = Transition::begin(task, TaskKind::GetName, None, &config);
    match step.notification {
        Some(tsp_ytdlp::common::Notification::Normal { url, message, timeout_ms }) => {
            assert_eq!(url, "https://youtu.be/abc");
            assert_eq!(message, "Processing: https://youtu.be/abc to /dl 🔄");
            assert_eq!(timeout_ms, Some(30000));
        },
        other => panic!("unexpected notification: {:?}", other),
    }
}

#[test]
fn ids_are_never_reused() {
    let mut tasks = Tasks::new();
    assert_eq!(tasks.add_url_as_task("https://a".to_string(), MediaType::Video, None), Ok(0));
    assert_eq!(tasks.add_url_as_task("https://b".to_string(), MediaType::Video, None), Ok(1));
    assert!(tasks.add_url_as_task("https://b".to_string(), MediaType::Video, None).is_err());
    assert!(tasks.remove_task(0));
    assert_eq!(tasks.add_url_as_task("https://c".to_string(), MediaType::Video, None), Ok(2));
}
