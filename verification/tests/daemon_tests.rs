use tsp_ytdlp::common::Notification;
use tsp_ytdlp::config::Config;
use tsp_ytdlp::daemon::{url_cache_dir, RequestContext, RequestOutcome};
use tsp_ytdlp::manager::{ClientRequest, ServerResponse, TaskByUrl, TaskManager};
use tsp_ytdlp::processor::{
    at_capacity, completion_message, fetch_result, OperationEnd, OperationPlan, TaskOperationResult,
};
use tsp_ytdlp::task::{
    DownloadMetadata, GetNameMetadata, MediaType, Task, TaskKind, TaskStatus,
};

const URL1: &str = "https://www.youtube.com/watch?v=test";
const URL2: &str = "https://example.com/v";

fn config() -> Config {
    let mut c = Config::with_locations(
        "/tmp/tsp_ytdlp/test.sock".to_string(),
        "/tmp/tsp_ytdlp".to_string(),
        "/tmp/tsp_ytdlp/cache".to_string(),
    );
    c.should_notify_send = false;
    c
}

fn ctx() -> RequestContext {
    RequestContext { has_internet: true, uptime_seconds: 42, data_dir: "/data".to_string() }
}

fn message(o: &RequestOutcome) -> (bool, String) {
    match &o.response {
        Some(ServerResponse::Success { message }) => (true, message.clone()),
        Some(ServerResponse::Error { message }) => (false, message.clone()),
        other => panic!("unexpected answer {:?}", other),
    }
}

fn note_text(n: &Notification) -> String {
    match n {
        Notification::Normal { message, .. } => message.clone(),
        Notification::Critical { message, .. } => message.clone(),
    }
}

fn add(m: &mut TaskManager, url: &str, start_paused: bool) -> RequestOutcome {
    m.process_request(ClientRequest::Add { url: url.to_string(), start_paused }, &ctx())
}

#[test]
fn add_then_refuse_duplicate() {
    let mut m = TaskManager::new_with_config(config());
    let o = add(&mut m, URL1, false);
    assert_eq!(message(&o), (true, format!("Task 0 added for URL: {}", URL1)));
    assert!(o.save);
    assert_eq!(o.notifications.len(), 1);
    assert_eq!(note_text(&o.notifications[0]), format!("Task 0 added for URL: {}", URL1));

    let o = add(&mut m, URL1, false);
    assert_eq!(
        message(&o),
        (false, "URL already exists with task ID 0 (state: Queued)".to_string())
    );
    assert!(!o.save);
    assert_eq!(note_text(&o.notifications[0]), format!("URL already queued/finished: {} 🕺", URL1));
    assert!(matches!(o.notifications[0], Notification::Normal { timeout_ms: Some(1200), .. }));
    assert_eq!(m.tasks.len(), 1);
}

#[test]
fn add_paused_task() {
    let mut m = TaskManager::new_with_config(config());
    let _ = add(&mut m, URL1, false);
    let o = add(&mut m, URL2, true);
    assert_eq!(message(&o), (true, format!("Task 1 added (paused) for URL: {}", URL2)));
    assert!(matches!(m.tasks.get_task(1), Some(Task::PausedQueued { should_auto_resume: false, .. })));
    assert!(matches!(m.find_task_by_url(URL2), TaskByUrl::Exists { id: 1, kind: TaskKind::PausedQueued }));
    assert!(matches!(m.find_task_by_url("https://nowhere"), TaskByUrl::DoesntExist));
    assert_eq!(
        m.check_duplicate_url(URL2),
        Some("URL already exists with task ID 1".to_string())
    );
}

#[test]
fn failed_task_is_retried() {
    let mut m = TaskManager::new_with_config(config());
    let _ = add(&mut m, URL2, false);
    let fx = m.apply_operation_end(0, OperationEnd::Failed("boom".to_string()));
    assert!(matches!(m.tasks.get_task(0), Some(Task::Failed { human_readable_error, .. }) if human_readable_error == "boom"));
    assert_eq!(note_text(fx.notification.as_ref().unwrap()), "❌ Download failed: boom");
    assert!(matches!(fx.notification, Some(Notification::Critical { .. })));
    assert!(matches!(fx.status, Some(TaskStatus::Failed(ref e)) if e == "boom"));

    let o = add(&mut m, URL2, false);
    assert_eq!(
        message(&o),
        (true, format!("Removed failed task 0 and added new task 1 for URL: {}", URL2))
    );
    assert_eq!(note_text(&o.notifications[0]), "🔄 Retrying failed download (new task ID: 1)");
    assert_eq!(o.cleanup_dirs, vec!["/tmp/tsp_ytdlp/cache/a6469aa3680e2ac26c5db65e3f845dd3".to_string()]);
    assert!(m.tasks.get_task(0).is_none());
    assert!(matches!(m.tasks.get_task(1), Some(Task::Queued { .. })));
}

#[test]
fn remove_cleans_cache() {
    let mut m = TaskManager::new_with_config(config());
    let _ = add(&mut m, URL1, false);
    let o = m.process_request(ClientRequest::Remove { id: 0 }, &ctx());
    assert_eq!(message(&o), (true, "Task 0 removed and cache cleaned".to_string()));
    assert_eq!(o.cleanup_dirs, vec!["/tmp/tsp_ytdlp/cache/acf33b4debf21dbf0ecda198a3a4ea32".to_string()]);
    assert!(o.save);
    let o = m.process_request(ClientRequest::Remove { id: 0 }, &ctx());
    assert_eq!(message(&o), (false, "Task 0 not found".to_string()));
    assert!(!o.save);
    assert_eq!(url_cache_dir("/c/", URL1), "/c/acf33b4debf21dbf0ecda198a3a4ea32");
}

#[test]
fn info_names_the_log_file() {
    let mut m = TaskManager::new_with_config(config());
    let _ = add(&mut m, URL1, false);
    let o = m.process_request(ClientRequest::Info { id: 0 }, &ctx());
    assert!(matches!(o.response, Some(ServerResponse::Info { ref log_file_path }) if log_file_path == "/data/task_0.log"));
    let o = m.process_request(ClientRequest::Info { id: 5 }, &ctx());
    assert_eq!(message(&o), (false, "Task 5 not found".to_string()));
}

#[test]
fn pause_and_resume_lists() {
    let mut m = TaskManager::new_with_config(config());
    let _ = add(&mut m, URL1, false);
    let _ = add(&mut m, URL2, true);
    let o = m.process_request(ClientRequest::Pause { ids: Some(vec![0, 1, 7]) }, &ctx());
    assert_eq!(
        message(&o),
        (false, "Paused 1 task(s), errors: Task 1: cannot be paused; Task 7: not found".to_string())
    );
    assert!(o.save);
    assert!(matches!(m.tasks.get_task(0), Some(Task::PausedQueued { .. })));

    let o = m.process_request(ClientRequest::Resume { ids: Some(vec![0]) }, &ctx());
    assert_eq!(message(&o), (true, "Resumed 1 task(s)".to_string()));
    assert!(matches!(m.tasks.get_task(0), Some(Task::Queued { .. })));

    let o = m.process_request(ClientRequest::Resume { ids: Some(vec![0]) }, &ctx());
    assert_eq!(message(&o), (false, "Resumed 0 task(s), errors: Task 0: is not paused".to_string()));

    let o = m.process_request(ClientRequest::Resume { ids: None }, &ctx());
    assert_eq!(message(&o), (true, "Resumed 1 paused task(s)".to_string()));

    let o = m.process_request(ClientRequest::Pause { ids: None }, &ctx());
    assert_eq!(message(&o), (true, "Paused 0 active task(s)".to_string()));
}

#[test]
fn pause_all_cancels_running_operations() {
    let mut m = TaskManager::new_with_config(config());
    let _ = add(&mut m, URL1, false);
    let plan = m.start_operation(0);
    assert!(matches!(plan, Some(OperationPlan::FetchMetadata { .. })));
    assert!(m.tasks.has_active_task(0));
    let o = m.process_request(ClientRequest::Pause { ids: None }, &ctx());
    assert_eq!(message(&o), (true, "Paused 1 active task(s)".to_string()));
    assert_eq!(o.aborted, vec![0]);
    assert!(!m.tasks.has_active_task(0));
    assert!(matches!(m.tasks.get_task(0), Some(Task::PausedGetName { .. })));
}

#[test]
fn status_clear_and_kill() {
    let mut m = TaskManager::new_with_config(config());
    let _ = add(&mut m, URL1, false);
    let o = m.process_request(ClientRequest::Status { verbose: true }, &ctx());
    match o.response {
        Some(ServerResponse::Status { queued_tasks, current_tasks, uptime_seconds, has_internet, internet_check_url, .. }) => {
            assert_eq!(queued_tasks.len(), 1);
            assert_eq!(queued_tasks[0].url, URL1);
            assert_eq!(queued_tasks[0].task_type, "Queued");
            assert!(current_tasks.is_empty());
            assert_eq!(uptime_seconds, 42);
            assert!(has_internet);
            assert_eq!(internet_check_url, "https://archlinux.org");
        },
        other => panic!("unexpected {:?}", other),
    }
    assert!(!o.save);

    let o = m.process_request(ClientRequest::Clear, &ctx());
    assert_eq!(message(&o), (true, "Completed tasks cleared".to_string()));

    let o = m.process_request(ClientRequest::Kill { sender_pid: 1 }, &ctx());
    assert!(o.response.is_none());
    assert!(o.save);
    assert_eq!(note_text(&o.notifications[0]), "Daemon is dead 💀🥺");
}

#[test]
fn clear_removes_completed_tasks() {
    let mut m = TaskManager::new_with_config(config());
    let _ = add(&mut m, URL1, false);
    let _ = add(&mut m, URL2, false);
    let _ = m.start_operation(1);
    let meta = GetNameMetadata {
        title: Some("Clip".to_string()),
        expected_size_bytes: None,
        directory: "/v".to_string(),
    };
    let _ = m.apply_operation_end(1, OperationEnd::Finished(TaskOperationResult::GetNameComplete(meta)));
    m.set_download_task(
        1,
        Task::DownloadVideo {
            url: URL2.to_string(),
            path: "/v/Clip.mp4".to_string(),
            media_type: MediaType::Video,
            metadata: DownloadMetadata {
                title: Some("Clip".to_string()),
                expected_size_bytes: None,
                directory: "/v".to_string(),
                started_at: Some(1),
                process_id: None,
                log_file: None,
            },
            download_dir: None,
        },
    );
    let fx = m.apply_operation_end(1, OperationEnd::Finished(TaskOperationResult::DownloadComplete("/v/Clip.mp4".to_string())));
    assert!(matches!(m.tasks.get_task(1), Some(Task::Completed { .. })));
    assert_eq!(fx.touch, Some("/v/Clip.mp4".to_string()));
    assert_eq!(note_text(fx.notification.as_ref().unwrap()), "Download completed: Clip.mp4 🤗✅");
    let ids = m.clear_completed();
    assert_eq!(ids, vec![1]);
    assert_eq!(m.tasks.len(), 1);
}

#[test]
fn processor_respects_the_limit() {
    let mut m = TaskManager::new_with_config(config());
    let _ = add(&mut m, URL1, false);
    let _ = add(&mut m, URL2, false);
    assert_eq!(m.next_task_to_start(), Some(0));
    let plan = m.start_operation(0);
    match plan {
        Some(OperationPlan::FetchMetadata { task }) => assert!(matches!(task, Task::Queued { .. })),
        other => panic!("unexpected {:?}", other),
    }
    assert!(matches!(m.tasks.get_task(0), Some(Task::GetName { metadata: None, .. })));
    assert!(matches!(m.tasks.task_status(0), Some(TaskStatus::GetName)));
    assert_eq!(m.next_task_to_start(), None);
    m.config.concurrent_downloads = None;
    assert_eq!(m.next_task_to_start(), Some(1));
    assert!(at_capacity(3, Some(3)));
    assert!(!at_capacity(2, Some(3)));
    assert!(!at_capacity(1_000_000, None));
}

#[test]
fn processor_plans_downloads() {
    let mut m = TaskManager::new_with_config(config());
    let _ = add(&mut m, URL1, false);
    let _ = m.start_operation(0);
    let meta = GetNameMetadata {
        title: Some("Test Video".to_string()),
        expected_size_bytes: Some(10),
        directory: "/tmp/test".to_string(),
    };
    let fx = m.apply_operation_end(0, OperationEnd::Finished(TaskOperationResult::GetNameComplete(meta)));
    assert!(fx.notification.is_none());
    assert!(matches!(m.tasks.get_task(0), Some(Task::GetName { metadata: Some(_), .. })));
    assert!(m.tasks.remove_active_task(0));
    assert_eq!(m.next_task_to_start(), Some(0));
    match m.start_operation(0) {
        Some(OperationPlan::StartDownload { url, metadata, .. }) => {
            assert_eq!(url, URL1);
            assert_eq!(metadata.directory, "/tmp/test");
        },
        other => panic!("unexpected {:?}", other),
    }
}

#[test]
fn interrupted_download_resumes() {
    let mut m = TaskManager::new_with_config(config());
    let _ = add(&mut m, URL1, false);
    m.set_download_task(
        0,
        Task::DownloadVideo {
            url: URL1.to_string(),
            path: "/v/x.mp4".to_string(),
            media_type: MediaType::Video,
            metadata: DownloadMetadata {
                title: None,
                expected_size_bytes: None,
                directory: "/v".to_string(),
                started_at: Some(1),
                process_id: None,
                log_file: None,
            },
            download_dir: None,
        },
    );
    match m.start_operation(0) {
        Some(OperationPlan::ResumeDownload { notification, metadata, .. }) => {
            assert_eq!(note_text(&notification), "Resuming download: video 🔄");
            assert_eq!(metadata.directory, "/v");
        },
        other => panic!("unexpected {:?}", other),
    }
}

#[test]
fn operation_ends() {
    assert!(matches!(
        fetch_result(Task::GetName { url: URL1.to_string(), metadata: None, media_type: MediaType::Video, download_dir: None }),
        OperationEnd::Failed(ref e) if e == "GetName transition failed"
    ));
    let mut m = TaskManager::new_with_config(config());
    let _ = add(&mut m, URL1, false);
    let fx = m.apply_operation_end(0, OperationEnd::Panicked("oops".to_string()));
    assert!(fx.notification.is_none());
    assert!(matches!(m.tasks.get_task(0), Some(Task::Failed { human_readable_error, .. }) if human_readable_error == "Task panicked: oops"));
    let fx = m.apply_operation_end(0, OperationEnd::Cancelled);
    assert!(fx.status.is_none());
    let fx = m.apply_operation_end(9, OperationEnd::Failed("x".to_string()));
    assert!(fx.notification.is_none());
    assert_eq!(completion_message(None, &Some("T".to_string())), "Download completed: T 🤗✅");
    assert_eq!(completion_message(None, &None), "Download completed: video 🤗✅");
    assert_eq!(completion_message(Some("f.mp4".to_string()), &None), "Download completed: f.mp4 🤗✅");
}

#[test]
fn queued_urls_are_imported() {
    let mut m = TaskManager::new_with_config(config());
    let _ = add(&mut m, URL1, false);
    let added = m.import_queued_urls(&vec![URL1.to_string(), URL2.to_string(), URL2.to_string()]);
    assert_eq!(added, vec![1]);
    assert_eq!(m.tasks.len(), 2);
}

#[test]
fn paused_tasks_never_start() {
    let mut m = TaskManager::new_with_config(config());
    let _ = add(&mut m, URL1, true);
    assert_eq!(m.next_task_to_start(), None);
    assert!(m.start_operation(0).is_none());
    let o = m.process_request(ClientRequest::Resume { ids: Some(vec![0]) }, &ctx());
    assert!(o.save);
    assert_eq!(m.next_task_to_start(), Some(0));
}

#[test]
fn pause_then_resume_restores_the_task() {
    let mut m = TaskManager::new_with_config(config());
    let _ = add(&mut m, URL1, false);
    let _ = m.process_request(ClientRequest::Pause { ids: Some(vec![0]) }, &ctx());
    let _ = m.process_request(ClientRequest::Resume { ids: Some(vec![0]) }, &ctx());
    match m.tasks.get_task(0) {
        Some(Task::Queued { url, media_type: MediaType::Video, download_dir: None }) => assert_eq!(url, URL1),
        other => panic!("unexpected {:?}", other),
    }
}

#[test]
fn urls_stay_distinct_across_requests() {
    let mut m = TaskManager::new_with_config(config());
    for u in [URL1, URL2, URL1, URL2] {
        let _ = add(&mut m, u, false);
    }
    let _ = m.apply_operation_end(1, OperationEnd::Failed("x".to_string()));
    let _ = add(&mut m, URL2, false);
    let _ = m.process_request(ClientRequest::Pause { ids: None }, &ctx());
    let _ = m.process_request(ClientRequest::Resume { ids: None }, &ctx());
    let mut urls: Vec<String> = m.tasks.task_list_ref().iter().map(|(_, t)| t.url().to_string()).collect();
    let n = urls.len();
    urls.sort();
    urls.dedup();
    assert_eq!(urls.len(), n);
    assert_eq!(n, 2);
}

#[test]
fn ended_operations_keep_the_url() {
    let mut m = TaskManager::new_with_config(config());
    let _ = add(&mut m, URL2, false);
    let _ = m.start_operation(0);
    let _ = m.apply_operation_end(0, OperationEnd::Panicked("p".to_string()));
    assert_eq!(m.tasks.get_task(0).unwrap().url(), URL2);
    assert!(matches!(m.tasks.get_task(0).unwrap().media_type(), MediaType::Video));
}

#[test]
fn status_lists_every_task_once() {
    let mut m = TaskManager::new_with_config(config());
    let _ = add(&mut m, URL1, false);
    let _ = add(&mut m, URL2, true);
    let _ = add(&mut m, "https://c.example/3", false);
    let _ = m.start_operation(2);
    let _ = add(&mut m, "https://d.example/4", false);
    let _ = m.apply_operation_end(3, OperationEnd::Failed("bad".to_string()));
    let r = m.get_status(false, true, 1);
    match r {
        ServerResponse::Status { queued_tasks, current_tasks, completed_tasks, failed_tasks, .. } => {
            assert_eq!(queued_tasks.iter().map(|t| t.id).collect::<Vec<_>>(), vec![0, 1]);
            assert!(queued_tasks[1].is_paused);
            assert_eq!(current_tasks.iter().map(|t| t.id).collect::<Vec<_>>(), vec![2]);
            assert!(completed_tasks.is_empty());
            assert_eq!(failed_tasks.iter().map(|t| t.id).collect::<Vec<_>>(), vec![3]);
            assert_eq!(failed_tasks[0].error, Some("bad".to_string()));
        },
        other => panic!("unexpected {:?}", other),
    }
}

#[test]
fn failed_transition_starts_no_download() {
    let mut m = TaskManager::new_with_config(config());
    let _ = add(&mut m, URL2, false);
    let _ = m.start_operation(0);
    assert!(m.tasks.has_active_task(0));
    m.set_download_task(
        0,
        Task::Failed {
            url: URL2.to_string(),
            media_type: MediaType::Video,
            human_readable_error: "Not enough disk space".to_string(),
            download_dir: None,
        },
    );
    assert!(!m.download_begins(0));
    assert!(!m.tasks.has_active_task(0));
    assert!(matches!(m.tasks.get_task(0), Some(Task::Failed { .. })));
}

#[test]
fn recorded_download_begins() {
    let mut m = TaskManager::new_with_config(config());
    let _ = add(&mut m, URL2, false);
    let _ = m.start_operation(0);
    m.set_download_task(
        0,
        Task::DownloadVideo {
            url: URL2.to_string(),
            path: "/v/Clip.mp4".to_string(),
            media_type: MediaType::Video,
            metadata: DownloadMetadata {
                title: Some("Clip".to_string()),
                expected_size_bytes: None,
                directory: "/v".to_string(),
                started_at: Some(1),
                process_id: None,
                log_file: None,
            },
            download_dir: None,
        },
    );
    assert!(m.download_begins(0));
    assert!(m.tasks.has_active_task(0));
    let fx = m.apply_operation_end(0, OperationEnd::Finished(TaskOperationResult::DownloadComplete("/v/Clip.mp4/.".to_string())));
    assert_eq!(note_text(fx.notification.as_ref().unwrap()), "Download completed: Clip.mp4 🤗✅");
}
