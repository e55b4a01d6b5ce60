use task_bridge::bridge::{http_result_messages, App, TaskKind, LOG_LIMIT};
use task_bridge::event::{decode_error_line, decode_output_line, AppMessage, LogLevel};
use task_bridge::http_client::HttpResponse;
use task_bridge::worker::{exit_message, format_i32, input_failure, internal_failure, launch_failure};

fn ready_app() -> App {
    let mut app = App::new();
    for field in app.automation_state.fields.iter_mut() {
        field.value = "x".to_string();
    }
    app.auth_service.store_credentials("user".to_string(), "secret".to_string()).unwrap();
    app
}

fn log(level: LogLevel, text: &str) -> AppMessage {
    AppMessage::Log(level, text.to_string())
}

fn new_logs(app: &App, before: usize) -> Vec<(LogLevel, String)> {
    app.log_entries[before..].iter().map(|e| (e.level, e.message.clone())).collect()
}

#[test]
fn worker_progress_then_success() {
    let mut app = ready_app();
    assert!(app.start_automation().is_some());
    assert!(app.automation_state.is_running);
    let events = vec![
        decode_output_line("PROGRESS: half"),
        decode_output_line("SUCCESS: done"),
        exit_message(Some(0)),
    ];
    assert_eq!(
        events,
        vec![
            AppMessage::AutomationProgress("half".to_string()),
            log(LogLevel::Success, "done"),
            AppMessage::AutomationComplete,
        ]
    );
    app.process_messages(events);
    assert!(!app.automation_state.is_running);
}

#[test]
fn worker_exit_two_without_output() {
    let mut app = ready_app();
    assert!(app.start_automation().is_some());
    let events = vec![exit_message(Some(2))];
    assert_eq!(
        events,
        vec![AppMessage::AutomationFailed("worker exited with code 2".to_string())]
    );
    let before = app.log_entries.len();
    app.process_messages(events);
    assert!(!app.automation_state.is_running);
    assert_eq!(
        new_logs(&app, before),
        vec![(LogLevel::Error, "worker exited with code 2".to_string())]
    );
}

#[test]
fn second_start_is_refused() {
    let mut app = ready_app();
    let first = app.start_automation();
    assert!(first.is_some());
    let before = app.log_entries.len();
    let second = app.start_automation();
    assert!(second.is_none());
    assert_eq!(
        new_logs(&app, before),
        vec![(LogLevel::Warn, "Automation is already running".to_string())]
    );
    assert!(app.automation_state.is_running);
}

#[test]
fn failed_preconditions_start_nothing() {
    let mut app = App::new();
    app.auth_service.store_credentials("user".to_string(), "secret".to_string()).unwrap();
    let before = app.log_entries.len();
    assert!(app.start_automation().is_none());
    let logs = new_logs(&app, before);
    assert_eq!(logs.len(), 4);
    assert!(logs.iter().all(|(l, _)| *l == LogLevel::Error));
    assert_eq!(logs[0].1, "'Project Name' is required");
    assert!(!app.automation_state.is_running);
}

#[test]
fn start_without_credentials_opens_login() {
    let mut app = App::new();
    for field in app.automation_state.fields.iter_mut() {
        field.value = "x".to_string();
    }
    let before = app.log_entries.len();
    assert!(app.start_automation().is_none());
    assert!(app.show_login_popup);
    assert!(!app.automation_state.is_running);
    assert_eq!(
        new_logs(&app, before)[0],
        (LogLevel::Error, "Cannot start automation: no credentials provided".to_string())
    );
}

#[test]
fn started_run_carries_form_and_credentials() {
    let mut app = ready_app();
    let data = app.start_automation().unwrap();
    assert_eq!(data.fields.len(), 5);
    assert_eq!(data.fields[0].name, "Project Name");
    assert_eq!(data.fields[0].value, "x");
    assert_eq!(data.credentials.username, "user");
    assert_eq!(data.credentials.password, "secret");
    assert_eq!(data.website_config.url, "https://yourcompany.com");
}

#[test]
fn exit_codes_give_one_terminal_message() {
    for code in [0, 1, 2, 127, -1, i32::MIN, i32::MAX] {
        let m = exit_message(Some(code));
        if code == 0 {
            assert_eq!(m, AppMessage::AutomationComplete);
        } else {
            assert_eq!(
                m,
                AppMessage::AutomationFailed(format!("worker exited with code {}", code))
            );
        }
    }
    assert!(matches!(exit_message(None), AppMessage::AutomationFailed(_)));
}

#[test]
fn decimal_formatting_matches_std() {
    for v in [0, 7, 10, 99, 100, 65535, -5, -120, i32::MIN, i32::MAX] {
        assert_eq!(format_i32(v), v.to_string());
    }
}

#[test]
fn failure_messages() {
    assert_eq!(
        launch_failure("not found"),
        AppMessage::AutomationFailed("failed to launch worker: not found".to_string())
    );
    assert_eq!(
        input_failure(),
        AppMessage::AutomationFailed("failed to send task input".to_string())
    );
    assert_eq!(
        internal_failure(),
        AppMessage::AutomationFailed("internal task error".to_string())
    );
}

#[test]
fn decode_recognises_each_tag() {
    assert_eq!(decode_output_line("ERROR:  bad  "), log(LogLevel::Error, "bad"));
    assert_eq!(decode_output_line("INFO:x"), log(LogLevel::Info, "x"));
    assert_eq!(decode_output_line("DEBUG: d"), log(LogLevel::Debug, "d"));
    assert_eq!(decode_output_line("WARN: w"), log(LogLevel::Warn, "w"));
    assert_eq!(decode_output_line("PROGRESS:"), AppMessage::AutomationProgress(String::new()));
    assert_eq!(decode_output_line("progress: lower"), log(LogLevel::Info, "\u{1F40D} progress: lower"));
}

#[test]
fn decode_passes_unknown_lines_through() {
    for line in ["", "hello", " PROGRESS: late tag", "{\"type\":1}", "\u{00e9}t\u{00e9}"] {
        assert_eq!(decode_output_line(line), log(LogLevel::Info, &format!("\u{1F40D} {}", line)));
        assert_eq!(
            decode_error_line(line),
            log(LogLevel::Error, &format!("\u{1F40D} Error: {}", line))
        );
    }
    assert_eq!(decode_error_line("WARN: careful"), log(LogLevel::Warn, "careful"));
}

#[test]
fn draining_nothing_changes_nothing() {
    let mut app = ready_app();
    app.process_messages(vec![log(LogLevel::Info, "one"), AppMessage::AutomationProgress("p".to_string())]);
    let count = app.log_entries.len();
    let running = app.automation_state.is_running;
    app.process_messages(vec![]);
    app.process_messages(vec![]);
    assert_eq!(app.log_entries.len(), count);
    assert_eq!(app.automation_state.is_running, running);
    assert_eq!(app.log_entries[count - 1].message, "p");
    assert_eq!(app.log_entries[count - 1].level, LogLevel::Info);
}

#[test]
fn log_drops_oldest_batch_past_limit() {
    let mut app = App::new();
    for i in 0..LOG_LIMIT {
        app.log(LogLevel::Info, format!("m{}", i));
    }
    assert_eq!(app.log_entries.len(), LOG_LIMIT);
    app.log(LogLevel::Info, "last".to_string());
    assert_eq!(app.log_entries.len(), LOG_LIMIT + 1 - 100);
    assert_eq!(app.log_entries[0].message, "m100");
    assert_eq!(app.log_entries.last().unwrap().message, "last");
}

#[test]
fn quit_message_sets_flag() {
    let mut app = App::new();
    app.process_messages(vec![AppMessage::Quit]);
    assert!(app.should_quit);
}

fn response() -> HttpResponse {
    HttpResponse {
        status_code: 200,
        status_text: "OK".to_string(),
        headers: vec![],
        body: "{}".to_string(),
        content_type: "application/json".to_string(),
        duration_ms: 42,
    }
}

#[test]
fn http_call_round_trip_through_dispatcher() {
    let mut app = App::new();
    app.http_state.set_url("https://example.com".to_string());
    let request = app.send_http_request().unwrap();
    assert_eq!(request.url, "https://example.com");
    assert!(app.http_state.is_sending);
    assert!(app.send_http_request().is_none());
    let messages = http_result_messages(Ok(response()));
    assert_eq!(
        messages,
        vec![
            log(LogLevel::Success, "\u{2705} HTTP 200 OK"),
            log(LogLevel::Info, "Response received in 42 ms"),
            AppMessage::HttpResponseReceived(response()),
        ]
    );
    app.process_messages(messages);
    assert!(!app.http_state.is_sending);
    assert_eq!(app.http_state.last_response, Some(response()));
}

#[test]
fn http_call_failure_clears_flag() {
    let mut app = App::new();
    app.http_state.set_url("https://example.com".to_string());
    assert!(app.send_http_request().is_some());
    let messages = http_result_messages(Err("timeout".to_string()));
    assert_eq!(
        messages,
        vec![AppMessage::HttpRequestFailed("HTTP request failed: timeout".to_string())]
    );
    app.process_messages(messages);
    assert!(!app.http_state.is_sending);
    assert_eq!(app.log_entries.last().unwrap().message, "HTTP request failed: timeout");
}

#[test]
fn invalid_http_request_is_not_sent() {
    let mut app = App::new();
    let before = app.log_entries.len();
    assert!(app.send_http_request().is_none());
    assert_eq!(new_logs(&app, before), vec![(LogLevel::Error, "URL is required".to_string())]);
    assert!(!app.http_state.is_sending);
}

#[test]
fn guard_admits_one_task_per_kind() {
    let mut app = App::new();
    assert!(!app.is_running(TaskKind::Automation));
    assert!(app.try_begin(TaskKind::Automation));
    assert!(!app.try_begin(TaskKind::Automation));
    assert!(app.is_running(TaskKind::Automation));
    assert!(!app.is_running(TaskKind::HttpCall));
    assert!(app.try_begin(TaskKind::HttpCall));
    app.process_messages(vec![AppMessage::AutomationFailed("x".to_string())]);
    assert!(!app.is_running(TaskKind::Automation));
    assert!(app.is_running(TaskKind::HttpCall));
    let before = app.log_entries.len();
    app.http_state.set_url("http://a".to_string());
    assert!(app.send_http_request().is_none());
    assert_eq!(
        new_logs(&app, before),
        vec![(LogLevel::Warn, "HTTP request is already running".to_string())]
    );
}
