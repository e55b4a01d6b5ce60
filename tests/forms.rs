use task_bridge::auth::AuthService;
use task_bridge::automation::{AutomationState, TemplateManager};
use task_bridge::bridge::{App, AppMode, FocusedPane, InputMode};
use task_bridge::collections_tree::get_tree_help_text as panel_help;
use task_bridge::event::{ClockTime, LogEntry, LogLevel};
use task_bridge::help::{get_help_sections, get_tree_help_text, HelpItem};
use task_bridge::http::{BodyContentType, HttpRequestTab, HttpResponseTab, HttpState};
use task_bridge::http_client::{
    HttpHeader, HttpMethod, HttpRequest, HttpRequestBody, HttpResponse,
};
use task_bridge::session::{contains_text, matches_folded};
use task_bridge::template::{AutomationTemplate, FieldType, FormField, WebsiteConfig};

#[test]
fn form_field_labels_and_validity() {
    let f = FormField::new("Email", "#e", FieldType::Email);
    assert!(f.is_required);
    assert!(!f.is_valid());
    assert_eq!(f.get_display_label(), "Email");
    let f = f.with_value("   ");
    assert!(!f.is_valid());
    let f = f.with_value(" a ");
    assert!(f.is_valid());
    let o = FormField::new("Note", "#n", FieldType::Text).with_required(false);
    assert!(o.is_valid());
    assert_eq!(o.get_display_label(), "Note (optional)");
    assert!(o.get_dropdown_options().is_empty());
    let d = o.with_dropdown_options(vec!["a".to_string(), "b".to_string()]);
    assert_eq!(d.get_dropdown_options(), vec!["a".to_string(), "b".to_string()]);
}

#[test]
fn template_values_replace_and_apply() {
    let t = AutomationTemplate::new("T", "d")
        .with_field("A", "1")
        .with_field("B", "2")
        .with_field("A", "3");
    assert_eq!(t.field_values.len(), 2);
    let mut fields = vec![
        FormField::new("A", "#a", FieldType::Text).with_value("old"),
        FormField::new("C", "#c", FieldType::Text).with_value("keep"),
    ];
    t.apply_to_fields(&mut fields);
    assert_eq!(fields[0].value, "3");
    assert_eq!(fields[1].value, "keep");
}

#[test]
fn automation_state_focus_and_templates() {
    let mut s = AutomationState::new();
    assert_eq!(s.fields.len(), 5);
    assert!(!s.is_valid());
    assert_eq!(s.get_validation_errors().len(), 4);
    s.focus_prev_field();
    assert_eq!(s.focused_field, 4);
    s.focus_next_field();
    assert_eq!(s.focused_field, 0);
    s.update_focused_field_value("P".to_string());
    assert_eq!(s.get_focused_field().unwrap().value, "P");
    assert!(s.get_selected_template().is_none());
    s.selected_template = Some(1);
    s.apply_selected_template();
    assert_eq!(s.get_selected_template().unwrap().name, "Urgent Request");
    assert_eq!(s.fields[0].value, "Urgent Fix");
    assert_eq!(s.fields[2].value, "High");
    assert!(s.is_valid());
    assert!(s.get_validation_errors().is_empty());
    s.set_running(true);
    assert!(s.is_running);
}

#[test]
fn template_manager_lists() {
    let mut m = TemplateManager::new();
    assert!(m.get_templates().is_empty());
    assert!(m.load_templates().is_ok());
    assert_eq!(m.get_templates().len(), 3);
    assert_eq!(m.get_template(2).unwrap().name, "Weekly Report");
    assert!(m.get_template(3).is_none());
    m.add_template(AutomationTemplate::new("X", "x"));
    let removed = m.remove_template(0).unwrap();
    assert_eq!(removed.name, "Quick Task");
    assert!(m.remove_template(10).is_none());
    assert_eq!(m.get_templates().len(), 3);
    assert!(m.save_templates().is_ok());
    assert!(m.load_from_file("x.json").is_ok());
}

#[test]
fn website_default() {
    let c = WebsiteConfig::default();
    assert_eq!(c.login_url, "https://yourcompany.com/login");
    assert_eq!(c.submit_selector, "#submit");
}

#[test]
fn http_tabs_cycle() {
    let mut s = HttpState::new();
    assert_eq!(s.current_request_tab, HttpRequestTab::Headers);
    s.prev_request_tab();
    assert_eq!(s.current_request_tab, HttpRequestTab::Settings);
    s.next_request_tab();
    s.next_request_tab();
    assert_eq!(s.current_request_tab, HttpRequestTab::Body);
    s.prev_response_tab();
    assert_eq!(s.current_response_tab, HttpResponseTab::Info);
    s.next_response_tab();
    assert_eq!(s.current_response_tab, HttpResponseTab::Body);
    assert_eq!(HttpRequestTab::all().len(), 5);
    assert_eq!(HttpRequestTab::QueryParams.title(), "Query");
    assert_eq!(HttpResponseTab::all().len(), 3);
    assert_eq!(BodyContentType::all().len(), 5);
    assert_eq!(BodyContentType::Json.title(), "JSON");
    assert_eq!(BodyContentType::Empty.title(), "None");
}

#[test]
fn http_state_editing() {
    let mut s = HttpState::new();
    s.add_header("A".to_string(), "1".to_string());
    s.add_header("B".to_string(), "2".to_string());
    s.remove_header(0);
    s.remove_header(9);
    assert_eq!(s.current_request.headers.len(), 1);
    assert_eq!(s.current_request.headers[0].name, "B");
    s.add_query_param("q".to_string(), "v".to_string());
    s.remove_query_param(0);
    assert!(s.current_request.query_params.is_empty());
    s.set_method(HttpMethod::POST);
    assert_eq!(s.current_request.method, HttpMethod::POST);
    s.current_body_type = BodyContentType::Text;
    s.update_body_content("hi".to_string());
    assert_eq!(
        s.current_request.body,
        HttpRequestBody::Text { content: "hi".to_string(), content_type: "text/plain".to_string() }
    );
    assert_eq!(s.get_body_content(), "hi");
    s.set_body(HttpRequestBody::Form { fields: vec![] });
    assert_eq!(s.get_body_content(), "");
}

#[test]
fn http_state_urls_and_validation() {
    let mut s = HttpState::new();
    assert!(!s.is_valid());
    assert_eq!(s.get_validation_errors(), vec!["URL is required".to_string()]);
    s.set_url("ftp://x".to_string());
    assert!(s.is_valid());
    assert_eq!(
        s.get_validation_errors(),
        vec!["URL must start with http:// or https://".to_string()]
    );
    for i in 0..25 {
        s.set_url(format!("http://h/{}", i));
    }
    s.set_url("http://h/24".to_string());
    assert_eq!(s.recent_urls.len(), 20);
    assert_eq!(s.recent_urls[0], "http://h/24");
    assert!(s.get_validation_errors().is_empty());
}

#[test]
fn http_state_load_and_reset() {
    let mut s = HttpState::new();
    s.next_request_tab();
    let r = HttpRequest::new("R")
        .with_method(HttpMethod::PUT)
        .with_url("http://x")
        .with_header("H", "v");
    let mut r = r;
    r.body = HttpRequestBody::Json { content: "{}".to_string() };
    s.load_request(r);
    assert_eq!(s.current_body_type, BodyContentType::Json);
    assert_eq!(s.current_request_tab, HttpRequestTab::Headers);
    assert_eq!(s.current_request.headers.len(), 1);
    s.new_request();
    assert_eq!(s.current_request.name, "New Request");
    assert_eq!(s.current_body_type, BodyContentType::Empty);
}

#[test]
fn http_models() {
    assert_eq!(HttpMethod::all().len(), 7);
    assert_eq!(HttpMethod::OPTIONS.as_str(), "OPTIONS");
    let h = HttpHeader::new("a", "b").with_enabled(false);
    assert!(!h.enabled);
    let resp = HttpResponse {
        status_code: 404,
        status_text: "Not Found".to_string(),
        headers: vec![],
        body: String::new(),
        content_type: String::new(),
        duration_ms: 1,
    };
    assert!(resp.is_error());
    assert!(!resp.is_success());
}

#[test]
fn auth_service_round() {
    let mut a = AuthService::new();
    assert!(!a.has_credentials());
    assert!(a.get_username().is_none());
    a.store_credentials("bob".to_string(), "pw1".to_string()).unwrap();
    assert_eq!(a.get_username().unwrap(), "bob");
    assert_eq!(a.get_credentials().unwrap().password, "pw1");
    a.clear_credentials().unwrap();
    assert!(a.get_credentials().is_none());
    assert_eq!(AuthService::validate_credentials(" ", "x"), Err("Username cannot be empty".to_string()));
    assert_eq!(AuthService::validate_credentials("bob", ""), Err("Password cannot be empty".to_string()));
    assert_eq!(
        AuthService::validate_credentials("bo", "pw1"),
        Err("Username must be at least 3 characters".to_string())
    );
    assert_eq!(
        AuthService::validate_credentials("bob", "p"),
        Err("Password must be at least 3 characters".to_string())
    );
    assert_eq!(AuthService::validate_credentials("bob", "pw1"), Ok(()));
}

#[test]
fn help_tables() {
    let sections = get_help_sections();
    assert_eq!(sections.len(), 10);
    assert_eq!(sections[0].title, "Global Shortcuts");
    assert_eq!(sections[1].items[5].example.as_deref(), Some("Fill form, then Ctrl+N to save as template"));
    assert_eq!(get_tree_help_text()[0], "Collections Tree Navigation:");
    assert_eq!(panel_help()[0], "Tree Navigation:");
    let item = HelpItem::new("k", "d").with_example("e");
    assert_eq!(item.example.as_deref(), Some("e"));
}

#[test]
fn login_flow() {
    let mut app = App::new();
    app.show_login();
    assert!(app.show_login_popup);
    app.login_username = "al".to_string();
    app.login_password = "secret".to_string();
    assert!(!app.attempt_login());
    assert_eq!(app.login_error.as_deref(), Some("Username must be at least 3 characters"));
    app.login_username = "alice".to_string();
    app.login_password = "secret".to_string();
    assert!(app.attempt_login());
    assert!(!app.show_login_popup);
    assert_eq!(app.auth_service.get_username().unwrap(), "alice");
}

#[test]
fn log_search_and_scroll() {
    let mut app = App::new();
    app.log(LogLevel::Info, "Alpha one".to_string());
    app.log(LogLevel::Error, "beta".to_string());
    app.log(LogLevel::Info, "ALPHA two".to_string());
    app.log_search_query = "alpha".to_string();
    assert_eq!(app.get_filtered_logs().len(), 2);
    app.log_search_query = "error".to_string();
    assert_eq!(app.get_filtered_logs()[0].message, "beta");
    app.log_search_query = String::new();
    app.scroll_logs_up();
    app.scroll_logs_up();
    app.scroll_logs_up();
    assert_eq!(app.log_scroll_position, 2);
    let (shown, up, down) = app.get_visible_logs_for_display(5);
    assert_eq!(shown.len(), 1);
    assert!(!up);
    assert!(down);
    app.scroll_logs_down();
    assert_eq!(app.log_scroll_position, 1);
    app.scroll_logs_to_bottom();
    let (shown, up, down) = app.get_visible_logs_for_display(2);
    assert_eq!(shown.iter().map(|e| e.message.as_str()).collect::<Vec<_>>(), vec!["beta", "ALPHA two"]);
    assert!(up);
    assert!(!down);
    app.scroll_logs_to_top();
    assert_eq!(app.log_scroll_position, 2);
    app.toggle_log_search_mode();
    app.log_search_query = "x".to_string();
    app.toggle_log_search_mode();
    assert!(app.log_search_query.is_empty());
}

#[test]
fn search_helpers() {
    assert!(contains_text("hello", "ll"));
    assert!(contains_text("hello", ""));
    assert!(!contains_text("he", "hello"));
    assert!(matches_folded("abc", "info", "inf"));
    assert!(!matches_folded("abc", "info", "x"));
    let e = LogEntry::new(LogLevel::Warn, "Disk FULL".to_string());
    assert!(e.matches_search("full"));
    assert!(e.matches_search("warn"));
    assert!(e.matches_search(""));
    assert!(!e.matches_search("empty"));
    assert!(e.timestamp.hour < 24);
}

#[test]
fn edit_cursor() {
    let mut app = App::new();
    app.automation_state.fields[0].value = "ab".to_string();
    app.enter_edit_mode();
    assert_eq!(app.input_mode, InputMode::Edit);
    assert_eq!(app.form_field_cursor_index, 2);
    app.move_field_cursor_left();
    app.insert_char_at_cursor('\u{e9}');
    assert_eq!(app.automation_state.fields[0].value, "a\u{e9}b");
    assert_eq!(app.form_field_cursor_index, 2);
    app.move_field_cursor_right();
    app.move_field_cursor_right();
    assert_eq!(app.form_field_cursor_index, 3);
    app.delete_char_at_cursor();
    assert_eq!(app.automation_state.fields[0].value, "a\u{e9}");
    assert_eq!(app.form_field_cursor_index, 2);
    app.exit_edit_mode();
    assert_eq!(app.form_field_cursor_index, 0);
    app.delete_char_at_cursor();
    assert_eq!(app.automation_state.fields[0].value, "a\u{e9}");
}

#[test]
fn mode_and_pane_switching() {
    let mut app = App::new();
    app.switch_mode(AppMode::Http);
    assert_eq!(app.current_mode, AppMode::Http);
    assert_eq!(app.log_entries.last().unwrap().message, "Switched to Http mode");
    let n = app.log_entries.len();
    app.switch_mode(AppMode::Http);
    assert_eq!(app.log_entries.len(), n);
    app.focus_pane(FocusedPane::Logs);
    assert_eq!(app.log_entries.last().unwrap().message, "Focused Logs pane");
    app.quit();
    assert!(app.should_quit);
}

#[test]
fn log_entry_formatting() {
    let e = LogEntry {
        timestamp: ClockTime { hour: 9, minute: 5, second: 30 },
        level: LogLevel::Info,
        message: "hello".to_string(),
    };
    assert_eq!(e.formatted(), "[09:05:30]    INFO hello");
    let e = LogEntry { level: LogLevel::Success, ..e };
    assert_eq!(e.formatted(), "[09:05:30] SUCCESS hello");
}
