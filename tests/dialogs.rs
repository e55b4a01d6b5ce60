use task_bridge::bridge::{App, AppMode, FocusedPane};
use task_bridge::status_line::{get_compact_status_text, get_mode_indicator};
use task_bridge::clipboard::ClipboardOperation;
use task_bridge::dialogs::{cycle_http_method, folder_path_for};
use task_bridge::http_client::HttpMethod;
use task_bridge::tree::TreeState;

fn app_with_tree() -> App {
    let mut app = App::new();
    let folders = vec!["Customer".to_string(), "Customer/Add".to_string()];
    let templates = vec![("Customer/Add".to_string(), vec!["Em:ail".to_string()])];
    app.tree_state = TreeState::build_from_storage(folders, templates);
    app.tree_state.toggle_expansion("Customer/Add");
    app
}

#[test]
fn template_dialog_uses_focused_folder() {
    let mut app = app_with_tree();
    app.tree_state.focused_index = 2;
    assert_eq!(app.tree_state.get_focused_node().unwrap().path, "Customer/Add/Em:ail");
    app.show_template_creation_dialog();
    assert!(app.show_template_dialog);
    assert_eq!(app.template_dialog_folder, "Customer/Add");
    assert_eq!(app.template_dialog_name, "New Template");
    app.hide_template_creation_dialog();
    assert!(!app.show_template_dialog);
    assert!(app.template_dialog_folder.is_empty());
}

#[test]
fn folder_dialog_without_focus_uses_top() {
    let mut app = App::new();
    app.show_folder_creation_dialog();
    assert!(app.show_folder_dialog);
    assert_eq!(app.folder_dialog_parent, "");
    app.hide_folder_creation_dialog();
    assert!(!app.show_folder_dialog);
}

#[test]
fn rename_dialog_for_focused_folder() {
    let mut app = app_with_tree();
    app.tree_state.focused_index = 1;
    app.show_rename_dialog();
    assert!(app.show_rename_dialog);
    assert_eq!(app.rename_dialog_original_name, "Add");
    assert!(app.rename_dialog_is_folder);
    assert_eq!(app.log_entries.last().unwrap().message, "Rename dialog opened for folder: Add");
    app.hide_rename_dialog();
    assert!(!app.show_rename_dialog);
    assert!(app.rename_dialog_path.is_empty());
}

#[test]
fn delete_dialog_counts() {
    let mut app = App::new();
    let contents = vec![
        "\u{1F4C1} a".to_string(),
        "\u{1F4C4} b".to_string(),
        "\u{1F4C4} c".to_string(),
        "other".to_string(),
    ];
    app.show_delete_confirmation_dialog("X", "X", true, contents);
    assert_eq!(app.get_deletion_count(), (1, 2));
    app.hide_delete_confirmation_dialog();
    assert_eq!(app.get_deletion_count(), (0, 0));
    app.show_delete_confirmation_dialog("t", "t", false, vec!["\u{1F4C4} x".to_string()]);
    assert_eq!(app.get_deletion_count(), (0, 0));
}

#[test]
fn clipboard_cut_copy_and_clear() {
    let mut app = app_with_tree();
    assert!(app.get_clipboard_status().is_none());
    app.tree_state.focused_index = 2;
    app.cut_focused_item();
    let item = app.clipboard.as_ref().unwrap();
    assert_eq!(item.operation, ClipboardOperation::Cut);
    let dir = app.config.get_templates_directory().clone();
    assert_eq!(item.full_file_path, format!("{}/Customer/Add/Em_ail.json", dir));
    assert_eq!(app.get_clipboard_status().unwrap(), "Cut template: Em:ail");
    app.tree_state.focused_index = 0;
    app.copy_focused_item();
    assert_eq!(app.clipboard.as_ref().unwrap().full_file_path, format!("{}/Customer", dir));
    assert_eq!(app.get_clipboard_status().unwrap(), "Copied folder: Customer");
    app.clear_clipboard();
    assert!(app.clipboard.is_none());
    assert_eq!(app.log_entries.last().unwrap().message, "Clipboard cleared");
    let n = app.log_entries.len();
    app.clear_clipboard();
    assert_eq!(app.log_entries.len(), n);
}

#[test]
fn help_dialog_toggles() {
    let mut app = App::new();
    app.help_selected_section = 3;
    app.show_help_dialog();
    assert!(app.show_help_dialog);
    assert_eq!(app.help_selected_section, 0);
    app.hide_help_dialog();
    assert!(!app.show_help_dialog);
}

#[test]
fn method_cycles_through_menu() {
    let mut app = App::new();
    let mut seen = Vec::new();
    for _ in 0..7 {
        cycle_http_method(&mut app);
        seen.push(app.http_state.current_request.method);
    }
    assert_eq!(
        seen,
        vec![
            HttpMethod::POST,
            HttpMethod::PUT,
            HttpMethod::PATCH,
            HttpMethod::DELETE,
            HttpMethod::HEAD,
            HttpMethod::OPTIONS,
            HttpMethod::GET,
        ]
    );
    assert_eq!(app.log_entries.last().unwrap().message, "Cycled method to GET");
}

#[test]
fn status_texts_follow_mode() {
    let mut app = App::new();
    app.focused_pane = FocusedPane::Form;
    assert_eq!(get_mode_indicator(&app), " [NORMAL]");
    assert_eq!(
        get_compact_status_text(&app),
        "i:edit j/k:nav Tab:next Ctrl+N:save F3:run F4:HTTP"
    );
    app.current_mode = AppMode::Http;
    assert_eq!(get_mode_indicator(&app), " [GET]");
    assert_eq!(get_compact_status_text(&app), "i:edit m:GET Tab:tabs F3:send F1:auto");
    app.focused_pane = FocusedPane::Logs;
    assert_eq!(get_mode_indicator(&app), " [INVALID]");
    app.http_state.is_sending = true;
    assert_eq!(get_mode_indicator(&app), " [SENDING]");
    assert_eq!(get_compact_status_text(&app), "\u{23F3} Sending request...");
}

#[test]
fn folder_and_rename_checks() {
    let mut app = App::new();
    assert_eq!(app.validate_folder_name("  ", false), Err("Folder name cannot be empty".to_string()));
    assert_eq!(
        app.validate_folder_name("a/b", false),
        Err("Folder name contains invalid characters".to_string())
    );
    assert_eq!(app.validate_folder_name("ok", true), Err("Folder already exists".to_string()));
    assert_eq!(app.validate_folder_name("ok", false), Ok(()));
    assert_eq!(folder_path_for("", "x"), "x");
    assert_eq!(folder_path_for("a/b", "x"), "a/b/x");
    app.rename_dialog_original_name = "Old".to_string();
    assert_eq!(app.validate_rename("Old", true, false), Err("Name is unchanged".to_string()));
    assert_eq!(app.validate_rename("", true, false), Err("Name cannot be empty".to_string()));
    assert_eq!(
        app.validate_rename("N?", false, false),
        Err("Name contains invalid characters".to_string())
    );
    assert_eq!(
        app.validate_rename("New", false, true),
        Err("Template with this name already exists".to_string())
    );
    assert_eq!(
        app.validate_rename("New", true, true),
        Err("Folder with this name already exists".to_string())
    );
    assert_eq!(app.validate_rename("New", true, false), Ok(()));
    assert_eq!(app.rename_target_path("New", "A/B/Old", true), "A/B/New");
    assert_eq!(app.rename_target_path("N:w", "A/Old", false), "A/N_w.json");
    assert_eq!(app.rename_target_path("New", "Old", false), "New.json");
}

#[test]
fn template_from_form_and_back() {
    let mut app = App::new();
    app.automation_state.fields[0].value = "Proj".to_string();
    app.automation_state.fields[3].value = "Desc".to_string();
    let t = app.template_from_form("Mine");
    assert_eq!(t.name, "Mine");
    assert_eq!(t.description, "Template created from form");
    assert_eq!(t.field_values.len(), 2);
    let mut other = App::new();
    assert!(other.load_template_into_form("Folder/Mine", Ok(t)).is_ok());
    assert_eq!(other.automation_state.fields[0].value, "Proj");
    assert_eq!(other.automation_state.fields[3].value, "Desc");
    assert_eq!(other.log_entries.last().unwrap().message, "Loaded template: Mine");
    let r = other.load_template_into_form("x", Err("missing".to_string()));
    assert_eq!(r, Err("missing".to_string()));
    assert_eq!(other.log_entries.last().unwrap().message, "Failed to load template: missing");
}
