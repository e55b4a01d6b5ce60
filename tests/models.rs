use task_bridge::config::{display_relative_to_home, sanitize_filename, template_file_name, AppConfig};
use task_bridge::tree::{FocusDirection, NodeType, TreeNode, TreeState};

#[test]
fn test_default_config() {
    let config = AppConfig::default();
    assert!(!config.templates_directory.is_empty());
    assert_eq!(config.show_logs_on_startup, true);
    assert_eq!(config.custom_templates_dir, None);
}

#[test]
fn test_templates_directory_display() {
    let config = AppConfig::default();
    let display = config.get_templates_directory_display();
    assert!(!display.is_empty());
}

#[test]
fn test_tree_node_creation() {
    let folder = TreeNode::new_folder("Test".to_string(), "Test".to_string(), 0);
    assert_eq!(folder.node_type, NodeType::Folder);
    assert_eq!(folder.name, "Test");
    assert!(folder.is_expanded);

    let template = TreeNode::new_template("File".to_string(), "Test/File".to_string(), 1);
    assert_eq!(template.node_type, NodeType::Template);
    assert!(!template.is_expanded);
}

#[test]
fn test_tree_building() {
    let folders = vec!["Customer".to_string(), "Customer/Add".to_string()];
    let templates = vec![("Customer/Add".to_string(), vec!["Email".to_string()])];

    let state = TreeState::build_from_storage(folders, templates);

    assert_eq!(state.roots.len(), 1);
    assert_eq!(state.roots[0].name, "Customer");
    assert_eq!(state.roots[0].children.len(), 1);
    assert_eq!(state.roots[0].children[0].name, "Add");
    assert_eq!(state.roots[0].children[0].children.len(), 1);
    assert_eq!(state.roots[0].children[0].children[0].name, "Email");
}

#[test]
fn test_sanitize_filename() {
    assert_eq!(sanitize_filename("Normal Name"), "Normal Name");
    assert_eq!(sanitize_filename("Bad/Name:With*Chars"), "Bad_Name_With_Chars");
    assert_eq!(sanitize_filename("Test<>File"), "Test__File");
}

#[test]
fn template_file_name_adds_extension() {
    assert_eq!(template_file_name("a?b"), "a_b.json");
}

#[test]
fn tree_sorts_folders_before_templates_by_name() {
    let folders = vec!["Root".to_string(), "Root/Zeta".to_string(), "Root/Alpha".to_string()];
    let templates = vec![(
        "Root".to_string(),
        vec!["beta".to_string(), "alpha".to_string()],
    )];
    let state = TreeState::build_from_storage(folders, templates);
    let names: Vec<&str> = state.roots[0].children.iter().map(|c| c.name.as_str()).collect();
    assert_eq!(names, vec!["Alpha", "Zeta", "alpha", "beta"]);
    assert_eq!(state.roots[0].children[2].path, "Root/alpha");
    assert_eq!(state.roots[0].children[2].depth, 1);
}

#[test]
fn tree_visible_nodes_follow_expansion() {
    let folders = vec!["A".to_string(), "A/B".to_string(), "C".to_string()];
    let mut state = TreeState::build_from_storage(folders, vec![]);
    let shown: Vec<String> = state.get_visible_nodes().iter().map(|n| n.path.clone()).collect();
    assert_eq!(shown, vec!["A", "A/B", "C"]);
    state.toggle_expansion("A");
    let shown: Vec<String> = state.get_visible_nodes().iter().map(|n| n.path.clone()).collect();
    assert_eq!(shown, vec!["A", "C"]);
    state.move_focus(FocusDirection::Down);
    state.move_focus(FocusDirection::Down);
    assert_eq!(state.focused_index, 1);
    assert_eq!(state.get_focused_node().unwrap().path, "C");
    state.move_focus(FocusDirection::Up);
    state.move_focus(FocusDirection::Up);
    assert_eq!(state.focused_index, 0);
}

#[test]
fn tree_select_and_find() {
    let folders = vec!["A".to_string(), "A/B".to_string()];
    let mut state = TreeState::build_from_storage(folders, vec![]);
    state.select_node("A/B");
    assert_eq!(state.selected_path.as_deref(), Some("A/B"));
    assert!(state.roots[0].find_by_path("A/B").unwrap().is_selected);
    state.select_node("A");
    assert!(!state.roots[0].find_by_path("A/B").unwrap().is_selected);
    assert!(state.roots[0].is_selected);
    state.select_node("missing");
    assert_eq!(state.selected_path.as_deref(), Some("A"));
    assert!(state.roots[0].find_by_path("nowhere").is_none());
}

#[test]
fn tree_node_icons_and_indent() {
    let mut folder = TreeNode::new_folder("F".to_string(), "F".to_string(), 2);
    assert_eq!(folder.get_indent(), "    ");
    assert_eq!(folder.get_icon(), "\u{1F4C1}");
    assert!(!folder.can_expand());
    folder.add_child(TreeNode::new_template("t".to_string(), "F/t".to_string(), 3));
    assert!(folder.can_expand());
    folder.toggle_expanded();
    assert_eq!(folder.get_icon(), "\u{1F4C2}");
    let mut template = TreeNode::new_template("t".to_string(), "t".to_string(), 0);
    template.toggle_expanded();
    assert!(!template.is_expanded);
    template.add_child(TreeNode::new_template("x".to_string(), "x".to_string(), 1));
    assert!(template.children.is_empty());
}

#[test]
fn config_display_shortens_home() {
    let home = Some("/home/u".to_string());
    assert_eq!(display_relative_to_home("/home/u/t", home.clone()), "~/t");
    assert_eq!(display_relative_to_home("/home/u", home.clone()), "~/");
    assert_eq!(display_relative_to_home("/home/user/t", home), "/home/user/t");
    assert_eq!(display_relative_to_home("/x", None), "/x");
}

#[test]
fn config_custom_directory_wins() {
    let mut config = AppConfig::default();
    config.set_custom_templates_directory("/custom".to_string());
    assert_eq!(config.get_templates_directory(), "/custom");
    assert!(config.reset_templates_directory().is_ok());
    assert_eq!(config.get_templates_directory(), &config.templates_directory);
}
