use vstd::prelude::*;
use vstd::string::StringExecFns;
use crate::bridge::{log_lines, log_push, App};
use crate::clipboard::{ClipboardItem, ClipboardOperation};
use crate::config::{is_unsafe_file_char, sanitized, template_file_name};
use crate::event::LogLevel;
use crate::template::{AutomationTemplate, FormField};
use crate::http_client::{method_name, HttpMethod};
use crate::text::{has_prefix, is_blank, same_text, starts_with, trimmed};
use crate::tree::{forest_visible, NodeType, TreeNode};

verus! {

/// Position of the last `/` in a path.
pub open spec fn last_slash(s: Seq<char>) -> Option<int>
    decreases s.len(),
{
    if s.len() == 0 {
        None
    } else if s.last() == '/' {
        Some(s.len() - 1)
    } else {
        last_slash(s.drop_last())
    }
}

/// The folder part of a path: what stands before its last `/`.
pub open spec fn parent_folder(path: Seq<char>) -> Seq<char> {
    match last_slash(path) {
        Some(i) => path.take(i),
        None => Seq::empty(),
    }
}

/// The last part of a path: what follows its last `/`.
pub open spec fn leaf_name(path: Seq<char>) -> Seq<char> {
    match last_slash(path) {
        Some(i) => path.skip(i + 1),
        None => path,
    }
}

fn find_last_slash(s: &str) -> (r: Option<usize>)
    ensures
        match r {
            Some(i) => last_slash(s@) == Some(i as int) && i < s@.len(),
            None => last_slash(s@) is None,
        },
{
    let n = s.unicode_len();
    let mut j: usize = n;
    assert(s@.take(n as int) =~= s@);
    while j > 0
        invariant
            n == s@.len(),
            j <= n,
            last_slash(s@) == last_slash(s@.take(j as int)),
        decreases j,
    {
        let ghost t = s@.take(j as int);
        assert(t.drop_last() =~= s@.take(j - 1));
        if s.get_char(j - 1) == '/' {
            return Some(j - 1);
        }
        j = j - 1;
    }
    None
}

/// The node under the focus, if the focus is on a shown node.
pub open spec fn focused_node(app: App) -> Option<TreeNode> {
    let shown = forest_visible(app.tree_state.roots@);
    if app.tree_state.focused_index < shown.len() {
        Some(shown[app.tree_state.focused_index as int])
    } else {
        None
    }
}

/// Where a new item goes: the focused folder, or the folder of the focused
/// template, or the top.
pub open spec fn target_folder(node: Option<TreeNode>) -> Seq<char> {
    match node {
        Some(n) => if n.node_type == NodeType::Folder {
            n.path@
        } else {
            parent_folder(n.path@)
        },
        None => Seq::empty(),
    }
}

/// Where on disk a tree node lives, below the templates directory `dir`.
pub open spec fn node_file_path(dir: Seq<char>, n: TreeNode) -> Seq<char> {
    if n.node_type == NodeType::Folder {
        dir + "/"@ + n.path@
    } else {
        let folder = parent_folder(n.path@);
        let file = sanitized(leaf_name(n.path@)) + ".json"@;
        if folder.len() == 0 {
            dir + "/"@ + file
        } else {
            dir + "/"@ + folder + "/"@ + file
        }
    }
}

/// The word for a kind of node.
pub open spec fn kind_word(t: NodeType) -> Seq<char> {
    match t {
        NodeType::Folder => "folder"@,
        NodeType::Template => "template"@,
    }
}

fn kind_text(t: NodeType) -> (r: &'static str)
    ensures
        r@ == kind_word(t),
{
    match t {
        NodeType::Folder => "folder",
        NodeType::Template => "template",
    }
}

/// How many entries of a deletion list start with `mark`.
pub open spec fn count_marked(s: Seq<String>, mark: Seq<char>) -> nat
    decreases s.len(),
{
    if s.len() == 0 {
        0
    } else {
        count_marked(s.drop_last(), mark) + if has_prefix(s.last()@, mark) {
            1nat
        } else {
            0nat
        }
    }
}

fn count_with_prefix(s: &Vec<String>, mark: &str) -> (r: usize)
    ensures
        r == count_marked(s@, mark@),
{
    let mut c: usize = 0;
    let mut i: usize = 0;
    while i < s.len()
        invariant
            i <= s@.len(),
            c == count_marked(s@.subrange(0, i as int), mark@),
            c <= i,
        decreases s@.len() - i,
    {
        assert(s@.subrange(0, i + 1).drop_last() =~= s@.subrange(0, i as int));
        if starts_with(s[i].as_str(), mark) {
            c = c + 1;
        }
        i = i + 1;
    }
    assert(s@.subrange(0, i as int) =~= s@);
    c
}

impl App {
    /// The folder a new item would go in.
    fn focused_folder(&self) -> (r: String)
        ensures
            r@ == target_folder(focused_node(*self)),
    {
        match self.tree_state.get_focused_node() {
            Some(node) => match node.node_type {
                NodeType::Folder => node.path.clone(),
                NodeType::Template => match find_last_slash(node.path.as_str()) {
                    Some(i) => String::from_str(node.path.as_str().substring_char(0, i)),
                    None => String::new(),
                },
            },
            None => String::new(),
        }
    }

    /// Opens the template dialog with defaults, in the focused folder.
    pub fn show_template_creation_dialog(&mut self)
        ensures
            final(self).show_template_dialog,
            final(self).template_dialog_name@ == "New Template"@,
            final(self).template_dialog_folder@ == target_folder(focused_node(*old(self))),
            final(self).template_dialog_description@ == "Template created from form"@,
            final(self).template_dialog_focused_field == 0,
            log_lines(final(self).log_entries@) == log_push(
                log_lines(old(self).log_entries@),
                (LogLevel::Debug, "Template creation dialog opened"@),
            ),
            final(self).automation_state == old(self).automation_state,
            final(self).http_state == old(self).http_state,
    {
        let folder = self.focused_folder();
        self.show_template_dialog = true;
        self.template_dialog_name = String::from_str("New Template");
        self.template_dialog_folder = folder;
        self.template_dialog_description = String::from_str("Template created from form");
        self.template_dialog_focused_field = 0;
        self.log_text(LogLevel::Debug, "Template creation dialog opened");
    }

    pub fn hide_template_creation_dialog(&mut self)
        ensures
            !final(self).show_template_dialog,
            final(self).template_dialog_name@.len() == 0,
            final(self).template_dialog_folder@.len() == 0,
            final(self).template_dialog_description@.len() == 0,
            final(self).template_dialog_focused_field == 0,
            log_lines(final(self).log_entries@) == log_push(
                log_lines(old(self).log_entries@),
                (LogLevel::Debug, "Template creation dialog closed"@),
            ),
            final(self).automation_state == old(self).automation_state,
            final(self).http_state == old(self).http_state,
    {
        self.show_template_dialog = false;
        self.template_dialog_name = String::new();
        self.template_dialog_folder = String::new();
        self.template_dialog_description = String::new();
        self.template_dialog_focused_field = 0;
        self.log_text(LogLevel::Debug, "Template creation dialog closed");
    }

    /// Opens the folder dialog, in the focused folder.
    pub fn show_folder_creation_dialog(&mut self)
        ensures
            final(self).show_folder_dialog,
            final(self).folder_dialog_name@.len() == 0,
            final(self).folder_dialog_parent@ == target_folder(focused_node(*old(self))),
            final(self).folder_dialog_error is None,
            log_lines(final(self).log_entries@) == log_push(
                log_lines(old(self).log_entries@),
                (LogLevel::Debug, "Folder creation dialog opened"@),
            ),
            final(self).automation_state == old(self).automation_state,
            final(self).http_state == old(self).http_state,
    {
        let parent = self.focused_folder();
        self.show_folder_dialog = true;
        self.folder_dialog_name = String::new();
        self.folder_dialog_parent = parent;
        self.folder_dialog_error = None;
        self.log_text(LogLevel::Debug, "Folder creation dialog opened");
    }

    pub fn hide_folder_creation_dialog(&mut self)
        ensures
            !final(self).show_folder_dialog,
            final(self).folder_dialog_name@.len() == 0,
            final(self).folder_dialog_parent@.len() == 0,
            final(self).folder_dialog_error is None,
            log_lines(final(self).log_entries@) == log_push(
                log_lines(old(self).log_entries@),
                (LogLevel::Debug, "Folder creation dialog closed"@),
            ),
            final(self).automation_state == old(self).automation_state,
            final(self).http_state == old(self).http_state,
    {
        self.show_folder_dialog = false;
        self.folder_dialog_name = String::new();
        self.folder_dialog_parent = String::new();
        self.folder_dialog_error = None;
        self.log_text(LogLevel::Debug, "Folder creation dialog closed");
    }

    /// Opens the rename dialog for the focused node, if there is one.
    pub fn show_rename_dialog(&mut self)
        ensures
            match focused_node(*old(self)) {
                Some(n) => final(self).show_rename_dialog && final(self).rename_dialog_original_name
                    == n.name && final(self).rename_dialog_new_name == n.name
                    && final(self).rename_dialog_path == n.path && final(self).rename_dialog_is_folder
                    == (n.node_type == NodeType::Folder) && final(self).rename_dialog_error is None
                    && log_lines(final(self).log_entries@) == log_push(
                    log_lines(old(self).log_entries@),
                    (LogLevel::Debug, "Rename dialog opened for "@ + kind_word(n.node_type) + ": "@ + n.name@),
                ),
                None => final(self).show_rename_dialog == old(self).show_rename_dialog
                    && final(self).log_entries == old(self).log_entries,
            },
            final(self).automation_state == old(self).automation_state,
            final(self).http_state == old(self).http_state,
    {
        let found = match self.tree_state.get_focused_node() {
            Some(node) => Some((node.name.clone(), node.path.clone(), node.node_type)),
            None => None,
        };
        if let Some((name, path, kind)) = found {
            self.show_rename_dialog = true;
            self.rename_dialog_original_name = name.clone();
            self.rename_dialog_new_name = name.clone();
            self.rename_dialog_path = path;
            self.rename_dialog_is_folder = kind == NodeType::Folder;
            self.rename_dialog_error = None;
            let msg = String::from_str("Rename dialog opened for ").concat(kind_text(kind)).concat(
                ": ",
            ).concat(name.as_str());
            self.log(LogLevel::Debug, msg);
        }
    }

    pub fn hide_rename_dialog(&mut self)
        ensures
            !final(self).show_rename_dialog,
            final(self).rename_dialog_original_name@.len() == 0,
            final(self).rename_dialog_new_name@.len() == 0,
            final(self).rename_dialog_path@.len() == 0,
            !final(self).rename_dialog_is_folder,
            final(self).rename_dialog_error is None,
            log_lines(final(self).log_entries@) == log_push(
                log_lines(old(self).log_entries@),
                (LogLevel::Debug, "Rename dialog closed"@),
            ),
            final(self).automation_state == old(self).automation_state,
            final(self).http_state == old(self).http_state,
    {
        self.show_rename_dialog = false;
        self.rename_dialog_original_name = String::new();
        self.rename_dialog_new_name = String::new();
        self.rename_dialog_path = String::new();
        self.rename_dialog_is_folder = false;
        self.rename_dialog_error = None;
        self.log_text(LogLevel::Debug, "Rename dialog closed");
    }

    /// Opens the deletion confirmation; for a folder, `contents` lists what
    /// the deletion would remove, as read from disk by the caller.
    pub fn show_delete_confirmation_dialog(
        &mut self,
        item_path: &str,
        item_name: &str,
        is_folder: bool,
        contents: Vec<String>,
    )
        ensures
            final(self).show_delete_confirmation_dialog,
            final(self).delete_confirmation_item_name@ == item_name@,
            final(self).delete_confirmation_item_path@ == item_path@,
            final(self).delete_confirmation_is_folder == is_folder,
            is_folder ==> final(self).delete_confirmation_contents@ == contents@,
            !is_folder ==> final(self).delete_confirmation_contents@.len() == 0,
            log_lines(final(self).log_entries@) == log_push(
                log_lines(old(self).log_entries@),
                (
                    LogLevel::Debug,
                    "Delete confirmation dialog opened for "@ + kind_word(
                        if is_folder {
                            NodeType::Folder
                        } else {
                            NodeType::Template
                        },
                    ) + ": "@ + item_name@,
                ),
            ),
            final(self).automation_state == old(self).automation_state,
            final(self).http_state == old(self).http_state,
    {
        self.show_delete_confirmation_dialog = true;
        self.delete_confirmation_item_name = String::from_str(item_name);
        self.delete_confirmation_item_path = String::from_str(item_path);
        self.delete_confirmation_is_folder = is_folder;
        self.delete_confirmation_contents = if is_folder {
            contents
        } else {
            Vec::new()
        };
        let kind = if is_folder {
            NodeType::Folder
        } else {
            NodeType::Template
        };
        let msg = String::from_str("Delete confirmation dialog opened for ").concat(
            kind_text(kind),
        ).concat(": ").concat(item_name);
        self.log(LogLevel::Debug, msg);
    }

    pub fn hide_delete_confirmation_dialog(&mut self)
        ensures
            !final(self).show_delete_confirmation_dialog,
            final(self).delete_confirmation_item_name@.len() == 0,
            final(self).delete_confirmation_item_path@.len() == 0,
            !final(self).delete_confirmation_is_folder,
            final(self).delete_confirmation_contents@.len() == 0,
            log_lines(final(self).log_entries@) == log_push(
                log_lines(old(self).log_entries@),
                (LogLevel::Debug, "Delete confirmation dialog closed"@),
            ),
            final(self).automation_state == old(self).automation_state,
            final(self).http_state == old(self).http_state,
    {
        self.show_delete_confirmation_dialog = false;
        self.delete_confirmation_item_name = String::new();
        self.delete_confirmation_item_path = String::new();
        self.delete_confirmation_is_folder = false;
        self.delete_confirmation_contents = Vec::new();
        self.log_text(LogLevel::Debug, "Delete confirmation dialog closed");
    }

    /// How many folders and templates the pending deletion lists.
    pub fn get_deletion_count(&self) -> (r: (usize, usize))
        ensures
            r.0 == count_marked(self.delete_confirmation_contents@, "\u{1F4C1}"@),
            r.1 == count_marked(self.delete_confirmation_contents@, "\u{1F4C4}"@),
    {
        (
            count_with_prefix(&self.delete_confirmation_contents, "\u{1F4C1}"),
            count_with_prefix(&self.delete_confirmation_contents, "\u{1F4C4}"),
        )
    }

    /// Empties the clipboard, logging it when something was on it.
    pub fn clear_clipboard(&mut self)
        ensures
            final(self).clipboard is None,
            old(self).clipboard is Some ==> log_lines(final(self).log_entries@) == log_push(
                log_lines(old(self).log_entries@),
                (LogLevel::Info, "Clipboard cleared"@),
            ),
            old(self).clipboard is None ==> final(self).log_entries == old(self).log_entries,
            final(self).automation_state == old(self).automation_state,
            final(self).http_state == old(self).http_state,
    {
        if self.clipboard.is_some() {
            self.clipboard = None;
            self.log_text(LogLevel::Info, "Clipboard cleared");
        }
    }

    /// What the clipboard holds, for the status line.
    pub fn get_clipboard_status(&self) -> (r: Option<String>)
        ensures
            match self.clipboard {
                Some(item) => r matches Some(s) && s@ == match item.operation {
                    ClipboardOperation::Cut => "Cut"@,
                    ClipboardOperation::Copy => "Copied"@,
                } + " "@ + kind_word(item.item_type) + ": "@ + item.name@,
                None => r is None,
            },
    {
        match &self.clipboard {
            Some(item) => {
                let op = match item.operation {
                    ClipboardOperation::Cut => "Cut",
                    ClipboardOperation::Copy => "Copied",
                };
                Some(
                    String::from_str(op).concat(" ").concat(kind_text(item.item_type)).concat(
                        ": ",
                    ).concat(item.name.as_str()),
                )
            },
            None => None,
        }
    }

    fn clip_focused_item(&mut self, operation: ClipboardOperation)
        ensures
            match focused_node(*old(self)) {
                Some(n) => final(self).clipboard matches Some(c) && c.operation == operation
                    && c.item_type == n.node_type && c.name == n.name && c.path == n.path
                    && c.full_file_path@ == node_file_path(
                    old(self).config.get_templates_directory_spec()@,
                    n,
                ) && log_lines(final(self).log_entries@) == log_push(
                    log_lines(old(self).log_entries@),
                    (
                        LogLevel::Info,
                        match operation {
                            ClipboardOperation::Cut => "Cut "@,
                            ClipboardOperation::Copy => "Copied "@,
                        } + kind_word(n.node_type) + ": "@ + n.name@,
                    ),
                ),
                None => final(self).clipboard == old(self).clipboard && final(self).log_entries
                    == old(self).log_entries,
            },
            final(self).automation_state == old(self).automation_state,
            final(self).http_state == old(self).http_state,
    {
        let found = match self.tree_state.get_focused_node() {
            Some(node) => Some((node.name.clone(), node.path.clone(), node.node_type)),
            None => None,
        };
        if let Some((name, path, kind)) = found {
            proof {
                reveal_strlit("/");
            }
            let dir = self.config.get_templates_directory().as_str();
            let full = match kind {
                NodeType::Folder => String::from_str(dir).concat("/").concat(path.as_str()),
                NodeType::Template => {
                    let p = path.as_str();
                    let n = p.unicode_len();
                    match find_last_slash(p) {
                        Some(i) => {
                            let folder = p.substring_char(0, i);
                            let leaf = p.substring_char(i + 1, n);
                            let file = template_file_name(leaf);
                            assert(folder@ == path@.take(i as int));
                            assert(leaf@ == path@.skip(i + 1));
                            if i == 0 {
                                String::from_str(dir).concat("/").concat(file.as_str())
                            } else {
                                String::from_str(dir).concat("/").concat(folder).concat(
                                    "/",
                                ).concat(file.as_str())
                            }
                        },
                        None => {
                            let file = template_file_name(p);
                            String::from_str(dir).concat("/").concat(file.as_str())
                        },
                    }
                },
            };
            let verb = match operation {
                ClipboardOperation::Cut => "Cut ",
                ClipboardOperation::Copy => "Copied ",
            };
            let msg = String::from_str(verb).concat(kind_text(kind)).concat(": ").concat(
                name.as_str(),
            );
            self.clipboard = Some(
                ClipboardItem { operation, item_type: kind, name, path, full_file_path: full },
            );
            self.log(LogLevel::Info, msg);
        }
    }

    /// Puts the focused node on the clipboard, to be moved.
    pub fn cut_focused_item(&mut self)
        ensures
            match focused_node(*old(self)) {
                Some(n) => final(self).clipboard matches Some(c) && c.operation
                    == ClipboardOperation::Cut && c.name == n.name && c.path == n.path
                    && c.full_file_path@ == node_file_path(
                    old(self).config.get_templates_directory_spec()@,
                    n,
                ),
                None => final(self).clipboard == old(self).clipboard,
            },
            final(self).automation_state == old(self).automation_state,
    {
        self.clip_focused_item(ClipboardOperation::Cut);
    }

    /// Puts the focused node on the clipboard, to be copied.
    pub fn copy_focused_item(&mut self)
        ensures
            match focused_node(*old(self)) {
                Some(n) => final(self).clipboard matches Some(c) && c.operation
                    == ClipboardOperation::Copy && c.name == n.name && c.path == n.path
                    && c.full_file_path@ == node_file_path(
                    old(self).config.get_templates_directory_spec()@,
                    n,
                ),
                None => final(self).clipboard == old(self).clipboard,
            },
            final(self).automation_state == old(self).automation_state,
    {
        self.clip_focused_item(ClipboardOperation::Copy);
    }

    /// Opens the help dialog on all sections, with no search.
    pub fn show_help_dialog(&mut self)
        ensures
            final(self).show_help_dialog,
            final(self).help_search_query@.len() == 0,
            final(self).help_selected_section == 0,
            log_lines(final(self).log_entries@) == log_push(
                log_lines(old(self).log_entries@),
                (LogLevel::Debug, "Help dialog opened"@),
            ),
            final(self).automation_state == old(self).automation_state,
            final(self).http_state == old(self).http_state,
    {
        self.show_help_dialog = true;
        self.help_search_query = String::new();
        self.help_selected_section = 0;
        self.log_text(LogLevel::Debug, "Help dialog opened");
    }

    pub fn hide_help_dialog(&mut self)
        ensures
            !final(self).show_help_dialog,
            final(self).help_search_query@.len() == 0,
            final(self).help_selected_section == 0,
            log_lines(final(self).log_entries@) == log_push(
                log_lines(old(self).log_entries@),
                (LogLevel::Debug, "Help dialog closed"@),
            ),
            final(self).automation_state == old(self).automation_state,
            final(self).http_state == old(self).http_state,
    {
        self.show_help_dialog = false;
        self.help_search_query = String::new();
        self.help_selected_section = 0;
        self.log_text(LogLevel::Debug, "Help dialog closed");
    }
}

/// The method after `m` in menu order, wrapping around.
pub open spec fn next_method(m: HttpMethod) -> HttpMethod {
    match m {
        HttpMethod::GET => HttpMethod::POST,
        HttpMethod::POST => HttpMethod::PUT,
        HttpMethod::PUT => HttpMethod::PATCH,
        HttpMethod::PATCH => HttpMethod::DELETE,
        HttpMethod::DELETE => HttpMethod::HEAD,
        HttpMethod::HEAD => HttpMethod::OPTIONS,
        HttpMethod::OPTIONS => HttpMethod::GET,
    }
}

/// Moves the request to the next method in menu order, logging it.
pub fn cycle_http_method(app: &mut App)
    ensures
        final(app).http_state.current_request.method == next_method(
            old(app).http_state.current_request.method,
        ),
        log_lines(final(app).log_entries@) == log_push(
            log_lines(old(app).log_entries@),
            (
                LogLevel::Debug,
                "Cycled method to "@ + method_name(next_method(old(app).http_state.current_request.method)),
            ),
        ),
        final(app).automation_state == old(app).automation_state,
{
    let next = match app.http_state.current_request.method {
        HttpMethod::GET => HttpMethod::POST,
        HttpMethod::POST => HttpMethod::PUT,
        HttpMethod::PUT => HttpMethod::PATCH,
        HttpMethod::PATCH => HttpMethod::DELETE,
        HttpMethod::DELETE => HttpMethod::HEAD,
        HttpMethod::HEAD => HttpMethod::OPTIONS,
        HttpMethod::OPTIONS => HttpMethod::GET,
    };
    app.http_state.set_method(next);
    let msg = String::from_str("Cycled method to ").concat(next.as_str());
    app.log(LogLevel::Debug, msg);
}

/// Whether a name holds a character a file name cannot.
pub open spec fn has_unsafe_char(s: Seq<char>) -> bool {
    exists|i: int| 0 <= i < s.len() && is_unsafe_file_char(#[trigger] s[i])
}

fn contains_unsafe_char(s: &str) -> (r: bool)
    ensures
        r == has_unsafe_char(s@),
{
    let n = s.unicode_len();
    let mut i: usize = 0;
    while i < n
        invariant
            n == s@.len(),
            i <= n,
            forall|k: int| 0 <= k < i ==> !is_unsafe_file_char(#[trigger] s@[k]),
        decreases n - i,
    {
        let c = s.get_char(i);
        if c == '/' || c == '\\' || c == ':' || c == '*' || c == '?' || c == '"' || c == '<' || c
            == '>' || c == '|' {
            return true;
        }
        i = i + 1;
    }
    false
}

/// The path, below the templates directory, of `name` inside `parent`.
pub open spec fn child_path(parent: Seq<char>, name: Seq<char>) -> Seq<char> {
    if parent.len() == 0 {
        name
    } else {
        parent + "/"@ + name
    }
}

/// The path, below the templates directory, of `name` inside `parent`.
pub fn folder_path_for(parent: &str, name: &str) -> (r: String)
    ensures
        r@ == child_path(parent@, name@),
{
    if parent.unicode_len() == 0 {
        String::from_str(name)
    } else {
        String::from_str(parent).concat("/").concat(name)
    }
}

/// Why a new folder name is refused, if it is; `exists` tells whether a
/// folder already stands at its path.
pub open spec fn folder_name_error(name: Seq<char>, exists: bool) -> Option<Seq<char>> {
    if trimmed(name).len() == 0 {
        Some("Folder name cannot be empty"@)
    } else if has_unsafe_char(name) {
        Some("Folder name contains invalid characters"@)
    } else if exists {
        Some("Folder already exists"@)
    } else {
        None
    }
}

/// Why a new name for a tree item is refused, if it is; `exists` tells
/// whether an item already stands at the renamed path.
pub open spec fn rename_error(
    new_name: Seq<char>,
    current: Seq<char>,
    is_folder: bool,
    exists: bool,
) -> Option<Seq<char>> {
    if trimmed(new_name).len() == 0 {
        Some("Name cannot be empty"@)
    } else if new_name == current {
        Some("Name is unchanged"@)
    } else if has_unsafe_char(new_name) {
        Some("Name contains invalid characters"@)
    } else if exists {
        if is_folder {
            Some("Folder with this name already exists"@)
        } else {
            Some("Template with this name already exists"@)
        }
    } else {
        None
    }
}

impl App {
    /// Checks a new folder name; `exists` is whether the folder at
    /// `folder_path_for(parent, name)` is already on disk.
    pub fn validate_folder_name(&self, name: &str, exists: bool) -> (r: Result<(), String>)
        ensures
            match folder_name_error(name@, exists) {
                Some(m) => r matches Err(e) && e@ == m,
                None => r is Ok,
            },
    {
        if is_blank(name) {
            return Err(String::from_str("Folder name cannot be empty"));
        }
        if contains_unsafe_char(name) {
            return Err(String::from_str("Folder name contains invalid characters"));
        }
        if exists {
            return Err(String::from_str("Folder already exists"));
        }
        Ok(())
    }

    /// The path, below the templates directory, that renaming the item at
    /// `current_path` to `new_name` would take.
    pub fn rename_target_path(&self, new_name: &str, current_path: &str, is_folder: bool) -> (r:
        String)
        ensures
            is_folder ==> r@ == child_path(parent_folder(current_path@), new_name@),
            !is_folder ==> r@ == child_path(
                parent_folder(current_path@),
                sanitized(new_name@) + ".json"@,
            ),
    {
        let parent = match find_last_slash(current_path) {
            Some(i) => current_path.substring_char(0, i),
            None => "",
        };
        proof {
            reveal_strlit("");
        }
        if is_folder {
            folder_path_for(parent, new_name)
        } else {
            let file = template_file_name(new_name);
            folder_path_for(parent, file.as_str())
        }
    }

    /// Checks a new name from the rename dialog; `exists` is whether an item
    /// already stands at `rename_target_path(new_name, current_path, is_folder)`.
    pub fn validate_rename(&self, new_name: &str, is_folder: bool, exists: bool) -> (r: Result<
        (),
        String,
    >)
        ensures
            match rename_error(new_name@, self.rename_dialog_original_name@, is_folder, exists) {
                Some(m) => r matches Err(e) && e@ == m,
                None => r is Ok,
            },
    {
        if is_blank(new_name) {
            return Err(String::from_str("Name cannot be empty"));
        }
        if same_text(new_name, self.rename_dialog_original_name.as_str()) {
            return Err(String::from_str("Name is unchanged"));
        }
        if contains_unsafe_char(new_name) {
            return Err(String::from_str("Name contains invalid characters"));
        }
        if exists {
            if is_folder {
                return Err(String::from_str("Folder with this name already exists"));
            } else {
                return Err(String::from_str("Template with this name already exists"));
            }
        }
        Ok(())
    }
}

/// The value the form gives a field name: that of the last field so named
/// whose value is not empty.
pub open spec fn form_value(fields: Seq<FormField>, key: Seq<char>) -> Option<Seq<char>>
    decreases fields.len(),
{
    if fields.len() == 0 {
        None
    } else if fields.last().name@ == key && fields.last().value@.len() > 0 {
        Some(fields.last().value@)
    } else {
        form_value(fields.drop_last(), key)
    }
}

impl App {
    /// A template holding the form's non-empty values, by field name.
    pub fn template_from_form(&self, template_name: &str) -> (r: AutomationTemplate)
        ensures
            r.wf(),
            r.name@ == template_name@,
            r.description@ == "Template created from form"@,
            forall|k: Seq<char>| r.value_for(k) == form_value(self.automation_state.fields@, k),
    {
        let fields = &self.automation_state.fields;
        let mut template = AutomationTemplate::new(template_name, "Template created from form");
        let mut i: usize = 0;
        while i < fields.len()
            invariant
                i <= fields@.len(),
                template.wf(),
                template.name@ == template_name@,
                template.description@ == "Template created from form"@,
                forall|k: Seq<char>| template.value_for(k) == form_value(fields@.take(i as int), k),
            decreases fields@.len() - i,
        {
            assert(fields@.take(i + 1).drop_last() =~= fields@.take(i as int));
            let f = &fields[i];
            if f.value.unicode_len() > 0 {
                template = template.with_field(f.name.as_str(), f.value.as_str());
            }
            i = i + 1;
        }
        assert(fields@.take(i as int) =~= fields@);
        template
    }

    /// Applies a template read from storage for `template_path` to the form,
    /// or reports why it could not be read.
    pub fn load_template_into_form(
        &mut self,
        template_path: &str,
        loaded: Result<AutomationTemplate, String>,
    ) -> (r: Result<(), String>)
        requires
            loaded matches Ok(t) ==> t.wf(),
        ensures
            match loaded {
                Ok(t) => r is Ok && final(self).automation_state.fields@.len()
                    == old(self).automation_state.fields@.len() && (forall|i: int|
                    0 <= i < old(self).automation_state.fields@.len()
                        ==> #[trigger] final(self).automation_state.fields@[i].value@ == match t.value_for(
                        old(self).automation_state.fields@[i].name@,
                    ) {
                        Some(v) => v,
                        None => old(self).automation_state.fields@[i].value@,
                    }) && log_lines(final(self).log_entries@) == log_push(
                    log_lines(old(self).log_entries@),
                    (LogLevel::Success, "Loaded template: "@ + leaf_name(template_path@)),
                ),
                Err(e) => r == Err::<(), String>(e) && final(self).automation_state
                    == old(self).automation_state && log_lines(final(self).log_entries@)
                    == log_push(
                    log_lines(old(self).log_entries@),
                    (LogLevel::Error, "Failed to load template: "@ + e@),
                ),
            },
    {
        match loaded {
            Ok(template) => {
                template.apply_to_fields(&mut self.automation_state.fields);
                let n = template_path.unicode_len();
                let name = match find_last_slash(template_path) {
                    Some(i) => template_path.substring_char(i + 1, n),
                    None => template_path,
                };
                let msg = String::from_str("Loaded template: ").concat(name);
                self.log(LogLevel::Success, msg);
                Ok(())
            },
            Err(e) => {
                let msg = String::from_str("Failed to load template: ").concat(e.as_str());
                self.log(LogLevel::Error, msg);
                Err(e)
            },
        }
    }
}

} // verus!
