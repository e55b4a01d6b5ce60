use vstd::prelude::*;
use vstd::string::StringExecFns;
use crate::automation::string_texts;

verus! {

/// One key binding and what it does.
#[derive(Debug, Clone)]
pub struct HelpItem {
    pub keys: String,
    pub description: String,
    pub example: Option<String>,
}

/// A titled group of key bindings.
#[derive(Debug, Clone)]
pub struct HelpSection {
    pub title: String,
    pub items: Vec<HelpItem>,
}

impl HelpItem {
    pub fn new(keys: &str, description: &str) -> (r: HelpItem)
        ensures
            r.keys@ == keys@,
            r.description@ == description@,
            r.example is None,
    {
        HelpItem {
            keys: String::from_str(keys),
            description: String::from_str(description),
            example: None,
        }
    }

    pub fn with_example(self, example: &str) -> (r: HelpItem)
        ensures
            r.keys == self.keys,
            r.description == self.description,
            r.example matches Some(e) && e@ == example@,
    {
        let mut item = self;
        item.example = Some(String::from_str(example));
        item
    }
}

/// Titles of the help sections, in order.
pub open spec fn help_titles() -> Seq<Seq<char>> {
    seq![
        "Global Shortcuts"@,
        "Collections Tree"@,
        "Automation Form - Normal Mode"@,
        "Automation Form - Edit Mode"@,
        "HTTP Request Editor - Normal Mode"@,
        "HTTP Request Editor - Edit Mode"@,
        "HTTP Response Viewer"@,
        "Log Navigation"@,
        "Log Search Mode"@,
        "Mode Concepts & Tips"@,
    ]
}

/// How many bindings each help section lists.
pub open spec fn help_item_counts() -> Seq<int> {
    seq![7, 13, 8, 7, 7, 6, 5, 7, 6, 7]
}

/// The sections of the help dialog.
pub fn get_help_sections() -> (r: Vec<HelpSection>)
    ensures
        r@.len() == help_titles().len(),
        forall|i: int|
            0 <= i < r@.len() ==> (#[trigger] r@[i]).title@ == help_titles()[i] && r@[i].items@.len()
                == help_item_counts()[i],
{
    vec![
        HelpSection {
            title: String::from_str("Global Shortcuts"),
            items: vec![
                HelpItem::new("Ctrl+Q", "Quit application"),
                HelpItem::new("H/L", "Focus left/right pane"),
                HelpItem::new("J/K", "Focus next/previous pane (circular)"),
                HelpItem::new("F1", "Switch to Automation mode"),
                HelpItem::new("F4", "Switch to HTTP Client mode"),
                HelpItem::new("F5/F6/F7", "Focus Collections/Form/Logs directly"),
                HelpItem::new("?", "Show this help dialog"),
            ],
        },
        HelpSection {
            title: String::from_str("Collections Tree"),
            items: vec![
                HelpItem::new("\u{2191}/\u{2193}", "Navigate up/down in tree"),
                HelpItem::new("Enter", "Load template/request or expand/collapse folder"),
                HelpItem::new("Space", "Toggle folder expansion only"),
                HelpItem::new("Tab", "Focus next pane"),
                HelpItem::new("s", "Select current item"),
                HelpItem::new("Ctrl+N", "Create new template/request from current form")
                    .with_example("Fill form, then Ctrl+N to save as template"),
                HelpItem::new("Ctrl+F", "Create new folder")
                    .with_example("Creates subfolder in currently selected location"),
                HelpItem::new("F2 or R", "Rename selected item"),
                HelpItem::new("Delete", "Delete selected item (with confirmation)"),
                HelpItem::new("Ctrl+X", "Cut item to clipboard"),
                HelpItem::new("Ctrl+C", "Copy item to clipboard"),
                HelpItem::new("Ctrl+V", "Paste item from clipboard"),
                HelpItem::new("F12", "Refresh tree from storage"),
            ],
        },
        HelpSection {
            title: String::from_str("Automation Form - Normal Mode"),
            items: vec![
                HelpItem::new("i or Enter", "Enter edit mode for current field"),
                HelpItem::new("j/k", "Navigate to next/previous field (Vim style)"),
                HelpItem::new("Tab/Shift+Tab", "Navigate to next/previous field"),
                HelpItem::new("Delete", "Clear current field completely"),
                HelpItem::new("Ctrl+N", "Save current form as new template"),
                HelpItem::new("F3", "Start automation with current form data"),
                HelpItem::new("Ctrl+C", "Set demo credentials (temporary)"),
                HelpItem::new("Ctrl+X", "Clear credentials"),
            ],
        },
        HelpSection {
            title: String::from_str("Automation Form - Edit Mode"),
            items: vec![
                HelpItem::new("Esc", "Exit edit mode, return to normal mode"),
                HelpItem::new("\u{2190}/\u{2192}", "Move cursor left/right within field"),
                HelpItem::new("Home/End", "Jump to start/end of field"),
                HelpItem::new("Backspace", "Delete character before cursor"),
                HelpItem::new(
                    "Tab/Shift+Tab",
                    "Move to next/previous field (stay in edit mode)",
                ),
                HelpItem::new("Ctrl+N", "Save template (works in edit mode too)"),
                HelpItem::new("Any letter", "Type normally, including Shift for capitals")
                    .with_example("Shift+A produces 'A', just like normal typing"),
            ],
        },
        HelpSection {
            title: String::from_str("HTTP Request Editor - Normal Mode"),
            items: vec![
                HelpItem::new("i or Enter", "Enter edit mode for URL input"),
                HelpItem::new(
                    "Tab/Shift+Tab",
                    "Navigate request tabs (Headers/Body/Query/Auth/Settings)",
                )
                .with_example("Move between different sections of the request"),
                HelpItem::new("m", "Cycle HTTP method (GET \u{2192} POST \u{2192} PUT \u{2192} DELETE \u{2192} ...)")
                    .with_example("Quick way to change request method"),
                HelpItem::new("1/2/3/4", "Quick method shortcuts")
                    .with_example("1=GET, 2=POST, 3=PUT, 4=DELETE"),
                HelpItem::new("Space or F3", "Send HTTP request")
                    .with_example("Execute the current request and show response"),
                HelpItem::new("Ctrl+N", "Create new HTTP request"),
                HelpItem::new("Delete", "Clear current tab content")
                    .with_example("Clear headers, body, or query params depending on active tab"),
            ],
        },
        HelpSection {
            title: String::from_str("HTTP Request Editor - Edit Mode"),
            items: vec![
                HelpItem::new("Esc", "Exit edit mode, return to normal mode"),
                HelpItem::new("Type", "Edit URL or current field content"),
                HelpItem::new("Backspace", "Delete characters"),
                HelpItem::new("Tab/Shift+Tab", "Switch tabs while staying in edit mode"),
                HelpItem::new("F3", "Send request from edit mode"),
                HelpItem::new("Ctrl+N", "Save request as new item"),
            ],
        },
        HelpSection {
            title: String::from_str("HTTP Response Viewer"),
            items: vec![
                HelpItem::new(
                    "Tab/Shift+Tab",
                    "Navigate response tabs (Body/Headers/Info)",
                )
                .with_example("Switch between response body, headers, and timing info"),
                HelpItem::new("Ctrl+C", "Copy response body to clipboard")
                    .with_example("Copy JSON or text response for use elsewhere"),
                HelpItem::new("Delete", "Clear current response")
                    .with_example("Remove response to prepare for new request"),
                HelpItem::new("j/k or \u{2191}/\u{2193}", "Scroll through response content")
                    .with_example("Navigate long responses or header lists"),
                HelpItem::new("g/G", "Jump to top/bottom of response"),
            ],
        },
        HelpSection {
            title: String::from_str("Log Navigation"),
            items: vec![
                HelpItem::new("j/k or \u{2191}/\u{2193}", "Scroll up/down through logs")
                    .with_example("k = older logs (up), j = newer logs (down)"),
                HelpItem::new("g", "Jump to top (oldest logs)")
                    .with_example("Like Vim's gg command"),
                HelpItem::new("G", "Jump to bottom (newest logs)")
                    .with_example("Like Vim's G command"),
                HelpItem::new("Ctrl+U", "Page up (scroll up 10 lines)")
                    .with_example("Faster scrolling through many logs"),
                HelpItem::new("Ctrl+D", "Page down (scroll down 10 lines)")
                    .with_example("Faster scrolling through many logs"),
                HelpItem::new("/", "Enter search mode")
                    .with_example("Type to filter logs, Esc to exit"),
                HelpItem::new("Ctrl+C", "Clear current search filter"),
            ],
        },
        HelpSection {
            title: String::from_str("Log Search Mode"),
            items: vec![
                HelpItem::new("Type", "Search through log messages")
                    .with_example("Searches both message text and log levels"),
                HelpItem::new("Esc", "Exit search mode")
                    .with_example("Returns to normal log navigation"),
                HelpItem::new("Backspace", "Delete last character from search"),
                HelpItem::new("Delete", "Clear entire search query"),
                HelpItem::new("j/k or \u{2191}/\u{2193}", "Scroll through filtered results")
                    .with_example("Search and navigation work together"),
                HelpItem::new("g/G", "Jump to top/bottom of filtered results"),
            ],
        },
        HelpSection {
            title: String::from_str("Mode Concepts & Tips"),
            items: vec![
                HelpItem::new("Normal Mode", "Navigate and execute commands")
                    .with_example("Like Vim's normal mode - keys are commands"),
                HelpItem::new("Edit Mode", "Type text into form fields or URL")
                    .with_example("Like Vim's insert mode - keys insert text"),
                HelpItem::new("Pane Focus", "Only one pane receives input at a time")
                    .with_example("Blue borders show which pane is focused"),
                HelpItem::new("Visual Feedback", "Mode shown in pane titles")
                    .with_example("[NORMAL] or [EDIT] appears in titles"),
                HelpItem::new("Context Help", "Status line shows relevant keys")
                    .with_example("Different commands shown based on current mode"),
                HelpItem::new("HTTP vs Automation", "Different modes for different tasks")
                    .with_example("F1/F4 to switch between browser automation and API testing"),
                HelpItem::new("Tab Indicators", "\u{2022} dots show tabs with content")
                    .with_example("Headers\u{2022}, Body\u{2022}, Query\u{2022} indicate populated tabs"),
            ],
        },
    ]
}

/// The key reference shown for the collections tree.
pub open spec fn tree_help_lines() -> Seq<Seq<char>> {
    seq![
        "Collections Tree Navigation:"@,
        "  \u{2191}/\u{2193}: Navigate tree"@,
        "  Enter: Load template or expand folder"@,
        "  Space: Toggle folder expansion"@,
        "  S: Select node"@,
        ""@,
        "Creation:"@,
        "  Ctrl+N: Create template from form"@,
        "  Ctrl+F: Create new folder"@,
        ""@,
        "Editing:"@,
        "  F2 or R: Rename selected item"@,
        "  Del: Delete selected item"@,
        ""@,
        "Clipboard:"@,
        "  Ctrl+X: Cut item"@,
        "  Ctrl+C: Copy item"@,
        "  Ctrl+V: Paste item"@,
        "  Ctrl+Shift+C: Clear clipboard"@,
        ""@,
        "Utility:"@,
        "  F12: Refresh tree from storage"@,
        "  F1: Show this help"@,
    ]
}

/// The key reference shown for the collections tree.
pub fn get_tree_help_text() -> (r: Vec<String>)
    ensures
        string_texts(r@) == tree_help_lines(),
{
    let r = vec![
        String::from_str("Collections Tree Navigation:"),
        String::from_str("  \u{2191}/\u{2193}: Navigate tree"),
        String::from_str("  Enter: Load template or expand folder"),
        String::from_str("  Space: Toggle folder expansion"),
        String::from_str("  S: Select node"),
        String::from_str(""),
        String::from_str("Creation:"),
        String::from_str("  Ctrl+N: Create template from form"),
        String::from_str("  Ctrl+F: Create new folder"),
        String::from_str(""),
        String::from_str("Editing:"),
        String::from_str("  F2 or R: Rename selected item"),
        String::from_str("  Del: Delete selected item"),
        String::from_str(""),
        String::from_str("Clipboard:"),
        String::from_str("  Ctrl+X: Cut item"),
        String::from_str("  Ctrl+C: Copy item"),
        String::from_str("  Ctrl+V: Paste item"),
        String::from_str("  Ctrl+Shift+C: Clear clipboard"),
        String::from_str(""),
        String::from_str("Utility:"),
        String::from_str("  F12: Refresh tree from storage"),
        String::from_str("  F1: Show this help"),
    ];
    assert(string_texts(r@) =~= tree_help_lines());
    r
}

} // verus!
