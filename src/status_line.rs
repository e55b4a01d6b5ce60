use vstd::prelude::*;
use vstd::string::StringExecFns;
use crate::bridge::{App, AppMode, FocusedPane, InputMode};
use crate::http_client::method_name;
use crate::text::trimmed;

verus! {

/// The one-line key summary for the current mode, pane and input mode.
pub open spec fn compact_status(app: App) -> Seq<char> {
    match (app.current_mode, app.focused_pane, app.input_mode) {
        (AppMode::Automation, FocusedPane::Collections, _) => "\u{2191}/\u{2193}:nav Enter:select Ctrl+N:new F4:HTTP ?:help"@,
        (AppMode::Automation, FocusedPane::Form, InputMode::Normal) => "i:edit j/k:nav Tab:next Ctrl+N:save F3:run F4:HTTP"@,
        (AppMode::Automation, FocusedPane::Form, InputMode::Edit) => "Esc:normal \u{2190}/\u{2192}:cursor Tab:next F3:run"@,
        (AppMode::Automation, FocusedPane::Logs, _) => if app.log_search_mode {
            "Type:search Esc:exit j/k:scroll F4:HTTP"@
        } else {
            "/:search j/k:scroll g/G:top/bottom F4:HTTP"@
        },
        (AppMode::Http, FocusedPane::Collections, _) => "\u{2191}/\u{2193}:nav Enter:load Ctrl+N:new F1:auto ?:help"@,
        (AppMode::Http, FocusedPane::Form, InputMode::Normal) => "i:edit m:"@ + method_name(
            app.http_state.current_request.method,
        ) + " Tab:tabs F3:send F1:auto"@,
        (AppMode::Http, FocusedPane::Form, InputMode::Edit) => "Esc:normal Type:URL F3:send Del:clear"@,
        (AppMode::Http, FocusedPane::Logs, _) => if app.http_state.last_response is Some {
            "Tab:tabs Ctrl+C:copy j/k:scroll Del:clear"@
        } else if app.http_state.is_sending {
            "\u{23F3} Sending request..."@
        } else {
            "F3:send H:request F1:auto ?:help"@
        },
    }
}

/// The short key summary shown in the status line.
pub fn get_compact_status_text(app: &App) -> (r: String)
    ensures
        r@ == compact_status(*app),
{
    match (app.current_mode, app.focused_pane, app.input_mode) {
        (AppMode::Automation, FocusedPane::Collections, _) => String::from_str(
            "\u{2191}/\u{2193}:nav Enter:select Ctrl+N:new F4:HTTP ?:help",
        ),
        (AppMode::Automation, FocusedPane::Form, InputMode::Normal) => String::from_str(
            "i:edit j/k:nav Tab:next Ctrl+N:save F3:run F4:HTTP",
        ),
        (AppMode::Automation, FocusedPane::Form, InputMode::Edit) => String::from_str(
            "Esc:normal \u{2190}/\u{2192}:cursor Tab:next F3:run",
        ),
        (AppMode::Automation, FocusedPane::Logs, _) => {
            if app.log_search_mode {
                String::from_str("Type:search Esc:exit j/k:scroll F4:HTTP")
            } else {
                String::from_str("/:search j/k:scroll g/G:top/bottom F4:HTTP")
            }
        },
        (AppMode::Http, FocusedPane::Collections, _) => String::from_str(
            "\u{2191}/\u{2193}:nav Enter:load Ctrl+N:new F1:auto ?:help",
        ),
        (AppMode::Http, FocusedPane::Form, InputMode::Normal) => {
            let method = app.http_state.current_request.method.as_str();
            String::from_str("i:edit m:").concat(method).concat(" Tab:tabs F3:send F1:auto")
        },
        (AppMode::Http, FocusedPane::Form, InputMode::Edit) => String::from_str(
            "Esc:normal Type:URL F3:send Del:clear",
        ),
        (AppMode::Http, FocusedPane::Logs, _) => {
            if app.http_state.last_response.is_some() {
                String::from_str("Tab:tabs Ctrl+C:copy j/k:scroll Del:clear")
            } else if app.http_state.is_sending {
                String::from_str("\u{23F3} Sending request...")
            } else {
                String::from_str("F3:send H:request F1:auto ?:help")
            }
        },
    }
}

/// The marker after the focused pane's title in HTTP mode.
pub open spec fn http_mode_indicator(app: App) -> Seq<char> {
    let method = method_name(app.http_state.current_request.method);
    if app.http_state.is_sending {
        " [SENDING]"@
    } else if app.focused_pane == FocusedPane::Form {
        match app.input_mode {
            InputMode::Normal => " ["@ + method + "]"@,
            InputMode::Edit => " [EDIT "@ + method + "]"@,
        }
    } else if trimmed(app.http_state.current_request.url@).len() == 0 {
        " [INVALID]"@
    } else {
        " ["@ + method + "]"@
    }
}

/// The marker after the focused pane's title.
pub open spec fn mode_indicator(app: App) -> Seq<char> {
    match app.current_mode {
        AppMode::Automation => if app.focused_pane == FocusedPane::Form {
            match app.input_mode {
                InputMode::Normal => " [NORMAL]"@,
                InputMode::Edit => " [EDIT]"@,
            }
        } else {
            Seq::empty()
        },
        AppMode::Http => http_mode_indicator(app),
    }
}

fn get_http_mode_indicator(app: &App) -> (r: String)
    ensures
        r@ == http_mode_indicator(*app),
{
    let method = app.http_state.current_request.method.as_str();
    if app.http_state.is_sending {
        String::from_str(" [SENDING]")
    } else if app.focused_pane == FocusedPane::Form {
        match app.input_mode {
            InputMode::Normal => String::from_str(" [").concat(method).concat("]"),
            InputMode::Edit => String::from_str(" [EDIT ").concat(method).concat("]"),
        }
    } else if !app.http_state.is_valid() {
        String::from_str(" [INVALID]")
    } else {
        String::from_str(" [").concat(method).concat("]")
    }
}

/// The marker after the focused pane's title: the input mode, or for HTTP
/// the method and the request's state.
pub fn get_mode_indicator(app: &App) -> (r: String)
    ensures
        r@ == mode_indicator(*app),
{
    match app.current_mode {
        AppMode::Automation => {
            if app.focused_pane == FocusedPane::Form {
                match app.input_mode {
                    InputMode::Normal => String::from_str(" [NORMAL]"),
                    InputMode::Edit => String::from_str(" [EDIT]"),
                }
            } else {
                String::new()
            }
        },
        AppMode::Http => get_http_mode_indicator(app),
    }
}

} // verus!
