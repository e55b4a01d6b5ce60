use vstd::prelude::*;
use vstd::string::StringExecFns;
use crate::auth::AuthService;
use crate::clipboard::ClipboardItem;
use crate::config::AppConfig;
use crate::tree::TreeState;
use crate::automation::{string_texts, validation_errors, AutomationData, AutomationState};
use crate::event::{is_terminal, AppMessage, Event, LogEntry, LogLevel};
use crate::http::{url_errors, HttpState};
use crate::http_client::{same_request, HttpRequest, HttpResponse};
use crate::template::same_fields;
use crate::text::trimmed;
use crate::worker::{decimal_nat, format_u64};

verus! {

/// Different modes the app can be in.
#[derive(Debug, Clone, Copy, PartialEq, Eq, Structural)]
pub enum AppMode {
    Automation,
    Http,
}

/// UI panes that can hold the focus.
#[derive(Debug, Clone, Copy, PartialEq, Eq, Structural)]
pub enum FocusedPane {
    Collections,
    Form,
    Logs,
}

#[derive(Debug, Clone, Copy, PartialEq, Eq, Structural)]
pub enum InputMode {
    Normal,
    Edit,
}

/// The kinds of background task; at most one of each runs at a time.
#[derive(Debug, Clone, Copy, PartialEq, Eq, Structural)]
pub enum TaskKind {
    Automation,
    HttpCall,
}

/// Most log entries kept at once.
pub const LOG_LIMIT: usize = 1000;

/// How many of the oldest entries go when the log outgrows its limit.
pub const LOG_EVICT: usize = 100;

/// A log entry without its time.
pub open spec fn entry_line(e: LogEntry) -> (LogLevel, Seq<char>) {
    (e.level, e.message@)
}

pub open spec fn log_lines(s: Seq<LogEntry>) -> Seq<(LogLevel, Seq<char>)> {
    s.map_values(|e: LogEntry| entry_line(e))
}

/// The log after one more line: past the limit, the oldest lines go in a batch.
pub open spec fn log_push(logs: Seq<(LogLevel, Seq<char>)>, line: (LogLevel, Seq<char>)) -> Seq<
    (LogLevel, Seq<char>),
> {
    let s = logs.push(line);
    if s.len() > LOG_LIMIT {
        s.subrange(LOG_EVICT as int, s.len() as int)
    } else {
        s
    }
}

/// The log after one line per message, all at `level`.
pub open spec fn log_push_all(
    logs: Seq<(LogLevel, Seq<char>)>,
    level: LogLevel,
    msgs: Seq<Seq<char>>,
) -> Seq<(LogLevel, Seq<char>)>
    decreases msgs.len(),
{
    if msgs.len() == 0 {
        logs
    } else {
        log_push(log_push_all(logs, level, msgs.drop_last()), (level, msgs.last()))
    }
}

/// What the dispatcher changes: the log, the run flags of both task kinds,
/// the last response and the request to quit.
pub struct BridgeView {
    pub logs: Seq<(LogLevel, Seq<char>)>,
    pub automation_running: bool,
    pub http_sending: bool,
    pub last_response: Option<HttpResponse>,
    pub should_quit: bool,
}

/// The state after one event is applied.
pub open spec fn apply_event(v: BridgeView, e: Event) -> BridgeView {
    match e {
        Event::Log(l, m) => BridgeView { logs: log_push(v.logs, (l, m)), ..v },
        Event::Completed => BridgeView {
            automation_running: false,
            logs: log_push(v.logs, (LogLevel::Success, "Automation completed successfully"@)),
            ..v
        },
        Event::Failed(reason) => BridgeView {
            automation_running: false,
            logs: log_push(v.logs, (LogLevel::Error, reason)),
            ..v
        },
        Event::Progress(p) => BridgeView { logs: log_push(v.logs, (LogLevel::Info, p)), ..v },
        Event::Quit => BridgeView { should_quit: true, ..v },
        Event::Response(r) => BridgeView { last_response: Some(r), http_sending: false, ..v },
        Event::RequestFailed(m) => BridgeView {
            http_sending: false,
            logs: log_push(v.logs, (LogLevel::Error, m)),
            ..v
        },
    }
}

/// The state after the events are applied in order.
pub open spec fn apply_events(v: BridgeView, evs: Seq<Event>) -> BridgeView
    decreases evs.len(),
{
    if evs.len() == 0 {
        v
    } else {
        apply_event(apply_events(v, evs.drop_last()), evs.last())
    }
}

/// The events that messages stand for.
pub open spec fn events_of(ms: Seq<AppMessage>) -> Seq<Event> {
    ms.map_values(|m: AppMessage| m@)
}

/// An event that ends an HTTP call.
pub open spec fn ends_http(e: Event) -> bool {
    e is Response || e is RequestFailed
}

/// The application state that the UI loop owns.
pub struct App {
    /// Application configuration
    pub config: AppConfig,
    /// Collections tree state
    pub tree_state: TreeState,
    /// Automation mode state
    pub automation_state: AutomationState,
    /// HTTP mode state
    pub http_state: HttpState,
    /// Session credentials
    pub auth_service: AuthService,
    /// Current mode
    pub current_mode: AppMode,
    /// Currently focused pane
    pub focused_pane: FocusedPane,
    /// Input mode for form fields
    pub input_mode: InputMode,
    /// Log entries for the logging panel, oldest first
    pub log_entries: Vec<LogEntry>,
    /// Scroll position in the log (0 = newest)
    pub log_scroll_position: usize,
    /// Whether the log search box is open
    pub log_search_mode: bool,
    /// Text the log is filtered by
    pub log_search_query: String,
    /// Cursor position, in characters, within the focused form field
    pub form_field_cursor_index: usize,
    /// Whether the login popup is shown
    pub show_login_popup: bool,
    pub login_username: String,
    pub login_password: String,
    pub login_error: Option<String>,
    /// 0 for the user name, 1 for the password
    pub login_focused_field: usize,
    /// Whether the app should quit
    pub should_quit: bool,
    /// Item on the clipboard, for cut, copy and paste
    pub clipboard: Option<ClipboardItem>,
    /// Template creation dialog
    pub show_template_dialog: bool,
    pub template_dialog_name: String,
    pub template_dialog_folder: String,
    pub template_dialog_description: String,
    /// 0 for the name, 1 for the folder, 2 for the description
    pub template_dialog_focused_field: usize,
    /// Folder creation dialog
    pub show_folder_dialog: bool,
    pub folder_dialog_name: String,
    pub folder_dialog_parent: String,
    pub folder_dialog_error: Option<String>,
    /// Rename dialog
    pub show_rename_dialog: bool,
    pub rename_dialog_original_name: String,
    pub rename_dialog_new_name: String,
    pub rename_dialog_path: String,
    pub rename_dialog_is_folder: bool,
    pub rename_dialog_error: Option<String>,
    /// Deletion confirmation dialog
    pub show_delete_confirmation_dialog: bool,
    pub delete_confirmation_item_name: String,
    pub delete_confirmation_item_path: String,
    pub delete_confirmation_is_folder: bool,
    /// What a folder deletion would remove
    pub delete_confirmation_contents: Vec<String>,
    /// Help dialog
    pub show_help_dialog: bool,
    pub help_search_query: String,
    /// 0 for all sections, otherwise a section number
    pub help_selected_section: usize,
}

/// `b` differs from `a` at most in what the dispatcher changes.
pub open spec fn same_but_bridge(a: App, b: App) -> bool {
    b == (App {
        log_entries: b.log_entries,
        should_quit: b.should_quit,
        automation_state: AutomationState {
            is_running: b.automation_state.is_running,
            ..a.automation_state
        },
        http_state: HttpState {
            is_sending: b.http_state.is_sending,
            last_response: b.http_state.last_response,
            ..a.http_state
        },
        ..a
    })
}

/// `b` differs from `a` at most in its log.
pub open spec fn same_but_log(a: App, b: App) -> bool {
    b == (App { log_entries: b.log_entries, ..a })
}

impl App {
    pub open spec fn wf(self) -> bool {
        self.automation_state.wf()
    }

    /// The part of the state that the dispatcher changes.
    pub open spec fn bridge_view(self) -> BridgeView {
        BridgeView {
            logs: log_lines(self.log_entries@),
            automation_running: self.automation_state.is_running,
            http_sending: self.http_state.is_sending,
            last_response: self.http_state.last_response,
            should_quit: self.should_quit,
        }
    }

    /// Whether a task of `kind` is in flight.
    pub open spec fn running(self, kind: TaskKind) -> bool {
        match kind {
            TaskKind::Automation => self.automation_state.is_running,
            TaskKind::HttpCall => self.http_state.is_sending,
        }
    }

    /// Whether a task of `kind` is in flight.
    pub fn is_running(&self, kind: TaskKind) -> (r: bool)
        ensures
            r == self.running(kind),
    {
        match kind {
            TaskKind::Automation => self.automation_state.is_running,
            TaskKind::HttpCall => self.http_state.is_sending,
        }
    }

    /// Marks a task of `kind` as in flight, unless one already is; says
    /// whether it did. This is the only way a run flag is set.
    pub fn try_begin(&mut self, kind: TaskKind) -> (r: bool)
        ensures
            r == !old(self).running(kind),
            final(self).running(kind),
            kind == TaskKind::Automation ==> final(self).automation_state == (AutomationState {
                is_running: true,
                ..old(self).automation_state
            }) && final(self).http_state == old(self).http_state,
            kind == TaskKind::HttpCall ==> final(self).http_state == (HttpState {
                is_sending: true,
                ..old(self).http_state
            }) && final(self).automation_state == old(self).automation_state,
            final(self).log_entries == old(self).log_entries,
            final(self).auth_service == old(self).auth_service,
    {
        match kind {
            TaskKind::Automation => {
                if self.automation_state.is_running {
                    false
                } else {
                    self.automation_state.set_running(true);
                    true
                }
            },
            TaskKind::HttpCall => {
                if self.http_state.is_sending {
                    false
                } else {
                    self.http_state.is_sending = true;
                    true
                }
            },
        }
    }

    pub fn new() -> (r: App)
        ensures
            r.wf(),
            !r.automation_state.is_running,
            !r.http_state.is_sending,
            r.auth_service.stored() is None,
            r.log_entries@.len() == 0,
            !r.should_quit,
    {
        App {
            config: AppConfig::default(),
            tree_state: TreeState::new(),
            automation_state: AutomationState::new(),
            http_state: HttpState::new(),
            auth_service: AuthService::new(),
            current_mode: AppMode::Automation,
            focused_pane: FocusedPane::Form,
            input_mode: InputMode::Normal,
            log_entries: Vec::new(),
            log_scroll_position: 0,
            log_search_mode: false,
            log_search_query: String::new(),
            form_field_cursor_index: 0,
            show_login_popup: false,
            login_username: String::new(),
            login_password: String::new(),
            login_error: None,
            login_focused_field: 0,
            should_quit: false,
            clipboard: None,
            show_template_dialog: false,
            template_dialog_name: String::new(),
            template_dialog_folder: String::new(),
            template_dialog_description: String::new(),
            template_dialog_focused_field: 0,
            show_folder_dialog: false,
            folder_dialog_name: String::new(),
            folder_dialog_parent: String::new(),
            folder_dialog_error: None,
            show_rename_dialog: false,
            rename_dialog_original_name: String::new(),
            rename_dialog_new_name: String::new(),
            rename_dialog_path: String::new(),
            rename_dialog_is_folder: false,
            rename_dialog_error: None,
            show_delete_confirmation_dialog: false,
            delete_confirmation_item_name: String::new(),
            delete_confirmation_item_path: String::new(),
            delete_confirmation_is_folder: false,
            delete_confirmation_contents: Vec::new(),
            show_help_dialog: false,
            help_search_query: String::new(),
            help_selected_section: 0,
        }
    }

    /// Appends a log entry, dropping the oldest batch past the limit.
    pub fn log(&mut self, level: LogLevel, message: String)
        ensures
            log_lines(final(self).log_entries@) == log_push(
                log_lines(old(self).log_entries@),
                (level, message@),
            ),
            same_but_log(*old(self), *final(self)),
    {
        let ghost before = log_lines(self.log_entries@);
        self.log_entries.push(LogEntry::new(level, message));
        assert(log_lines(self.log_entries@) =~= before.push((level, message@)));
        if self.log_entries.len() > LOG_LIMIT {
            let ghost full = self.log_entries@;
            let kept = self.log_entries.split_off(LOG_EVICT);
            self.log_entries = kept;
            assert(log_lines(self.log_entries@) =~= log_lines(full).subrange(
                LOG_EVICT as int,
                full.len() as int,
            ));
        }
    }

    pub(crate) fn log_text(&mut self, level: LogLevel, message: &str)
        ensures
            log_lines(final(self).log_entries@) == log_push(
                log_lines(old(self).log_entries@),
                (level, message@),
            ),
            same_but_log(*old(self), *final(self)),
    {
        self.log(level, String::from_str(message));
    }

    fn log_all(&mut self, level: LogLevel, messages: Vec<String>)
        ensures
            log_lines(final(self).log_entries@) == log_push_all(
                log_lines(old(self).log_entries@),
                level,
                string_texts(messages@),
            ),
            same_but_log(*old(self), *final(self)),
    {
        let ghost start = log_lines(self.log_entries@);
        let ghost all = string_texts(messages@);
        let mut rest = messages;
        let mut done: usize = 0;
        let total = rest.len();
        let ghost orig = rest@;
        while rest.len() > 0
            invariant
                done + rest@.len() == total,
                total == orig.len(),
                all == string_texts(orig),
                rest@ == orig.subrange(done as int, total as int),
                log_lines(self.log_entries@) == log_push_all(start, level, all.subrange(0, done as int)),
                same_but_log(*old(self), *self),
            decreases rest@.len(),
        {
            let m = rest.remove(0);
            let ghost mm = m@;
            self.log(level, m);
            proof {
                let pre = all.subrange(0, done + 1);
                assert(pre.drop_last() =~= all.subrange(0, done as int));
                assert(pre.last() == mm);
            }
            done = done + 1;
            assert(rest@ =~= orig.subrange(done as int, total as int));
        }
        assert(all.subrange(0, done as int) =~= all);
    }

    fn apply_completed(&mut self)
        ensures
            final(self).bridge_view() == apply_event(old(self).bridge_view(), Event::Completed),
            same_but_bridge(*old(self), *final(self)),
    {
        self.automation_state.set_running(false);
        self.log_text(LogLevel::Success, "Automation completed successfully");
    }

    fn apply_failed(&mut self, reason: String)
        ensures
            final(self).bridge_view() == apply_event(old(self).bridge_view(), Event::Failed(reason@)),
            same_but_bridge(*old(self), *final(self)),
    {
        self.automation_state.set_running(false);
        self.log(LogLevel::Error, reason);
    }

    fn apply_quit(&mut self)
        ensures
            final(self).bridge_view() == apply_event(old(self).bridge_view(), Event::Quit),
            same_but_bridge(*old(self), *final(self)),
    {
        self.should_quit = true;
    }

    fn apply_response(&mut self, response: HttpResponse)
        ensures
            final(self).bridge_view() == apply_event(old(self).bridge_view(), Event::Response(response)),
            same_but_bridge(*old(self), *final(self)),
    {
        self.http_state.last_response = Some(response);
        self.http_state.is_sending = false;
    }

    fn apply_request_failed(&mut self, error: String)
        ensures
            final(self).bridge_view() == apply_event(
                old(self).bridge_view(),
                Event::RequestFailed(error@),
            ),
            same_but_bridge(*old(self), *final(self)),
    {
        self.http_state.is_sending = false;
        self.log(LogLevel::Error, error);
    }

    /// Applies one message to the state.
    pub fn apply_message(&mut self, message: AppMessage)
        ensures
            final(self).bridge_view() == apply_event(old(self).bridge_view(), message@),
            same_but_bridge(*old(self), *final(self)),
    {
        match message {
            AppMessage::Log(level, text) => self.log(level, text),
            AppMessage::AutomationComplete => self.apply_completed(),
            AppMessage::AutomationFailed(reason) => self.apply_failed(reason),
            AppMessage::AutomationProgress(progress) => self.log(LogLevel::Info, progress),
            AppMessage::Quit => self.apply_quit(),
            AppMessage::HttpResponseReceived(response) => self.apply_response(response),
            AppMessage::HttpRequestFailed(error) => self.apply_request_failed(error),
        }
    }

    /// Applies every message drained from the channel, in the order drained.
    pub fn process_messages(&mut self, messages: Vec<AppMessage>)
        ensures
            final(self).bridge_view() == apply_events(old(self).bridge_view(), events_of(messages@)),
            same_but_bridge(*old(self), *final(self)),
            messages@.len() == 0 ==> *final(self) == *old(self),
    {
        let ghost start = self.bridge_view();
        let ghost orig = messages@;
        let ghost evs = events_of(orig);
        let mut rest = messages;
        let mut done: usize = 0;
        let total = rest.len();
        while rest.len() > 0
            invariant
                done + rest@.len() == total,
                total == orig.len(),
                done == 0 ==> *self == *old(self),
                evs == events_of(orig),
                rest@ == orig.subrange(done as int, orig.len() as int),
                self.bridge_view() == apply_events(start, evs.subrange(0, done as int)),
                same_but_bridge(*old(self), *self),
            decreases rest@.len(),
        {
            let m = rest.remove(0);
            let ghost e = m@;
            self.apply_message(m);
            proof {
                let pre = evs.subrange(0, done + 1);
                assert(pre.drop_last() =~= evs.subrange(0, done as int));
                assert(pre.last() == e);
            }
            done = done + 1;
            assert(rest@ =~= orig.subrange(done as int, orig.len() as int));
        }
        assert(evs.subrange(0, done as int) =~= evs);
    }

    /// Opens the login popup with an empty form.
    pub fn show_login(&mut self)
        ensures
            final(self).show_login_popup,
            final(self).login_username@.len() == 0,
            final(self).login_password@.len() == 0,
            final(self).login_error is None,
            final(self).login_focused_field == 0,
            log_lines(final(self).log_entries@) == log_push(
                log_lines(old(self).log_entries@),
                (LogLevel::Debug, "Login popup opened"@),
            ),
            final(self).automation_state == old(self).automation_state,
            final(self).http_state == old(self).http_state,
            final(self).auth_service == old(self).auth_service,
    {
        self.show_login_popup = true;
        self.login_username = String::new();
        self.login_password = String::new();
        self.login_error = None;
        self.login_focused_field = 0;
        self.log_text(LogLevel::Debug, "Login popup opened");
    }

    /// Closes the login popup and clears its form.
    pub fn hide_login(&mut self)
        ensures
            !final(self).show_login_popup,
            final(self).login_username@.len() == 0,
            final(self).login_password@.len() == 0,
            final(self).login_error is None,
            final(self).login_focused_field == 0,
            log_lines(final(self).log_entries@) == log_push(
                log_lines(old(self).log_entries@),
                (LogLevel::Debug, "Login popup closed"@),
            ),
            final(self).automation_state == old(self).automation_state,
            final(self).http_state == old(self).http_state,
            final(self).auth_service == old(self).auth_service,
    {
        self.show_login_popup = false;
        self.login_username = String::new();
        self.login_password = String::new();
        self.login_error = None;
        self.login_focused_field = 0;
        self.log_text(LogLevel::Debug, "Login popup closed");
    }

    /// Asks for the worker to be started. Precondition failures are logged
    /// and start nothing; then the guard lets a run begin only when none of
    /// this kind is in flight. On success the run flag is set at once and the
    /// task input is returned for the caller to hand to a new task.
    pub fn start_automation(&mut self) -> (r: Option<AutomationData>)
        ensures
            ({
                let errs = validation_errors(old(self).automation_state.fields@);
                let creds = old(self).auth_service.stored();
                let logs0 = log_lines(old(self).log_entries@);
                let logs1 = log_lines(final(self).log_entries@);
                if errs.len() > 0 {
                    &&& r is None
                    &&& logs1 == log_push_all(logs0, LogLevel::Error, errs)
                    &&& final(self).automation_state == old(self).automation_state
                } else if creds is None {
                    &&& r is None
                    &&& logs1 == log_push(
                        log_push(
                            logs0,
                            (LogLevel::Error, "Cannot start automation: no credentials provided"@),
                        ),
                        (LogLevel::Debug, "Login popup opened"@),
                    )
                    &&& final(self).show_login_popup
                    &&& final(self).automation_state == old(self).automation_state
                } else if old(self).automation_state.is_running {
                    &&& r is None
                    &&& logs1 == log_push(logs0, (LogLevel::Warn, "Automation is already running"@))
                    &&& final(self).automation_state == old(self).automation_state
                } else {
                    &&& r matches Some(d) && same_fields(
                        d.fields@,
                        old(self).automation_state.fields@,
                    ) && Some(d.credentials) == creds && d.website_config
                        == old(self).automation_state.website_config
                    &&& final(self).automation_state == (AutomationState {
                        is_running: true,
                        ..old(self).automation_state
                    })
                    &&& logs1 == log_push(
                        logs0,
                        (LogLevel::Info, "\u{1F680} Starting browser automation..."@),
                    )
                }
            }),
            old(self).automation_state.is_running ==> r is None,
            final(self).automation_state.is_running == (old(self).automation_state.is_running
                || r is Some),
            final(self).http_state == old(self).http_state,
            final(self).auth_service == old(self).auth_service,
    {
        if !self.automation_state.is_valid() {
            let errors = self.automation_state.get_validation_errors();
            self.log_all(LogLevel::Error, errors);
            return None;
        }
        proof {
            crate::automation::lemma_errors_empty(self.automation_state.fields@);
        }
        let credentials = match self.auth_service.get_credentials() {
            Some(c) => c,
            None => {
                self.log_text(LogLevel::Error, "Cannot start automation: no credentials provided");
                self.show_login();
                return None;
            },
        };
        if !self.try_begin(TaskKind::Automation) {
            self.log_text(LogLevel::Warn, "Automation is already running");
            return None;
        }
        self.log_text(LogLevel::Info, "\u{1F680} Starting browser automation...");
        Some(
            AutomationData {
                fields: crate::template::copy_fields(&self.automation_state.fields),
                credentials,
                website_config: self.automation_state.website_config.duplicate(),
            },
        )
    }

    /// Asks for the current request to be sent. Invalid requests are logged
    /// and start nothing; then the guard lets a call begin only when none is
    /// in flight. On success the sending flag is set at once and a copy of the
    /// request is returned for the caller to send.
    pub fn send_http_request(&mut self) -> (r: Option<HttpRequest>)
        ensures
            ({
                let url = old(self).http_state.current_request.url@;
                let logs0 = log_lines(old(self).log_entries@);
                let logs1 = log_lines(final(self).log_entries@);
                if trimmed(url).len() == 0 {
                    &&& r is None
                    &&& logs1 == log_push_all(logs0, LogLevel::Error, url_errors(url))
                    &&& final(self).http_state == old(self).http_state
                } else if old(self).http_state.is_sending {
                    &&& r is None
                    &&& logs1 == log_push(
                        logs0,
                        (LogLevel::Warn, "HTTP request is already running"@),
                    )
                    &&& final(self).http_state == old(self).http_state
                } else {
                    &&& r matches Some(q) && same_request(q, old(self).http_state.current_request)
                    &&& final(self).http_state == (HttpState {
                        is_sending: true,
                        ..old(self).http_state
                    })
                    &&& logs1 == log_push(
                        logs0,
                        (LogLevel::Info, "\u{1F310} Sending HTTP request..."@),
                    )
                }
            }),
            old(self).http_state.is_sending ==> r is None,
            final(self).http_state.is_sending == (old(self).http_state.is_sending || r is Some),
            final(self).automation_state == old(self).automation_state,
            final(self).auth_service == old(self).auth_service,
    {
        if !self.http_state.is_valid() {
            let errors = self.http_state.get_validation_errors();
            self.log_all(LogLevel::Error, errors);
            return None;
        }
        if !self.try_begin(TaskKind::HttpCall) {
            self.log_text(LogLevel::Warn, "HTTP request is already running");
            return None;
        }
        self.log_text(LogLevel::Info, "\u{1F310} Sending HTTP request...");
        Some(self.http_state.current_request.duplicate())
    }
}

/// The dispatcher clears a run flag only by applying an event that ends a
/// task of that kind, and never sets one: a batch without such an event
/// leaves the flag as it was, and a batch with one leaves it clear.
pub proof fn lemma_run_flags_follow_terminal_events(v: BridgeView, evs: Seq<Event>)
    ensures
        (forall|i: int| 0 <= i < evs.len() ==> !is_terminal(#[trigger] evs[i])) ==> apply_events(
            v,
            evs,
        ).automation_running == v.automation_running,
        (exists|i: int| 0 <= i < evs.len() && is_terminal(#[trigger] evs[i])) ==> !apply_events(
            v,
            evs,
        ).automation_running,
        (forall|i: int| 0 <= i < evs.len() ==> !ends_http(#[trigger] evs[i])) ==> apply_events(
            v,
            evs,
        ).http_sending == v.http_sending,
        (exists|i: int| 0 <= i < evs.len() && ends_http(#[trigger] evs[i])) ==> !apply_events(
            v,
            evs,
        ).http_sending,
        apply_events(v, evs).automation_running ==> v.automation_running,
        apply_events(v, evs).http_sending ==> v.http_sending,
    decreases evs.len(),
{
    if evs.len() > 0 {
        let init = evs.drop_last();
        lemma_run_flags_follow_terminal_events(v, init);
        assert forall|i: int| 0 <= i < init.len() implies init[i] == evs[i] by {}
        if exists|i: int| 0 <= i < evs.len() && is_terminal(#[trigger] evs[i]) {
            let i = choose|i: int| 0 <= i < evs.len() && is_terminal(#[trigger] evs[i]);
            if i < init.len() {
                assert(is_terminal(init[i]));
            }
        }
        if exists|i: int| 0 <= i < evs.len() && ends_http(#[trigger] evs[i]) {
            let i = choose|i: int| 0 <= i < evs.len() && ends_http(#[trigger] evs[i]);
            if i < init.len() {
                assert(ends_http(init[i]));
            }
        }
    }
}

/// Draining an empty channel changes nothing, also right after a batch.
pub proof fn lemma_empty_drain_is_noop(v: BridgeView, evs: Seq<Event>)
    ensures
        apply_events(v, Seq::empty()) == v,
        apply_events(apply_events(v, evs), Seq::empty()) == apply_events(v, evs),
{
}

/// The messages an HTTP call sends back: on success a status line, the
/// time taken and the response itself; on failure the reason.
pub open spec fn http_result_events(result: Result<HttpResponse, Seq<char>>) -> Seq<Event> {
    match result {
        Ok(r) => seq![
            Event::Log(
                LogLevel::Success,
                "\u{2705} HTTP "@ + decimal_nat(r.status_code as nat) + " "@ + r.status_text@,
            ),
            Event::Log(
                LogLevel::Info,
                "Response received in "@ + decimal_nat(r.duration_ms as nat) + " ms"@,
            ),
            Event::Response(r),
        ],
        Err(e) => seq![Event::RequestFailed("HTTP request failed: "@ + e)],
    }
}

/// Builds the messages for the outcome of an HTTP call.
pub fn http_result_messages(result: Result<HttpResponse, String>) -> (r: Vec<AppMessage>)
    ensures
        events_of(r@) == http_result_events(
            match result {
                Ok(x) => Ok(x),
                Err(e) => Err(e@),
            },
        ),
{
    match result {
        Ok(response) => {
            let status = String::from_str("\u{2705} HTTP ").concat(
                format_u64(response.status_code as u64).as_str(),
            ).concat(" ").concat(response.status_text.as_str());
            let timing = String::from_str("Response received in ").concat(
                format_u64(response.duration_ms).as_str(),
            ).concat(" ms");
            let r = vec![
                AppMessage::Log(LogLevel::Success, status),
                AppMessage::Log(LogLevel::Info, timing),
                AppMessage::HttpResponseReceived(response),
            ];
            assert(events_of(r@) =~= http_result_events(Ok(response)));
            r
        },
        Err(e) => {
            let ghost ev = e@;
            let r = vec![
                AppMessage::HttpRequestFailed(String::from_str("HTTP request failed: ").concat(e.as_str())),
            ];
            assert(events_of(r@) =~= http_result_events(Err(ev)));
            r
        },
    }
}

} // verus!
