use vstd::prelude::*;
use vstd::string::StringExecFns;
use crate::auth::{credentials_error, AuthService};
use crate::automation::Credentials;
use crate::bridge::{log_lines, log_push, App, AppMode, FocusedPane, InputMode};
use crate::event::{level_name, LogEntry, LogLevel};
use crate::template::FormField;

verus! {

/// What `str::to_lowercase` makes of a text.
pub uninterp spec fn lower_of(s: Seq<char>) -> Seq<char>;

/// Relies on `str::to_lowercase`: the result depends on the characters
/// alone, and an empty text stays empty.
#[verifier::external_body]
fn lowercase(s: &str) -> (r: String)
    ensures
        r@ == lower_of(s@),
        s@.len() == 0 ==> r@.len() == 0,
{
    s.to_lowercase()
}

/// Relies on `char::to_string` (through `Display`): the text holding just
/// that character.
#[verifier::external_body]
fn char_text(c: char) -> (r: String)
    ensures
        r@ == seq![c],
{
    c.to_string()
}

/// Whether `needle` occurs in `hay`.
pub open spec fn has_sub(hay: Seq<char>, needle: Seq<char>) -> bool {
    exists|i: int|
        0 <= i && i + needle.len() <= hay.len() && #[trigger] hay.subrange(i, i + needle.len())
            == needle
}

fn matches_at(hay: &str, needle: &str, i: usize) -> (r: bool)
    requires
        i + needle@.len() <= hay@.len(),
    ensures
        r == (hay@.subrange(i as int, i + needle@.len()) == needle@),
{
    let m = needle.unicode_len();
    let n = hay.unicode_len();
    let mut k: usize = 0;
    while k < m
        invariant
            m == needle@.len(),
            n == hay@.len(),
            i + m <= hay@.len(),
            k <= m,
            forall|q: int| 0 <= q < k ==> hay@[i + q] == needle@[q],
        decreases m - k,
    {
        if hay.get_char(i + k) != needle.get_char(k) {
            assert(hay@.subrange(i as int, i + m)[k as int] != needle@[k as int]);
            return false;
        }
        k = k + 1;
    }
    assert(hay@.subrange(i as int, i + m) =~= needle@);
    true
}

/// `str::contains` for a text pattern.
pub fn contains_text(hay: &str, needle: &str) -> (r: bool)
    ensures
        r == has_sub(hay@, needle@),
{
    let n = hay.unicode_len();
    let m = needle.unicode_len();
    if m > n {
        return false;
    }
    let mut i: usize = 0;
    loop
        invariant
            n == hay@.len(),
            m == needle@.len(),
            m <= n,
            i <= n - m,
            forall|q: int| 0 <= q < i ==> #[trigger] hay@.subrange(q, q + m) != needle@,
        decreases n - m - i,
    {
        if matches_at(hay, needle, i) {
            return true;
        }
        if i == n - m {
            return false;
        }
        i = i + 1;
    }
}

/// Whether a log line matches a search, ignoring case: an empty search
/// matches everything; otherwise the message or the level name must hold it.
pub open spec fn entry_matches(message: Seq<char>, level: LogLevel, query: Seq<char>) -> bool {
    query.len() == 0 || has_sub(lower_of(message), lower_of(query)) || has_sub(
        lower_of(level_name(level)),
        lower_of(query),
    )
}

/// The search test on texts already folded to lowercase.
pub fn matches_folded(message: &str, level: &str, query: &str) -> (r: bool)
    ensures
        r == (has_sub(message@, query@) || has_sub(level@, query@)),
{
    contains_text(message, query) || contains_text(level, query)
}

impl LogEntry {
    /// Whether the entry matches a search, ignoring case.
    pub fn matches_search(&self, query: &str) -> (r: bool)
        ensures
            r == entry_matches(self.message@, self.level, query@),
    {
        if query.unicode_len() == 0 {
            return true;
        }
        let q = lowercase(query);
        let m = lowercase(self.message.as_str());
        let l = lowercase(self.level.as_str());
        matches_folded(m.as_str(), l.as_str(), q.as_str())
    }
}

/// The entries that match a search, oldest first.
pub open spec fn matching(s: Seq<LogEntry>, q: Seq<char>) -> Seq<LogEntry>
    decreases s.len(),
{
    if s.len() == 0 {
        Seq::empty()
    } else if entry_matches(s.last().message@, s.last().level, q) {
        matching(s.drop_last(), q).push(s.last())
    } else {
        matching(s.drop_last(), q)
    }
}

/// The entries references point to.
pub open spec fn entries(s: Seq<&LogEntry>) -> Seq<LogEntry> {
    s.map_values(|r: &LogEntry| *r)
}

/// The length of the focused field's value, if a field is focused.
pub open spec fn focused_len(app: App) -> Option<int> {
    let f = app.automation_state.focused_field;
    if f < app.automation_state.fields@.len() {
        Some(app.automation_state.fields@[f as int].value@.len() as int)
    } else {
        None
    }
}

pub open spec fn min(a: int, b: int) -> int {
    if a < b {
        a
    } else {
        b
    }
}

impl App {
    /// The log entries that match the search, oldest first.
    pub fn get_filtered_logs(&self) -> (r: Vec<&LogEntry>)
        ensures
            entries(r@) == matching(self.log_entries@, self.log_search_query@),
    {
        let mut out: Vec<&LogEntry> = Vec::new();
        let mut i: usize = 0;
        while i < self.log_entries.len()
            invariant
                i <= self.log_entries@.len(),
                entries(out@) == matching(
                    self.log_entries@.subrange(0, i as int),
                    self.log_search_query@,
                ),
            decreases self.log_entries@.len() - i,
        {
            let ghost pre = self.log_entries@.subrange(0, i + 1);
            assert(pre.drop_last() =~= self.log_entries@.subrange(0, i as int));
            let e = &self.log_entries[i];
            if e.matches_search(self.log_search_query.as_str()) {
                let ghost before = entries(out@);
                out.push(e);
                assert(entries(out@) =~= before.push(*e));
            }
            i = i + 1;
        }
        assert(self.log_entries@.subrange(0, i as int) =~= self.log_entries@);
        out
    }

    /// Scrolls one entry towards older ones, stopping at the oldest match.
    pub fn scroll_logs_up(&mut self)
        ensures
            ({
                let n = matching(old(self).log_entries@, old(self).log_search_query@).len();
                final(self).log_scroll_position == if n > 1 {
                    min(old(self).log_scroll_position + 1, n - 1)
                } else {
                    old(self).log_scroll_position as int
                }
            }),
            *final(self) == (App { log_scroll_position: final(self).log_scroll_position, ..*old(self) }),
    {
        let n = self.get_filtered_logs().len();
        if n > 1 {
            let up = if self.log_scroll_position < usize::MAX {
                self.log_scroll_position + 1
            } else {
                self.log_scroll_position
            };
            self.log_scroll_position = if up < n - 1 {
                up
            } else {
                n - 1
            };
        }
    }

    /// Scrolls one entry towards newer ones.
    pub fn scroll_logs_down(&mut self)
        ensures
            final(self).log_scroll_position == if old(self).log_scroll_position > 0 {
                (old(self).log_scroll_position - 1) as usize
            } else {
                0
            },
            *final(self) == (App { log_scroll_position: final(self).log_scroll_position, ..*old(self) }),
    {
        if self.log_scroll_position > 0 {
            self.log_scroll_position = self.log_scroll_position - 1;
        }
    }

    /// Jumps to the oldest matching entry.
    pub fn scroll_logs_to_top(&mut self)
        ensures
            ({
                let n = matching(old(self).log_entries@, old(self).log_search_query@).len();
                final(self).log_scroll_position == if n > 0 {
                    n - 1
                } else {
                    old(self).log_scroll_position as int
                }
            }),
            *final(self) == (App { log_scroll_position: final(self).log_scroll_position, ..*old(self) }),
    {
        let n = self.get_filtered_logs().len();
        if n > 0 {
            self.log_scroll_position = n - 1;
        }
    }

    /// Jumps to the newest entry.
    pub fn scroll_logs_to_bottom(&mut self)
        ensures
            *final(self) == (App { log_scroll_position: 0, ..*old(self) }),
    {
        self.log_scroll_position = 0;
    }

    /// Opens or closes the log search; closing it clears the search text.
    pub fn toggle_log_search_mode(&mut self)
        ensures
            final(self).log_search_mode == !old(self).log_search_mode,
            old(self).log_search_mode ==> final(self).log_search_query@.len() == 0,
            !old(self).log_search_mode ==> final(self).log_search_query == old(self).log_search_query,
            *final(self) == (App {
                log_search_mode: final(self).log_search_mode,
                log_search_query: final(self).log_search_query,
                ..*old(self)
            }),
    {
        self.log_search_mode = !self.log_search_mode;
        if !self.log_search_mode {
            self.log_search_query = String::new();
        }
    }

    /// The matching entries that fit in `display_height` rows at the current
    /// scroll position, and whether one can scroll up and down from there.
    pub fn get_visible_logs_for_display(&self, display_height: usize) -> (r: (
        Vec<&LogEntry>,
        bool,
        bool,
    ))
        ensures
            ({
                let f = matching(self.log_entries@, self.log_search_query@);
                let n = f.len() as int;
                let pos = self.log_scroll_position as int;
                let end = if n > pos {
                    n - pos
                } else {
                    0
                };
                let start = if end > display_height {
                    end - display_height
                } else {
                    0
                };
                if n == 0 {
                    r.0@.len() == 0 && !r.1 && !r.2
                } else {
                    entries(r.0@) == f.subrange(start, end) && r.1 == (pos < n - 1) && r.2 == (pos
                        > 0)
                }
            }),
    {
        let filtered = self.get_filtered_logs();
        if filtered.len() == 0 {
            return (Vec::new(), false, false);
        }
        let total = filtered.len();
        let pos = self.log_scroll_position;
        let end = if total > pos {
            total - pos
        } else {
            0
        };
        let start = if end > display_height {
            end - display_height
        } else {
            0
        };
        let mut shown: Vec<&LogEntry> = Vec::new();
        let mut i = start;
        while i < end
            invariant
                start <= i <= end,
                end <= filtered@.len(),
                entries(shown@) == entries(filtered@).subrange(start as int, i as int),
            decreases end - i,
        {
            let ghost before = entries(shown@);
            assert(*filtered@[i as int] == entries(filtered@)[i as int]);
            shown.push(filtered[i]);
            assert(entries(shown@) =~= before.push(*filtered@[i as int]));
            assert(entries(shown@) =~= entries(filtered@).subrange(start as int, i + 1));
            i = i + 1;
        }
        (shown, pos < total - 1, pos > 0)
    }

    /// Switches mode, logging the change.
    pub fn switch_mode(&mut self, mode: AppMode)
        ensures
            final(self).current_mode == mode,
            mode != old(self).current_mode ==> log_lines(final(self).log_entries@) == log_push(
                log_lines(old(self).log_entries@),
                (
                    LogLevel::Info,
                    match mode {
                        AppMode::Automation => "Switched to Automation mode"@,
                        AppMode::Http => "Switched to Http mode"@,
                    },
                ),
            ),
            mode == old(self).current_mode ==> *final(self) == *old(self),
            final(self).automation_state == old(self).automation_state,
            final(self).http_state == old(self).http_state,
    {
        if mode != self.current_mode {
            self.current_mode = mode;
            match mode {
                AppMode::Automation => self.log_text(LogLevel::Info, "Switched to Automation mode"),
                AppMode::Http => self.log_text(LogLevel::Info, "Switched to Http mode"),
            }
        }
    }

    /// Moves the focus to a pane, logging it.
    pub fn focus_pane(&mut self, pane: FocusedPane)
        ensures
            final(self).focused_pane == pane,
            log_lines(final(self).log_entries@) == log_push(
                log_lines(old(self).log_entries@),
                (
                    LogLevel::Debug,
                    match pane {
                        FocusedPane::Collections => "Focused Collections pane"@,
                        FocusedPane::Form => "Focused Form pane"@,
                        FocusedPane::Logs => "Focused Logs pane"@,
                    },
                ),
            ),
            final(self).automation_state == old(self).automation_state,
            final(self).http_state == old(self).http_state,
    {
        self.focused_pane = pane;
        match pane {
            FocusedPane::Collections => self.log_text(LogLevel::Debug, "Focused Collections pane"),
            FocusedPane::Form => self.log_text(LogLevel::Debug, "Focused Form pane"),
            FocusedPane::Logs => self.log_text(LogLevel::Debug, "Focused Logs pane"),
        }
    }

    /// Asks the application to stop.
    pub fn quit(&mut self)
        ensures
            final(self).should_quit,
            log_lines(final(self).log_entries@) == log_push(
                log_lines(old(self).log_entries@),
                (LogLevel::Info, "Application shutting down"@),
            ),
            final(self).automation_state == old(self).automation_state,
            final(self).http_state == old(self).http_state,
    {
        self.should_quit = true;
        self.log_text(LogLevel::Info, "Application shutting down");
    }

    /// Checks the login form and, when it is well formed, stores the
    /// credentials and closes the popup.
    pub fn attempt_login(&mut self) -> (r: bool)
        ensures
            ({
                let err = credentials_error(old(self).login_username@, old(self).login_password@);
                match err {
                    Some(m) => !r && (final(self).login_error matches Some(e) && e@ == m)
                        && final(self).auth_service == old(self).auth_service,
                    None => r && final(self).auth_service.stored() == Some(
                        Credentials {
                            username: old(self).login_username,
                            password: old(self).login_password,
                        },
                    ) && !final(self).show_login_popup && final(self).login_error is None,
                }
            }),
            final(self).automation_state == old(self).automation_state,
            final(self).http_state == old(self).http_state,
    {
        self.login_error = None;
        match AuthService::validate_credentials(
            self.login_username.as_str(),
            self.login_password.as_str(),
        ) {
            Err(e) => {
                self.login_error = Some(e);
                false
            },
            Ok(()) => {
                let username = self.login_username.clone();
                let password = self.login_password.clone();
                let _ = self.auth_service.store_credentials(username, password);
                let msg = String::from_str("Logged in as: ").concat(self.login_username.as_str());
                self.log(LogLevel::Success, msg);
                self.hide_login();
                true
            },
        }
    }

    /// Moves the edit cursor one character left, within the focused field.
    pub fn move_field_cursor_left(&mut self)
        ensures
            match focused_len(*old(self)) {
                Some(l) => final(self).form_field_cursor_index == min(
                    if old(self).form_field_cursor_index > 0 {
                        old(self).form_field_cursor_index - 1
                    } else {
                        0
                    },
                    l,
                ),
                None => final(self).form_field_cursor_index == old(self).form_field_cursor_index,
            },
            *final(self) == (App {
                form_field_cursor_index: final(self).form_field_cursor_index,
                ..*old(self)
            }),
    {
        if let Some(field) = self.automation_state.get_focused_field() {
            let len = field.value.unicode_len();
            let left = if self.form_field_cursor_index > 0 {
                self.form_field_cursor_index - 1
            } else {
                0
            };
            self.form_field_cursor_index = if left < len {
                left
            } else {
                len
            };
        }
    }

    /// Moves the edit cursor one character right, within the focused field.
    pub fn move_field_cursor_right(&mut self)
        ensures
            match focused_len(*old(self)) {
                Some(l) => final(self).form_field_cursor_index == min(
                    old(self).form_field_cursor_index + 1,
                    l,
                ),
                None => final(self).form_field_cursor_index == old(self).form_field_cursor_index,
            },
            *final(self) == (App {
                form_field_cursor_index: final(self).form_field_cursor_index,
                ..*old(self)
            }),
    {
        if let Some(field) = self.automation_state.get_focused_field() {
            let len = field.value.unicode_len();
            let right = if self.form_field_cursor_index < len {
                self.form_field_cursor_index + 1
            } else {
                len
            };
            self.form_field_cursor_index = right;
        }
    }

    /// Types a character at the cursor in the focused field.
    pub fn insert_char_at_cursor(&mut self, c: char)
        ensures
            ({
                let f = old(self).automation_state.focused_field as int;
                let fields = old(self).automation_state.fields@;
                if 0 <= f < fields.len() {
                    let v = fields[f].value@;
                    let k = min(old(self).form_field_cursor_index as int, v.len() as int);
                    &&& final(self).automation_state.fields@.len() == fields.len()
                    &&& final(self).automation_state.fields@[f] == (FormField {
                        value: final(self).automation_state.fields@[f].value,
                        ..fields[f]
                    })
                    &&& final(self).automation_state.fields@[f].value@ == v.take(k) + seq![c]
                        + v.skip(k)
                    &&& forall|i: int|
                        0 <= i < fields.len() && i != f
                            ==> #[trigger] final(self).automation_state.fields@[i] == fields[i]
                    &&& final(self).form_field_cursor_index == if old(
                        self,
                    ).form_field_cursor_index < usize::MAX {
                        (old(self).form_field_cursor_index + 1) as usize
                    } else {
                        old(self).form_field_cursor_index
                    }
                } else {
                    *final(self) == *old(self)
                }
            }),
    {
        let f = self.automation_state.focused_field;
        if f < self.automation_state.fields.len() {
            let len = self.automation_state.fields[f].value.unicode_len();
            let k = if self.form_field_cursor_index < len {
                self.form_field_cursor_index
            } else {
                len
            };
            let v = self.automation_state.fields[f].value.as_str();
            let ghost vv = v@;
            let head = String::from_str(v.substring_char(0, k));
            let tail = v.substring_char(k, len);
            let next = head.concat(char_text(c).as_str()).concat(tail);
            assert(next@ =~= vv.take(k as int) + seq![c] + vv.skip(k as int));
            self.automation_state.fields[f].value = next;
            if self.form_field_cursor_index < usize::MAX {
                self.form_field_cursor_index = self.form_field_cursor_index + 1;
            }
        }
    }

    /// Deletes the character before the cursor in the focused field.
    pub fn delete_char_at_cursor(&mut self)
        ensures
            ({
                let f = old(self).automation_state.focused_field as int;
                let fields = old(self).automation_state.fields@;
                let cur = old(self).form_field_cursor_index as int;
                if cur > 0 && 0 <= f < fields.len() {
                    let v = fields[f].value@;
                    let nv = v.take(min(cur - 1, v.len() as int)) + v.skip(min(cur, v.len() as int));
                    &&& final(self).automation_state.fields@.len() == fields.len()
                    &&& final(self).automation_state.fields@[f] == (FormField {
                        value: final(self).automation_state.fields@[f].value,
                        ..fields[f]
                    })
                    &&& final(self).automation_state.fields@[f].value@ == nv
                    &&& forall|i: int|
                        0 <= i < fields.len() && i != f
                            ==> #[trigger] final(self).automation_state.fields@[i] == fields[i]
                    &&& final(self).form_field_cursor_index == min(cur - 1, nv.len() as int)
                } else {
                    *final(self) == *old(self)
                }
            }),
    {
        let f = self.automation_state.focused_field;
        if self.form_field_cursor_index > 0 && f < self.automation_state.fields.len() {
            let cur = self.form_field_cursor_index;
            let len = self.automation_state.fields[f].value.unicode_len();
            let a = if cur - 1 < len {
                cur - 1
            } else {
                len
            };
            let b = if cur < len {
                cur
            } else {
                len
            };
            let v = self.automation_state.fields[f].value.as_str();
            let ghost vv = v@;
            let next = String::from_str(v.substring_char(0, a)).concat(v.substring_char(b, len));
            assert(next@ =~= vv.take(a as int) + vv.skip(b as int));
            let nlen = next.unicode_len();
            self.automation_state.fields[f].value = next;
            self.form_field_cursor_index = if cur - 1 < nlen {
                cur - 1
            } else {
                nlen
            };
        }
    }

    pub fn reset_field_cursor(&mut self)
        ensures
            *final(self) == (App { form_field_cursor_index: 0, ..*old(self) }),
    {
        self.form_field_cursor_index = 0;
    }

    /// Puts the cursor after the last character of the focused field.
    pub fn set_cursor_to_end_of_field(&mut self)
        ensures
            match focused_len(*old(self)) {
                Some(l) => final(self).form_field_cursor_index == l,
                None => final(self).form_field_cursor_index == old(self).form_field_cursor_index,
            },
            *final(self) == (App {
                form_field_cursor_index: final(self).form_field_cursor_index,
                ..*old(self)
            }),
    {
        if let Some(field) = self.automation_state.get_focused_field() {
            self.form_field_cursor_index = field.value.unicode_len();
        }
    }

    /// Starts editing the focused field, with the cursor at its end.
    pub fn enter_edit_mode(&mut self)
        ensures
            final(self).input_mode == InputMode::Edit,
            match focused_len(*old(self)) {
                Some(l) => final(self).form_field_cursor_index == l,
                None => final(self).form_field_cursor_index == old(self).form_field_cursor_index,
            },
            log_lines(final(self).log_entries@) == log_push(
                log_lines(old(self).log_entries@),
                (LogLevel::Debug, "Entered edit mode"@),
            ),
            final(self).automation_state == old(self).automation_state,
    {
        self.input_mode = InputMode::Edit;
        self.set_cursor_to_end_of_field();
        self.log_text(LogLevel::Debug, "Entered edit mode");
    }

    /// Stops editing and puts the cursor back at the start.
    pub fn exit_edit_mode(&mut self)
        ensures
            final(self).input_mode == InputMode::Normal,
            final(self).form_field_cursor_index == 0,
            log_lines(final(self).log_entries@) == log_push(
                log_lines(old(self).log_entries@),
                (LogLevel::Debug, "Exited edit mode"@),
            ),
            final(self).automation_state == old(self).automation_state,
    {
        self.input_mode = InputMode::Normal;
        self.reset_field_cursor();
        self.log_text(LogLevel::Debug, "Exited edit mode");
    }
}

} // verus!
