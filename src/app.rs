//! The interactive state machine: selection over the entry list, the modal
//! popups with their text fields, and the status line with its expiry.

use vstd::prelude::*;
use crate::editor::{edit_spec, is_edit_key, is_edit_key_exec, Key, TextField};
use crate::entries::{build_entries, entries_spec, EntryModel, ListEntry, Origin, RemoteHostResult};
use crate::hosts::{after_last_at, host_from_form, HostConfig, HostRegistry};
use crate::session::TmuxSession;
use crate::text::is_blank;

verus! {

/// How long a status message stays visible, in milliseconds.
pub const STATUS_TTL_MS: u64 = 4000;

/// The field of the host-add form that takes typing.
#[derive(Debug, Clone, Copy, PartialEq, Eq, Structural)]
pub enum HostField {
    Name,
    Host,
}

/// The modal state; at most one popup is open at a time.
#[derive(Debug, Clone)]
pub enum Mode {
    Normal,
    NewSession { target: Origin, input: TextField },
    NewHost { name: TextField, host: TextField, active: HostField, error: Option<String> },
    KillConfirm { origin: Origin, name: String, clients: usize },
}

/// A message for the status line and the time (in milliseconds) from which
/// it is no longer shown.
#[derive(Debug, Clone)]
pub struct StatusMessage {
    pub text: String,
    pub expires_at: u64,
}

/// What the caller is to do after a key press.
#[derive(Debug, Clone)]
pub enum InputResult {
    Continue,
    Quit,
    /// Attach to a local session.
    AttachSession(String),
    /// Attach to a session on a remote host.
    AttachRemote(HostConfig, String),
    /// Create a session at `target`; `None` asks for a generated name.
    CreateSession { target: Origin, name: Option<String> },
    KillSession { origin: Origin, name: String },
    /// A host was added to the registry, which is to be saved.
    HostAdded,
    Refresh,
    SaveSnapshot,
    ShowTerminalInfo,
}

/// The dashboard's state.
#[derive(Debug, Clone)]
pub struct App {
    pub sessions: Vec<TmuxSession>,
    pub remote: Vec<RemoteHostResult>,
    pub hosts: HostRegistry,
    pub selected: usize,
    pub show_help: bool,
    pub mode: Mode,
    pub status: Option<StatusMessage>,
}

/// The selection after a refresh to `n` entries: kept when still in range,
/// else the last entry, or 0 when there is none.
pub open spec fn clamp_selection(sel: int, n: int) -> int {
    if n <= 0 {
        0
    } else if sel >= n {
        n - 1
    } else {
        sel
    }
}

/// One step down, wrapping to the top; no move on an empty list.
pub open spec fn next_index(sel: int, n: int) -> int {
    if n <= 0 {
        sel
    } else {
        (sel + 1) % n
    }
}

/// One step up, wrapping to the bottom; no move on an empty list.
pub open spec fn previous_index(sel: int, n: int) -> int {
    if n <= 0 {
        sel
    } else if sel == 0 {
        n - 1
    } else {
        sel - 1
    }
}

/// Where a new session goes: the host of the entry under the cursor, or the
/// local multiplexer.
pub open spec fn target_of(e: Option<EntryModel>) -> Origin {
    match e {
        Some(EntryModel::Row { origin, .. }) => origin,
        Some(EntryModel::Header { host: Some(h), .. }) => Origin::Remote(h),
        _ => Origin::Local,
    }
}

/// What Enter does on an entry: attach to a session row, nothing elsewhere.
pub open spec fn attach_result(e: Option<EntryModel>) -> InputResult {
    match e {
        Some(EntryModel::Row { origin: Origin::Local, session }) => InputResult::AttachSession(
            session.name,
        ),
        Some(EntryModel::Row { origin: Origin::Remote(h), session }) => InputResult::AttachRemote(
            h,
            session.name,
        ),
        _ => InputResult::Continue,
    }
}

/// All but the modal state are equal.
pub open spec fn same_but_mode(a: App, b: App) -> bool {
    &&& b.sessions == a.sessions
    &&& b.remote == a.remote
    &&& b.hosts == a.hosts
    &&& b.selected == a.selected
    &&& b.show_help == a.show_help
    &&& b.status == a.status
}

/// The host-add form's content is kept, with an error message to show.
pub open spec fn form_kept_with_error(a: Mode, b: Mode) -> bool {
    &&& a matches Mode::NewHost { name, host, active, .. }
    &&& b matches Mode::NewHost { name: name2, host: host2, active: active2, error }
    &&& name2 == name
    &&& host2 == host
    &&& active2 == active
    &&& error is Some
    &&& error->0@.len() > 0
}

/// The kill key on state `a`: a session row without clients yields the kill
/// at once; one with clients opens the confirmation; elsewhere nothing.
pub open spec fn kill_post(a: App, b: App, r: InputResult) -> bool {
    match a.entry_at() {
        Some(EntryModel::Row { origin, session }) => if session.attached_clients == 0 {
            r == (InputResult::KillSession { origin, name: session.name }) && b == a
        } else {
            &&& r is Continue
            &&& same_but_mode(a, b)
            &&& b.mode == (Mode::KillConfirm {
                origin,
                name: session.name,
                clients: session.attached_clients,
            })
        },
        _ => r is Continue && b == a,
    }
}

/// The new-session popup was opened over state `a`.
pub open spec fn opened_new_session(a: App, b: App) -> bool {
    &&& same_but_mode(a, b)
    &&& b.mode matches Mode::NewSession { target, input } && target == target_of(a.entry_at())
        && input.chars@.len() == 0 && input.cursor == 0
}

/// The host-add form was opened over state `a`.
pub open spec fn opened_new_host(a: App, b: App) -> bool {
    &&& same_but_mode(a, b)
    &&& b.mode matches Mode::NewHost { name, host, active, error } && name.chars@.len() == 0
        && name.cursor == 0 && host.chars@.len() == 0 && host.cursor == 0 && active
        == HostField::Host && error is None
}

/// A key in normal mode.
pub open spec fn normal_post(a: App, key: Key, b: App, r: InputResult) -> bool {
    if key == Key::Char('q') || key == Key::Esc {
        r is Quit && b == a
    } else if key == Key::Char('?') || key == Key::Char('h') {
        r is Continue && b == (App { show_help: !a.show_help, ..a })
    } else if key == Key::Down || key == Key::Char('j') {
        r is Continue && b == (App {
            selected: next_index(a.selected as int, a.entry_count()) as usize,
            ..a
        })
    } else if key == Key::Up || key == Key::Char('k') {
        r is Continue && b == (App {
            selected: previous_index(a.selected as int, a.entry_count()) as usize,
            ..a
        })
    } else if key == Key::Enter {
        r == attach_result(a.entry_at()) && b == a
    } else if key == Key::Char('n') {
        r is Continue && opened_new_session(a, b)
    } else if key == Key::Char('a') {
        r is Continue && opened_new_host(a, b)
    } else if key == Key::Char('K') {
        kill_post(a, b, r)
    } else if key == Key::Char('r') {
        r is Refresh && b == a
    } else if key == Key::Char('s') {
        r is SaveSnapshot && b == a
    } else if key == Key::Char('d') {
        r is ShowTerminalInfo && b == a
    } else {
        r is Continue && b == a
    }
}

/// A key while the new-session popup is open: Enter asks for the session
/// (with a generated name when the input is blank), Esc closes, editing keys
/// edit, the rest is ignored.
pub open spec fn new_session_post(a: App, key: Key, b: App, r: InputResult) -> bool {
    a.mode matches Mode::NewSession { target, input } ==> if key == Key::Enter {
        &&& same_but_mode(a, b)
        &&& b.mode is Normal
        &&& r matches InputResult::CreateSession { target: t, name: n }
        &&& t == target
        &&& if is_blank(input.chars@) {
            n is None
        } else {
            n is Some && n->0@ == input.chars@
        }
    } else if key == Key::Esc {
        r is Continue && same_but_mode(a, b) && b.mode is Normal
    } else if is_edit_key(key) {
        &&& r is Continue
        &&& same_but_mode(a, b)
        &&& b.mode matches Mode::NewSession { target: t2, input: i2 } && t2 == target && (
        i2.chars@, i2.cursor as int) == edit_spec(input.chars@, input.cursor as int, key)
    } else {
        r is Continue && b == a
    }
}

pub open spec fn other_field(f: HostField) -> HostField {
    match f {
        HostField::Name => HostField::Host,
        HostField::Host => HostField::Name,
    }
}

/// The display name a host-add form gives: the name typed, or the part of the
/// host after its last `@` when the name is blank.
pub open spec fn form_name(name: Seq<char>, host: Seq<char>) -> Seq<char> {
    if is_blank(name) {
        after_last_at(host)
    } else {
        name
    }
}

/// A key while the host-add form is open. Enter adds the host unless the host
/// field is empty or the name is taken, in which case the form stays open
/// with an error; Tab switches fields; editing keys edit the active field.
pub open spec fn new_host_post(a: App, key: Key, b: App, r: InputResult) -> bool {
    a.mode matches Mode::NewHost { name, host, active, error } ==> if key == Key::Enter {
        if host.chars@.len() == 0 || a.hosts.has_name(form_name(name.chars@, host.chars@)) {
            r is Continue && same_but_mode(a, b) && form_kept_with_error(a.mode, b.mode)
        } else {
            &&& r is HostAdded
            &&& b.mode is Normal
            &&& b.sessions == a.sessions
            &&& b.remote == a.remote
            &&& b.selected == a.selected
            &&& b.show_help == a.show_help
            &&& b.status == a.status
            &&& b.hosts.hosts@.len() == a.hosts.hosts@.len() + 1
            &&& b.hosts.hosts@.drop_last() == a.hosts.hosts@
            &&& b.hosts.hosts@.last().name@ == form_name(name.chars@, host.chars@)
            &&& b.hosts.hosts@.last().host@ == host.chars@
            &&& b.hosts.hosts@.last().key is None
        }
    } else if key == Key::Esc {
        r is Continue && same_but_mode(a, b) && b.mode is Normal
    } else if key == Key::Tab {
        &&& r is Continue
        &&& same_but_mode(a, b)
        &&& b.mode == (Mode::NewHost { name, host, active: other_field(active), error })
    } else if is_edit_key(key) {
        &&& r is Continue
        &&& same_but_mode(a, b)
        &&& b.mode matches Mode::NewHost { name: n2, host: h2, active: a2, error: e2 }
        &&& a2 == active
        &&& e2 == error
        &&& active == HostField::Name ==> h2 == host && (n2.chars@, n2.cursor as int)
            == edit_spec(name.chars@, name.cursor as int, key)
        &&& active == HostField::Host ==> n2 == name && (h2.chars@, h2.cursor as int)
            == edit_spec(host.chars@, host.cursor as int, key)
    } else {
        r is Continue && b == a
    }
}

/// A key while a kill waits for confirmation: y, Y or Enter kill; n, N or
/// Esc cancel; the rest is ignored.
pub open spec fn kill_confirm_post(a: App, key: Key, b: App, r: InputResult) -> bool {
    a.mode matches Mode::KillConfirm { origin, name, .. } ==> if key == Key::Char('y') || key
        == Key::Char('Y') || key == Key::Enter {
        r == (InputResult::KillSession { origin, name }) && same_but_mode(a, b) && b.mode is Normal
    } else if key == Key::Char('n') || key == Key::Char('N') || key == Key::Esc {
        r is Continue && same_but_mode(a, b) && b.mode is Normal
    } else {
        r is Continue && b == a
    }
}

/// What a key does in state `a`, leading to state `b` with result `r`.
/// Ctrl-C quits from every mode.
pub open spec fn input_post(a: App, key: Key, b: App, r: InputResult) -> bool {
    if key == Key::CtrlC {
        r is Quit && b == a
    } else {
        match a.mode {
            Mode::Normal => normal_post(a, key, b, r),
            Mode::NewSession { .. } => new_session_post(a, key, b, r),
            Mode::NewHost { .. } => new_host_post(a, key, b, r),
            Mode::KillConfirm { .. } => kill_confirm_post(a, key, b, r),
        }
    }
}

/// Navigation is circular on a non-empty list: a step down from the last
/// entry reaches the first, a step up from the first reaches the last, and
/// a step one way undoes a step the other way. On an empty list neither step
/// moves.
pub proof fn lemma_navigation_wraps(sel: int, n: int)
    requires
        0 <= n,
        n == 0 ==> sel == 0,
        n > 0 ==> 0 <= sel < n,
    ensures
        n == 0 ==> next_index(sel, n) == sel && previous_index(sel, n) == sel,
        n > 0 ==> 0 <= next_index(sel, n) < n && 0 <= previous_index(sel, n) < n,
        n > 0 ==> next_index(n - 1, n) == 0 && previous_index(0, n) == n - 1,
        n > 0 ==> previous_index(next_index(sel, n), n) == sel,
        n > 0 ==> next_index(previous_index(sel, n), n) == sel,
{
    if n > 0 {
        assert(n % n == 0) by (nonlinear_arith)
            requires
                n > 0,
        ;
        if sel + 1 < n {
            assert((sel + 1) % n == sel + 1) by (nonlinear_arith)
                requires
                    0 <= sel + 1 < n,
            ;
        }
        if sel > 0 {
            assert(sel % n == sel) by (nonlinear_arith)
                requires
                    0 <= sel < n,
            ;
        } else {
            assert((n - 1 + 1) % n == 0) by (nonlinear_arith)
                requires
                    n > 0,
            ;
        }
    }
}

impl App {
    /// The current entry list.
    pub open spec fn entries(&self) -> Seq<EntryModel> {
        entries_spec(self.sessions@, self.remote@)
    }

    pub open spec fn entry_count(&self) -> int {
        self.entries().len() as int
    }

    /// The entry under the cursor, if the list has one there.
    pub open spec fn entry_at(&self) -> Option<EntryModel> {
        if self.selected < self.entry_count() {
            Some(self.entries()[self.selected as int])
        } else {
            None
        }
    }

    pub open spec fn mode_wf(&self) -> bool {
        match self.mode {
            Mode::NewSession { input, .. } => input.wf(),
            Mode::NewHost { name, host, .. } => name.wf() && host.wf(),
            _ => true,
        }
    }

    /// The selection is within the list (0 when it is empty) and the text
    /// cursors within their fields.
    pub open spec fn wf(&self) -> bool {
        &&& (self.selected < self.entry_count() || (self.entry_count() == 0 && self.selected
            == 0))
        &&& self.mode_wf()
    }

    /// A dashboard over the given snapshot, cursor on the first entry, no
    /// popup open.
    pub fn new(sessions: Vec<TmuxSession>, remote: Vec<RemoteHostResult>, hosts: HostRegistry) -> (r:
        App)
        ensures
            r.sessions == sessions,
            r.remote == remote,
            r.hosts == hosts,
            r.selected == 0,
            !r.show_help,
            r.mode is Normal,
            r.status is None,
            r.wf(),
    {
        App {
            sessions,
            remote,
            hosts,
            selected: 0,
            show_help: false,
            mode: Mode::Normal,
            status: None,
        }
    }

    /// The number of entries in the current list.
    pub fn entry_len(&self) -> (n: usize)
        ensures
            n == self.entry_count(),
    {
        build_entries(&self.sessions, &self.remote).len()
    }

    /// The current entry list.
    pub fn entry_list(&self) -> (r: Vec<ListEntry>)
        ensures
            crate::entries::entry_views(r@) == self.entries(),
    {
        build_entries(&self.sessions, &self.remote)
    }

    /// The entry under the cursor.
    pub fn selected_entry(&self) -> (r: Option<ListEntry>)
        ensures
            match r {
                Some(e) => self.entry_at() == Some(e@),
                None => self.entry_at() is None,
            },
    {
        let mut list = build_entries(&self.sessions, &self.remote);
        if self.selected < list.len() {
            let ghost views = crate::entries::entry_views(list@);
            let e = list.swap_remove(self.selected);
            assert(views[self.selected as int] == e@);
            Some(e)
        } else {
            None
        }
    }

    /// Moves the cursor one entry down, wrapping to the top.
    pub fn next(&mut self)
        requires
            old(self).wf(),
        ensures
            final(self).wf(),
            final(self).selected == next_index(old(self).selected as int, old(self).entry_count()),
            *final(self) == (App { selected: final(self).selected, ..*old(self) }),
    {
        let n = self.entry_len();
        if n > 0 {
            self.selected = (self.selected + 1) % n;
        }
    }

    /// Moves the cursor one entry up, wrapping to the bottom.
    pub fn previous(&mut self)
        requires
            old(self).wf(),
        ensures
            final(self).wf(),
            final(self).selected == previous_index(
                old(self).selected as int,
                old(self).entry_count(),
            ),
            *final(self) == (App { selected: final(self).selected, ..*old(self) }),
    {
        let n = self.entry_len();
        if n > 0 {
            self.selected = if self.selected == 0 {
                n - 1
            } else {
                self.selected - 1
            };
        }
    }

    pub fn toggle_help(&mut self)
        ensures
            *final(self) == (App { show_help: !old(self).show_help, ..*old(self) }),
    {
        self.show_help = !self.show_help;
    }

    /// Takes in a new snapshot and brings the selection back within the new
    /// list.
    pub fn refresh(&mut self, sessions: Vec<TmuxSession>, remote: Vec<RemoteHostResult>)
        requires
            old(self).mode_wf(),
        ensures
            final(self).sessions == sessions,
            final(self).remote == remote,
            final(self).selected == clamp_selection(
                old(self).selected as int,
                entries_spec(sessions@, remote@).len() as int,
            ),
            final(self).hosts == old(self).hosts,
            final(self).show_help == old(self).show_help,
            final(self).mode == old(self).mode,
            final(self).status == old(self).status,
            final(self).wf(),
    {
        self.sessions = sessions;
        self.remote = remote;
        let n = self.entry_len();
        if n == 0 {
            self.selected = 0;
        } else if self.selected >= n {
            self.selected = n - 1;
        }
    }

    /// Shows `text` on the status line until `ttl_ms` after `now`.
    pub fn set_status(&mut self, text: String, now: u64)
        ensures
            final(self).status == Some(
                StatusMessage {
                    text,
                    expires_at: if now as int + STATUS_TTL_MS > u64::MAX {
                        u64::MAX
                    } else {
                        (now + STATUS_TTL_MS) as u64
                    },
                },
            ),
            *final(self) == (App { status: final(self).status, ..*old(self) }),
    {
        self.status = Some(StatusMessage { text, expires_at: now.saturating_add(STATUS_TTL_MS) });
    }

    /// Takes in the outcome of an action the caller performed (create, kill,
    /// attach, saving the hosts): a failure becomes the status message, shown
    /// for `STATUS_TTL_MS` from `now`, instead of an error; success changes
    /// nothing.
    pub fn record_outcome(&mut self, outcome: Result<(), String>, now: u64)
        ensures
            match outcome {
                Ok(()) => *final(self) == *old(self),
                Err(e) => {
                    &&& final(self).status == Some(
                        StatusMessage {
                            text: e,
                            expires_at: if now as int + STATUS_TTL_MS > u64::MAX {
                                u64::MAX
                            } else {
                                (now + STATUS_TTL_MS) as u64
                            },
                        },
                    )
                    &&& *final(self) == (App { status: final(self).status, ..*old(self) })
                },
            },
    {
        match outcome {
            Ok(()) => {},
            Err(e) => self.set_status(e, now),
        }
    }

    /// Clears the status message once its time is up; called before each
    /// redraw.
    pub fn expire_status(&mut self, now: u64)
        ensures
            match old(self).status {
                Some(m) => final(self).status == (if now >= m.expires_at {
                    None
                } else {
                    Some(m)
                }),
                None => final(self).status is None,
            },
            *final(self) == (App { status: final(self).status, ..*old(self) }),
    {
        let expired = match &self.status {
            Some(m) => now >= m.expires_at,
            None => false,
        };
        if expired {
            self.status = None;
        }
    }

    /// Opens the new-session popup with an empty name, aimed at the host of
    /// the entry under the cursor (or the local multiplexer).
    pub fn show_new_session_popup(&mut self)
        ensures
            same_but_mode(*old(self), *final(self)),
            final(self).mode matches Mode::NewSession { target, input } && target == target_of(
                old(self).entry_at(),
            ) && input.chars@.len() == 0 && input.cursor == 0,
    {
        let target = match self.selected_entry() {
            Some(ListEntry::SessionRow { origin, .. }) => origin,
            Some(ListEntry::Header { host: Some(h), .. }) => Origin::Remote(h),
            _ => Origin::Local,
        };
        self.mode = Mode::NewSession { target, input: TextField::new() };
    }

    /// Closes the new-session popup and drops what was typed.
    pub fn hide_new_session_popup(&mut self)
        ensures
            same_but_mode(*old(self), *final(self)),
            old(self).mode is NewSession ==> final(self).mode is Normal,
            !(old(self).mode is NewSession) ==> final(self).mode == old(self).mode,
    {
        if let Mode::NewSession { .. } = self.mode {
            self.mode = Mode::Normal;
        }
    }

    /// Edits the new-session name with `key`, when that popup is open.
    pub fn edit_new_session_input(&mut self, key: Key)
        requires
            old(self).mode_wf(),
        ensures
            same_but_mode(*old(self), *final(self)),
            final(self).mode_wf(),
            old(self).mode matches Mode::NewSession { target, input } ==> final(self).mode matches Mode::NewSession {
                target: t2,
                input: i2,
            } && t2 == target && (i2.chars@, i2.cursor as int) == edit_spec(
                input.chars@,
                input.cursor as int,
                key,
            ),
            !(old(self).mode is NewSession) ==> final(self).mode == old(self).mode,
    {
        let mut mode = Mode::Normal;
        std::mem::swap(&mut mode, &mut self.mode);
        match mode {
            Mode::NewSession { target, input } => {
                let mut input = input;
                input.apply(key);
                self.mode = Mode::NewSession { target, input };
            },
            other => {
                self.mode = other;
            },
        }
    }

    /// Types `c` into the new-session name at the cursor.
    pub fn handle_new_session_input(&mut self, c: char)
        requires
            old(self).mode_wf(),
        ensures
            same_but_mode(*old(self), *final(self)),
            final(self).mode_wf(),
            old(self).mode matches Mode::NewSession { target, input } ==> final(self).mode matches Mode::NewSession {
                target: t2,
                input: i2,
            } && t2 == target && (i2.chars@, i2.cursor as int) == edit_spec(
                input.chars@,
                input.cursor as int,
                Key::Char(c),
            ),
            !(old(self).mode is NewSession) ==> final(self).mode == old(self).mode,
    {
        self.edit_new_session_input(Key::Char(c));
    }

    /// Removes the character before the cursor from the new-session name.
    pub fn backspace_new_session_input(&mut self)
        requires
            old(self).mode_wf(),
        ensures
            same_but_mode(*old(self), *final(self)),
            final(self).mode_wf(),
            old(self).mode matches Mode::NewSession { target, input } ==> final(self).mode matches Mode::NewSession {
                target: t2,
                input: i2,
            } && t2 == target && (i2.chars@, i2.cursor as int) == edit_spec(
                input.chars@,
                input.cursor as int,
                Key::Backspace,
            ),
            !(old(self).mode is NewSession) ==> final(self).mode == old(self).mode,
    {
        self.edit_new_session_input(Key::Backspace);
    }

    /// Opens the host-add form with both fields empty and the host field
    /// active.
    pub fn show_new_host_popup(&mut self)
        ensures
            same_but_mode(*old(self), *final(self)),
            final(self).mode matches Mode::NewHost { name, host, active, error } && name.chars@.len()
                == 0 && name.cursor == 0 && host.chars@.len() == 0 && host.cursor == 0 && active
                == HostField::Host && error is None,
    {
        self.mode = Mode::NewHost {
            name: TextField::new(),
            host: TextField::new(),
            active: HostField::Host,
            error: None,
        };
    }

    /// The kill key: a session with no attached client is killed at once; one
    /// with clients asks for confirmation first. Elsewhere nothing happens.
    pub fn request_kill(&mut self) -> (r: InputResult)
        ensures
            kill_post(*old(self), *final(self), r),
    {
        match self.selected_entry() {
            Some(ListEntry::SessionRow { origin, session }) => {
                if session.attached_clients == 0 {
                    InputResult::KillSession { origin, name: session.name }
                } else {
                    self.mode = Mode::KillConfirm {
                        origin,
                        name: session.name,
                        clients: session.attached_clients,
                    };
                    InputResult::Continue
                }
            },
            _ => InputResult::Continue,
        }
    }
    fn normal_key(&mut self, key: Key) -> (r: InputResult)
        requires
            old(self).wf(),
            old(self).mode is Normal,
        ensures
            final(self).wf(),
            normal_post(*old(self), key, *final(self), r),
    {
        match key {
            Key::Char('q') | Key::Esc => InputResult::Quit,
            Key::Char('?') | Key::Char('h') => {
                self.toggle_help();
                InputResult::Continue
            },
            Key::Down | Key::Char('j') => {
                self.next();
                InputResult::Continue
            },
            Key::Up | Key::Char('k') => {
                self.previous();
                InputResult::Continue
            },
            Key::Enter => match self.selected_entry() {
                Some(ListEntry::SessionRow { origin: Origin::Local, session }) => {
                    InputResult::AttachSession(session.name)
                },
                Some(ListEntry::SessionRow { origin: Origin::Remote(h), session }) => {
                    InputResult::AttachRemote(h, session.name)
                },
                _ => InputResult::Continue,
            },
            Key::Char('n') => {
                self.show_new_session_popup();
                InputResult::Continue
            },
            Key::Char('a') => {
                self.show_new_host_popup();
                InputResult::Continue
            },
            Key::Char('K') => self.request_kill(),
            Key::Char('r') => InputResult::Refresh,
            Key::Char('s') => InputResult::SaveSnapshot,
            Key::Char('d') => InputResult::ShowTerminalInfo,
            _ => InputResult::Continue,
        }
    }

    fn new_session_key(&mut self, key: Key) -> (r: InputResult)
        requires
            old(self).wf(),
            old(self).mode is NewSession,
        ensures
            final(self).wf(),
            new_session_post(*old(self), key, *final(self), r),
    {
        let mut mode = Mode::Normal;
        std::mem::swap(&mut mode, &mut self.mode);
        match mode {
            Mode::NewSession { target, input } => {
                if key == Key::Enter {
                    let name = if input.is_blank() {
                        None
                    } else {
                        Some(input.text())
                    };
                    InputResult::CreateSession { target, name }
                } else if key == Key::Esc {
                    InputResult::Continue
                } else if !is_edit_key_exec(key) {
                    self.mode = Mode::NewSession { target, input };
                    InputResult::Continue
                } else {
                    let mut input = input;
                    input.apply(key);
                    self.mode = Mode::NewSession { target, input };
                    InputResult::Continue
                }
            },
            other => {
                self.mode = other;
                InputResult::Continue
            },
        }
    }

    fn new_host_key(&mut self, key: Key) -> (r: InputResult)
        requires
            old(self).wf(),
            old(self).mode is NewHost,
        ensures
            final(self).wf(),
            new_host_post(*old(self), key, *final(self), r),
    {
        let mut mode = Mode::Normal;
        std::mem::swap(&mut mode, &mut self.mode);
        match mode {
            Mode::NewHost { name, host, active, error } => {
                if key == Key::Enter {
                    match host_from_form(name.chars.as_slice(), host.chars.as_slice(), None) {
                        Err(_) => {
                            proof {
                                reveal_strlit("host must not be empty");
                            }
                            let msg = String::from_str("host must not be empty");
                            self.mode = Mode::NewHost { name, host, active, error: Some(msg) };
                            InputResult::Continue
                        },
                        Ok(cfg) => {
                            let ghost added = cfg;
                            match self.hosts.add(cfg) {
                                Err(_) => {
                                    proof {
                                        reveal_strlit("a host of this name exists");
                                    }
                                    let msg = String::from_str("a host of this name exists");
                                    self.mode = Mode::NewHost {
                                        name,
                                        host,
                                        active,
                                        error: Some(msg),
                                    };
                                    InputResult::Continue
                                },
                                Ok(()) => {
                                    assert(self.hosts.hosts@.drop_last() =~= old(
                                        self,
                                    ).hosts.hosts@);
                                    InputResult::HostAdded
                                },
                            }
                        },
                    }
                } else if key == Key::Esc {
                    InputResult::Continue
                } else if key == Key::Tab {
                    let next_field = match active {
                        HostField::Name => HostField::Host,
                        HostField::Host => HostField::Name,
                    };
                    self.mode = Mode::NewHost { name, host, active: next_field, error };
                    InputResult::Continue
                } else if !is_edit_key_exec(key) {
                    self.mode = Mode::NewHost { name, host, active, error };
                    InputResult::Continue
                } else {
                    let mut name = name;
                    let mut host = host;
                    match active {
                        HostField::Name => {
                            name.apply(key);
                        },
                        HostField::Host => {
                            host.apply(key);
                        },
                    }
                    self.mode = Mode::NewHost { name, host, active, error };
                    InputResult::Continue
                }
            },
            other => {
                self.mode = other;
                InputResult::Continue
            },
        }
    }

    fn kill_confirm_key(&mut self, key: Key) -> (r: InputResult)
        requires
            old(self).wf(),
            old(self).mode is KillConfirm,
        ensures
            final(self).wf(),
            kill_confirm_post(*old(self), key, *final(self), r),
    {
        let mut mode = Mode::Normal;
        std::mem::swap(&mut mode, &mut self.mode);
        match mode {
            Mode::KillConfirm { origin, name, clients } => {
                if key == Key::Char('y') || key == Key::Char('Y') || key == Key::Enter {
                    InputResult::KillSession { origin, name }
                } else if key == Key::Char('n') || key == Key::Char('N') || key == Key::Esc {
                    InputResult::Continue
                } else {
                    self.mode = Mode::KillConfirm { origin, name, clients };
                    InputResult::Continue
                }
            },
            other => {
                self.mode = other;
                InputResult::Continue
            },
        }
    }
}

/// Handles one key press. Ctrl-C quits from any mode; otherwise the key goes
/// to the open popup, or to the list when none is open.
pub fn handle_input(app: &mut App, key: Key) -> (r: InputResult)
    requires
        old(app).wf(),
    ensures
        final(app).wf(),
        input_post(*old(app), key, *final(app), r),
{
    if key == Key::CtrlC {
        return InputResult::Quit;
    }
    match app.mode {
        Mode::Normal => app.normal_key(key),
        Mode::NewSession { .. } => app.new_session_key(key),
        Mode::NewHost { .. } => app.new_host_key(key),
        Mode::KillConfirm { .. } => app.kill_confirm_key(key),
    }
}

/// What a key does in the live overview.
#[derive(Debug, Clone, Copy, PartialEq, Eq, Structural)]
pub enum TopAction {
    Quit,
    Refresh,
    Ignore,
}

/// The live overview's keys: q, Esc and Ctrl-C quit, r refreshes, the rest
/// is ignored.
pub fn top_key(key: Key) -> (r: TopAction)
    ensures
        r == (if key == Key::Char('q') || key == Key::Esc || key == Key::CtrlC {
            TopAction::Quit
        } else if key == Key::Char('r') {
            TopAction::Refresh
        } else {
            TopAction::Ignore
        }),
{
    match key {
        Key::Char('q') | Key::Esc | Key::CtrlC => TopAction::Quit,
        Key::Char('r') => TopAction::Refresh,
        _ => TopAction::Ignore,
    }
}

} // verus!
