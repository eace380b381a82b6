//! What the client does with a key press and with a report of the request
//! task. The terminal loop reads keys and reports, hands them here, and
//! carries out what comes back (quitting, saving, sending, forwarding a key
//! to an editor).
use vstd::prelude::*;

use crate::app::{
    next_focus, ApiRequest, App, Focus, RequestTab, SidebarMode,
    SidebarSelection, HTTP_METHOD_COUNT,
};
use crate::http::{time_text, time_text_spec, HttpResponseEvent};

verus! {

/// The key of a key press, as far as the client tells keys apart.
#[derive(Clone, Copy, PartialEq, Eq, Debug, Structural)]
pub enum KeyCode {
    Char(char),
    Tab,
    BackTab,
    Enter,
    Esc,
    Up,
    Down,
    Other,
}

/// A key press: the key, and whether Control (and no other modifier) was
/// held.
#[derive(Clone, Copy, PartialEq, Eq, Debug, Structural)]
pub struct KeyPress {
    pub code: KeyCode,
    pub ctrl: bool,
}

/// The editor that receives a key.
#[derive(Clone, Copy, PartialEq, Eq, Debug, Structural)]
pub enum EditTarget {
    Url,
    Headers,
    Params,
    Body,
    Variables,
}

/// What a key press means in the current state.
#[derive(Clone, Copy, PartialEq, Eq, Debug, Structural)]
pub enum KeyCommand {
    /// Ctrl-C anywhere, Esc in the sidebar.
    Quit,
    /// Ctrl-Y: switch the sidebar between collections and history.
    ToggleMode,
    /// Tab (`true`) or Shift-Tab (`false`).
    CycleFocus(bool),
    /// Ctrl-E.
    Send,
    /// Ctrl-H, Ctrl-P, Ctrl-B on a request, in the collections mode.
    SelectTab(RequestTab),
    /// Ctrl-M on a request, in the collections mode.
    CycleMethod,
    /// Up or Down in the sidebar: the flat position to move to.
    MoveCursor(usize),
    /// Enter on a request in the sidebar.
    OpenRequest,
    /// Enter on an environment in the sidebar.
    ActivateEnvironment(usize),
    /// A key typed into an editor.
    Edit(EditTarget),
    /// A key typed into the tab pane in the history mode: the pane is
    /// read-only, and the editors are saved.
    SaveEditors,
    /// Up (`false`) or Down (`true`) in the response pane.
    Scroll(bool),
    /// Any other key.
    Ignore,
}

/// What the terminal loop is to do after a key press.
#[derive(Debug)]
pub enum KeyOutcome {
    /// Leave the client.
    Quit,
    /// Nothing more, apart from writing the configuration out where
    /// `persist` holds.
    Done { persist: bool },
    /// Write the configuration out where `persist` holds, and send
    /// `request`.
    Send { persist: bool, request: ApiRequest },
    /// Hand the key to the editor `target`, then save the editors.
    Edit(EditTarget),
}

/// Up or `k`.
pub open spec fn is_up(code: KeyCode) -> bool {
    code == KeyCode::Up || code == KeyCode::Char('k')
}

/// Down or `j`.
pub open spec fn is_down(code: KeyCode) -> bool {
    code == KeyCode::Down || code == KeyCode::Char('j')
}

/// The flat position above `index` among `total` entries, wrapping to the
/// last one.
pub open spec fn position_above(index: int, total: int) -> int {
    if index == 0 {
        total - 1
    } else {
        index - 1
    }
}

/// The flat position below `index` among `total` entries, wrapping to the
/// first one.
pub open spec fn position_below(index: int, total: int) -> int {
    (index + 1) % total
}

/// The editor that receives keys in the tab pane.
pub open spec fn tab_target(sel: SidebarSelection, tab: RequestTab) -> EditTarget {
    match sel {
        SidebarSelection::Request(_) => match tab {
            RequestTab::Headers => EditTarget::Headers,
            RequestTab::Params => EditTarget::Params,
            RequestTab::Body => EditTarget::Body,
        },
        SidebarSelection::Environment(_) => EditTarget::Variables,
    }
}

impl<'a> App<'a> {
    /// What `key` means in this state. Checked in this order: Ctrl-C, Esc
    /// in the sidebar, Ctrl-Y, Tab, Shift-Tab, Ctrl-E, the Ctrl keys of a
    /// selected request in the collections mode, then the keys of the
    /// focused pane. No runs are recorded, so the history list is empty and
    /// the sidebar keys do nothing in the history mode.
    pub open spec fn key_command(&self, key: KeyPress) -> KeyCommand {
        let sel = self.selection();
        let collections = self.sidebar_mode == SidebarMode::Collections;
        if key.ctrl && key.code == KeyCode::Char('c') {
            KeyCommand::Quit
        } else if self.focus == Focus::Sidebar && key.code == KeyCode::Esc {
            KeyCommand::Quit
        } else if key.ctrl && key.code == KeyCode::Char('y') {
            KeyCommand::ToggleMode
        } else if key.code == KeyCode::Tab {
            KeyCommand::CycleFocus(true)
        } else if key.code == KeyCode::BackTab {
            KeyCommand::CycleFocus(false)
        } else if key.ctrl && key.code == KeyCode::Char('e') {
            KeyCommand::Send
        } else if key.ctrl && collections && sel is Request && key.code == KeyCode::Char('h') {
            KeyCommand::SelectTab(RequestTab::Headers)
        } else if key.ctrl && collections && sel is Request && key.code == KeyCode::Char('p') {
            KeyCommand::SelectTab(RequestTab::Params)
        } else if key.ctrl && collections && sel is Request && key.code == KeyCode::Char('b') {
            KeyCommand::SelectTab(RequestTab::Body)
        } else if key.ctrl && collections && sel is Request && key.code == KeyCode::Char('m') {
            KeyCommand::CycleMethod
        } else {
            match self.focus {
                Focus::Sidebar => if !collections {
                    KeyCommand::Ignore
                } else if is_down(key.code) {
                    KeyCommand::MoveCursor(
                        position_below(self.sidebar_index as int, self.total_items()) as usize,
                    )
                } else if is_up(key.code) {
                    KeyCommand::MoveCursor(
                        position_above(self.sidebar_index as int, self.total_items()) as usize,
                    )
                } else if key.code == KeyCode::Enter {
                    match sel {
                        SidebarSelection::Request(_) => KeyCommand::OpenRequest,
                        SidebarSelection::Environment(i) => KeyCommand::ActivateEnvironment(i),
                    }
                } else {
                    KeyCommand::Ignore
                },
                Focus::RequestUrl => KeyCommand::Edit(EditTarget::Url),
                Focus::RequestTabContent => if collections {
                    KeyCommand::Edit(tab_target(sel, self.request_tab))
                } else {
                    KeyCommand::SaveEditors
                },
                Focus::Response => if is_down(key.code) {
                    KeyCommand::Scroll(true)
                } else if is_up(key.code) {
                    KeyCommand::Scroll(false)
                } else {
                    KeyCommand::Ignore
                },
            }
        }
    }

    /// The sidebar cursor can be moved by `key`: moving it needs a
    /// countable, non-empty sidebar; moving down needs a cursor below
    /// `usize::MAX`, moving up a cursor at most one past the end.
    pub open spec fn move_allowed(&self, key: KeyPress) -> bool {
        let moves = !(key.ctrl && key.code == KeyCode::Char('c')) && !(key.code == KeyCode::Tab
            || key.code == KeyCode::BackTab) && !(key.ctrl && key.code == KeyCode::Char('e'))
            && !(key.ctrl && self.selection() is Request && (key.code == KeyCode::Char('h')
            || key.code == KeyCode::Char('p') || key.code == KeyCode::Char('b')
            || key.code == KeyCode::Char('m'))) && self.focus == Focus::Sidebar
            && self.sidebar_mode == SidebarMode::Collections;
        &&& (moves && (is_down(key.code) || is_up(key.code))) ==> self.total_items() <= usize::MAX
        &&& (moves && is_down(key.code)) ==> self.total_items() > 0 && self.sidebar_index
            < usize::MAX
        &&& (moves && is_up(key.code)) ==> 0 < self.total_items() && self.sidebar_index
            <= self.total_items()
    }

    /// `key` can be handled: the cursor can move where the key moves it,
    /// the editors can be saved where the key saves them (Tab, Shift-Tab,
    /// Ctrl-E, and a key typed into an editor, after which the editors are
    /// saved), the method index can grow where Ctrl-M cycles it, and the
    /// entry under the cursor exists where Ctrl-Y goes back to the
    /// collections and loads it.
    pub open spec fn key_allowed(&self, key: KeyPress) -> bool {
        &&& self.move_allowed(key)
        &&& (self.key_command(key) is CycleFocus || self.key_command(key) is Send
            || self.key_command(key) is Edit || self.key_command(key) is SaveEditors)
            ==> self.method_ready()
        &&& self.key_command(key) is CycleMethod ==> self.method_index < usize::MAX
        &&& (self.key_command(key) is ToggleMode && self.sidebar_mode == SidebarMode::History)
            ==> self.sidebar_index < self.total_items()
    }

    /// What `key` means in this state (see `key_command`).
    pub fn command_for_key(&self, key: KeyPress) -> (c: KeyCommand)
        requires
            self.move_allowed(key),
        ensures
            c == self.key_command(key),
    {
        let sel = self.get_sidebar_selection();
        let collections = self.sidebar_mode == SidebarMode::Collections;
        let on_request = collections && match sel {
            SidebarSelection::Request(_) => true,
            SidebarSelection::Environment(_) => false,
        };
        if key.ctrl && key.code == KeyCode::Char('c') {
            KeyCommand::Quit
        } else if self.focus == Focus::Sidebar && key.code == KeyCode::Esc {
            KeyCommand::Quit
        } else if key.ctrl && key.code == KeyCode::Char('y') {
            KeyCommand::ToggleMode
        } else if key.code == KeyCode::Tab {
            KeyCommand::CycleFocus(true)
        } else if key.code == KeyCode::BackTab {
            KeyCommand::CycleFocus(false)
        } else if key.ctrl && key.code == KeyCode::Char('e') {
            KeyCommand::Send
        } else if key.ctrl && on_request && key.code == KeyCode::Char('h') {
            KeyCommand::SelectTab(RequestTab::Headers)
        } else if key.ctrl && on_request && key.code == KeyCode::Char('p') {
            KeyCommand::SelectTab(RequestTab::Params)
        } else if key.ctrl && on_request && key.code == KeyCode::Char('b') {
            KeyCommand::SelectTab(RequestTab::Body)
        } else if key.ctrl && on_request && key.code == KeyCode::Char('m') {
            KeyCommand::CycleMethod
        } else {
            let down = key.code == KeyCode::Down || key.code == KeyCode::Char('j');
            let up = key.code == KeyCode::Up || key.code == KeyCode::Char('k');
            match self.focus {
                Focus::Sidebar => if !collections {
                    KeyCommand::Ignore
                } else if down {
                    let total = self.total_sidebar_items();
                    KeyCommand::MoveCursor((self.sidebar_index + 1) % total)
                } else if up {
                    let total = self.total_sidebar_items();
                    let prev = if self.sidebar_index == 0 {
                        total - 1
                    } else {
                        self.sidebar_index - 1
                    };
                    KeyCommand::MoveCursor(prev)
                } else if key.code == KeyCode::Enter {
                    match sel {
                        SidebarSelection::Request(_) => KeyCommand::OpenRequest,
                        SidebarSelection::Environment(i) => KeyCommand::ActivateEnvironment(i),
                    }
                } else {
                    KeyCommand::Ignore
                },
                Focus::RequestUrl => KeyCommand::Edit(EditTarget::Url),
                Focus::RequestTabContent => if collections {
                    KeyCommand::Edit(
                        match sel {
                            SidebarSelection::Request(_) => match self.request_tab {
                                RequestTab::Headers => EditTarget::Headers,
                                RequestTab::Params => EditTarget::Params,
                                RequestTab::Body => EditTarget::Body,
                            },
                            SidebarSelection::Environment(_) => EditTarget::Variables,
                        },
                    )
                } else {
                    KeyCommand::SaveEditors
                },
                Focus::Response => if down {
                    KeyCommand::Scroll(true)
                } else if up {
                    KeyCommand::Scroll(false)
                } else {
                    KeyCommand::Ignore
                },
            }
        }
    }
}

impl<'a> App<'a> {
    /// Everything but the focus, the tab, the active environment and the
    /// scroll position of `self` and `other` is the same.
    pub open spec fn same_but_controls(&self, other: &Self) -> bool {
        &&& self.collections == other.collections
        &&& self.environments == other.environments
        &&& self.sidebar_index == other.sidebar_index
        &&& self.sidebar_mode == other.sidebar_mode
        &&& self.method_index == other.method_index
        &&& self.request_editors_same(other)
        &&& self.env_textarea == other.env_textarea
        &&& self.response_content == other.response_content
        &&& self.response_status == other.response_status
        &&& self.response_time == other.response_time
        &&& self.response_size == other.response_size
        &&& self.is_loading == other.is_loading
    }

    /// Handles one key press (see `key_command` for what it means) and says
    /// what the terminal loop is to do next.
    pub fn handle_key(&mut self, key: KeyPress) -> (out: KeyOutcome)
        requires
            old(self).key_allowed(key),
        ensures
            old(self).method_ready() ==> final(self).method_ready(),
            match old(self).key_command(key) {
                KeyCommand::Quit => out is Quit && *final(self) == *old(self),
                KeyCommand::ToggleMode => {
                    &&& out matches KeyOutcome::Done { persist } && !persist
                    &&& final(self).focus == Focus::Sidebar
                    &&& match old(self).sidebar_mode {
                        SidebarMode::Collections => {
                            &&& final(self).sidebar_mode == SidebarMode::History
                            &&& final(self).data_same(&*old(self))
                            &&& final(self).sidebar_index == old(self).sidebar_index
                            &&& final(self).method_index == old(self).method_index
                            &&& final(self).request_editors_same(&*old(self))
                            &&& final(self).env_textarea == old(self).env_textarea
                            &&& final(self).response_same(&*old(self))
                            &&& final(self).request_tab == old(self).request_tab
                        },
                        SidebarMode::History => {
                            &&& final(self).sidebar_mode == SidebarMode::Collections
                            &&& final(self).loads_entry(&*old(self), old(self).sidebar_index as int)
                        },
                    }
                },
                KeyCommand::CycleFocus(forward) => {
                    &&& out matches KeyOutcome::Done { persist } && persist
                        == old(self).save_persists()
                    &&& old(self).saves_to_with(&*final(self), old(self).method_index as int)
                    &&& final(self).focus == next_focus(old(self).focus, forward, old(self).selection())
                    &&& final(self).request_tab == old(self).request_tab
                    &&& final(self).method_index == old(self).method_index
                },
                KeyCommand::Send => {
                    &&& out matches KeyOutcome::Send { persist, request } && persist
                        == old(self).save_persists() && request@ == final(self).interpolated_request()
                    &&& old(self).saves_to_with(&*final(self), old(self).method_index as int)
                    &&& final(self).focus == Focus::Response
                    &&& final(self).request_tab == old(self).request_tab
                    &&& final(self).method_index == old(self).method_index
                },
                KeyCommand::SelectTab(tab) => {
                    &&& out matches KeyOutcome::Done { persist } && !persist
                    &&& final(self).same_but_controls(&*old(self))
                    &&& final(self).request_tab == tab
                    &&& final(self).focus == old(self).focus
                    &&& final(self).active_env_index == old(self).active_env_index
                    &&& final(self).response_scroll == old(self).response_scroll
                },
                KeyCommand::CycleMethod => {
                    &&& out matches KeyOutcome::Done { persist } && persist
                        == old(self).save_persists()
                    &&& final(self).method_index == (old(self).method_index + 1) % (
                    HTTP_METHOD_COUNT as int)
                    &&& old(self).saves_to_with(&*final(self), final(self).method_index as int)
                    &&& final(self).focus == old(self).focus
                    &&& final(self).request_tab == old(self).request_tab
                },
                KeyCommand::MoveCursor(index) => {
                    &&& out matches KeyOutcome::Done { persist } && !persist
                    &&& index < old(self).total_items()
                    &&& final(self).loaded_entry(&*old(self), index as int)
                },
                KeyCommand::OpenRequest => {
                    &&& out matches KeyOutcome::Done { persist } && !persist
                    &&& final(self).same_but_controls(&*old(self))
                    &&& final(self).focus == Focus::RequestUrl
                    &&& final(self).request_tab == old(self).request_tab
                    &&& final(self).active_env_index == old(self).active_env_index
                    &&& final(self).response_scroll == old(self).response_scroll
                },
                KeyCommand::ActivateEnvironment(i) => {
                    &&& out matches KeyOutcome::Done { persist } && persist
                    &&& final(self).same_but_controls(&*old(self))
                    &&& final(self).active_env_index == Some(i)
                    &&& final(self).focus == old(self).focus
                    &&& final(self).request_tab == old(self).request_tab
                    &&& final(self).response_scroll == old(self).response_scroll
                },
                KeyCommand::Edit(target) => out matches KeyOutcome::Edit(t) && t == target
                    && *final(self) == *old(self),
                KeyCommand::SaveEditors => {
                    &&& out matches KeyOutcome::Done { persist } && persist
                        == old(self).save_persists()
                    &&& old(self).saves_to_with(&*final(self), old(self).method_index as int)
                    &&& final(self).focus == old(self).focus
                    &&& final(self).request_tab == old(self).request_tab
                    &&& final(self).method_index == old(self).method_index
                },
                KeyCommand::Scroll(down) => {
                    &&& out matches KeyOutcome::Done { persist } && !persist
                    &&& final(self).same_but_controls(&*old(self))
                    &&& final(self).response_scroll == if down {
                        old(self).response_scroll.saturating_add(1)
                    } else {
                        old(self).response_scroll.saturating_sub(1)
                    }
                    &&& final(self).focus == old(self).focus
                    &&& final(self).request_tab == old(self).request_tab
                    &&& final(self).active_env_index == old(self).active_env_index
                },
                KeyCommand::Ignore => out matches KeyOutcome::Done { persist } && !persist
                    && *final(self) == *old(self),
            },
    {
        let command = self.command_for_key(key);
        match command {
            KeyCommand::Quit => KeyOutcome::Quit,
            KeyCommand::ToggleMode => {
                self.focus = Focus::Sidebar;
                match self.sidebar_mode {
                    SidebarMode::Collections => {
                        self.sidebar_mode = SidebarMode::History;
                    },
                    SidebarMode::History => {
                        self.sidebar_mode = SidebarMode::Collections;
                        let index = self.sidebar_index;
                        self.load_sidebar_selection(index);
                    },
                }
                KeyOutcome::Done { persist: false }
            },
            KeyCommand::CycleFocus(forward) => {
                let persist = self.cycle_focus(forward);
                KeyOutcome::Done { persist }
            },
            KeyCommand::Send => {
                let persist = self.save_current_request();
                let request = self.get_interpolated_request();
                self.focus = Focus::Response;
                KeyOutcome::Send { persist, request }
            },
            KeyCommand::SelectTab(tab) => {
                self.request_tab = tab;
                KeyOutcome::Done { persist: false }
            },
            KeyCommand::CycleMethod => {
                let persist = self.cycle_method();
                KeyOutcome::Done { persist }
            },
            KeyCommand::MoveCursor(index) => {
                self.load_sidebar_selection(index);
                KeyOutcome::Done { persist: false }
            },
            KeyCommand::OpenRequest => {
                self.focus = Focus::RequestUrl;
                KeyOutcome::Done { persist: false }
            },
            KeyCommand::ActivateEnvironment(i) => {
                self.active_env_index = Some(i);
                KeyOutcome::Done { persist: true }
            },
            KeyCommand::Edit(target) => KeyOutcome::Edit(target),
            KeyCommand::SaveEditors => {
                let persist = self.save_current_request();
                KeyOutcome::Done { persist }
            },
            KeyCommand::Scroll(down) => {
                self.response_scroll = if down {
                    self.response_scroll.saturating_add(1)
                } else {
                    self.response_scroll.saturating_sub(1)
                };
                KeyOutcome::Done { persist: false }
            },
            KeyCommand::Ignore => KeyOutcome::Done { persist: false },
        }
    }

    /// Takes in a report of the request task. A start clears the response
    /// pane and marks it loading; a success shows body, status line and
    /// duration (the size line is left to the caller, which writes it with
    /// floating point); a failure shows the message with the status
    /// `Error`.
    pub fn apply_http_event(&mut self, event: HttpResponseEvent)
        ensures
            final(self).data_same(&*old(self)),
            final(self).sidebar_index == old(self).sidebar_index,
            final(self).focus == old(self).focus,
            final(self).request_tab == old(self).request_tab,
            final(self).method_index == old(self).method_index,
            final(self).request_editors_same(&*old(self)),
            final(self).env_textarea == old(self).env_textarea,
            match event {
                HttpResponseEvent::Start => {
                    &&& final(self).is_loading
                    &&& final(self).response_content@ == Seq::<char>::empty()
                    &&& final(self).response_status is None
                    &&& final(self).response_time is None
                    &&& final(self).response_size is None
                    &&& final(self).response_scroll == 0
                },
                HttpResponseEvent::Success { body, status, time_ms, size_bytes } => {
                    &&& !final(self).is_loading
                    &&& final(self).response_content == body
                    &&& final(self).response_status == Some(status)
                    &&& final(self).response_time matches Some(t) && t@ == time_text_spec(time_ms)
                    &&& final(self).response_size == old(self).response_size
                    &&& final(self).response_scroll == old(self).response_scroll
                },
                HttpResponseEvent::Error(message) => {
                    &&& !final(self).is_loading
                    &&& final(self).response_content == message
                    &&& final(self).response_status matches Some(s) && s@ == "Error"@
                    &&& final(self).response_time == old(self).response_time
                    &&& final(self).response_size == old(self).response_size
                    &&& final(self).response_scroll == old(self).response_scroll
                },
            },
    {
        match event {
            HttpResponseEvent::Start => {
                self.is_loading = true;
                self.response_content = String::new();
                self.response_status = None;
                self.response_time = None;
                self.response_size = None;
                self.response_scroll = 0;
            },
            HttpResponseEvent::Success { body, status, time_ms, size_bytes } => {
                self.is_loading = false;
                self.response_content = body;
                self.response_status = Some(status);
                self.response_time = Some(time_text(time_ms));
            },
            HttpResponseEvent::Error(message) => {
                self.is_loading = false;
                self.response_content = message;
                self.response_status = Some(String::from_str("Error"));
            },
        }
    }
}

impl<'a> App<'a> {
    /// Whether `handle_key` may be called for `key` in this state (see
    /// `key_allowed`).
    pub fn accepts_key(&self, key: KeyPress) -> (b: bool)
        ensures
            b == self.key_allowed(key),
    {
        let on_request = self.sidebar_index < self.collections.len();
        let collections = self.sidebar_mode == SidebarMode::Collections;
        let ctrl_c = key.ctrl && key.code == KeyCode::Char('c');
        let tab = key.code == KeyCode::Tab || key.code == KeyCode::BackTab;
        let ctrl_e = key.ctrl && key.code == KeyCode::Char('e');
        let request_ctrl = key.ctrl && on_request && (key.code == KeyCode::Char('h')
            || key.code == KeyCode::Char('p') || key.code == KeyCode::Char('b')
            || key.code == KeyCode::Char('m'));
        let moves = !ctrl_c && !tab && !ctrl_e && !request_ctrl && self.focus == Focus::Sidebar
            && collections;
        let down = key.code == KeyCode::Down || key.code == KeyCode::Char('j');
        let up = key.code == KeyCode::Up || key.code == KeyCode::Char('k');
        if moves && (down || up) {
            if self.collections.len() > usize::MAX - self.environments.len() {
                return false;
            }
            let total = self.collections.len() + self.environments.len();
            if down && !(total > 0 && self.sidebar_index < usize::MAX) {
                return false;
            }
            if up && !(0 < total && self.sidebar_index <= total) {
                return false;
            }
        }
        let method_ready = !on_request || self.method_index < HTTP_METHOD_COUNT;
        match self.command_for_key(key) {
            KeyCommand::CycleFocus(_) => method_ready,
            KeyCommand::Send => method_ready,
            KeyCommand::Edit(_) => method_ready,
            KeyCommand::SaveEditors => method_ready,
            KeyCommand::CycleMethod => self.method_index < usize::MAX,
            KeyCommand::ToggleMode => collections || on_request || self.sidebar_index
                - self.collections.len() < self.environments.len(),
            _ => true,
        }
    }
}

} // verus!
