//! The choices the screen makes from the state: colours of methods and
//! statuses, the help line, the highlighting of response lines and how far
//! the response can scroll. Drawing itself is left to the terminal front
//! end.
use vstd::prelude::*;

use crate::app::{App, Focus, RequestTab, SidebarMode, SidebarSelection};
use crate::text::{
    chars_of, contains, contains_spec, find_char, find_char_spec, lines_of, lines_spec,
    string_from_chars, trim_start_spec, char_vec_views, char_is_whitespace,
};
use crate::vars::sub_chars;

verus! {

/// Whether `char::is_numeric` holds of `c` (the Unicode numeric general
/// categories, not restated here).
pub uninterp spec fn unicode_numeric(c: char) -> bool;

/// Calls `char::is_numeric`. Trusted: its answer is `unicode_numeric(c)`,
/// a function of `c` alone.
#[verifier::external_body]
fn char_is_numeric(c: char) -> (b: bool)
    ensures
        b == unicode_numeric(c),
{
    c.is_numeric()
}

/// A colour of the screen.
#[derive(Clone, Copy, PartialEq, Eq, Debug, Structural)]
pub enum Hue {
    Green,
    LightMagenta,
    Yellow,
    Red,
    Cyan,
    White,
    DarkGray,
    Blue,
    LightBlue,
    LightGreen,
    LightRed,
}

/// The colour of a method's name: GET green, POST light magenta, PUT
/// yellow, DELETE red, PATCH cyan, anything else white (the first five are
/// also bold).
pub open spec fn method_hue_spec(method: Seq<char>) -> Hue {
    if method == "GET"@ {
        Hue::Green
    } else if method == "POST"@ {
        Hue::LightMagenta
    } else if method == "PUT"@ {
        Hue::Yellow
    } else if method == "DELETE"@ {
        Hue::Red
    } else if method == "PATCH"@ {
        Hue::Cyan
    } else {
        Hue::White
    }
}

/// The colour of a method's name.
pub fn method_hue(method: &str) -> (h: Hue)
    ensures
        h == method_hue_spec(method@),
{
    let m = String::from_str(method);
    if m == String::from_str("GET") {
        Hue::Green
    } else if m == String::from_str("POST") {
        Hue::LightMagenta
    } else if m == String::from_str("PUT") {
        Hue::Yellow
    } else if m == String::from_str("DELETE") {
        Hue::Red
    } else if m == String::from_str("PATCH") {
        Hue::Cyan
    } else {
        Hue::White
    }
}

/// A colour together with whether the text is bold.
#[derive(Clone, Copy, PartialEq, Eq, Debug, Structural)]
pub struct Look {
    pub hue: Hue,
    pub bold: bool,
}

/// How a method's name is drawn: in its colour, bold unless the method is
/// none of the five known ones.
pub open spec fn method_look_spec(method: Seq<char>) -> Look {
    Look { hue: method_hue_spec(method), bold: method_hue_spec(method) != Hue::White }
}

/// How a method's name is drawn.
pub fn method_look(method: &str) -> (l: Look)
    ensures
        l == method_look_spec(method@),
{
    let hue = method_hue(method);
    Look { hue, bold: hue != Hue::White }
}

/// How a pane's border is drawn: cyan and bold where it has the focus,
/// dark grey otherwise.
pub open spec fn border_look_spec(focused: bool) -> Look {
    Look { hue: border_hue_spec(focused), bold: focused }
}

/// How a pane's border is drawn.
pub fn border_look(focused: bool) -> (l: Look)
    ensures
        l == border_look_spec(focused),
{
    Look { hue: border_hue(focused), bold: focused }
}

/// The badge of a saved request in the sidebar: five characters naming
/// its method, and their background colour.
pub open spec fn method_badge_spec(method: Seq<char>) -> (Seq<char>, Hue) {
    if method == "GET"@ {
        (" GET "@, Hue::Green)
    } else if method == "POST"@ {
        (" POST"@, Hue::LightMagenta)
    } else if method == "PUT"@ {
        (" PUT "@, Hue::Yellow)
    } else if method == "DELETE"@ {
        (" DEL "@, Hue::Red)
    } else if method == "PATCH"@ {
        (" PAT "@, Hue::Cyan)
    } else {
        (" REQ "@, Hue::White)
    }
}

/// The badge of a saved request in the sidebar.
pub fn method_badge(method: &str) -> (b: (&'static str, Hue))
    ensures
        (b.0@, b.1) == method_badge_spec(method@),
{
    let m = String::from_str(method);
    if m == String::from_str("GET") {
        (" GET ", Hue::Green)
    } else if m == String::from_str("POST") {
        (" POST", Hue::LightMagenta)
    } else if m == String::from_str("PUT") {
        (" PUT ", Hue::Yellow)
    } else if m == String::from_str("DELETE") {
        (" DEL ", Hue::Red)
    } else if m == String::from_str("PATCH") {
        (" PAT ", Hue::Cyan)
    } else {
        (" REQ ", Hue::White)
    }
}

/// The colour of a pane's border: cyan (and bold) where it has the focus,
/// dark grey otherwise.
pub open spec fn border_hue_spec(focused: bool) -> Hue {
    if focused {
        Hue::Cyan
    } else {
        Hue::DarkGray
    }
}

/// The colour of a pane's border.
pub fn border_hue(focused: bool) -> (h: Hue)
    ensures
        h == border_hue_spec(focused),
{
    if focused {
        Hue::Cyan
    } else {
        Hue::DarkGray
    }
}

/// The placeholder shown for a missing status, time or size.
pub open spec fn missing_spec() -> Seq<char> {
    "---"@
}

/// The text shown for an optional response detail: the detail, or `---`.
pub open spec fn detail_spec(d: Option<String>) -> Seq<char> {
    match d {
        Some(s) => s@,
        None => missing_spec(),
    }
}

/// The colour of the status line: green for a status starting with `2`,
/// red for any other status that is neither `---` nor `Error`, dark grey
/// otherwise.
pub open spec fn status_hue_spec(status: Seq<char>) -> Hue {
    if status.len() > 0 && status[0] == '2' {
        Hue::Green
    } else if status != missing_spec() && status != "Error"@ {
        Hue::Red
    } else {
        Hue::DarkGray
    }
}

/// The colour of the time (yellow) or size (blue) detail, dark grey where
/// it is missing.
pub open spec fn detail_hue_spec(detail: Seq<char>, present: Hue) -> Hue {
    if detail != missing_spec() {
        present
    } else {
        Hue::DarkGray
    }
}

/// The response details the screen shows, with their colours.
pub struct ResponseMeta {
    pub status: String,
    pub status_hue: Hue,
    pub time: String,
    pub time_hue: Hue,
    pub size: String,
    pub size_hue: Hue,
}

/// The text of an optional detail, `---` where it is missing.
fn detail_text(d: &Option<String>) -> (s: String)
    ensures
        s@ == detail_spec(*d),
{
    match d {
        Some(s) => s.clone(),
        None => String::from_str("---"),
    }
}

/// The highlighting of one line of a response body.
pub enum LineStyle {
    /// The whole line in one colour.
    Whole { text: String, hue: Hue },
    /// A JSON field: the part before the first `:` in light blue, the rest
    /// (from the `:` on) in `value_hue`.
    Field { key: String, value: String, value_hue: Hue },
}

/// How a line of a response body is highlighted, as the position of its
/// first `:` where it is cut.
pub enum Highlight {
    Whole(Hue),
    Field(int, Hue),
}

/// The colour of the part of a JSON line from its `:` on: light green
/// where it holds `true` or `false`, else yellow where it holds a numeric
/// character, else light red where it holds `"`, else white.
pub open spec fn value_hue_spec(value: Seq<char>) -> Hue {
    if contains_spec(value, "true"@) || contains_spec(value, "false"@) {
        Hue::LightGreen
    } else if exists|i: int| 0 <= i < value.len() && unicode_numeric(#[trigger] value[i]) {
        Hue::Yellow
    } else if value.contains('"') {
        Hue::LightRed
    } else {
        Hue::White
    }
}

/// A line that looks like JSON: after its leading whitespace it starts
/// with `"` and holds a `:`, or starts with a brace or a bracket.
pub open spec fn json_like(line: Seq<char>) -> bool {
    let t = trim_start_spec(line);
    t.len() > 0 && ((t[0] == '"' && t.contains(':')) || t[0] == '{' || t[0] == '}' || t[0] == '['
        || t[0] == ']')
}

/// How a line of a response body is highlighted: a JSON-looking line with
/// a `:` is cut at its first `:`; a JSON-looking line without one is
/// white; any other line is dark grey.
pub open spec fn highlight_spec(line: Seq<char>) -> Highlight {
    if json_like(line) {
        match find_char_spec(line, ':') {
            Some(p) => Highlight::Field(p, value_hue_spec(line.skip(p))),
            None => Highlight::Whole(Hue::White),
        }
    } else {
        Highlight::Whole(Hue::DarkGray)
    }
}

/// `style` highlights `line` as `highlight_spec` says.
pub open spec fn styled_as(style: LineStyle, line: Seq<char>) -> bool {
    match highlight_spec(line) {
        Highlight::Whole(h) => style matches LineStyle::Whole { text, hue } && text@ == line && hue
            == h,
        Highlight::Field(p, h) => style matches LineStyle::Field { key, value, value_hue }
            && key@ == line.take(p) && value@ == line.skip(p) && value_hue == h,
    }
}

/// Whether some character of `s` is numeric.
fn any_numeric(s: &[char]) -> (b: bool)
    ensures
        b == exists|i: int| 0 <= i < s@.len() && unicode_numeric(#[trigger] s@[i]),
{
    let mut i: usize = 0;
    while i < s.len()
        invariant
            i <= s.len(),
            forall|j: int| 0 <= j < i ==> !unicode_numeric(#[trigger] s@[j]),
        decreases s.len() - i,
    {
        if char_is_numeric(s[i]) {
            return true;
        }
        i += 1;
    }
    false
}

/// The colour of the part of a JSON line from its `:` on.
fn value_hue(value: &[char]) -> (h: Hue)
    ensures
        h == value_hue_spec(value@),
{
    let t = chars_of("true");
    let f = chars_of("false");
    if contains(value, t.as_slice()) || contains(value, f.as_slice()) {
        Hue::LightGreen
    } else if any_numeric(value) {
        Hue::Yellow
    } else if find_char(value, '"').is_some() {
        Hue::LightRed
    } else {
        Hue::White
    }
}

/// The position of the first character of `line` that is not whitespace.
fn first_non_space(line: &[char]) -> (p: usize)
    ensures
        p <= line@.len(),
        trim_start_spec(line@) == line@.skip(p as int),
{
    let mut i: usize = 0;
    assert(line@.skip(0) =~= line@);
    while i < line.len() && char_is_whitespace(line[i])
        invariant
            i <= line.len(),
            trim_start_spec(line@) == trim_start_spec(line@.skip(i as int)),
        decreases line.len() - i,
    {
        assert(line@.skip(i as int).drop_first() =~= line@.skip(i + 1));
        i += 1;
    }
    i
}

/// How one line of a response body is highlighted.
pub fn highlight_line(line: &[char]) -> (s: LineStyle)
    ensures
        styled_as(s, line@),
{
    let start = first_non_space(line);
    let ghost t = line@.skip(start as int);
    let looks_json = if start < line.len() {
        let c = line[start];
        if c == '"' {
            let rest = sub_chars(line, start, line.len());
            assert(rest@ =~= t);
            find_char(rest.as_slice(), ':').is_some()
        } else {
            c == '{' || c == '}' || c == '[' || c == ']'
        }
    } else {
        false
    };
    assert(looks_json == json_like(line@));
    if looks_json {
        match find_char(line, ':') {
            Some(p) => {
                let key = sub_chars(line, 0, p);
                let value = sub_chars(line, p, line.len());
                assert(key@ =~= line@.take(p as int));
                assert(value@ =~= line@.skip(p as int));
                let hue = value_hue(value.as_slice());
                LineStyle::Field {
                    key: string_from_chars(key.as_slice()),
                    value: string_from_chars(value.as_slice()),
                    value_hue: hue,
                }
            },
            None => LineStyle::Whole { text: string_from_chars(line), hue: Hue::White },
        }
    } else {
        LineStyle::Whole { text: string_from_chars(line), hue: Hue::DarkGray }
    }
}

/// How each line of a response body is highlighted, one entry per line.
pub fn highlight_body(body: &str) -> (r: Vec<LineStyle>)
    ensures
        r@.len() == lines_spec(body@).len(),
        forall|k: int| 0 <= k < r@.len() ==> styled_as(#[trigger] r@[k], lines_spec(body@)[k]),
{
    let lines = lines_of(chars_of(body).as_slice());
    let ghost ls = char_vec_views(lines@);
    let mut r: Vec<LineStyle> = Vec::new();
    let mut i: usize = 0;
    while i < lines.len()
        invariant
            i <= lines.len(),
            ls == char_vec_views(lines@),
            ls == lines_spec(body@),
            r@.len() == i,
            forall|k: int| 0 <= k < i ==> styled_as(#[trigger] r@[k], ls[k]),
        decreases lines.len() - i,
    {
        let style = highlight_line(lines[i].as_slice());
        r.push(style);
        i += 1;
    }
    r
}

/// How far the response can scroll: the lines that do not fit in the pane
/// (whose border takes two rows), as a `u16` (truncated).
pub open spec fn max_scroll_spec(total_lines: usize, area_height: u16) -> u16 {
    let viewport: int = if area_height >= 2 {
        area_height - 2
    } else {
        0
    };
    let over: int = if total_lines >= viewport {
        total_lines - viewport
    } else {
        0
    };
    over as u16
}

/// The scroll position after clamping it to what the response allows.
pub fn clamp_scroll(scroll: u16, total_lines: usize, area_height: u16) -> (s: u16)
    ensures
        s == if scroll > max_scroll_spec(total_lines, area_height) {
            max_scroll_spec(total_lines, area_height)
        } else {
            scroll
        },
{
    let viewport = area_height.saturating_sub(2) as usize;
    let max_scroll = total_lines.saturating_sub(viewport) as u16;
    if scroll > max_scroll {
        max_scroll
    } else {
        scroll
    }
}

/// The help line for the focused pane.
pub open spec fn help_spec(
    focus: Focus,
    mode: SidebarMode,
    sel: SidebarSelection,
    tab: RequestTab,
) -> Seq<char> {
    match focus {
        Focus::Sidebar => if mode == SidebarMode::History {
            "➔ Nav: [Up/Down] | Restore Request: [Enter] | Switch Mode: [Ctrl-Y] | Switch Pane: [Tab]"@
        } else {
            match sel {
            SidebarSelection::Request(_) =>
                "➔ Nav: [Up/Down] | Select: [Enter] | Switch Mode: [Ctrl-Y] | Switch Pane: [Tab] | Quit: [Esc]"@,
            SidebarSelection::Environment(_) =>
                "➔ Nav: [Up/Down] | Activate: [Enter] | Switch Mode: [Ctrl-Y] | Edit Env: [Tab] | Quit: [Esc]"@,
            }
        },
        Focus::RequestUrl =>
            "➔ Edit URL | Cycle Method: [Ctrl-M] | Send: [Ctrl-E] | Switch Pane: [Tab]"@,
        Focus::RequestTabContent => if mode == SidebarMode::History {
            "➔ View Request Configuration (History Mode) | Switch Pane: [Tab]"@
        } else {
            match sel {
            SidebarSelection::Request(_) => match tab {
                RequestTab::Headers =>
                    "➔ Edit Headers (Key: Value) | Switch Tabs: [Ctrl-H/P/B] | Send: [Ctrl-E] | Switch Pane: [Tab]"@,
                RequestTab::Params =>
                    "➔ Edit Parameters (key=value) | Switch Tabs: [Ctrl-H/P/B] | Send: [Ctrl-E] | Switch Pane: [Tab]"@,
                RequestTab::Body =>
                    "➔ Edit Request Body (JSON) | Switch Tabs: [Ctrl-H/P/B] | Send: [Ctrl-E] | Switch Pane: [Tab]"@,
            },
            SidebarSelection::Environment(_) =>
                "➔ Edit Environment (key=value) | Switch Pane: [Tab]"@,
            }
        },
        Focus::Response => "➔ View Response | Scroll: [Up/Down] or [j/k] | Switch Pane: [Tab]"@,
    }
}

/// The help line for the focused pane.
pub fn help_text(
    focus: Focus,
    mode: SidebarMode,
    sel: SidebarSelection,
    tab: RequestTab,
) -> (s: &'static str)
    ensures
        s@ == help_spec(focus, mode, sel, tab),
{
    let history = mode == SidebarMode::History;
    match focus {
        Focus::Sidebar => if history {
            "➔ Nav: [Up/Down] | Restore Request: [Enter] | Switch Mode: [Ctrl-Y] | Switch Pane: [Tab]"
        } else {
            match sel {
            SidebarSelection::Request(_) =>
                "➔ Nav: [Up/Down] | Select: [Enter] | Switch Mode: [Ctrl-Y] | Switch Pane: [Tab] | Quit: [Esc]",
            SidebarSelection::Environment(_) =>
                "➔ Nav: [Up/Down] | Activate: [Enter] | Switch Mode: [Ctrl-Y] | Edit Env: [Tab] | Quit: [Esc]",
            }
        },
        Focus::RequestUrl =>
            "➔ Edit URL | Cycle Method: [Ctrl-M] | Send: [Ctrl-E] | Switch Pane: [Tab]",
        Focus::RequestTabContent => if history {
            "➔ View Request Configuration (History Mode) | Switch Pane: [Tab]"
        } else {
            match sel {
            SidebarSelection::Request(_) => match tab {
                RequestTab::Headers =>
                    "➔ Edit Headers (Key: Value) | Switch Tabs: [Ctrl-H/P/B] | Send: [Ctrl-E] | Switch Pane: [Tab]",
                RequestTab::Params =>
                    "➔ Edit Parameters (key=value) | Switch Tabs: [Ctrl-H/P/B] | Send: [Ctrl-E] | Switch Pane: [Tab]",
                RequestTab::Body =>
                    "➔ Edit Request Body (JSON) | Switch Tabs: [Ctrl-H/P/B] | Send: [Ctrl-E] | Switch Pane: [Tab]",
            },
            SidebarSelection::Environment(_) =>
                "➔ Edit Environment (key=value) | Switch Pane: [Tab]",
            }
        },
        Focus::Response => "➔ View Response | Scroll: [Up/Down] or [j/k] | Switch Pane: [Tab]",
    }
}

/// The name of the sidebar mode shown in the status bar.
pub open spec fn mode_label_spec(mode: SidebarMode) -> Seq<char> {
    match mode {
        SidebarMode::Collections => "COLLECTIONS"@,
        SidebarMode::History => "HISTORY"@,
    }
}

/// The name of the sidebar mode shown in the status bar.
pub fn mode_label(mode: SidebarMode) -> (s: &'static str)
    ensures
        s@ == mode_label_spec(mode),
{
    match mode {
        SidebarMode::Collections => "COLLECTIONS",
        SidebarMode::History => "HISTORY",
    }
}

impl<'a> App<'a> {
    /// The name shown for the active environment: its name, or `None` where
    /// no environment is active or the active one does not exist.
    pub open spec fn active_environment_label_spec(&self) -> Seq<char> {
        match self.active_env_index {
            Some(i) => if i < self.environments@.len() {
                self.environments@[i as int].name@
            } else {
                "None"@
            },
            None => "None"@,
        }
    }

    /// The name shown for the active environment.
    pub fn active_environment_label(&self) -> (s: String)
        ensures
            s@ == self.active_environment_label_spec(),
    {
        match self.active_env_index {
            Some(i) => if i < self.environments.len() {
                self.environments[i].name.clone()
            } else {
                String::from_str("None")
            },
            None => String::from_str("None"),
        }
    }

    /// The response details shown above the body, with their colours:
    /// status (see `status_hue_spec`), time in yellow and size in blue,
    /// `---` in dark grey for what is missing.
    pub fn response_meta(&self) -> (m: ResponseMeta)
        ensures
            m.status@ == detail_spec(self.response_status),
            m.time@ == detail_spec(self.response_time),
            m.size@ == detail_spec(self.response_size),
            m.status_hue == status_hue_spec(m.status@),
            m.time_hue == detail_hue_spec(m.time@, Hue::Yellow),
            m.size_hue == detail_hue_spec(m.size@, Hue::Blue),
    {
        let status = detail_text(&self.response_status);
        let time = detail_text(&self.response_time);
        let size = detail_text(&self.response_size);
        let missing = String::from_str("---");
        let status_chars = chars_of(status.as_str());
        let status_hue = if status_chars.len() > 0 && status_chars[0] == '2' {
            Hue::Green
        } else if status != missing && status != String::from_str("Error") {
            Hue::Red
        } else {
            Hue::DarkGray
        };
        let time_hue = if time != missing {
            Hue::Yellow
        } else {
            Hue::DarkGray
        };
        let size_hue = if size != missing {
            Hue::Blue
        } else {
            Hue::DarkGray
        };
        ResponseMeta { status, status_hue, time, time_hue, size, size_hue }
    }
}

} // verus!
