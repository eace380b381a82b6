//! The state of the client: saved requests, environments, the sidebar
//! selection, the editors of the request pane and the last response.
use vstd::prelude::*;

use crate::editor::{
    editor_default, editor_lines, editor_new, editor_set_cursor_line_style,
    editor_set_cursor_style, editor_text_lines, new_editor_lines, plain_style, reversed, Editor,
};
use crate::text::{
    char_vecs_from_strings, chars_of, join, join_spec, lines_of, lines_spec,
    string_from_chars, string_views, strings_from_char_vecs, trim, trim_spec,
};
use crate::vars::{env_vars_spec, pair_views, parse_env_vars, substitute, substitute_spec, VarPair};

verus! {

/// The pane that receives the keyboard.
#[derive(Clone, Copy, PartialEq, Eq, Debug, Structural)]
pub enum Focus {
    Sidebar,
    RequestUrl,
    RequestTabContent,
    Response,
}

/// What the sidebar lists: the saved requests and environments, or the
/// runs of the current session.
#[derive(Clone, Copy, PartialEq, Eq, Debug, Structural)]
pub enum SidebarMode {
    Collections,
    History,
}

/// The tab shown under the URL of a request.
#[derive(Clone, Copy, PartialEq, Eq, Debug, Structural)]
pub enum RequestTab {
    Headers,
    Params,
    Body,
}

/// What the sidebar cursor is on: a saved request or an environment, by
/// its position in its own list.
#[derive(Clone, Copy, PartialEq, Eq, Debug, Structural)]
pub enum SidebarSelection {
    Request(usize),
    Environment(usize),
}

/// A saved request. Headers are `Key: Value` lines, parameters `key=value`
/// lines.
#[derive(Clone, Debug, PartialEq, Eq)]
pub struct ApiRequest {
    pub name: String,
    pub method: String,
    pub url: String,
    pub headers: String,
    pub params: String,
    pub body: String,
}

/// A named set of variables, one `key=value` per line.
#[derive(Clone, Debug, PartialEq, Eq)]
pub struct Environment {
    pub name: String,
    pub variables: String,
}

/// What the client keeps between runs.
#[derive(Clone, Debug)]
pub struct AppConfig {
    pub collections: Vec<ApiRequest>,
    pub environments: Vec<Environment>,
    pub active_env_index: Option<usize>,
}

/// The text of a saved request.
pub struct RequestView {
    pub name: Seq<char>,
    pub method: Seq<char>,
    pub url: Seq<char>,
    pub headers: Seq<char>,
    pub params: Seq<char>,
    pub body: Seq<char>,
}

/// The text of an environment.
pub struct EnvironmentView {
    pub name: Seq<char>,
    pub variables: Seq<char>,
}

impl View for ApiRequest {
    type V = RequestView;

    open spec fn view(&self) -> RequestView {
        RequestView {
            name: self.name@,
            method: self.method@,
            url: self.url@,
            headers: self.headers@,
            params: self.params@,
            body: self.body@,
        }
    }
}

impl View for Environment {
    type V = EnvironmentView;

    open spec fn view(&self) -> EnvironmentView {
        EnvironmentView { name: self.name@, variables: self.variables@ }
    }
}

/// The text of each request.
pub open spec fn request_views(v: Seq<ApiRequest>) -> Seq<RequestView> {
    v.map_values(|r: ApiRequest| r@)
}

/// The text of each environment.
pub open spec fn environment_views(v: Seq<Environment>) -> Seq<EnvironmentView> {
    v.map_values(|e: Environment| e@)
}

impl ApiRequest {
    /// A copy of this request.
    pub fn copy(&self) -> (r: ApiRequest)
        ensures
            r == *self,
    {
        ApiRequest {
            name: self.name.clone(),
            method: self.method.clone(),
            url: self.url.clone(),
            headers: self.headers.clone(),
            params: self.params.clone(),
            body: self.body.clone(),
        }
    }
}

impl Environment {
    /// A copy of this environment.
    pub fn copy(&self) -> (r: Environment)
        ensures
            r == *self,
    {
        Environment { name: self.name.clone(), variables: self.variables.clone() }
    }
}

/// A copy of a list of requests.
pub fn copy_requests(v: &Vec<ApiRequest>) -> (r: Vec<ApiRequest>)
    ensures
        r@ == v@,
{
    let mut r: Vec<ApiRequest> = Vec::new();
    let mut i: usize = 0;
    while i < v.len()
        invariant
            i <= v.len(),
            r@ == v@.take(i as int),
        decreases v.len() - i,
    {
        r.push(v[i].copy());
        assert(v@.take(i + 1) =~= v@.take(i as int).push(v@[i as int]));
        i += 1;
    }
    assert(v@.take(v.len() as int) =~= v@);
    r
}

/// A copy of a list of environments.
pub fn copy_environments(v: &Vec<Environment>) -> (r: Vec<Environment>)
    ensures
        r@ == v@,
{
    let mut r: Vec<Environment> = Vec::new();
    let mut i: usize = 0;
    while i < v.len()
        invariant
            i <= v.len(),
            r@ == v@.take(i as int),
        decreases v.len() - i,
    {
        r.push(v[i].copy());
        assert(v@.take(i + 1) =~= v@.take(i as int).push(v@[i as int]));
        i += 1;
    }
    assert(v@.take(v.len() as int) =~= v@);
    r
}

// ---------------------------------------------------------------------
// HTTP methods
// ---------------------------------------------------------------------

/// How many HTTP methods the client cycles through.
pub const HTTP_METHOD_COUNT: usize = 5;

/// The name of the `i`-th HTTP method: GET, POST, PUT, DELETE, PATCH.
pub open spec fn http_method_spec(i: int) -> Seq<char> {
    if i == 0 {
        "GET"@
    } else if i == 1 {
        "POST"@
    } else if i == 2 {
        "PUT"@
    } else if i == 3 {
        "DELETE"@
    } else if i == 4 {
        "PATCH"@
    } else {
        Seq::empty()
    }
}

/// The name of the `i`-th HTTP method.
pub fn http_method(i: usize) -> (s: &'static str)
    requires
        i < HTTP_METHOD_COUNT,
    ensures
        s@ == http_method_spec(i as int),
{
    if i == 0 {
        "GET"
    } else if i == 1 {
        "POST"
    } else if i == 2 {
        "PUT"
    } else if i == 3 {
        "DELETE"
    } else {
        "PATCH"
    }
}

/// The position of `method` among the HTTP methods; 0 (GET) for a method
/// that is not among them.
pub open spec fn method_index_spec(method: Seq<char>) -> usize {
    if method == http_method_spec(0) {
        0
    } else if method == http_method_spec(1) {
        1
    } else if method == http_method_spec(2) {
        2
    } else if method == http_method_spec(3) {
        3
    } else if method == http_method_spec(4) {
        4
    } else {
        0
    }
}

/// The position of `method` among the HTTP methods, 0 where it is none.
pub fn method_index_of(method: &String) -> (i: usize)
    ensures
        i == method_index_spec(method@),
        i < HTTP_METHOD_COUNT,
{
    let mut i: usize = 0;
    while i < HTTP_METHOD_COUNT
        invariant
            i <= HTTP_METHOD_COUNT,
            forall|j: int| 0 <= j < i ==> method@ != http_method_spec(j),
        decreases HTTP_METHOD_COUNT - i,
    {
        let name = String::from_str(http_method(i));
        if *method == name {
            return i;
        }
        i += 1;
    }
    0
}

// ---------------------------------------------------------------------
// Built-in data
// ---------------------------------------------------------------------

/// The environments the client starts with when nothing was saved.
pub open spec fn default_environments_spec() -> Seq<EnvironmentView> {
    seq![
        EnvironmentView { name: "Dev"@, variables: "baseUrl=https://httpbin.org\napiKey=dev_key_xyz"@ },
        EnvironmentView { name: "Prod"@, variables: "baseUrl=https://httpbin.org\napiKey=prod_key_abc"@ },
    ]
}

/// The requests the client starts with when nothing was saved.
pub open spec fn default_requests_spec() -> Seq<RequestView> {
    seq![
        RequestView {
            name: "Get User Info"@,
            method: "GET"@,
            url: "{{baseUrl}}/json"@,
            headers: "Accept: application/json\nUser-Agent: RestDeck-TUI\nAuthorization: Bearer {{apiKey}}"@,
            params: "limit=10\npage=1"@,
            body: ""@,
        },
        RequestView {
            name: "Create User"@,
            method: "POST"@,
            url: "{{baseUrl}}/post"@,
            headers: "Content-Type: application/json"@,
            params: ""@,
            body: "{\n  \"name\": \"Eleanor Vance\",\n  \"role\": \"admin\"\n}"@,
        },
        RequestView {
            name: "Update User"@,
            method: "PUT"@,
            url: "{{baseUrl}}/put"@,
            headers: "Content-Type: application/json"@,
            params: ""@,
            body: "{\n  \"role\": \"super-admin\"\n}"@,
        },
        RequestView {
            name: "Delete User"@,
            method: "DELETE"@,
            url: "{{baseUrl}}/delete"@,
            headers: ""@,
            params: ""@,
            body: ""@,
        },
        RequestView {
            name: "Delayed Response (Test Async)"@,
            method: "GET"@,
            url: "{{baseUrl}}/delay/3"@,
            headers: ""@,
            params: ""@,
            body: ""@,
        },
    ]
}

/// Builds an environment from its name and variables.
fn environment(name: &str, variables: &str) -> (e: Environment)
    ensures
        e@ == (EnvironmentView { name: name@, variables: variables@ }),
{
    Environment { name: String::from_str(name), variables: String::from_str(variables) }
}

/// Builds a request from its six texts.
fn request(
    name: &str,
    method: &str,
    url: &str,
    headers: &str,
    params: &str,
    body: &str,
) -> (r: ApiRequest)
    ensures
        r@ == (RequestView {
            name: name@,
            method: method@,
            url: url@,
            headers: headers@,
            params: params@,
            body: body@,
        }),
{
    ApiRequest {
        name: String::from_str(name),
        method: String::from_str(method),
        url: String::from_str(url),
        headers: String::from_str(headers),
        params: String::from_str(params),
        body: String::from_str(body),
    }
}

/// The environments the client starts with: Dev and Prod.
pub fn default_environments() -> (r: Vec<Environment>)
    ensures
        environment_views(r@) == default_environments_spec(),
{
    let mut r: Vec<Environment> = Vec::new();
    r.push(environment("Dev", "baseUrl=https://httpbin.org\napiKey=dev_key_xyz"));
    r.push(environment("Prod", "baseUrl=https://httpbin.org\napiKey=prod_key_abc"));
    assert(environment_views(r@) =~= default_environments_spec());
    r
}

/// The five sample requests the client starts with.
pub fn default_requests() -> (r: Vec<ApiRequest>)
    ensures
        request_views(r@) == default_requests_spec(),
{
    let mut r: Vec<ApiRequest> = Vec::new();
    r.push(
        request(
            "Get User Info",
            "GET",
            "{{baseUrl}}/json",
            "Accept: application/json\nUser-Agent: RestDeck-TUI\nAuthorization: Bearer {{apiKey}}",
            "limit=10\npage=1",
            "",
        ),
    );
    r.push(
        request(
            "Create User",
            "POST",
            "{{baseUrl}}/post",
            "Content-Type: application/json",
            "",
            "{\n  \"name\": \"Eleanor Vance\",\n  \"role\": \"admin\"\n}",
        ),
    );
    r.push(
        request(
            "Update User",
            "PUT",
            "{{baseUrl}}/put",
            "Content-Type: application/json",
            "",
            "{\n  \"role\": \"super-admin\"\n}",
        ),
    );
    r.push(request("Delete User", "DELETE", "{{baseUrl}}/delete", "", "", ""));
    r.push(
        request(
            "Delayed Response (Test Async)",
            "GET",
            "{{baseUrl}}/delay/3",
            "",
            "",
            "",
        ),
    );
    assert(request_views(r@) =~= default_requests_spec());
    r
}

// ---------------------------------------------------------------------
// The sidebar and the focus
// ---------------------------------------------------------------------

/// The sidebar entry at flat position `index`: the requests come first,
/// then the environments.
pub open spec fn selection_at(index: int, n_requests: int) -> SidebarSelection {
    if index < n_requests {
        SidebarSelection::Request(index as usize)
    } else {
        SidebarSelection::Environment((index - n_requests) as usize)
    }
}

/// The flat sidebar position of an entry.
pub open spec fn flat_index(sel: SidebarSelection, n_requests: int) -> int {
    match sel {
        SidebarSelection::Request(i) => i as int,
        SidebarSelection::Environment(i) => n_requests + i,
    }
}

/// The pane that Tab (`forward`) or Shift-Tab moves the focus to. From
/// the sidebar, Tab goes to the URL of a request but straight to the
/// variables of an environment, which has no URL; Shift-Tab mirrors this.
pub open spec fn next_focus(focus: Focus, forward: bool, sel: SidebarSelection) -> Focus {
    match (focus, forward) {
        (Focus::Sidebar, true) => match sel {
            SidebarSelection::Request(_) => Focus::RequestUrl,
            SidebarSelection::Environment(_) => Focus::RequestTabContent,
        },
        (Focus::RequestUrl, true) => Focus::RequestTabContent,
        (Focus::RequestTabContent, true) => Focus::Response,
        (Focus::Response, true) => Focus::Sidebar,
        (Focus::Sidebar, false) => Focus::Response,
        (Focus::RequestUrl, false) => Focus::Sidebar,
        (Focus::RequestTabContent, false) => match sel {
            SidebarSelection::Request(_) => Focus::RequestUrl,
            SidebarSelection::Environment(_) => Focus::Sidebar,
        },
        (Focus::Response, false) => Focus::RequestTabContent,
    }
}

/// The lines an editor loaded with `text` holds.
pub open spec fn editor_text_spec(text: Seq<char>) -> Seq<Seq<char>> {
    new_editor_lines(lines_spec(text))
}

/// An editor loaded with the lines of `text`.
fn editor_from_text<'a>(text: &String) -> (e: Editor<'a>)
    ensures
        editor_lines(e) == editor_text_spec(text@),
{
    let chars = chars_of(text.as_str());
    let lines = lines_of(chars.as_slice());
    let strings = strings_from_char_vecs(&lines);
    let mut e = editor_new(strings);
    editor_set_cursor_line_style(&mut e, plain_style());
    e
}

/// The text of an editor: its lines joined by newlines.
fn editor_text(e: &Editor) -> (s: String)
    ensures
        s@ == join_spec(editor_lines(*e), seq!['\n']),
{
    let lines = editor_text_lines(e);
    let chars = char_vecs_from_strings(lines.as_slice());
    let mut sep: Vec<char> = Vec::new();
    sep.push('\n');
    assert(sep@ =~= seq!['\n']);
    let joined = join(&chars, sep.as_slice());
    string_from_chars(joined.as_slice())
}

/// The welcome text shown in the response pane before any request.
pub open spec fn welcome_spec() -> Seq<char> {
    "Welcome to RestDeck!\n\nUse Tab / Shift-Tab to switch panels.\nUse Ctrl-E to trigger HTTP request.\nUse Ctrl-H/Ctrl-P/Ctrl-B to switch request tabs.\nUse Up/Down to navigate sidebar requests."@
}

/// The whole state of the client.
pub struct App<'a> {
    pub collections: Vec<ApiRequest>,
    pub environments: Vec<Environment>,
    pub active_env_index: Option<usize>,
    /// Flat position in the sidebar: requests first, then environments.
    pub sidebar_index: usize,
    /// What the sidebar lists (switched with Ctrl-Y).
    pub sidebar_mode: SidebarMode,
    pub focus: Focus,
    pub request_tab: RequestTab,
    pub method_index: usize,
    pub url_textarea: Editor<'a>,
    pub headers_textarea: Editor<'a>,
    pub params_textarea: Editor<'a>,
    pub body_textarea: Editor<'a>,
    pub env_textarea: Editor<'a>,
    pub response_content: String,
    pub response_status: Option<String>,
    pub response_time: Option<String>,
    pub response_size: Option<String>,
    pub is_loading: bool,
    pub response_scroll: u16,
}

impl<'a> App<'a> {
    /// Where a request is selected, the method index names a method (the
    /// editors are saved with that method).
    pub open spec fn method_ready(&self) -> bool {
        self.selection() is Request ==> self.method_index < HTTP_METHOD_COUNT
    }

    /// The number of sidebar entries.
    pub open spec fn total_items(&self) -> int {
        (self.collections@.len() + self.environments@.len()) as int
    }

    /// The sidebar entry under the cursor.
    pub open spec fn selection(&self) -> SidebarSelection {
        selection_at(self.sidebar_index as int, self.collections@.len() as int)
    }

    /// The editors show request `i`: its URL as one line, its method, and
    /// the lines of its headers, parameters and body.
    pub open spec fn shows_request(&self, i: int) -> bool {
        let req = self.collections@[i]@;
        &&& editor_lines(self.url_textarea) == seq![req.url]
        &&& self.method_index == method_index_spec(req.method)
        &&& editor_lines(self.headers_textarea) == editor_text_spec(req.headers)
        &&& editor_lines(self.params_textarea) == editor_text_spec(req.params)
        &&& editor_lines(self.body_textarea) == editor_text_spec(req.body)
    }

    /// The variables editor shows environment `i`.
    pub open spec fn shows_environment(&self, i: int) -> bool {
        editor_lines(self.env_textarea) == editor_text_spec(self.environments@[i].variables@)
    }

    /// The request editors (URL, headers, parameters, body) of `self` and
    /// `other` are the same.
    pub open spec fn request_editors_same(&self, other: &Self) -> bool {
        &&& self.url_textarea == other.url_textarea
        &&& self.headers_textarea == other.headers_textarea
        &&& self.params_textarea == other.params_textarea
        &&& self.body_textarea == other.body_textarea
    }

    /// The response pane of `self` and `other` is the same.
    pub open spec fn response_same(&self, other: &Self) -> bool {
        &&& self.response_content == other.response_content
        &&& self.response_status == other.response_status
        &&& self.response_time == other.response_time
        &&& self.response_size == other.response_size
        &&& self.is_loading == other.is_loading
        &&& self.response_scroll == other.response_scroll
    }

    /// The saved data of `self` and `other` is the same.
    pub open spec fn data_same(&self, other: &Self) -> bool {
        &&& self.collections == other.collections
        &&& self.environments == other.environments
        &&& self.active_env_index == other.active_env_index
    }

    /// Request `i` as the editors hold it, with method `method_index`: the
    /// first URL line trimmed, the other texts' lines joined by newlines;
    /// the name stays.
    pub open spec fn edited_request(&self, i: int, method_index: int) -> RequestView {
        RequestView {
            name: self.collections@[i].name@,
            method: http_method_spec(method_index),
            url: trim_spec(editor_lines(self.url_textarea)[0]),
            headers: join_spec(editor_lines(self.headers_textarea), seq!['\n']),
            params: join_spec(editor_lines(self.params_textarea), seq!['\n']),
            body: join_spec(editor_lines(self.body_textarea), seq!['\n']),
        }
    }

    /// The requests after the editors are saved with method `method_index`:
    /// the selected request takes what the editors hold.
    pub open spec fn saved_collections(&self, method_index: int) -> Seq<RequestView> {
        match self.selection() {
            SidebarSelection::Request(i) => request_views(self.collections@).update(
                i as int,
                self.edited_request(i as int, method_index),
            ),
            SidebarSelection::Environment(_) => request_views(self.collections@),
        }
    }

    /// The environments after the editors are saved: the selected
    /// environment takes the variables editor's text.
    pub open spec fn saved_environments(&self) -> Seq<EnvironmentView> {
        match self.selection() {
            SidebarSelection::Request(_) => environment_views(self.environments@),
            SidebarSelection::Environment(i) => if i < self.environments@.len() {
                environment_views(self.environments@).update(
                    i as int,
                    EnvironmentView {
                        name: self.environments@[i as int].name@,
                        variables: join_spec(editor_lines(self.env_textarea), seq!['\n']),
                    },
                )
            } else {
                environment_views(self.environments@)
            },
        }
    }

    /// Saving the editors writes the configuration: always for a request,
    /// and for an environment that exists.
    pub open spec fn save_persists(&self) -> bool {
        match self.selection() {
            SidebarSelection::Request(_) => true,
            SidebarSelection::Environment(i) => i < self.environments@.len(),
        }
    }

    /// The variables of the active environment; none where no environment
    /// is active or the active one does not exist.
    pub open spec fn active_vars(&self) -> Seq<(Seq<char>, Seq<char>)> {
        match self.active_env_index {
            Some(e) => if e < self.environments@.len() {
                env_vars_spec(self.environments@[e as int].variables@)
            } else {
                Seq::empty()
            },
            None => Seq::empty(),
        }
    }

    /// The request to send: the selected request (the first one where an
    /// environment is selected) with the active environment's variables
    /// substituted into URL, headers, parameters and body; the first
    /// built-in request where there is no such request.
    pub open spec fn interpolated_request(&self) -> RequestView {
        let idx: int = match self.selection() {
            SidebarSelection::Request(i) => i as int,
            SidebarSelection::Environment(_) => 0,
        };
        if idx >= self.collections@.len() {
            default_requests_spec()[0]
        } else {
            let req = self.collections@[idx]@;
            let vars = self.active_vars();
            RequestView {
                name: req.name,
                method: req.method,
                url: substitute_spec(req.url, vars),
                headers: substitute_spec(req.headers, vars),
                params: substitute_spec(req.params, vars),
                body: substitute_spec(req.body, vars),
            }
        }
    }

    /// `after` is `self` with the editors saved under method `method_index`
    /// (see `saved_collections` and `saved_environments`); the cursor, the
    /// editors and the response pane stay.
    pub open spec fn saves_to_with(&self, after: &Self, method_index: int) -> bool {
        &&& request_views(after.collections@) == self.saved_collections(method_index)
        &&& environment_views(after.environments@) == self.saved_environments()
        &&& after.collections@.len() == self.collections@.len()
        &&& after.environments@.len() == self.environments@.len()
        &&& after.active_env_index == self.active_env_index
        &&& after.sidebar_index == self.sidebar_index
        &&& after.sidebar_mode == self.sidebar_mode
        &&& after.request_editors_same(self)
        &&& after.env_textarea == self.env_textarea
        &&& after.response_same(self)
    }

    /// `self` holds the data and response pane of `before`, with the cursor
    /// at flat position `index` and the entry there loaded into the
    /// editors: a request into the URL, method and tab editors, an
    /// environment into the variables editor.
    pub open spec fn loads_entry(&self, before: &Self, index: int) -> bool {
        &&& self.sidebar_index == index
        &&& self.data_same(before)
        &&& self.response_same(before)
        &&& self.request_tab == before.request_tab
        &&& match self.selection() {
            SidebarSelection::Request(i) => {
                &&& self.shows_request(i as int)
                &&& self.env_textarea == before.env_textarea
            },
            SidebarSelection::Environment(i) => {
                &&& self.shows_environment(i as int)
                &&& self.request_editors_same(before)
                &&& self.method_index == before.method_index
            },
        }
    }

    /// `self` is `before` with the cursor moved to flat position `index` and
    /// the entry there loaded into the editors (see `loads_entry`); the
    /// focus and the sidebar mode stay.
    pub open spec fn loaded_entry(&self, before: &Self, index: int) -> bool {
        &&& self.loads_entry(before, index)
        &&& self.focus == before.focus
        &&& self.sidebar_mode == before.sidebar_mode
    }

    /// The sidebar entry under the cursor.
    pub fn get_sidebar_selection(&self) -> (s: SidebarSelection)
        ensures
            s == self.selection(),
    {
        if self.sidebar_index < self.collections.len() {
            SidebarSelection::Request(self.sidebar_index)
        } else {
            SidebarSelection::Environment(self.sidebar_index - self.collections.len())
        }
    }

    /// The number of sidebar entries: requests and environments.
    pub fn total_sidebar_items(&self) -> (n: usize)
        requires
            self.collections@.len() + self.environments@.len() <= usize::MAX,
        ensures
            n == self.total_items(),
    {
        self.collections.len() + self.environments.len()
    }

    /// Moves the sidebar cursor to flat position `index` and loads the
    /// entry there into the editors.
    pub fn load_sidebar_selection(&mut self, index: usize)
        requires
            index < old(self).total_items(),
        ensures
            final(self).loaded_entry(&*old(self), index as int),
    {
        self.sidebar_index = index;
        match self.get_sidebar_selection() {
            SidebarSelection::Request(idx) => {
                let mut url_lines: Vec<String> = Vec::new();
                url_lines.push(self.collections[idx].url.clone());
                let mut url = editor_new(url_lines);
                editor_set_cursor_line_style(&mut url, plain_style());
                editor_set_cursor_style(&mut url, reversed(plain_style()));
                proof {
                    assert(string_views(url_lines@) =~= seq![self.collections@[idx as int].url@]);
                }
                self.url_textarea = url;
                self.method_index = method_index_of(&self.collections[idx].method);
                self.headers_textarea = editor_from_text(&self.collections[idx].headers);
                self.params_textarea = editor_from_text(&self.collections[idx].params);
                self.body_textarea = editor_from_text(&self.collections[idx].body);
            },
            SidebarSelection::Environment(idx) => {
                self.env_textarea = editor_from_text(&self.environments[idx].variables);
            },
        }
    }
}

impl<'a> App<'a> {
    /// Writes what the editors hold into the selected request or
    /// environment. The result says whether the configuration is to be
    /// written out now: always for a request, and for an environment that
    /// exists (where none exists, nothing changes).
    pub fn save_current_request(&mut self) -> (persist: bool)
        requires
            old(self).method_ready(),
        ensures
            persist == old(self).save_persists(),
            old(self).saves_to_with(&*final(self), old(self).method_index as int),
            final(self).focus == old(self).focus,
            final(self).request_tab == old(self).request_tab,
            final(self).method_index == old(self).method_index,
    {
        match self.get_sidebar_selection() {
            SidebarSelection::Request(idx) => {
                if idx >= self.collections.len() {
                    return false;
                }
                let url_lines = editor_text_lines(&self.url_textarea);
                let first = chars_of(url_lines[0].as_str());
                let url = string_from_chars(trim(first.as_slice()).as_slice());
                let method = String::from_str(http_method(self.method_index));
                let headers = editor_text(&self.headers_textarea);
                let params = editor_text(&self.params_textarea);
                let body = editor_text(&self.body_textarea);
                let name = self.collections[idx].name.clone();
                let ghost before = self.collections@;
                self.collections[idx] = ApiRequest { name, method, url, headers, params, body };
                assert(request_views(self.collections@) =~= request_views(before).update(
                    idx as int,
                    old(self).edited_request(idx as int, old(self).method_index as int),
                ));
            },
            SidebarSelection::Environment(idx) => {
                if idx >= self.environments.len() {
                    return false;
                }
                let variables = editor_text(&self.env_textarea);
                let name = self.environments[idx].name.clone();
                let ghost before = self.environments@;
                self.environments[idx] = Environment { name, variables };
                assert(environment_views(self.environments@) =~= environment_views(before).update(
                    idx as int,
                    EnvironmentView {
                        name: before[idx as int].name@,
                        variables: join_spec(editor_lines(old(self).env_textarea), seq!['\n']),
                    },
                ));
            },
        }
        true
    }

    /// The request to send: the selected request with the active
    /// environment's variables substituted (see `interpolated_request`).
    pub fn get_interpolated_request(&self) -> (r: ApiRequest)
        ensures
            r@ == self.interpolated_request(),
    {
        let idx = match self.get_sidebar_selection() {
            SidebarSelection::Request(i) => i,
            SidebarSelection::Environment(_) => 0,
        };
        if idx >= self.collections.len() {
            let defaults = default_requests();
            assert(default_requests_spec().len() == 5);
            assert(request_views(defaults@).len() == defaults@.len());
            assert(request_views(defaults@)[0] == defaults@[0]@);
            return defaults[0].copy();
        }
        let req = &self.collections[idx];
        let vars: Vec<VarPair> = match self.active_env_index {
            Some(e) => if e < self.environments.len() {
                parse_env_vars(self.environments[e].variables.as_str())
            } else {
                Vec::new()
            },
            None => Vec::new(),
        };
        proof {
            assert(pair_views(vars@) =~= self.active_vars());
        }
        ApiRequest {
            name: req.name.clone(),
            method: req.method.clone(),
            url: substitute(req.url.as_str(), &vars),
            headers: substitute(req.headers.as_str(), &vars),
            params: substitute(req.params.as_str(), &vars),
            body: substitute(req.body.as_str(), &vars),
        }
    }

    /// Moves to the next HTTP method (after PATCH comes GET again) and saves
    /// the editors with it. The result says whether the configuration is
    /// to be written out.
    pub fn cycle_method(&mut self) -> (persist: bool)
        requires
            old(self).method_index < usize::MAX,
        ensures
            final(self).method_index == (old(self).method_index + 1) % (HTTP_METHOD_COUNT as int),
            persist == old(self).save_persists(),
            old(self).saves_to_with(&*final(self), final(self).method_index as int),
            final(self).focus == old(self).focus,
            final(self).request_tab == old(self).request_tab,
            final(self).method_ready(),
    {
        self.method_index = (self.method_index + 1) % HTTP_METHOD_COUNT;
        self.save_current_request()
    }

    /// Saves the editors, then moves the focus to the next pane (`forward`)
    /// or the previous one (see `next_focus`). The result says whether the
    /// configuration is to be written out.
    pub fn cycle_focus(&mut self, forward: bool) -> (persist: bool)
        requires
            old(self).method_ready(),
        ensures
            final(self).focus == next_focus(old(self).focus, forward, old(self).selection()),
            persist == old(self).save_persists(),
            old(self).saves_to_with(&*final(self), old(self).method_index as int),
            final(self).request_tab == old(self).request_tab,
            final(self).method_index == old(self).method_index,
            final(self).method_ready(),
    {
        let persist = self.save_current_request();
        let sel = self.get_sidebar_selection();
        self.focus = match (self.focus, forward) {
            (Focus::Sidebar, true) => match sel {
                SidebarSelection::Request(_) => Focus::RequestUrl,
                SidebarSelection::Environment(_) => Focus::RequestTabContent,
            },
            (Focus::RequestUrl, true) => Focus::RequestTabContent,
            (Focus::RequestTabContent, true) => Focus::Response,
            (Focus::Response, true) => Focus::Sidebar,
            (Focus::Sidebar, false) => Focus::Response,
            (Focus::RequestUrl, false) => Focus::Sidebar,
            (Focus::RequestTabContent, false) => match sel {
                SidebarSelection::Request(_) => Focus::RequestUrl,
                SidebarSelection::Environment(_) => Focus::Sidebar,
            },
            (Focus::Response, false) => Focus::RequestTabContent,
        };
        persist
    }
}

/// What was read back from the saved configuration: requests,
/// environments and the active environment.
pub type LoadedConfig = (Vec<ApiRequest>, Vec<Environment>, Option<usize>);

impl<'a> App<'a> {
    /// The client state at start-up. `loaded` is what `load_config` gave;
    /// without it the built-in requests and environments are used, with
    /// the first environment active. The cursor is on the first sidebar
    /// entry, which the editors show; the focus is on the sidebar.
    pub fn new(loaded: Option<LoadedConfig>) -> (app: App<'a>)
        requires
            loaded matches Some(c) ==> 0 < c.0@.len() + c.1@.len() <= usize::MAX,
        ensures
            match loaded {
                Some(c) => {
                    &&& app.collections@ == c.0@
                    &&& app.environments@ == c.1@
                    &&& app.active_env_index == c.2
                },
                None => {
                    &&& request_views(app.collections@) == default_requests_spec()
                    &&& environment_views(app.environments@) == default_environments_spec()
                    &&& app.active_env_index == Some(0usize)
                },
            },
            app.sidebar_index == 0,
            app.sidebar_mode == SidebarMode::Collections,
            app.focus == Focus::Sidebar,
            app.request_tab == RequestTab::Headers,
            match app.selection() {
                SidebarSelection::Request(_) => {
                    &&& app.shows_request(0)
                    &&& editor_lines(app.env_textarea) == seq![Seq::<char>::empty()]
                },
                SidebarSelection::Environment(_) => {
                    &&& app.shows_environment(0)
                    &&& app.method_index == 0
                    &&& editor_lines(app.url_textarea) == seq![Seq::<char>::empty()]
                    &&& editor_lines(app.headers_textarea) == seq![Seq::<char>::empty()]
                    &&& editor_lines(app.params_textarea) == seq![Seq::<char>::empty()]
                    &&& editor_lines(app.body_textarea) == seq![Seq::<char>::empty()]
                },
            },
            app.response_content@ == welcome_spec(),
            app.response_status is None,
            app.response_time is None,
            app.response_size is None,
            !app.is_loading,
            app.response_scroll == 0,
            app.method_ready(),
    {
        let (collections, environments, active_env_index) = match loaded {
            Some(c) => c,
            None => {
                let r = default_requests();
                let e = default_environments();
                assert(r@.len() == request_views(r@).len());
                assert(e@.len() == environment_views(e@).len());
                (r, e, Some(0))
            },
        };
        let mut app = App {
            collections,
            environments,
            active_env_index,
            sidebar_index: 0,
            sidebar_mode: SidebarMode::Collections,
            focus: Focus::Sidebar,
            request_tab: RequestTab::Headers,
            method_index: 0,
            url_textarea: editor_default(),
            headers_textarea: editor_default(),
            params_textarea: editor_default(),
            body_textarea: editor_default(),
            env_textarea: editor_default(),
            response_content: String::from_str(
                "Welcome to RestDeck!\n\nUse Tab / Shift-Tab to switch panels.\nUse Ctrl-E to trigger HTTP request.\nUse Ctrl-H/Ctrl-P/Ctrl-B to switch request tabs.\nUse Up/Down to navigate sidebar requests.",
            ),
            response_status: None,
            response_time: None,
            response_size: None,
            is_loading: false,
            response_scroll: 0,
        };
        app.load_sidebar_selection(0);
        app
    }

    /// What the saved configuration file gives: `parsed` is the file read
    /// as a full configuration, `legacy` the file read as a bare list of
    /// requests (tried only where the first reading failed). A full
    /// configuration is taken as it is; a bare list comes with the built-in
    /// environments and the first of them active; otherwise nothing.
    pub fn load_config(parsed: Option<AppConfig>, legacy: Option<Vec<ApiRequest>>) -> (r: Option<
        LoadedConfig,
    >)
        ensures
            match parsed {
                Some(c) => r == Some((c.collections, c.environments, c.active_env_index)),
                None => match legacy {
                    Some(l) => r matches Some(t) && t.0 == l && environment_views(t.1@)
                        == default_environments_spec() && t.2 == Some(0usize),
                    None => r is None,
                },
            },
    {
        match parsed {
            Some(c) => Some((c.collections, c.environments, c.active_env_index)),
            None => match legacy {
                Some(l) => Some((l, default_environments(), Some(0))),
                None => None,
            },
        }
    }

    /// The configuration to save: a copy of the requests, environments and
    /// active environment.
    pub fn to_config(&self) -> (c: AppConfig)
        ensures
            c.collections@ == self.collections@,
            c.environments@ == self.environments@,
            c.active_env_index == self.active_env_index,
    {
        AppConfig {
            collections: copy_requests(&self.collections),
            environments: copy_environments(&self.environments),
            active_env_index: self.active_env_index,
        }
    }
}

/// The parts of the configuration file's path, as a spec: `restdeck.json`
/// in the working directory where that file exists, else
/// `<home>/.config/restdeck/collections.json` where a home directory is
/// known, else `restdeck.json` again.
pub open spec fn config_path_spec(local_exists: bool, home: Option<Seq<char>>) -> Seq<Seq<char>> {
    if local_exists {
        seq!["restdeck.json"@]
    } else {
        match home {
            Some(h) => seq![h, ".config"@, "restdeck"@, "collections.json"@],
            None => seq!["restdeck.json"@],
        }
    }
}

/// Where the configuration file lives, as path components to be joined:
/// `local_exists` says whether `restdeck.json` exists in the working
/// directory, `home` is the home directory where one is known.
pub fn config_path_parts(local_exists: bool, home: Option<String>) -> (parts: Vec<String>)
    ensures
        parts@.map_values(|p: String| p@) == config_path_spec(
            local_exists,
            match home {
                Some(h) => Some(h@),
                None => None,
            },
        ),
{
    let mut parts: Vec<String> = Vec::new();
    if local_exists {
        parts.push(String::from_str("restdeck.json"));
    } else {
        match home {
            Some(h) => {
                parts.push(h);
                parts.push(String::from_str(".config"));
                parts.push(String::from_str("restdeck"));
                parts.push(String::from_str("collections.json"));
            },
            None => {
                parts.push(String::from_str("restdeck.json"));
            },
        }
    }
    assert(parts@.map_values(|p: String| p@) =~= config_path_spec(
        local_exists,
        match home {
            Some(h) => Some(h@),
            None => None,
        },
    ));
    parts
}

} // verus!
