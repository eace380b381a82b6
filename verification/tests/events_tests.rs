use restdeck::app::{App, Focus, RequestTab, SidebarMode};
use restdeck::events::{EditTarget, KeyCode, KeyCommand, KeyOutcome, KeyPress};

fn key(code: KeyCode) -> KeyPress {
    KeyPress { code, ctrl: false }
}

fn ctrl(c: char) -> KeyPress {
    KeyPress { code: KeyCode::Char(c), ctrl: true }
}

#[test]
fn quit_keys() {
    let mut app = App::new(None);
    assert!(matches!(app.handle_key(ctrl('c')), KeyOutcome::Quit));
    assert!(matches!(app.handle_key(key(KeyCode::Esc)), KeyOutcome::Quit));
    app.focus = Focus::Response;
    assert!(matches!(app.handle_key(key(KeyCode::Esc)), KeyOutcome::Done { persist: false }));
}

#[test]
fn tab_moves_focus_and_saves() {
    let mut app = App::new(None);
    assert!(matches!(app.handle_key(key(KeyCode::Tab)), KeyOutcome::Done { persist: true }));
    assert_eq!(app.focus, Focus::RequestUrl);
    assert!(matches!(app.handle_key(key(KeyCode::BackTab)), KeyOutcome::Done { persist: true }));
    assert_eq!(app.focus, Focus::Sidebar);
}

#[test]
fn sidebar_navigation_wraps() {
    let mut app = App::new(None);
    app.handle_key(key(KeyCode::Up));
    assert_eq!(app.sidebar_index, 6);
    app.handle_key(key(KeyCode::Char('j')));
    assert_eq!(app.sidebar_index, 0);
    app.handle_key(key(KeyCode::Down));
    assert_eq!(app.sidebar_index, 1);
    assert_eq!(app.method_index, 1);
    assert_eq!(app.command_for_key(key(KeyCode::Char('k'))), KeyCommand::MoveCursor(0));
}

#[test]
fn enter_opens_request_or_activates_environment() {
    let mut app = App::new(None);
    assert!(matches!(app.handle_key(key(KeyCode::Enter)), KeyOutcome::Done { persist: false }));
    assert_eq!(app.focus, Focus::RequestUrl);
    app.focus = Focus::Sidebar;
    app.load_sidebar_selection(6);
    assert!(matches!(app.handle_key(key(KeyCode::Enter)), KeyOutcome::Done { persist: true }));
    assert_eq!(app.active_env_index, Some(1));
    assert_eq!(app.focus, Focus::Sidebar);
}

#[test]
fn ctrl_keys_on_request() {
    let mut app = App::new(None);
    app.handle_key(ctrl('p'));
    assert_eq!(app.request_tab, RequestTab::Params);
    app.handle_key(ctrl('b'));
    assert_eq!(app.request_tab, RequestTab::Body);
    app.handle_key(ctrl('h'));
    assert_eq!(app.request_tab, RequestTab::Headers);
    assert!(matches!(app.handle_key(ctrl('m')), KeyOutcome::Done { persist: true }));
    assert_eq!(app.method_index, 1);
    assert_eq!(app.collections[0].method, "POST");
    app.load_sidebar_selection(5);
    app.handle_key(ctrl('p'));
    assert_eq!(app.request_tab, RequestTab::Headers);
}

#[test]
fn send_saves_and_interpolates() {
    let mut app = App::new(None);
    match app.handle_key(ctrl('e')) {
        KeyOutcome::Send { persist, request } => {
            assert!(persist);
            assert_eq!(request.url, "https://httpbin.org/json");
            assert_eq!(request.method, "GET");
        }
        _ => panic!("expected a request to send"),
    }
    assert_eq!(app.focus, Focus::Response);
}

#[test]
fn typing_goes_to_the_focused_editor() {
    let mut app = App::new(None);
    app.focus = Focus::RequestUrl;
    assert!(matches!(app.handle_key(key(KeyCode::Char('x'))), KeyOutcome::Edit(EditTarget::Url)));
    app.focus = Focus::RequestTabContent;
    app.request_tab = RequestTab::Body;
    assert!(matches!(app.handle_key(key(KeyCode::Char('x'))), KeyOutcome::Edit(EditTarget::Body)));
    app.load_sidebar_selection(5);
    assert!(matches!(app.handle_key(key(KeyCode::Char('x'))), KeyOutcome::Edit(EditTarget::Variables)));
}

#[test]
fn response_scroll_saturates() {
    let mut app = App::new(None);
    app.focus = Focus::Response;
    app.handle_key(key(KeyCode::Up));
    assert_eq!(app.response_scroll, 0);
    app.handle_key(key(KeyCode::Char('j')));
    app.handle_key(key(KeyCode::Down));
    assert_eq!(app.response_scroll, 2);
    app.response_scroll = u16::MAX;
    app.handle_key(key(KeyCode::Down));
    assert_eq!(app.response_scroll, u16::MAX);
    assert!(matches!(app.handle_key(key(KeyCode::Other)), KeyOutcome::Done { persist: false }));
}

#[test]
fn ctrl_y_switches_sidebar_mode_from_any_pane() {
    let mut app = App::new(None);
    app.load_sidebar_selection(2);
    app.focus = Focus::RequestTabContent;
    assert_eq!(app.command_for_key(ctrl('y')), KeyCommand::ToggleMode);
    assert!(matches!(app.handle_key(ctrl('y')), KeyOutcome::Done { persist: false }));
    assert_eq!(app.sidebar_mode, SidebarMode::History);
    assert_eq!(app.focus, Focus::Sidebar);
    assert_eq!(app.sidebar_index, 2);
    app.focus = Focus::RequestUrl;
    app.url_textarea.0.insert_str("zz");
    app.handle_key(ctrl('y'));
    assert_eq!(app.sidebar_mode, SidebarMode::Collections);
    assert_eq!(app.focus, Focus::Sidebar);
    assert_eq!(app.url_textarea.0.lines().to_vec(), vec!["{{baseUrl}}/put".to_string()]);
    assert_eq!(app.method_index, 2);
}

#[test]
fn history_mode_keys() {
    let mut app = App::new(None);
    app.handle_key(ctrl('y'));
    assert_eq!(app.sidebar_mode, SidebarMode::History);
    // The run list is empty: the sidebar keys do nothing.
    assert_eq!(app.command_for_key(key(KeyCode::Down)), KeyCommand::Ignore);
    app.handle_key(key(KeyCode::Down));
    app.handle_key(key(KeyCode::Enter));
    assert_eq!(app.sidebar_index, 0);
    assert_eq!(app.focus, Focus::Sidebar);
    // The request Ctrl keys belong to the collections mode.
    app.handle_key(ctrl('p'));
    assert_eq!(app.request_tab, RequestTab::Headers);
    // The tab pane is read-only but saves the editors.
    app.focus = Focus::RequestTabContent;
    assert_eq!(app.command_for_key(key(KeyCode::Char('x'))), KeyCommand::SaveEditors);
    assert!(matches!(app.handle_key(key(KeyCode::Char('x'))), KeyOutcome::Done { persist: true }));
    // The URL stays editable.
    app.focus = Focus::RequestUrl;
    assert!(matches!(app.handle_key(key(KeyCode::Char('x'))), KeyOutcome::Edit(EditTarget::Url)));
    // Esc in the sidebar still quits.
    app.focus = Focus::Sidebar;
    assert!(matches!(app.handle_key(key(KeyCode::Esc)), KeyOutcome::Quit));
}
