use restdeck::app::{App, Focus, RequestTab, SidebarMode, SidebarSelection};
use restdeck::screen::{
    border_hue, border_look, clamp_scroll, help_text, highlight_body, highlight_line, method_badge,
    method_hue, method_look, mode_label, Hue, LineStyle, Look,
};

fn cv(s: &str) -> Vec<char> {
    s.chars().collect()
}

fn field(line: &str) -> (String, String, Hue) {
    match highlight_line(&cv(line)) {
        LineStyle::Field { key, value, value_hue } => (key, value, value_hue),
        LineStyle::Whole { .. } => panic!("expected a field"),
    }
}

fn whole(line: &str) -> (String, Hue) {
    match highlight_line(&cv(line)) {
        LineStyle::Whole { text, hue } => (text, hue),
        LineStyle::Field { .. } => panic!("expected a whole line"),
    }
}

#[test]
fn method_colours_and_badges() {
    assert_eq!(method_hue("GET"), Hue::Green);
    assert_eq!(method_hue("PATCH"), Hue::Cyan);
    assert_eq!(method_hue("HEAD"), Hue::White);
    assert_eq!(method_badge("DELETE"), (" DEL ", Hue::Red));
    assert_eq!(method_badge("POST"), (" POST", Hue::LightMagenta));
    assert_eq!(method_badge("x"), (" REQ ", Hue::White));
    assert_eq!(border_hue(true), Hue::Cyan);
    assert_eq!(border_hue(false), Hue::DarkGray);
}

#[test]
fn json_lines_are_highlighted() {
    assert_eq!(field("  \"ok\": true,"), ("  \"ok\"".to_string(), ": true,".to_string(), Hue::LightGreen));
    assert_eq!(field("  \"n\": 12"), ("  \"n\"".to_string(), ": 12".to_string(), Hue::Yellow));
    assert_eq!(field("  \"n\": \"\u{663}\""), ("  \"n\"".to_string(), ": \"\u{663}\"".to_string(), Hue::Yellow));
    assert_eq!(field("  \"s\": \"x\""), ("  \"s\"".to_string(), ": \"x\"".to_string(), Hue::LightRed));
    assert_eq!(field("{ a: b"), ("{ a".to_string(), ": b".to_string(), Hue::White));
    assert_eq!(whole("  {"), ("  {".to_string(), Hue::White));
    assert_eq!(whole("  \"no colon\""), ("  \"no colon\"".to_string(), Hue::DarkGray));
    assert_eq!(whole("plain: text"), ("plain: text".to_string(), Hue::DarkGray));
    assert_eq!(whole(""), ("".to_string(), Hue::DarkGray));
    assert_eq!(highlight_body("{\n  \"a\": 1\n}\n").len(), 3);
}

#[test]
fn scroll_is_clamped_to_overflow() {
    assert_eq!(clamp_scroll(10, 20, 12), 10);
    assert_eq!(clamp_scroll(15, 20, 12), 10);
    assert_eq!(clamp_scroll(5, 3, 12), 0);
    assert_eq!(clamp_scroll(5, 3, 1), 3);
}

#[test]
fn help_line_follows_focus() {
    assert_eq!(help_text(Focus::Response, SidebarMode::Collections, SidebarSelection::Request(0), RequestTab::Headers),
        "➔ View Response | Scroll: [Up/Down] or [j/k] | Switch Pane: [Tab]");
    assert_eq!(help_text(Focus::RequestTabContent, SidebarMode::Collections, SidebarSelection::Request(0), RequestTab::Params),
        "➔ Edit Parameters (key=value) | Switch Tabs: [Ctrl-H/P/B] | Send: [Ctrl-E] | Switch Pane: [Tab]");
    assert_eq!(help_text(Focus::RequestTabContent, SidebarMode::Collections, SidebarSelection::Environment(0), RequestTab::Body),
        "➔ Edit Environment (key=value) | Switch Pane: [Tab]");
    assert_eq!(help_text(Focus::Sidebar, SidebarMode::History, SidebarSelection::Request(0), RequestTab::Body),
        "➔ Nav: [Up/Down] | Restore Request: [Enter] | Switch Mode: [Ctrl-Y] | Switch Pane: [Tab]");
    assert_eq!(help_text(Focus::RequestTabContent, SidebarMode::History, SidebarSelection::Environment(0), RequestTab::Body),
        "➔ View Request Configuration (History Mode) | Switch Pane: [Tab]");
    assert_eq!(help_text(Focus::RequestUrl, SidebarMode::History, SidebarSelection::Request(0), RequestTab::Body),
        "➔ Edit URL | Cycle Method: [Ctrl-M] | Send: [Ctrl-E] | Switch Pane: [Tab]");
    assert_eq!(mode_label(SidebarMode::Collections), "COLLECTIONS");
    assert_eq!(mode_label(SidebarMode::History), "HISTORY");
}

#[test]
fn method_and_border_looks() {
    assert_eq!(method_look("DELETE"), Look { hue: Hue::Red, bold: true });
    assert_eq!(method_look("HEAD"), Look { hue: Hue::White, bold: false });
    assert_eq!(border_look(true), Look { hue: Hue::Cyan, bold: true });
    assert_eq!(border_look(false), Look { hue: Hue::DarkGray, bold: false });
}

#[test]
fn response_details_and_environment_label() {
    let mut app = App::new(None);
    let m = app.response_meta();
    assert_eq!((m.status.as_str(), m.status_hue), ("---", Hue::DarkGray));
    assert_eq!((m.time.as_str(), m.time_hue), ("---", Hue::DarkGray));
    app.response_status = Some("200 OK".to_string());
    app.response_time = Some("5ms".to_string());
    app.response_size = Some("0.01 KB".to_string());
    let m = app.response_meta();
    assert_eq!(m.status_hue, Hue::Green);
    assert_eq!(m.time_hue, Hue::Yellow);
    assert_eq!(m.size_hue, Hue::Blue);
    app.response_status = Some("404 Not Found".to_string());
    assert_eq!(app.response_meta().status_hue, Hue::Red);
    app.response_status = Some("Error".to_string());
    assert_eq!(app.response_meta().status_hue, Hue::DarkGray);
    assert_eq!(app.active_environment_label(), "Dev");
    app.active_env_index = Some(7);
    assert_eq!(app.active_environment_label(), "None");
    app.active_env_index = None;
    assert_eq!(app.active_environment_label(), "None");
}
