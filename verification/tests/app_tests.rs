use restdeck::app::{config_path_parts, App, Focus, RequestTab, SidebarSelection};
use restdeck::editor::Editor;
use tui_textarea::TextArea;

fn editor_lines(e: &Editor) -> Vec<String> {
    e.0.lines().to_vec()
}

#[test]
fn test_new_app() {
    let app = App::new(None);
    assert_eq!(app.sidebar_index, 0);
    assert_eq!(app.focus, Focus::Sidebar);
    assert_eq!(app.collections.len(), 5);
}

#[test]
fn test_cycle_focus() {
    let mut app = App::new(None);
    assert_eq!(app.focus, Focus::Sidebar);

    app.cycle_focus(true);
    assert_eq!(app.focus, Focus::RequestUrl);

    app.cycle_focus(true);
    assert_eq!(app.focus, Focus::RequestTabContent);

    app.cycle_focus(true);
    assert_eq!(app.focus, Focus::Response);
}

#[test]
fn test_interpolation() {
    let mut app = App::new(None);
    app.environments[0].variables = "baseUrl=https://api.restdeck.com\napiKey=foo-token".to_string();
    app.active_env_index = Some(0);

    app.collections[0].url = "{{baseUrl}}/v1/users".to_string();
    app.collections[0].headers = "Authorization: Bearer {{apiKey}}".to_string();

    let interpolated = app.get_interpolated_request();
    assert_eq!(interpolated.url, "https://api.restdeck.com/v1/users");
    assert_eq!(interpolated.headers, "Authorization: Bearer foo-token");
}

#[test]
fn test_cycle_method() {
    let mut app = App::new(None);
    assert_eq!(app.method_index, 0); // GET

    app.cycle_method();
    assert_eq!(app.method_index, 1); // POST
    assert_eq!(app.collections[0].method, "POST");
}

#[test]
fn test_save_load_config() {
    let mut app = App::new(None);
    app.collections[0].url = "https://example.com/config-test".to_string();
    app.environments[0].name = "Staging".to_string();
    let config = app.to_config();

    let (collections, envs, _) = App::load_config(Some(config), None).unwrap();
    assert_eq!(collections[0].url, "https://example.com/config-test");
    assert_eq!(envs[0].name, "Staging");
}

#[test]
fn new_app_defaults_and_first_request_loaded() {
    let app = App::new(None);
    assert_eq!(app.environments.len(), 2);
    assert_eq!(app.environments[0].name, "Dev");
    assert_eq!(app.active_env_index, Some(0));
    assert_eq!(app.request_tab, RequestTab::Headers);
    assert!(!app.is_loading);
    assert_eq!(app.response_scroll, 0);
    assert!(app.response_content.starts_with("Welcome to RestDeck!"));
    assert_eq!(editor_lines(&app.url_textarea), vec!["{{baseUrl}}/json".to_string()]);
    assert_eq!(
        editor_lines(&app.headers_textarea),
        vec![
            "Accept: application/json".to_string(),
            "User-Agent: RestDeck-TUI".to_string(),
            "Authorization: Bearer {{apiKey}}".to_string(),
        ]
    );
    assert_eq!(editor_lines(&app.params_textarea), vec!["limit=10".to_string(), "page=1".to_string()]);
    assert_eq!(editor_lines(&app.body_textarea), vec!["".to_string()]);
    assert_eq!(editor_lines(&app.env_textarea), vec!["".to_string()]);
}

#[test]
fn new_app_from_loaded_config_starting_on_environment() {
    let env = restdeck::app::Environment { name: "Only".to_string(), variables: "a=1\nb=2".to_string() };
    let app = App::new(Some((Vec::new(), vec![env], None)));
    assert_eq!(app.get_sidebar_selection(), SidebarSelection::Environment(0));
    assert_eq!(editor_lines(&app.env_textarea), vec!["a=1".to_string(), "b=2".to_string()]);
    assert_eq!(editor_lines(&app.url_textarea), vec!["".to_string()]);
    assert_eq!(app.method_index, 0);
    assert_eq!(app.active_env_index, None);
}

#[test]
fn load_config_prefers_full_config_then_legacy_list() {
    let app = App::new(None);
    let legacy = app.to_config().collections;
    let (c, e, active) = App::load_config(None, Some(legacy)).unwrap();
    assert_eq!(c.len(), 5);
    assert_eq!(e.len(), 2);
    assert_eq!(e[1].name, "Prod");
    assert_eq!(active, Some(0));
    assert!(App::load_config(None, None).is_none());
}

#[test]
fn sidebar_selection_and_total() {
    let mut app = App::new(None);
    assert_eq!(app.total_sidebar_items(), 7);
    app.load_sidebar_selection(6);
    assert_eq!(app.get_sidebar_selection(), SidebarSelection::Environment(1));
    assert_eq!(
        editor_lines(&app.env_textarea),
        vec!["baseUrl=https://httpbin.org".to_string(), "apiKey=prod_key_abc".to_string()]
    );
    app.load_sidebar_selection(3);
    assert_eq!(app.get_sidebar_selection(), SidebarSelection::Request(3));
    assert_eq!(app.method_index, 3);
    assert_eq!(editor_lines(&app.headers_textarea), vec!["".to_string()]);
}

#[test]
fn unknown_method_loads_as_get() {
    let mut app = App::new(None);
    app.collections[2].method = "OPTIONS".to_string();
    app.load_sidebar_selection(2);
    assert_eq!(app.method_index, 0);
}

#[test]
fn save_current_request_takes_editor_text() {
    let mut app = App::new(None);
    app.url_textarea = Editor(TextArea::new(vec!["  https://x.test/a  ".to_string()]));
    app.headers_textarea = Editor(TextArea::new(vec!["A: 1".to_string(), "B: 2".to_string()]));
    app.body_textarea = Editor(TextArea::new(vec!["{".to_string(), "}".to_string()]));
    app.method_index = 4;
    assert!(app.save_current_request());
    let req = &app.collections[0];
    assert_eq!(req.url, "https://x.test/a");
    assert_eq!(req.method, "PATCH");
    assert_eq!(req.headers, "A: 1\nB: 2");
    assert_eq!(req.params, "limit=10\npage=1");
    assert_eq!(req.body, "{\n}");
    assert_eq!(req.name, "Get User Info");
    assert_eq!(app.collections[1].url, "{{baseUrl}}/post");
}

#[test]
fn save_current_request_on_environment() {
    let mut app = App::new(None);
    app.load_sidebar_selection(5);
    app.env_textarea = Editor(TextArea::new(vec!["x=1".to_string(), "y=2".to_string()]));
    assert!(app.save_current_request());
    assert_eq!(app.environments[0].variables, "x=1\ny=2");
    assert_eq!(app.environments[0].name, "Dev");
}

#[test]
fn save_current_request_without_entry_does_nothing() {
    let mut app = App::new(None);
    app.sidebar_index = 40;
    assert!(!app.save_current_request());
    assert_eq!(app.environments[0].variables, "baseUrl=https://httpbin.org\napiKey=dev_key_xyz");
}

#[test]
fn save_right_after_load_keeps_request() {
    let mut app = App::new(None);
    app.load_sidebar_selection(1);
    let before = app.collections[1].clone();
    app.save_current_request();
    assert_eq!(app.collections[1], before);
}

#[test]
fn cycle_method_wraps_to_get() {
    let mut app = App::new(None);
    for _ in 0..5 {
        app.cycle_method();
    }
    assert_eq!(app.method_index, 0);
    assert_eq!(app.collections[0].method, "GET");
}

#[test]
fn cycle_focus_on_environment_skips_url() {
    let mut app = App::new(None);
    app.load_sidebar_selection(5);
    app.cycle_focus(true);
    assert_eq!(app.focus, Focus::RequestTabContent);
    app.cycle_focus(false);
    assert_eq!(app.focus, Focus::Sidebar);
    app.cycle_focus(false);
    assert_eq!(app.focus, Focus::Response);
    app.cycle_focus(true);
    assert_eq!(app.focus, Focus::Sidebar);
}

#[test]
fn interpolation_without_active_environment_keeps_text() {
    let mut app = App::new(None);
    app.active_env_index = None;
    let r = app.get_interpolated_request();
    assert_eq!(r.url, "{{baseUrl}}/json");
    app.active_env_index = Some(9);
    let r = app.get_interpolated_request();
    assert_eq!(r.headers, app.collections[0].headers);
}

#[test]
fn interpolation_with_environment_selected_uses_first_request() {
    let mut app = App::new(None);
    app.load_sidebar_selection(6);
    app.active_env_index = Some(1);
    let r = app.get_interpolated_request();
    assert_eq!(r.name, "Get User Info");
    assert_eq!(r.url, "https://httpbin.org/json");
    assert_eq!(r.headers, "Accept: application/json\nUser-Agent: RestDeck-TUI\nAuthorization: Bearer prod_key_abc");
}

#[test]
fn interpolation_without_requests_gives_first_builtin() {
    let env = restdeck::app::Environment { name: "E".to_string(), variables: "".to_string() };
    let app = App::new(Some((Vec::new(), vec![env], Some(0))));
    let r = app.get_interpolated_request();
    assert_eq!(r.name, "Get User Info");
    assert_eq!(r.url, "{{baseUrl}}/json");
}

#[test]
fn environment_round_trip_through_editor() {
    let mut app = App::new(None);
    app.load_sidebar_selection(5);
    let before = app.environments[0].clone();
    app.save_current_request();
    assert_eq!(app.environments[0], before);
}

#[test]
fn trimmed_text_stays_trimmed() {
    let once: Vec<char> = restdeck::text::trim(&" \t a b \u{2003}".chars().collect::<Vec<_>>());
    let twice = restdeck::text::trim(&once);
    assert_eq!(once, twice);
    assert_eq!(once.iter().collect::<String>(), "a b");
}

#[test]
fn environment_without_equals_changes_nothing() {
    let mut app = App::new(None);
    app.environments[0].variables = "just words\n{{baseUrl}}\n".to_string();
    app.active_env_index = Some(0);
    let r = app.get_interpolated_request();
    assert_eq!(r.url, "{{baseUrl}}/json");
    assert_eq!(r.headers, app.collections[0].headers);
    assert_eq!(r.params, app.collections[0].params);
    assert_eq!(r.body, app.collections[0].body);
}

#[test]
fn builtin_environments_define_every_builtin_placeholder() {
    for e in 0..2usize {
        for q in 0..5usize {
            let mut app = App::new(None);
            app.load_sidebar_selection(q);
            app.active_env_index = Some(e);
            let r = app.get_interpolated_request();
            for field in [&r.url, &r.headers, &r.params, &r.body] {
                assert!(!field.contains("{{"), "request {} env {}: {}", q, e, field);
            }
        }
    }
}

#[test]
fn config_path_prefers_local_file_then_home() {
    assert_eq!(config_path_parts(true, Some("/home/u".to_string())), vec!["restdeck.json"]);
    assert_eq!(
        config_path_parts(false, Some("/home/u".to_string())),
        vec!["/home/u", ".config", "restdeck", "collections.json"]
    );
    assert_eq!(config_path_parts(false, None), vec!["restdeck.json"]);
    assert_eq!(config_path_parts(true, None), vec!["restdeck.json"]);
}
