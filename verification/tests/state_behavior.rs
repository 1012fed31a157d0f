use asteroid_landing::env::{Document, Environment, MediaQuery, Window};
use asteroid_landing::page::{
    handle_scroll_to, handle_toggle_theme, initialize, root_class, theme_class, theme_icon,
    update, Msg, ViewState,
};

fn env_with_query(matches: bool) -> Environment {
    Environment {
        window: Some(Window {
            dark_query: Some(MediaQuery { matches }),
            document: None,
        }),
    }
}

fn env_with_ids(ids: &[&str]) -> Environment {
    Environment {
        window: Some(Window {
            dark_query: None,
            document: Some(Document {
                element_ids: ids.iter().map(|s| s.to_string()).collect(),
            }),
        }),
    }
}

#[test]
fn initialize_prefers_dark() {
    let state = initialize(&env_with_query(true));
    assert!(state.dark_mode);
}

#[test]
fn initialize_query_reports_no_match() {
    let state = initialize(&env_with_query(false));
    assert!(!state.dark_mode);
}

#[test]
fn initialize_query_unavailable() {
    let env = Environment {
        window: Some(Window {
            dark_query: None,
            document: None,
        }),
    };
    let state = initialize(&env);
    assert!(!state.dark_mode);
}

#[test]
fn initialize_no_window() {
    let state = initialize(&Environment { window: None });
    assert!(!state.dark_mode);
}

#[test]
fn toggle_flips_the_flag() {
    let light = ViewState { dark_mode: false };
    assert!(handle_toggle_theme(light).dark_mode);
    let dark = ViewState { dark_mode: true };
    assert!(!handle_toggle_theme(dark).dark_mode);
}

#[test]
fn toggle_twice_returns_to_original() {
    for start in [false, true] {
        let state = ViewState { dark_mode: start };
        let once = handle_toggle_theme(state);
        let twice = handle_toggle_theme(once);
        assert_eq!(twice.dark_mode, start);
    }
}

#[test]
fn update_toggle_flips_and_redraws() {
    let env = Environment { window: None };
    let mut state = ViewState { dark_mode: false };
    let out = update(&mut state, &env, Msg::ToggleTheme);
    assert!(state.dark_mode);
    assert!(out.redraw);
    assert!(out.scroll.is_none());
    let out = update(&mut state, &env, Msg::ToggleTheme);
    assert!(!state.dark_mode);
    assert!(out.redraw);
    assert!(out.scroll.is_none());
}

#[test]
fn update_scroll_keeps_state_and_resolves_target() {
    let env = env_with_ids(&["hero", "features", "downloads"]);
    let mut state = ViewState { dark_mode: true };
    let out = update(&mut state, &env, Msg::ScrollTo("downloads".to_string()));
    assert!(state.dark_mode);
    assert!(!out.redraw);
    let req = out.scroll.expect("a scroll request");
    assert_eq!(req.target, "downloads");
    assert!(req.align_to_top);
}

#[test]
fn scroll_to_present_element_issues_one_request() {
    let env = env_with_ids(&["hero", "features", "downloads", "contact"]);
    let req = handle_scroll_to(&env, "downloads").expect("a scroll request");
    assert_eq!(req.target, "downloads");
    assert!(req.align_to_top);
}

#[test]
fn scroll_to_missing_element_is_a_no_op() {
    let env = env_with_ids(&["hero", "features"]);
    assert!(handle_scroll_to(&env, "downloads").is_none());
}

#[test]
fn scroll_in_empty_document_is_a_no_op() {
    let env = env_with_ids(&[]);
    assert!(handle_scroll_to(&env, "hero").is_none());
}

#[test]
fn update_scroll_to_missing_target_issues_no_request() {
    let env = env_with_ids(&["hero"]);
    let mut state = ViewState { dark_mode: false };
    let out = update(&mut state, &env, Msg::ScrollTo("downloads".to_string()));
    assert!(!state.dark_mode);
    assert!(!out.redraw);
    assert!(out.scroll.is_none());
}

#[test]
fn scroll_without_document_is_a_no_op() {
    let env = Environment {
        window: Some(Window {
            dark_query: None,
            document: None,
        }),
    };
    assert!(handle_scroll_to(&env, "downloads").is_none());
}

#[test]
fn scroll_without_window_is_a_no_op() {
    assert!(handle_scroll_to(&Environment { window: None }, "hero").is_none());
}

#[test]
fn theme_table_values() {
    assert_eq!(theme_class(true), "dark");
    assert_eq!(theme_class(false), "light");
    assert_eq!(theme_icon(true), "🌙");
    assert_eq!(theme_icon(false), "☀️");
    assert_eq!(root_class(true), "app-container dark");
    assert_eq!(root_class(false), "app-container light");
}
