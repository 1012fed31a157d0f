use asteroid_landing::env::Environment;
use asteroid_landing::markup::{node_contains_attr, node_contains_text, Node};
use asteroid_landing::page::{initialize, update, Msg, ViewState};
use asteroid_landing::render::render;

#[test]
fn render_dark_has_dark_class_and_moon() {
    let tree = render(ViewState { dark_mode: true });
    assert!(node_contains_attr(&tree, "class", "app-container dark"));
    assert!(node_contains_text(&tree, "🌙"));
    assert!(!node_contains_attr(&tree, "class", "app-container light"));
    assert!(!node_contains_text(&tree, "☀️"));
}

#[test]
fn render_light_has_light_class_and_sun() {
    let tree = render(ViewState { dark_mode: false });
    assert!(node_contains_attr(&tree, "class", "app-container light"));
    assert!(node_contains_text(&tree, "☀️"));
    assert!(!node_contains_attr(&tree, "class", "app-container dark"));
    assert!(!node_contains_text(&tree, "🌙"));
}

#[test]
fn render_root_is_a_container_div() {
    let tree = render(ViewState { dark_mode: false });
    match &tree {
        Node::Element(root) => {
            assert_eq!(root.tag, "div");
            assert_eq!(root.attrs.len(), 1);
            assert_eq!(root.attrs[0].name, "class");
            assert_eq!(root.attrs[0].value, "app-container light");
            assert_eq!(root.children.len(), 3);
        }
        Node::Text(_) => panic!("the root must be an element"),
    }
}

#[test]
fn render_exposes_anchor_identifiers() {
    for dark in [false, true] {
        let tree = render(ViewState { dark_mode: dark });
        assert!(node_contains_attr(&tree, "id", "hero"));
        assert!(node_contains_attr(&tree, "id", "features"));
        assert!(node_contains_attr(&tree, "id", "downloads"));
        assert!(node_contains_attr(&tree, "id", "contact"));
        assert!(node_contains_attr(&tree, "id", "github-stars"));
        assert!(!node_contains_attr(&tree, "id", "settings"));
    }
}

#[test]
fn render_static_content_is_present() {
    let tree = render(ViewState { dark_mode: true });
    assert!(node_contains_text(&tree, "ASTEROID"));
    assert!(node_contains_text(&tree, "Modelado Tropos, simplificado."));
    assert!(node_contains_text(&tree, "Descargar"));
    assert!(!node_contains_text(&tree, "no such text"));
}

#[test]
fn render_download_links_and_star_placeholder() {
    for dark in [false, true] {
        let tree = render(ViewState { dark_mode: dark });
        assert!(node_contains_attr(
            &tree,
            "href",
            "https://github.com/DaryllLorenzo/asteroid/releases/windows"
        ));
        assert!(node_contains_attr(
            &tree,
            "href",
            "https://github.com/DaryllLorenzo/asteroid/releases/linux"
        ));
        assert!(node_contains_text(&tree, "..."));
    }
}

#[test]
fn scenario_initial_load_then_toggle() {
    let env = Environment { window: None };
    let mut state = initialize(&env);
    assert!(!state.dark_mode);
    let tree = render(state);
    assert!(node_contains_attr(&tree, "class", "app-container light"));
    let out = update(&mut state, &env, Msg::ToggleTheme);
    assert!(out.redraw);
    assert!(state.dark_mode);
    let tree = render(state);
    assert!(node_contains_attr(&tree, "class", "app-container dark"));
}
