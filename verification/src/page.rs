//! The page's state and event handling: the theme flag, the toggle
//! transition, and the resolution of scroll requests against the document.

use vstd::prelude::*;

use crate::env::Environment;

verus! {

/// The page's single piece of mutable state: the theme flag. It fully
/// determines the visual theme class and the icon glyph shown.
#[derive(Clone, Copy, PartialEq, Eq, Structural, Debug)]
pub struct ViewState {
    pub dark_mode: bool,
}

/// The state with the theme flag negated: the toggle transition.
pub open spec fn toggled(s: ViewState) -> ViewState {
    ViewState { dark_mode: !s.dark_mode }
}

/// The theme class name shown for a value of the theme flag.
pub open spec fn spec_theme_class(dark: bool) -> Seq<char> {
    if dark {
        "dark"@
    } else {
        "light"@
    }
}

/// The theme icon glyph shown for a value of the theme flag: a moon for
/// dark, a sun for light.
pub open spec fn spec_theme_icon(dark: bool) -> Seq<char> {
    if dark {
        "🌙"@
    } else {
        "☀️"@
    }
}

/// The class of the page's root container for a value of the theme flag.
pub open spec fn spec_root_class(dark: bool) -> Seq<char> {
    if dark {
        "app-container dark"@
    } else {
        "app-container light"@
    }
}

/// The theme class name: `"dark"` or `"light"`.
pub fn theme_class(dark: bool) -> (s: &'static str)
    ensures
        s@ == spec_theme_class(dark),
{
    if dark {
        "dark"
    } else {
        "light"
    }
}

/// The theme icon glyph: the moon for dark, the sun for light.
pub fn theme_icon(dark: bool) -> (s: &'static str)
    ensures
        s@ == spec_theme_icon(dark),
{
    if dark {
        "🌙"
    } else {
        "☀️"
    }
}

/// The root container's class, the theme class appended to the base class.
pub fn root_class(dark: bool) -> (s: &'static str)
    ensures
        s@ == spec_root_class(dark),
{
    if dark {
        "app-container dark"
    } else {
        "app-container light"
    }
}

/// An event the page reacts to.
pub enum Msg {
    ToggleTheme,
    ScrollTo(String),
}

/// A request that the environment scroll the element with the given
/// identifier into view, aligning it to the top.
pub struct ScrollRequest {
    pub target: String,
    pub align_to_top: bool,
}

/// What an event handler asks of the event layer: whether to render again,
/// and at most one scroll request to carry out.
pub struct Outcome {
    pub redraw: bool,
    pub scroll: Option<ScrollRequest>,
}

/// Reads the environment's dark-mode media-query signal and returns the
/// initial state: dark exactly when the signal reports a match. Any lookup
/// failure counts as no preference and yields the light theme.
pub fn initialize(env: &Environment) -> (s: ViewState)
    ensures
        s.dark_mode == env.spec_prefers_dark(),
{
    ViewState { dark_mode: env.prefers_dark() }
}

/// Returns a new state with the theme flag negated.
pub fn handle_toggle_theme(state: ViewState) -> (s: ViewState)
    ensures
        s == toggled(state),
{
    ViewState { dark_mode: !state.dark_mode }
}

/// Locates the element with the given identifier and, where it exists,
/// issues exactly one scroll request targeting it; where it does not, issues
/// none. Never an error: a missing window, document or element is a no-op.
pub fn handle_scroll_to(env: &Environment, id: &str) -> (r: Option<ScrollRequest>)
    ensures
        env.spec_has_scroll_target(id@) ==> (r matches Some(req) && req.target@ == id@
            && req.align_to_top),
        !env.spec_has_scroll_target(id@) ==> r is None,
{
    if env.find_scroll_target(id) {
        Some(ScrollRequest { target: id.to_owned(), align_to_top: true })
    } else {
        None
    }
}

/// Dispatches one event: a toggle flips the theme flag and asks for a
/// redraw; a scroll request leaves the state unchanged, asks for no redraw,
/// and resolves the target against the environment.
pub fn update(state: &mut ViewState, env: &Environment, msg: Msg) -> (out: Outcome)
    ensures
        msg is ToggleTheme ==> *final(state) == toggled(*old(state)) && out.redraw
            && out.scroll is None,
        (msg matches Msg::ScrollTo(id) ==> *final(state) == *old(state) && !out.redraw
            && (env.spec_has_scroll_target(id@) ==> (out.scroll matches Some(req)
                && req.target@ == id@ && req.align_to_top))
            && (!env.spec_has_scroll_target(id@) ==> out.scroll is None)),
{
    match msg {
        Msg::ToggleTheme => {
            *state = handle_toggle_theme(*state);
            Outcome { redraw: true, scroll: None }
        },
        Msg::ScrollTo(id) => {
            Outcome { redraw: false, scroll: handle_scroll_to(env, id.as_str()) }
        },
    }
}

/// Toggling the theme twice returns to the original state.
pub proof fn lemma_toggle_roundtrip(s: ViewState)
    ensures
        toggled(toggled(s)) == s,
{
}

/// The root container's class is the theme class appended to the base
/// class `"app-container "`.
pub proof fn lemma_root_class_parts(dark: bool)
    ensures
        spec_root_class(dark) == "app-container "@ + spec_theme_class(dark),
{
    reveal_strlit("app-container ");
    reveal_strlit("dark");
    reveal_strlit("light");
    reveal_strlit("app-container dark");
    reveal_strlit("app-container light");
    if dark {
        assert(spec_root_class(true) =~= "app-container "@ + spec_theme_class(true));
    } else {
        assert(spec_root_class(false) =~= "app-container "@ + spec_theme_class(false));
    }
}

/// The two rows of the theme table differ: dark and light yield different
/// class names, root classes and icon glyphs, so each rendered page shows
/// which state produced it.
pub proof fn lemma_theme_table_distinct()
    ensures
        spec_theme_class(true) != spec_theme_class(false),
        spec_root_class(true) != spec_root_class(false),
        spec_theme_icon(true) != spec_theme_icon(false),
{
    reveal_strlit("dark");
    reveal_strlit("light");
    reveal_strlit("app-container dark");
    reveal_strlit("app-container light");
    reveal_strlit("🌙");
    reveal_strlit("☀️");
    assert(spec_theme_class(true).len() != spec_theme_class(false).len());
    assert(spec_root_class(true).len() != spec_root_class(false).len());
    assert(spec_theme_icon(true).len() != spec_theme_icon(false).len());
}

} // verus!
