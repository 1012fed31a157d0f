//! The page renderer: a pure function from the view state to the page's
//! markup tree. The tree is fixed by `spec_page_with`, a construction with
//! exactly two parameters — the root container's class and the toggle
//! button's label — both chosen by the theme flag; everything else is the
//! same for both themes.

use vstd::prelude::*;

use crate::markup::{
    attr_matches, attrs1, attrs2, attrs3, attrs4, contains_attr, contains_labeled_elem,
    contains_text, elem, elem_has_attr, is_labeled_elem, lemma_attrs_have,
    lemma_contains_attr_here, lemma_contains_attr_via_child, lemma_contains_labeled_elem_here,
    lemma_contains_labeled_elem_via_child, lemma_contains_text_via_child, node_view, nodes1,
    nodes2, nodes3, nodes4, text, ElementView, Node, NodeView,
};
use crate::page::{root_class, spec_root_class, spec_theme_icon, theme_icon, ViewState};

verus! {

/// An element view: shorthand for the spec-level page construction.
pub open spec fn spec_el(
    tag: Seq<char>,
    attrs: Seq<(Seq<char>, Seq<char>)>,
    children: Seq<NodeView>,
) -> NodeView {
    NodeView::Element(ElementView { tag, attrs, children })
}

/// The logo block: the icon image and the brand name.
pub open spec fn spec_logo() -> NodeView {
    spec_el(
        "div"@,
        seq![("class"@, "logo-container"@)],
        seq![
            spec_el(
                "img"@,
                seq![
                    ("src"@, "/assets/icon.png"@),
                    ("alt"@, "Asteroid Icon"@),
                    ("class"@, "app-icon"@),
                ],
                Seq::empty(),
            ),
            spec_el("div"@, seq![("class"@, "logo"@)], seq![NodeView::Text("ASTEROID"@)]),
        ],
    )
}

/// The theme toggle button, labeled with the given icon glyph.
pub open spec fn spec_toggle_button(icon: Seq<char>) -> NodeView {
    spec_el("button"@, seq![("class"@, "theme-toggle"@)], seq![NodeView::Text(icon)])
}

/// The navigation bar: the three anchor links and the toggle button.
pub open spec fn spec_nav(icon: Seq<char>) -> NodeView {
    spec_el(
        "nav"@,
        seq![("class"@, "nav"@)],
        seq![
            spec_el("a"@, seq![("href"@, "#hero"@)], seq![NodeView::Text("Inicio"@)]),
            spec_el("a"@, seq![("href"@, "#features"@)], seq![NodeView::Text("Características"@)]),
            spec_el("a"@, seq![("href"@, "#downloads"@)], seq![NodeView::Text("Descargas"@)]),
            spec_toggle_button(icon),
        ],
    )
}

/// The header: the logo and the navigation bar.
pub open spec fn spec_header(icon: Seq<char>) -> NodeView {
    spec_el("header"@, seq![("class"@, "header"@)], seq![spec_logo(), spec_nav(icon)])
}

/// One feature card: an icon glyph, a title and a description.
pub open spec fn spec_feature_card(glyph: Seq<char>, title: Seq<char>, body: Seq<char>) -> NodeView {
    spec_el(
        "div"@,
        seq![("class"@, "feature-card"@)],
        seq![
            spec_el("div"@, seq![("class"@, "feature-icon"@)], seq![NodeView::Text(glyph)]),
            spec_el("h3"@, Seq::empty(), seq![NodeView::Text(title)]),
            spec_el("p"@, Seq::empty(), seq![NodeView::Text(body)]),
        ],
    )
}

/// One download card: a link to a release page for one platform.
pub open spec fn spec_download_card(
    href: Seq<char>,
    card_class: Seq<char>,
    os_glyph: Seq<char>,
    os_name: Seq<char>,
) -> NodeView {
    spec_el(
        "a"@,
        seq![("href"@, href), ("class"@, card_class)],
        seq![
            spec_el("div"@, seq![("class"@, "os-icon"@)], seq![NodeView::Text(os_glyph)]),
            spec_el(
                "div"@,
                seq![("class"@, "download-info"@)],
                seq![
                    spec_el("h3"@, Seq::empty(), seq![NodeView::Text(os_name)]),
                    spec_el("p"@, Seq::empty(), seq![NodeView::Text("v1.0.0"@)]),
                ],
            ),
            spec_el("div"@, seq![("class"@, "download-cta"@)], seq![NodeView::Text("Descargar"@)]),
        ],
    )
}

/// The hero section.
pub open spec fn spec_hero() -> NodeView {
    spec_el(
        "section"@,
        seq![("id"@, "hero"@), ("class"@, "hero"@)],
        seq![
            spec_el(
                "div"@,
                seq![("class"@, "hero-content"@)],
                seq![
                    spec_el(
                        "h1"@,
                        Seq::empty(),
                        seq![NodeView::Text("Modelado Tropos, simplificado."@)],
                    ),
                    spec_el(
                        "p"@,
                        Seq::empty(),
                        seq![
                            NodeView::Text(
                                "Asteroid lleva la poderosa metodología Tropos a tu escritorio. Una herramienta intuitiva para diseñar, analizar y visualizar sistemas complejos."@,
                            ),
                        ],
                    ),
                ],
            ),
        ],
    )
}

/// The feature section with its three cards.
pub open spec fn spec_features() -> NodeView {
    spec_el(
        "section"@,
        seq![("id"@, "features"@), ("class"@, "features"@)],
        seq![
            spec_el("h2"@, Seq::empty(), seq![NodeView::Text("¿Por qué Asteroid?"@)]),
            spec_el(
                "div"@,
                seq![("class"@, "features-grid"@)],
                seq![
                    spec_feature_card(
                        "🎯"@,
                        "Fiel a Tropos"@,
                        "Implementa los conceptos clave de la metodología (actores, metas, dependencias)."@,
                    ),
                    spec_feature_card(
                        "📦"@,
                        "Portable"@,
                        "Ejecutable en Windows y Linux sin instalación compleja. Fácil de desplegar y usar."@,
                    ),
                    spec_feature_card(
                        "🖼️"@,
                        "Exportable"@,
                        "Guarda tus modelos en formato .astr o exporta como imágenes .png para compartir."@,
                    ),
                ],
            ),
        ],
    )
}

/// The address of the Windows release page.
pub open spec fn spec_windows_url() -> Seq<char> {
    "https://github.com/DaryllLorenzo/asteroid/releases/windows"@
}

/// The address of the Linux release page.
pub open spec fn spec_linux_url() -> Seq<char> {
    "https://github.com/DaryllLorenzo/asteroid/releases/linux"@
}

/// The download section with its two platform cards.
pub open spec fn spec_downloads() -> NodeView {
    spec_el(
        "section"@,
        seq![("id"@, "downloads"@), ("class"@, "downloads"@)],
        seq![
            spec_el("h2"@, Seq::empty(), seq![NodeView::Text("Descarga Asteroid"@)]),
            spec_el(
                "div"@,
                seq![("class"@, "download-options"@)],
                seq![
                    spec_download_card(spec_windows_url(), "download-card windows"@, "🪟"@, "Windows"@),
                    spec_download_card(spec_linux_url(), "download-card linux"@, "🐧"@, "Linux"@),
                ],
            ),
            spec_el(
                "p"@,
                seq![("class"@, "compatibility"@)],
                seq![NodeView::Text("Disponible para Windows 10/11 y distribuciones Linux de 64-bit."@)],
            ),
        ],
    )
}

/// The main content: the hero, feature and download sections.
pub open spec fn spec_main() -> NodeView {
    spec_el("main"@, Seq::empty(), seq![spec_hero(), spec_features(), spec_downloads()])
}

/// The footer: the copyright line and the repository link with the
/// star-count placeholder.
pub open spec fn spec_footer() -> NodeView {
    spec_el(
        "footer"@,
        seq![("id"@, "contact"@), ("class"@, "footer"@)],
        seq![
            spec_el(
                "div"@,
                seq![("class"@, "footer-content"@)],
                seq![
                    spec_el(
                        "div"@,
                        seq![("class"@, "copyright"@)],
                        seq![NodeView::Text("© 2025 Asteroid Project. Creado por Daryll Lorenzo."@)],
                    ),
                    spec_el(
                        "div"@,
                        seq![("class"@, "social-links"@)],
                        seq![
                            spec_el(
                                "div"@,
                                seq![("class"@, "github-stats"@)],
                                seq![
                                    spec_el(
                                        "a"@,
                                        seq![
                                            ("href"@, "https://github.com/DaryllLorenzo/asteroid"@),
                                            ("target"@, "_blank"@),
                                            ("class"@, "github-link"@),
                                            ("aria-label"@, "GitHub Repository"@),
                                        ],
                                        seq![
                                            spec_el(
                                                "svg"@,
                                                seq![
                                                    ("viewBox"@, "0 0 24 24"@),
                                                    ("width"@, "20"@),
                                                    ("height"@, "20"@),
                                                ],
                                                seq![
                                                    spec_el(
                                                        "path"@,
                                                        seq![
                                                            ("fill"@, "currentColor"@),
                                                            ("d"@, spec_github_path()),
                                                        ],
                                                        Seq::empty(),
                                                    ),
                                                ],
                                            ),
                                            spec_el(
                                                "span"@,
                                                seq![("class"@, "repo-name"@)],
                                                seq![NodeView::Text("asteroid"@)],
                                            ),
                                        ],
                                    ),
                                    spec_el(
                                        "div"@,
                                        seq![("class"@, "stars"@)],
                                        seq![
                                            spec_el(
                                                "span"@,
                                                seq![("class"@, "star-icon"@)],
                                                seq![NodeView::Text("⭐"@)],
                                            ),
                                            spec_el(
                                                "span"@,
                                                seq![("class"@, "star-count"@), ("id"@, "github-stars"@)],
                                                seq![NodeView::Text("..."@)],
                                            ),
                                        ],
                                    ),
                                ],
                            ),
                        ],
                    ),
                ],
            ),
        ],
    )
}

/// The outline data of the repository icon.
pub open spec fn spec_github_path() -> Seq<char> {
    "M12 0C5.37 0 0 5.37 0 12c0 5.31 3.435 9.795 8.205 11.385.6.105.825-.255.825-.57 0-.285-.015-1.23-.015-2.235-3.015.555-3.795-.735-4.035-1.41-.135-.345-.72-1.41-1.23-1.695-.42-.225-1.02-.78-.015-.795.945-.015 1.62.87 1.845 1.23 1.08 1.815 2.805 1.305 3.495.99.105-.78.42-1.305.765-1.605-2.67-.3-5.46-1.335-5.46-5.925 0-1.305.465-2.385 1.23-3.225-.12-.3-.54-1.53.12-3.18 0 0 1.005-.315 3.3 1.23.96-.27 1.98-.405 3-.405s2.04.135 3 .405c2.295-1.56 3.3-1.23 3.3-1.23.66 1.65.24 2.88.12 3.18.765.84 1.23 1.905 1.23 3.225 0 4.605-2.805 5.625-5.475 5.925.435.375.81 1.095.81 2.22 0 1.605-.015 2.895-.015 3.3 0 .315.225.69.825.57A12.02 12.02 0 0024 12c0-6.63-5.37-12-12-12z"@
}

/// The whole page for a given root class and toggle label. These two
/// parameters are the only places the theme flag reaches; the rest of the
/// tree is the same for both themes.
pub open spec fn spec_page_with(class: Seq<char>, icon: Seq<char>) -> NodeView {
    spec_el("div"@, seq![("class"@, class)], seq![spec_header(icon), spec_main(), spec_footer()])
}

/// The whole page for a value of the theme flag.
pub open spec fn spec_page(dark: bool) -> NodeView {
    spec_page_with(spec_root_class(dark), spec_theme_icon(dark))
}

/// The theme flag reaches exactly two leaves of the page: the root
/// container's class attribute and the toggle button's label. The main
/// content and the footer are identical for any two themes, and so is the
/// header but for its toggle button.
pub proof fn lemma_theme_touches_only_class_and_toggle(
    c1: Seq<char>,
    i1: Seq<char>,
    c2: Seq<char>,
    i2: Seq<char>,
)
    ensures
        spec_page_with(c1, i1)->Element_0.tag == spec_page_with(c2, i2)->Element_0.tag,
        spec_page_with(c1, i1)->Element_0.attrs == seq![("class"@, c1)],
        spec_page_with(c1, i1)->Element_0.children.len() == 3,
        spec_page_with(c1, i1)->Element_0.children[0] == spec_header(i1),
        spec_page_with(c1, i1)->Element_0.children[1] == spec_page_with(c2, i2)->Element_0.children[1],
        spec_page_with(c1, i1)->Element_0.children[2] == spec_page_with(c2, i2)->Element_0.children[2],
        spec_header(i1)->Element_0.children[0] == spec_header(i2)->Element_0.children[0],
        spec_header(i1)->Element_0.children[1] == spec_nav(i1),
        spec_nav(i1)->Element_0.children[0] == spec_nav(i2)->Element_0.children[0],
        spec_nav(i1)->Element_0.children[1] == spec_nav(i2)->Element_0.children[1],
        spec_nav(i1)->Element_0.children[2] == spec_nav(i2)->Element_0.children[2],
        spec_nav(i1)->Element_0.children[3] == spec_toggle_button(i1),
{
}

/// The dark and the light page are distinct trees: their root class
/// attributes differ.
pub proof fn lemma_pages_differ_between_themes()
    ensures
        spec_page(true) != spec_page(false),
{
    crate::page::lemma_theme_table_distinct();
    lemma_theme_touches_only_class_and_toggle(
        spec_root_class(true),
        spec_theme_icon(true),
        spec_root_class(false),
        spec_theme_icon(false),
    );
    assert(seq![("class"@, spec_root_class(true))][0].1 == spec_root_class(true));
    assert(seq![("class"@, spec_root_class(false))][0].1 == spec_root_class(false));
}

/// The header: the logo and the navigation bar with the three anchor links
/// and the theme toggle button, whose label is the theme icon glyph.
fn render_header(dark: bool) -> (n: Node)
    ensures
        node_view(n) == spec_header(spec_theme_icon(dark)),
        contains_text(n, spec_theme_icon(dark)),
        contains_labeled_elem(n, "button"@, "class"@, "theme-toggle"@, spec_theme_icon(dark)),
{
    let logo = elem(
        "div",
        attrs1("class", "logo-container"),
        nodes2(
            elem(
                "img",
                attrs3("src", "/assets/icon.png", "alt", "Asteroid Icon", "class", "app-icon"),
                Vec::new(),
            ),
            elem("div", attrs1("class", "logo"), nodes1(text("ASTEROID"))),
        ),
    );
    proof {
        assert(node_view(logo) == spec_logo());
    }
    let icon = text(theme_icon(dark));
    proof {
        assert(contains_text(icon, spec_theme_icon(dark)));
    }
    let ghost g_icon = icon;
    let button = elem("button", attrs1("class", "theme-toggle"), nodes1(icon));
    proof {
        assert(node_view(button) == spec_toggle_button(spec_theme_icon(dark)));
        lemma_contains_text_via_child(button->Element_0, 0, spec_theme_icon(dark));
        assert(contains_text(button, spec_theme_icon(dark)));
        lemma_attrs_have(button->Element_0.attrs@, 0, 0, "class"@, "theme-toggle"@);
        assert(is_labeled_elem(button, "button"@, "class"@, "theme-toggle"@, spec_theme_icon(dark)));
        lemma_contains_labeled_elem_here(button, "button"@, "class"@, "theme-toggle"@, spec_theme_icon(dark));
    }
    let ghost g_button = button;
    let nav = elem(
        "nav",
        attrs1("class", "nav"),
        nodes4(
            elem("a", attrs1("href", "#hero"), nodes1(text("Inicio"))),
            elem("a", attrs1("href", "#features"), nodes1(text("Características"))),
            elem("a", attrs1("href", "#downloads"), nodes1(text("Descargas"))),
            button,
        ),
    );
    proof {
        assert(node_view(nav) == spec_nav(spec_theme_icon(dark)));
        assert(nav->Element_0.children@[3] == g_button);
        lemma_contains_text_via_child(nav->Element_0, 3, spec_theme_icon(dark));
        lemma_contains_labeled_elem_via_child(
            nav->Element_0,
            3,
            "button"@,
            "class"@,
            "theme-toggle"@,
            spec_theme_icon(dark),
        );
    }
    let ghost g_nav = nav;
    let header = elem("header", attrs1("class", "header"), nodes2(logo, nav));
    proof {
        assert(node_view(header) == spec_header(spec_theme_icon(dark)));
        assert(header->Element_0.children@[1] == g_nav);
        lemma_contains_text_via_child(header->Element_0, 1, spec_theme_icon(dark));
        lemma_contains_labeled_elem_via_child(
            header->Element_0,
            1,
            "button"@,
            "class"@,
            "theme-toggle"@,
            spec_theme_icon(dark),
        );
    }
    header
}

/// One feature card: an icon glyph, a title and a description.
fn feature_card(glyph: &str, title: &str, body: &str) -> (n: Node)
    ensures
        node_view(n) == spec_feature_card(glyph@, title@, body@),
{
    elem(
        "div",
        attrs1("class", "feature-card"),
        nodes3(
            elem("div", attrs1("class", "feature-icon"), nodes1(text(glyph))),
            elem("h3", Vec::new(), nodes1(text(title))),
            elem("p", Vec::new(), nodes1(text(body))),
        ),
    )
}

/// One download card: a link to a release page for one platform.
fn download_card(href: &str, card_class: &str, os_glyph: &str, os_name: &str) -> (n: Node)
    ensures
        node_view(n) == spec_download_card(href@, card_class@, os_glyph@, os_name@),
        contains_attr(n, "href"@, href@),
{
    let card = elem(
        "a",
        attrs2("href", href, "class", card_class),
        nodes3(
            elem("div", attrs1("class", "os-icon"), nodes1(text(os_glyph))),
            elem(
                "div",
                attrs1("class", "download-info"),
                nodes2(
                    elem("h3", Vec::new(), nodes1(text(os_name))),
                    elem("p", Vec::new(), nodes1(text("v1.0.0"))),
                ),
            ),
            elem("div", attrs1("class", "download-cta"), nodes1(text("Descargar"))),
        ),
    );
    proof {
        lemma_attrs_have(card->Element_0.attrs@, 0, 0, "href"@, href@);
        lemma_contains_attr_here(card->Element_0, "href"@, href@);
    }
    card
}

/// The hero section, the feature cards and the download links, each section
/// carrying the anchor identifier the navigation scrolls to.
fn render_main() -> (n: Node)
    ensures
        node_view(n) == spec_main(),
        contains_attr(n, "id"@, "hero"@),
        contains_attr(n, "id"@, "features"@),
        contains_attr(n, "id"@, "downloads"@),
        contains_attr(n, "href"@, spec_windows_url()),
        contains_attr(n, "href"@, spec_linux_url()),
{
    let hero = elem(
        "section",
        attrs2("id", "hero", "class", "hero"),
        nodes1(
            elem(
                "div",
                attrs1("class", "hero-content"),
                nodes2(
                    elem("h1", Vec::new(), nodes1(text("Modelado Tropos, simplificado."))),
                    elem(
                        "p",
                        Vec::new(),
                        nodes1(
                            text(
                                "Asteroid lleva la poderosa metodología Tropos a tu escritorio. Una herramienta intuitiva para diseñar, analizar y visualizar sistemas complejos.",
                            ),
                        ),
                    ),
                ),
            ),
        ),
    );
    proof {
        assert(node_view(hero) == spec_hero());
        lemma_attrs_have(hero->Element_0.attrs@, 0, 0, "id"@, "hero"@);
        lemma_contains_attr_here(hero->Element_0, "id"@, "hero"@);
    }
    let features = elem(
        "section",
        attrs2("id", "features", "class", "features"),
        nodes2(
            elem("h2", Vec::new(), nodes1(text("¿Por qué Asteroid?"))),
            elem(
                "div",
                attrs1("class", "features-grid"),
                nodes3(
                    feature_card(
                        "🎯",
                        "Fiel a Tropos",
                        "Implementa los conceptos clave de la metodología (actores, metas, dependencias).",
                    ),
                    feature_card(
                        "📦",
                        "Portable",
                        "Ejecutable en Windows y Linux sin instalación compleja. Fácil de desplegar y usar.",
                    ),
                    feature_card(
                        "🖼️",
                        "Exportable",
                        "Guarda tus modelos en formato .astr o exporta como imágenes .png para compartir.",
                    ),
                ),
            ),
        ),
    );
    proof {
        assert(node_view(features) == spec_features());
        lemma_attrs_have(features->Element_0.attrs@, 0, 0, "id"@, "features"@);
        lemma_contains_attr_here(features->Element_0, "id"@, "features"@);
    }
    let windows_card = download_card(
        "https://github.com/DaryllLorenzo/asteroid/releases/windows",
        "download-card windows",
        "🪟",
        "Windows",
    );
    let linux_card = download_card(
        "https://github.com/DaryllLorenzo/asteroid/releases/linux",
        "download-card linux",
        "🐧",
        "Linux",
    );
    let ghost g_windows_card = windows_card;
    let ghost g_linux_card = linux_card;
    let options = elem("div", attrs1("class", "download-options"), nodes2(windows_card, linux_card));
    proof {
        assert(options->Element_0.children@[0] == g_windows_card);
        assert(options->Element_0.children@[1] == g_linux_card);
        lemma_contains_attr_via_child(options->Element_0, 0, "href"@, spec_windows_url());
        lemma_contains_attr_via_child(options->Element_0, 1, "href"@, spec_linux_url());
    }
    let ghost g_options = options;
    let downloads = elem(
        "section",
        attrs2("id", "downloads", "class", "downloads"),
        nodes3(
            elem("h2", Vec::new(), nodes1(text("Descarga Asteroid"))),
            options,
            elem(
                "p",
                attrs1("class", "compatibility"),
                nodes1(text("Disponible para Windows 10/11 y distribuciones Linux de 64-bit.")),
            ),
        ),
    );
    proof {
        assert(node_view(downloads) == spec_downloads());
        lemma_attrs_have(downloads->Element_0.attrs@, 0, 0, "id"@, "downloads"@);
        lemma_contains_attr_here(downloads->Element_0, "id"@, "downloads"@);
        assert(downloads->Element_0.children@[1] == g_options);
        lemma_contains_attr_via_child(downloads->Element_0, 1, "href"@, spec_windows_url());
        lemma_contains_attr_via_child(downloads->Element_0, 1, "href"@, spec_linux_url());
    }
    let ghost g_hero = hero;
    let ghost g_features = features;
    let ghost g_downloads = downloads;
    let main_el = elem("main", Vec::new(), nodes3(hero, features, downloads));
    proof {
        assert(node_view(main_el) == spec_main());
        assert(main_el->Element_0.children@[0] == g_hero);
        assert(main_el->Element_0.children@[1] == g_features);
        assert(main_el->Element_0.children@[2] == g_downloads);
        lemma_contains_attr_via_child(main_el->Element_0, 0, "id"@, "hero"@);
        lemma_contains_attr_via_child(main_el->Element_0, 1, "id"@, "features"@);
        lemma_contains_attr_via_child(main_el->Element_0, 2, "id"@, "downloads"@);
        lemma_contains_attr_via_child(main_el->Element_0, 2, "href"@, spec_windows_url());
        lemma_contains_attr_via_child(main_el->Element_0, 2, "href"@, spec_linux_url());
    }
    main_el
}

/// The footer: the copyright line and the repository link, with the
/// `contact` anchor on the footer itself and the placeholder element for
/// externally injected star counts.
fn render_footer() -> (n: Node)
    ensures
        node_view(n) == spec_footer(),
        contains_attr(n, "id"@, "contact"@),
        contains_attr(n, "id"@, "github-stars"@),
        contains_labeled_elem(n, "span"@, "id"@, "github-stars"@, "..."@),
{
    let github_link = elem(
        "a",
        attrs4(
            "href",
            "https://github.com/DaryllLorenzo/asteroid",
            "target",
            "_blank",
            "class",
            "github-link",
            "aria-label",
            "GitHub Repository",
        ),
        nodes2(
            elem(
                "svg",
                attrs3("viewBox", "0 0 24 24", "width", "20", "height", "20"),
                nodes1(
                    elem(
                        "path",
                        attrs2(
                            "fill",
                            "currentColor",
                            "d",
                            "M12 0C5.37 0 0 5.37 0 12c0 5.31 3.435 9.795 8.205 11.385.6.105.825-.255.825-.57 0-.285-.015-1.23-.015-2.235-3.015.555-3.795-.735-4.035-1.41-.135-.345-.72-1.41-1.23-1.695-.42-.225-1.02-.78-.015-.795.945-.015 1.62.87 1.845 1.23 1.08 1.815 2.805 1.305 3.495.99.105-.78.42-1.305.765-1.605-2.67-.3-5.46-1.335-5.46-5.925 0-1.305.465-2.385 1.23-3.225-.12-.3-.54-1.53.12-3.18 0 0 1.005-.315 3.3 1.23.96-.27 1.98-.405 3-.405s2.04.135 3 .405c2.295-1.56 3.3-1.23 3.3-1.23.66 1.65.24 2.88.12 3.18.765.84 1.23 1.905 1.23 3.225 0 4.605-2.805 5.625-5.475 5.925.435.375.81 1.095.81 2.22 0 1.605-.015 2.895-.015 3.3 0 .315.225.69.825.57A12.02 12.02 0 0024 12c0-6.63-5.37-12-12-12z",
                        ),
                        Vec::new(),
                    ),
                ),
            ),
            elem("span", attrs1("class", "repo-name"), nodes1(text("asteroid"))),
        ),
    );
    let stars_count = elem(
        "span",
        attrs2("class", "star-count", "id", "github-stars"),
        nodes1(text("...")),
    );
    proof {
        lemma_attrs_have(stars_count->Element_0.attrs@, 0, 1, "id"@, "github-stars"@);
        lemma_contains_attr_here(stars_count->Element_0, "id"@, "github-stars"@);
        assert(is_labeled_elem(stars_count, "span"@, "id"@, "github-stars"@, "..."@));
        lemma_contains_labeled_elem_here(stars_count, "span"@, "id"@, "github-stars"@, "..."@);
    }
    let ghost g_stars_count = stars_count;
    let stars = elem(
        "div",
        attrs1("class", "stars"),
        nodes2(
            elem("span", attrs1("class", "star-icon"), nodes1(text("⭐"))),
            stars_count,
        ),
    );
    proof {
        assert(stars->Element_0.children@[1] == g_stars_count);
        lemma_contains_attr_via_child(stars->Element_0, 1, "id"@, "github-stars"@);
        lemma_contains_labeled_elem_via_child(stars->Element_0, 1, "span"@, "id"@, "github-stars"@, "..."@);
    }
    let ghost g_stars = stars;
    let github_stats = elem(
        "div",
        attrs1("class", "github-stats"),
        nodes2(github_link, stars),
    );
    proof {
        assert(github_stats->Element_0.children@[1] == g_stars);
        lemma_contains_attr_via_child(github_stats->Element_0, 1, "id"@, "github-stars"@);
        lemma_contains_labeled_elem_via_child(github_stats->Element_0, 1, "span"@, "id"@, "github-stars"@, "..."@);
    }
    let ghost g_github_stats = github_stats;
    let social_links = elem("div", attrs1("class", "social-links"), nodes1(github_stats));
    proof {
        assert(social_links->Element_0.children@[0] == g_github_stats);
        lemma_contains_attr_via_child(social_links->Element_0, 0, "id"@, "github-stars"@);
        lemma_contains_labeled_elem_via_child(social_links->Element_0, 0, "span"@, "id"@, "github-stars"@, "..."@);
    }
    let copyright = elem(
        "div",
        attrs1("class", "copyright"),
        nodes1(text("© 2025 Asteroid Project. Creado por Daryll Lorenzo.")),
    );
    let ghost g_social_links = social_links;
    let footer_content = elem(
        "div",
        attrs1("class", "footer-content"),
        nodes2(copyright, social_links),
    );
    proof {
        assert(footer_content->Element_0.children@[1] == g_social_links);
        lemma_contains_attr_via_child(footer_content->Element_0, 1, "id"@, "github-stars"@);
        lemma_contains_labeled_elem_via_child(footer_content->Element_0, 1, "span"@, "id"@, "github-stars"@, "..."@);
    }
    let ghost g_footer_content = footer_content;
    let footer = elem(
        "footer",
        attrs2("id", "contact", "class", "footer"),
        nodes1(footer_content),
    );
    proof {
        assert(node_view(footer) == spec_footer());
        lemma_attrs_have(footer->Element_0.attrs@, 0, 0, "id"@, "contact"@);
        lemma_contains_attr_here(footer->Element_0, "id"@, "contact"@);
        assert(footer->Element_0.children@[0] == g_footer_content);
        lemma_contains_attr_via_child(footer->Element_0, 0, "id"@, "github-stars"@);
        lemma_contains_labeled_elem_via_child(footer->Element_0, 0, "span"@, "id"@, "github-stars"@, "..."@);
    }
    footer
}

/// Produces the page's markup tree for the given state: the tree's view is
/// exactly `spec_page(state.dark_mode)`, so equal states yield equal pages,
/// and the theme flag decides nothing but the root container's class and
/// the toggle button's label.
pub fn render(state: ViewState) -> (n: Node)
    ensures
        n@ == spec_page(state.dark_mode),
        (n matches Node::Element(root) && root.tag@ == "div"@ && root.attrs@.len() == 1
            && attr_matches(root.attrs@[0], "class"@, spec_root_class(state.dark_mode))
            && elem_has_attr(root, "class"@, spec_root_class(state.dark_mode))
            && root.children@.len() == 3),
        contains_attr(n, "class"@, spec_root_class(state.dark_mode)),
        contains_text(n, spec_theme_icon(state.dark_mode)),
        contains_labeled_elem(n, "button"@, "class"@, "theme-toggle"@, spec_theme_icon(state.dark_mode)),
        contains_labeled_elem(n, "span"@, "id"@, "github-stars"@, "..."@),
        contains_attr(n, "id"@, "hero"@),
        contains_attr(n, "id"@, "features"@),
        contains_attr(n, "id"@, "downloads"@),
        contains_attr(n, "id"@, "contact"@),
        contains_attr(n, "id"@, "github-stars"@),
        contains_attr(n, "href"@, spec_windows_url()),
        contains_attr(n, "href"@, spec_linux_url()),
{
    let header = render_header(state.dark_mode);
    let main_el = render_main();
    let footer = render_footer();
    let ghost g_header = header;
    let ghost g_main = main_el;
    let ghost g_footer = footer;
    let root = elem(
        "div",
        attrs1("class", root_class(state.dark_mode)),
        nodes3(header, main_el, footer),
    );
    proof {
        assert(node_view(root) == spec_page(state.dark_mode));
        lemma_attrs_have(root->Element_0.attrs@, 0, 0, "class"@, spec_root_class(state.dark_mode));
        lemma_contains_attr_here(root->Element_0, "class"@, spec_root_class(state.dark_mode));
        assert(root->Element_0.children@[0] == g_header);
        assert(root->Element_0.children@[1] == g_main);
        assert(root->Element_0.children@[2] == g_footer);
        lemma_contains_text_via_child(root->Element_0, 0, spec_theme_icon(state.dark_mode));
        lemma_contains_labeled_elem_via_child(
            root->Element_0,
            0,
            "button"@,
            "class"@,
            "theme-toggle"@,
            spec_theme_icon(state.dark_mode),
        );
        lemma_contains_labeled_elem_via_child(root->Element_0, 2, "span"@, "id"@, "github-stars"@, "..."@);
        lemma_contains_attr_via_child(root->Element_0, 1, "id"@, "hero"@);
        lemma_contains_attr_via_child(root->Element_0, 1, "id"@, "features"@);
        lemma_contains_attr_via_child(root->Element_0, 1, "id"@, "downloads"@);
        lemma_contains_attr_via_child(root->Element_0, 2, "id"@, "contact"@);
        lemma_contains_attr_via_child(root->Element_0, 2, "id"@, "github-stars"@);
        lemma_contains_attr_via_child(root->Element_0, 1, "href"@, spec_windows_url());
        lemma_contains_attr_via_child(root->Element_0, 1, "href"@, spec_linux_url());
    }
    root
}

} // verus!
