//! A markup tree: elements with a tag, attributes and children, and text
//! leaves. The renderer produces such a tree; spec predicates say which
//! attributes and text it contains.

use vstd::prelude::*;

verus! {

/// One attribute of an element, e.g. `class="header"`.
pub struct Attribute {
    pub name: String,
    pub value: String,
}

/// A node of the markup tree.
pub enum Node {
    Text(String),
    Element(Element),
}

/// An element: a tag, its attributes, and its children in order.
pub struct Element {
    pub tag: String,
    pub attrs: Vec<Attribute>,
    pub children: Vec<Node>,
}

/// The mathematical value of a markup node: the same tree over character
/// sequences. Two nodes with equal views show the same page.
#[verifier::ext_equal]
pub enum NodeView {
    Text(Seq<char>),
    Element(ElementView),
}

/// The mathematical value of an element.
#[verifier::ext_equal]
pub struct ElementView {
    pub tag: Seq<char>,
    pub attrs: Seq<(Seq<char>, Seq<char>)>,
    pub children: Seq<NodeView>,
}

/// The views of the attributes at position `k` and later, in order.
pub open spec fn attrs_view(attrs: Seq<Attribute>, k: int) -> Seq<(Seq<char>, Seq<char>)>
    decreases attrs.len() - k,
{
    if k < 0 || k >= attrs.len() {
        Seq::empty()
    } else {
        seq![(attrs[k].name@, attrs[k].value@)] + attrs_view(attrs, k + 1)
    }
}

/// The view of a markup node.
pub open spec fn node_view(n: Node) -> NodeView
    decreases n, 0int,
{
    match n {
        Node::Text(t) => NodeView::Text(t@),
        Node::Element(e) => NodeView::Element(
            ElementView {
                tag: e.tag@,
                attrs: attrs_view(e.attrs@, 0),
                children: children_view(e.children@, 0),
            },
        ),
    }
}

/// The views of the nodes at position `k` and later, in order.
pub open spec fn children_view(ns: Seq<Node>, k: int) -> Seq<NodeView>
    decreases ns, ns.len() - k,
{
    if k < 0 || k >= ns.len() {
        Seq::empty()
    } else {
        seq![node_view(ns[k])] + children_view(ns, k + 1)
    }
}

impl View for Node {
    type V = NodeView;

    open spec fn view(&self) -> NodeView {
        node_view(*self)
    }
}

/// The attribute is named `name` and holds `value`.
pub open spec fn attr_matches(a: Attribute, name: Seq<char>, value: Seq<char>) -> bool {
    a.name@ == name && a.value@ == value
}

/// Some attribute at position `k` or later matches `name="value"`.
pub open spec fn attrs_have(attrs: Seq<Attribute>, k: int, name: Seq<char>, value: Seq<char>) -> bool
    decreases attrs.len() - k,
{
    if k < 0 || k >= attrs.len() {
        false
    } else {
        attr_matches(attrs[k], name, value) || attrs_have(attrs, k + 1, name, value)
    }
}

/// The element itself carries the attribute `name="value"`.
pub open spec fn elem_has_attr(e: Element, name: Seq<char>, value: Seq<char>) -> bool {
    attrs_have(e.attrs@, 0, name, value)
}

/// Somewhere in the tree there is a text leaf with exactly this content.
pub open spec fn contains_text(n: Node, s: Seq<char>) -> bool
    decreases n, 0int,
{
    match n {
        Node::Text(t) => t@ == s,
        Node::Element(e) => seq_contains_text(e.children@, 0, s),
    }
}

/// Some node at position `k` or later contains the text in its tree.
pub open spec fn seq_contains_text(ns: Seq<Node>, k: int, s: Seq<char>) -> bool
    decreases ns, ns.len() - k,
{
    if k < 0 || k >= ns.len() {
        false
    } else {
        contains_text(ns[k], s) || seq_contains_text(ns, k + 1, s)
    }
}

/// Somewhere in the tree there is an element carrying `name="value"`.
pub open spec fn contains_attr(n: Node, name: Seq<char>, value: Seq<char>) -> bool
    decreases n, 0int,
{
    match n {
        Node::Text(_) => false,
        Node::Element(e) => elem_has_attr(e, name, value)
            || seq_contains_attr(e.children@, 0, name, value),
    }
}

/// Some node at position `k` or later contains the attribute in its tree.
pub open spec fn seq_contains_attr(ns: Seq<Node>, k: int, name: Seq<char>, value: Seq<char>) -> bool
    decreases ns, ns.len() - k,
{
    if k < 0 || k >= ns.len() {
        false
    } else {
        contains_attr(ns[k], name, value) || seq_contains_attr(ns, k + 1, name, value)
    }
}

/// The node is an element with the given tag, carrying the attribute
/// `an="av"`, whose only child is a text leaf holding `label`.
pub open spec fn is_labeled_elem(
    n: Node,
    tag: Seq<char>,
    an: Seq<char>,
    av: Seq<char>,
    label: Seq<char>,
) -> bool {
    match n {
        Node::Text(_) => false,
        Node::Element(e) => e.tag@ == tag && elem_has_attr(e, an, av) && e.children@.len() == 1
            && (e.children@[0] matches Node::Text(t) && t@ == label),
    }
}

/// Somewhere in the tree there is an element with the given tag, carrying
/// `an="av"`, whose only child is the text `label`.
pub open spec fn contains_labeled_elem(
    n: Node,
    tag: Seq<char>,
    an: Seq<char>,
    av: Seq<char>,
    label: Seq<char>,
) -> bool
    decreases n, 0int,
{
    is_labeled_elem(n, tag, an, av, label) || (match n {
        Node::Text(_) => false,
        Node::Element(e) => seq_contains_labeled_elem(e.children@, 0, tag, an, av, label),
    })
}

/// Some node at position `k` or later contains such a labeled element.
pub open spec fn seq_contains_labeled_elem(
    ns: Seq<Node>,
    k: int,
    tag: Seq<char>,
    an: Seq<char>,
    av: Seq<char>,
    label: Seq<char>,
) -> bool
    decreases ns, ns.len() - k,
{
    if k < 0 || k >= ns.len() {
        false
    } else {
        contains_labeled_elem(ns[k], tag, an, av, label) || seq_contains_labeled_elem(
            ns,
            k + 1,
            tag,
            an,
            av,
            label,
        )
    }
}

/// A matching attribute at position `i` is found by the search from any
/// position `k` at or before it.
pub proof fn lemma_attrs_have(attrs: Seq<Attribute>, k: int, i: int, name: Seq<char>, value: Seq<char>)
    requires
        0 <= k <= i < attrs.len(),
        attr_matches(attrs[i], name, value),
    ensures
        attrs_have(attrs, k, name, value),
    decreases i - k,
{
    if k < i {
        lemma_attrs_have(attrs, k + 1, i, name, value);
    }
}

/// A node at position `i` whose tree contains the text is found by the
/// search from any position `k` at or before it.
pub proof fn lemma_seq_contains_text(ns: Seq<Node>, k: int, i: int, s: Seq<char>)
    requires
        0 <= k <= i < ns.len(),
        contains_text(ns[i], s),
    ensures
        seq_contains_text(ns, k, s),
    decreases i - k,
{
    if k < i {
        lemma_seq_contains_text(ns, k + 1, i, s);
    }
}

/// A node at position `i` whose tree contains the attribute is found by the
/// search from any position `k` at or before it.
pub proof fn lemma_seq_contains_attr(ns: Seq<Node>, k: int, i: int, name: Seq<char>, value: Seq<char>)
    requires
        0 <= k <= i < ns.len(),
        contains_attr(ns[i], name, value),
    ensures
        seq_contains_attr(ns, k, name, value),
    decreases i - k,
{
    if k < i {
        lemma_seq_contains_attr(ns, k + 1, i, name, value);
    }
}

/// A node at position `i` whose tree contains such a labeled element is
/// found by the search from any position `k` at or before it.
pub proof fn lemma_seq_contains_labeled_elem(
    ns: Seq<Node>,
    k: int,
    i: int,
    tag: Seq<char>,
    an: Seq<char>,
    av: Seq<char>,
    label: Seq<char>,
)
    requires
        0 <= k <= i < ns.len(),
        contains_labeled_elem(ns[i], tag, an, av, label),
    ensures
        seq_contains_labeled_elem(ns, k, tag, an, av, label),
    decreases i - k,
{
    if k < i {
        lemma_seq_contains_labeled_elem(ns, k + 1, i, tag, an, av, label);
    }
}

/// A child whose tree contains such a labeled element puts it in the
/// parent's tree.
pub proof fn lemma_contains_labeled_elem_via_child(
    e: Element,
    i: int,
    tag: Seq<char>,
    an: Seq<char>,
    av: Seq<char>,
    label: Seq<char>,
)
    requires
        0 <= i < e.children@.len(),
        contains_labeled_elem(e.children@[i], tag, an, av, label),
    ensures
        contains_labeled_elem(Node::Element(e), tag, an, av, label),
{
    lemma_seq_contains_labeled_elem(e.children@, 0, i, tag, an, av, label);
}

/// A node that is itself such a labeled element contains one.
pub proof fn lemma_contains_labeled_elem_here(
    n: Node,
    tag: Seq<char>,
    an: Seq<char>,
    av: Seq<char>,
    label: Seq<char>,
)
    requires
        is_labeled_elem(n, tag, an, av, label),
    ensures
        contains_labeled_elem(n, tag, an, av, label),
{
}

/// A child whose tree contains the text puts it in the parent's tree.
pub proof fn lemma_contains_text_via_child(e: Element, i: int, s: Seq<char>)
    requires
        0 <= i < e.children@.len(),
        contains_text(e.children@[i], s),
    ensures
        contains_text(Node::Element(e), s),
{
    lemma_seq_contains_text(e.children@, 0, i, s);
}

/// A child whose tree contains the attribute puts it in the parent's tree.
pub proof fn lemma_contains_attr_via_child(e: Element, i: int, name: Seq<char>, value: Seq<char>)
    requires
        0 <= i < e.children@.len(),
        contains_attr(e.children@[i], name, value),
    ensures
        contains_attr(Node::Element(e), name, value),
{
    lemma_seq_contains_attr(e.children@, 0, i, name, value);
}

/// An attribute of the element itself is in its tree.
pub proof fn lemma_contains_attr_here(e: Element, name: Seq<char>, value: Seq<char>)
    requires
        elem_has_attr(e, name, value),
    ensures
        contains_attr(Node::Element(e), name, value),
{
}

/// A text leaf with the given content.
pub fn text(s: &str) -> (n: Node)
    ensures
        (n matches Node::Text(t) && t@ == s@),
        node_view(n) == NodeView::Text(s@),
{
    Node::Text(s.to_owned())
}

/// An attribute `name="value"`.
pub fn attr(name: &str, value: &str) -> (a: Attribute)
    ensures
        a.name@ == name@,
        a.value@ == value@,
{
    Attribute { name: name.to_owned(), value: value.to_owned() }
}

/// An element with the given tag, attributes and children.
pub fn elem(tag: &str, attrs: Vec<Attribute>, children: Vec<Node>) -> (n: Node)
    ensures
        (n matches Node::Element(e) && e.tag@ == tag@ && e.attrs == attrs
            && e.children == children),
        node_view(n) == NodeView::Element(
            ElementView {
                tag: tag@,
                attrs: attrs_view(attrs@, 0),
                children: children_view(children@, 0),
            },
        ),
{
    Node::Element(Element { tag: tag.to_owned(), attrs, children })
}

/// An attribute list of one entry.
pub fn attrs1(n1: &str, v1: &str) -> (v: Vec<Attribute>)
    ensures
        v@.len() == 1,
        attr_matches(v@[0], n1@, v1@),
        attrs_view(v@, 0) == seq![(n1@, v1@)],
{
    let mut v: Vec<Attribute> = Vec::new();
    v.push(attr(n1, v1));
    proof {
        assert(attrs_view(v@, 1) =~= Seq::<(Seq<char>, Seq<char>)>::empty());
        assert(attrs_view(v@, 0) =~= seq![(n1@, v1@)]);
    }
    v
}

/// An attribute list of two entries.
pub fn attrs2(n1: &str, v1: &str, n2: &str, v2: &str) -> (v: Vec<Attribute>)
    ensures
        v@.len() == 2,
        attr_matches(v@[0], n1@, v1@),
        attr_matches(v@[1], n2@, v2@),
        attrs_view(v@, 0) == seq![(n1@, v1@), (n2@, v2@)],
{
    let mut v: Vec<Attribute> = Vec::new();
    v.push(attr(n1, v1));
    v.push(attr(n2, v2));
    proof {
        assert(attrs_view(v@, 2) =~= Seq::<(Seq<char>, Seq<char>)>::empty());
        assert(attrs_view(v@, 1) =~= seq![(n2@, v2@)]);
        assert(attrs_view(v@, 0) =~= seq![(n1@, v1@), (n2@, v2@)]);
    }
    v
}

/// An attribute list of three entries.
pub fn attrs3(n1: &str, v1: &str, n2: &str, v2: &str, n3: &str, v3: &str) -> (v: Vec<Attribute>)
    ensures
        v@.len() == 3,
        attr_matches(v@[0], n1@, v1@),
        attr_matches(v@[1], n2@, v2@),
        attr_matches(v@[2], n3@, v3@),
        attrs_view(v@, 0) == seq![(n1@, v1@), (n2@, v2@), (n3@, v3@)],
{
    let mut v: Vec<Attribute> = Vec::new();
    v.push(attr(n1, v1));
    v.push(attr(n2, v2));
    v.push(attr(n3, v3));
    proof {
        assert(attrs_view(v@, 3) =~= Seq::<(Seq<char>, Seq<char>)>::empty());
        assert(attrs_view(v@, 2) =~= seq![(n3@, v3@)]);
        assert(attrs_view(v@, 1) =~= seq![(n2@, v2@), (n3@, v3@)]);
        assert(attrs_view(v@, 0) =~= seq![(n1@, v1@), (n2@, v2@), (n3@, v3@)]);
    }
    v
}

/// An attribute list of four entries.
pub fn attrs4(
    n1: &str,
    v1: &str,
    n2: &str,
    v2: &str,
    n3: &str,
    v3: &str,
    n4: &str,
    v4: &str,
) -> (v: Vec<Attribute>)
    ensures
        v@.len() == 4,
        attr_matches(v@[0], n1@, v1@),
        attr_matches(v@[1], n2@, v2@),
        attr_matches(v@[2], n3@, v3@),
        attr_matches(v@[3], n4@, v4@),
        attrs_view(v@, 0) == seq![(n1@, v1@), (n2@, v2@), (n3@, v3@), (n4@, v4@)],
{
    let mut v: Vec<Attribute> = Vec::new();
    v.push(attr(n1, v1));
    v.push(attr(n2, v2));
    v.push(attr(n3, v3));
    v.push(attr(n4, v4));
    proof {
        assert(attrs_view(v@, 4) =~= Seq::<(Seq<char>, Seq<char>)>::empty());
        assert(attrs_view(v@, 3) =~= seq![(n4@, v4@)]);
        assert(attrs_view(v@, 2) =~= seq![(n3@, v3@), (n4@, v4@)]);
        assert(attrs_view(v@, 1) =~= seq![(n2@, v2@), (n3@, v3@), (n4@, v4@)]);
        assert(attrs_view(v@, 0) =~= seq![(n1@, v1@), (n2@, v2@), (n3@, v3@), (n4@, v4@)]);
    }
    v
}

/// A child list of one node.
pub fn nodes1(a: Node) -> (v: Vec<Node>)
    ensures
        v@.len() == 1,
        v@[0] == a,
        children_view(v@, 0) == seq![node_view(a)],
{
    let mut v: Vec<Node> = Vec::new();
    v.push(a);
    proof {
        assert(children_view(v@, 1) =~= Seq::<NodeView>::empty());
        assert(children_view(v@, 0) =~= seq![node_view(v@[0])]);
    }
    v
}

/// A child list of two nodes.
pub fn nodes2(a: Node, b: Node) -> (v: Vec<Node>)
    ensures
        v@.len() == 2,
        v@[0] == a,
        v@[1] == b,
        children_view(v@, 0) == seq![node_view(a), node_view(b)],
{
    let mut v: Vec<Node> = Vec::new();
    v.push(a);
    v.push(b);
    proof {
        assert(children_view(v@, 2) =~= Seq::<NodeView>::empty());
        assert(children_view(v@, 1) =~= seq![node_view(v@[1])]);
        assert(children_view(v@, 0) =~= seq![node_view(v@[0]), node_view(v@[1])]);
    }
    v
}

/// A child list of three nodes.
pub fn nodes3(a: Node, b: Node, c: Node) -> (v: Vec<Node>)
    ensures
        v@.len() == 3,
        v@[0] == a,
        v@[1] == b,
        v@[2] == c,
        children_view(v@, 0) == seq![node_view(a), node_view(b), node_view(c)],
{
    let mut v: Vec<Node> = Vec::new();
    v.push(a);
    v.push(b);
    v.push(c);
    proof {
        assert(children_view(v@, 3) =~= Seq::<NodeView>::empty());
        assert(children_view(v@, 2) =~= seq![node_view(v@[2])]);
        assert(children_view(v@, 1) =~= seq![node_view(v@[1]), node_view(v@[2])]);
        assert(children_view(v@, 0) =~= seq![node_view(v@[0]), node_view(v@[1]), node_view(v@[2])]);
    }
    v
}

/// A child list of four nodes.
pub fn nodes4(a: Node, b: Node, c: Node, d: Node) -> (v: Vec<Node>)
    ensures
        v@.len() == 4,
        v@[0] == a,
        v@[1] == b,
        v@[2] == c,
        v@[3] == d,
        children_view(v@, 0) == seq![node_view(a), node_view(b), node_view(c), node_view(d)],
{
    let mut v: Vec<Node> = Vec::new();
    v.push(a);
    v.push(b);
    v.push(c);
    v.push(d);
    proof {
        assert(children_view(v@, 4) =~= Seq::<NodeView>::empty());
        assert(children_view(v@, 3) =~= seq![node_view(v@[3])]);
        assert(children_view(v@, 2) =~= seq![node_view(v@[2]), node_view(v@[3])]);
        assert(children_view(v@, 1) =~= seq![node_view(v@[1]), node_view(v@[2]), node_view(v@[3])]);
        assert(children_view(v@, 0) =~= seq![
            node_view(v@[0]),
            node_view(v@[1]),
            node_view(v@[2]),
            node_view(v@[3]),
        ]);
    }
    v
}

fn text_eq(a: &String, b: &String) -> (r: bool)
    ensures
        r == (a@ == b@),
{
    a.eq(b)
}

fn attrs_have_impl(attrs: &Vec<Attribute>, k: usize, name: &String, value: &String) -> (b: bool)
    requires
        k <= attrs@.len(),
    ensures
        b == attrs_have(attrs@, k as int, name@, value@),
    decreases attrs@.len() - k,
{
    if k >= attrs.len() {
        false
    } else if text_eq(&attrs[k].name, name) && text_eq(&attrs[k].value, value) {
        true
    } else {
        attrs_have_impl(attrs, k + 1, name, value)
    }
}

fn contains_text_impl(n: &Node, s: &String) -> (b: bool)
    ensures
        b == contains_text(*n, s@),
    decreases *n, 0int,
{
    match n {
        Node::Text(t) => text_eq(t, s),
        Node::Element(e) => seq_contains_text_impl(&e.children, 0, s),
    }
}

fn seq_contains_text_impl(ns: &Vec<Node>, k: usize, s: &String) -> (b: bool)
    requires
        k <= ns@.len(),
    ensures
        b == seq_contains_text(ns@, k as int, s@),
    decreases ns@, ns@.len() - k,
{
    if k >= ns.len() {
        false
    } else if contains_text_impl(&ns[k], s) {
        true
    } else {
        seq_contains_text_impl(ns, k + 1, s)
    }
}

fn contains_attr_impl(n: &Node, name: &String, value: &String) -> (b: bool)
    ensures
        b == contains_attr(*n, name@, value@),
    decreases *n, 0int,
{
    match n {
        Node::Text(_) => false,
        Node::Element(e) => {
            if attrs_have_impl(&e.attrs, 0, name, value) {
                true
            } else {
                seq_contains_attr_impl(&e.children, 0, name, value)
            }
        },
    }
}

fn seq_contains_attr_impl(ns: &Vec<Node>, k: usize, name: &String, value: &String) -> (b: bool)
    requires
        k <= ns@.len(),
    ensures
        b == seq_contains_attr(ns@, k as int, name@, value@),
    decreases ns@, ns@.len() - k,
{
    if k >= ns.len() {
        false
    } else if contains_attr_impl(&ns[k], name, value) {
        true
    } else {
        seq_contains_attr_impl(ns, k + 1, name, value)
    }
}

/// Somewhere in the tree there is a text leaf with exactly this content.
pub fn node_contains_text(n: &Node, s: &str) -> (b: bool)
    ensures
        b == contains_text(*n, s@),
{
    let needle: String = s.to_owned();
    contains_text_impl(n, &needle)
}

/// Somewhere in the tree there is an element carrying the attribute
/// `name="value"`.
pub fn node_contains_attr(n: &Node, name: &str, value: &str) -> (b: bool)
    ensures
        b == contains_attr(*n, name@, value@),
{
    let needle_name: String = name.to_owned();
    let needle_value: String = value.to_owned();
    contains_attr_impl(n, &needle_name, &needle_value)
}

} // verus!
