//! A model of the pieces of the host environment that the page logic reads:
//! the window, its dark-color-scheme media query, and the document with the
//! element identifiers it contains. Every lookup is optional; absence of any
//! piece degrades to a default rather than failing.

use vstd::prelude::*;

verus! {

/// Result of the environment's dark-color-scheme media query.
pub struct MediaQuery {
    /// Whether the query matched, i.e. the user prefers a dark color scheme.
    pub matches: bool,
}

/// The document, reduced to what the page logic reads from it: the element
/// identifiers present in the page.
pub struct Document {
    pub element_ids: Vec<String>,
}

/// The window, reduced to the two lookups the page logic performs on it.
/// Either may be unavailable.
pub struct Window {
    pub dark_query: Option<MediaQuery>,
    pub document: Option<Document>,
}

/// The host environment. The window itself may be unavailable.
pub struct Environment {
    pub window: Option<Window>,
}

impl Document {
    /// The document contains an element with the given identifier.
    pub open spec fn spec_has_id(self, id: Seq<char>) -> bool {
        exists|i: int| 0 <= i < self.element_ids@.len() && self.element_ids@[i]@ == id
    }

    /// Looks the identifier up among the document's element identifiers.
    pub fn has_id(&self, id: &str) -> (b: bool)
        ensures
            b == self.spec_has_id(id@),
    {
        let needle: String = id.to_owned();
        let mut i: usize = 0;
        while i < self.element_ids.len()
            invariant
                i <= self.element_ids@.len(),
                needle@ == id@,
                forall|j: int| 0 <= j < i ==> self.element_ids@[j]@ != id@,
            decreases self.element_ids@.len() - i,
        {
            if self.element_ids[i].eq(&needle) {
                return true;
            }
            i += 1;
        }
        false
    }
}

impl Environment {
    /// The environment reports a preference for a dark color scheme: the
    /// window is available, its media query succeeded, and the query matched.
    pub open spec fn spec_prefers_dark(self) -> bool {
        match self.window {
            Some(w) => match w.dark_query {
                Some(q) => q.matches,
                None => false,
            },
            None => false,
        }
    }

    /// An element with the given identifier can be scrolled to: the window
    /// and the document are available and the document contains it.
    pub open spec fn spec_has_scroll_target(self, id: Seq<char>) -> bool {
        match self.window {
            Some(w) => match w.document {
                Some(d) => d.spec_has_id(id),
                None => false,
            },
            None => false,
        }
    }

    /// Composes the optional lookups window -> media query -> matches, left
    /// to right, defaulting to `false` as soon as one is absent.
    pub fn prefers_dark(&self) -> (b: bool)
        ensures
            b == self.spec_prefers_dark(),
    {
        match &self.window {
            None => false,
            Some(w) => match &w.dark_query {
                None => false,
                Some(q) => q.matches,
            },
        }
    }

    /// Composes the optional lookups window -> document -> element, left to
    /// right, reporting absence as soon as one fails.
    pub fn find_scroll_target(&self, id: &str) -> (b: bool)
        ensures
            b == self.spec_has_scroll_target(id@),
    {
        match &self.window {
            None => false,
            Some(w) => match &w.document {
                None => false,
                Some(d) => d.has_id(id),
            },
        }
    }
}

} // verus!
