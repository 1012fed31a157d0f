//! Logic of a single-page landing site: a dark/light theme flag initialized
//! from the environment's color-scheme preference, a toggle that flips it,
//! smooth-scroll requests resolved against the document's element identifiers,
//! and a pure renderer that produces the page's markup tree from the state.

pub mod env;
pub mod markup;
pub mod page;
pub mod render;
