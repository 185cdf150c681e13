//! Symbol extraction for Haskell sources: structural patterns over a
//! tree-sitter syntax tree, resolved into ordered `path:line:column:text`
//! records.

pub mod category;
pub mod syntax;
pub mod resolve;
pub mod record;
pub mod scan;
