//! The boundary to the tree-sitter parser and its Haskell grammar.
//!
//! Everything Verus believes about tree-sitter is stated here: a parse
//! keeps its source text, a pattern compiles or not depending on its text
//! alone, and the captures of a compiled pattern on a parsed unit depend
//! on the source bytes and the pattern text alone.

use tree_sitter::StreamingIterator;
use vstd::prelude::*;

verus! {

#[verifier::external_type_specification]
#[verifier::external_body]
pub struct ExTree(tree_sitter::Tree);

#[verifier::external_type_specification]
#[verifier::external_body]
pub struct ExTsQuery(tree_sitter::Query);

#[verifier::external_type_specification]
#[verifier::external_body]
pub struct ExQueryError(tree_sitter::QueryError);

/// Where one captured node stands in its source: its byte range and the
/// zero-based row and byte column at which it starts.
#[derive(Clone, Copy, Debug, PartialEq, Eq, Structural)]
pub struct Span {
    pub start_byte: usize,
    pub end_byte: usize,
    pub row: usize,
    pub column: usize,
}

/// A source text together with the syntax tree that the Haskell grammar
/// gives it. Only `parse_haskell` builds one, so the tree is always that of
/// the bytes held beside it.
pub struct ParsedUnit {
    source: Vec<u8>,
    tree: tree_sitter::Tree,
}

impl View for ParsedUnit {
    type V = Seq<u8>;

    closed spec fn view(&self) -> Seq<u8> {
        self.source@
    }
}

impl ParsedUnit {
    /// The source bytes of the unit.
    pub fn source(&self) -> (r: &[u8])
        ensures
            r@ == self@,
    {
        self.source.as_slice()
    }
}

/// A pattern compiled for the Haskell grammar, with the text it came from.
/// Only `compile_pattern` builds one.
pub struct CompiledPattern {
    text: &'static str,
    query: tree_sitter::Query,
}

impl View for CompiledPattern {
    type V = Seq<char>;

    closed spec fn view(&self) -> Seq<char> {
        self.text@
    }
}

/// Whether a pattern text is accepted by the Haskell grammar's query
/// compiler.
pub uninterp spec fn pattern_compiles(pattern: Seq<char>) -> bool;

/// The nodes captured, in the order tree-sitter reports them, when a
/// pattern runs over the tree of a source text.
pub uninterp spec fn captures_of(source: Seq<u8>, pattern: Seq<char>) -> Seq<Span>;

/// Relies on tree_sitter::Parser::parse (after Parser::new and set_language
/// with tree_sitter_haskell::LANGUAGE): it builds a tree of the given bytes.
/// The grammar's ABI version is one that set_language accepts, and a fresh
/// parser has no timeout, cancellation flag or progress callback, the only
/// cases in which parse gives no tree.
#[verifier::external_body]
pub fn parse_haskell(source: Vec<u8>) -> (r: Option<ParsedUnit>)
    ensures
        r.is_some(),
        r matches Some(u) ==> u@ == source@,
{
    let mut parser = tree_sitter::Parser::new();
    parser.set_language(&tree_sitter_haskell::LANGUAGE.into()).ok()?;
    let tree = parser.parse(&source, None)?;
    Some(ParsedUnit { source, tree })
}

/// Relies on tree_sitter::Query::new with tree_sitter_haskell::LANGUAGE:
/// whether the pattern compiles depends on its text alone.
#[verifier::external_body]
pub fn compile_pattern(text: &'static str) -> (r: Result<CompiledPattern, tree_sitter::QueryError>)
    ensures
        r.is_ok() == pattern_compiles(text@),
        r matches Ok(c) ==> c@ == text@,
{
    let query = tree_sitter::Query::new(&tree_sitter_haskell::LANGUAGE.into(), text)?;
    Ok(CompiledPattern { text, query })
}

/// Relies on tree_sitter::QueryCursor::matches over the root of the unit's
/// tree: every capture of every match, in the order tree-sitter yields
/// them, as a function of the source bytes and the pattern text.
#[verifier::external_body]
pub fn run_pattern(pattern: &CompiledPattern, unit: &ParsedUnit) -> (r: Vec<Span>)
    ensures
        r@ == captures_of(unit@, pattern@),
{
    let mut cursor = tree_sitter::QueryCursor::new();
    let mut matches = cursor.matches(&pattern.query, unit.tree.root_node(), unit.source.as_slice());
    let mut spans = Vec::new();
    while let Some(m) = matches.next() {
        for c in m.captures {
            let (n, p) = (c.node, c.node.start_position());
            spans.push(Span { start_byte: n.start_byte(), end_byte: n.end_byte(), row: p.row, column: p.column });
        }
    }
    spans
}

} // verus!
