//! The compiled pattern catalog and the resolution of composite categories.

use crate::category::{
    declaration_kind_at, declaration_kinds, pattern_for, pattern_spec, primitive_at,
    primitive_at_spec, slot, slot_spec, Category, Primitive, DECLARATION_KIND_COUNT,
    PRIMITIVE_COUNT,
};
use crate::syntax::{captures_of, compile_pattern, pattern_compiles, run_pattern, CompiledPattern, ParsedUnit, Span};
use vstd::prelude::*;

verus! {

/// The captures of one primitive category on a source text.
pub open spec fn primitive_captures(source: Seq<u8>, p: Primitive) -> Seq<Span> {
    captures_of(source, pattern_spec(p))
}

/// The captures of a list of primitive categories, concatenated in list
/// order.
pub open spec fn concat_captures(source: Seq<u8>, kinds: Seq<Primitive>) -> Seq<Span>
    decreases kinds.len(),
{
    if kinds.len() == 0 {
        Seq::empty()
    } else {
        concat_captures(source, kinds.drop_last()) + primitive_captures(source, kinds.last())
    }
}

/// Every declaration of a source: the eight sub-kinds' captures, in their
/// fixed order, neither merged nor deduplicated.
pub open spec fn declarations_of(source: Seq<u8>) -> Seq<Span> {
    concat_captures(source, declaration_kinds())
}

/// The exports of a source: the explicit export list when it captures
/// anything, else every declaration.
pub open spec fn exports_of(source: Seq<u8>) -> Seq<Span> {
    let explicit = primitive_captures(source, Primitive::ExplicitExports);
    if explicit.len() > 0 {
        explicit
    } else {
        declarations_of(source)
    }
}

/// What a category captures on a source text.
pub open spec fn resolve_spec(source: Seq<u8>, c: Category) -> Seq<Span> {
    match c {
        Category::Exports => exports_of(source),
        Category::Declarations => declarations_of(source),
        _ => primitive_captures(source, c.primitive_spec().unwrap()),
    }
}

/// Whether every pattern of the catalog compiles.
pub open spec fn catalog_compiles() -> bool {
    forall|p: Primitive| #[trigger] pattern_compiles(pattern_spec(p))
}

/// Why the catalog could not be built.
#[derive(Clone, Copy, Debug, PartialEq, Eq, Structural)]
pub enum CatalogError {
    /// The pattern of this category is rejected by the grammar.
    MalformedPattern(Primitive),
}

/// One compiled pattern per primitive category, held at its slot.
pub struct Catalog {
    patterns: Vec<CompiledPattern>,
}

impl Catalog {
    /// The catalog holds, at each slot, the compiled pattern of the
    /// category of that slot.
    pub closed spec fn wf(&self) -> bool {
        &&& self.patterns@.len() == PRIMITIVE_COUNT
        &&& forall|i: int|
            0 <= i < PRIMITIVE_COUNT ==> (#[trigger] self.patterns@[i])@ == pattern_spec(
                primitive_at_spec(i as nat),
            )
    }

    /// Compiles every pattern of the catalog, stopping at the first one
    /// that the grammar rejects.
    pub fn new() -> (r: Result<Catalog, CatalogError>)
        ensures
            r.is_ok() == catalog_compiles(),
            r matches Ok(c) ==> c.wf(),
            r matches Err(CatalogError::MalformedPattern(p)) ==> !pattern_compiles(pattern_spec(p)),
    {
        let mut patterns: Vec<CompiledPattern> = Vec::new();
        let mut i: usize = 0;
        while i < PRIMITIVE_COUNT
            invariant
                i <= PRIMITIVE_COUNT,
                patterns@.len() == i,
                forall|j: int| 0 <= j < i ==> pattern_compiles(pattern_spec(#[trigger] primitive_at_spec(j as nat))),
                forall|j: int|
                    0 <= j < i ==> (#[trigger] patterns@[j])@ == pattern_spec(primitive_at_spec(j as nat)),
            decreases PRIMITIVE_COUNT - i,
        {
            let p = primitive_at(i);
            match compile_pattern(pattern_for(p)) {
                Ok(c) => patterns.push(c),
                Err(_) => return Err(CatalogError::MalformedPattern(p)),
            }
            i = i + 1;
        }
        assert forall|p: Primitive| #[trigger] pattern_compiles(pattern_spec(p)) by {
            let j = slot_spec(p) as int;
            assert(primitive_at_spec(j as nat) == p);
        }
        Ok(Catalog { patterns })
    }

    /// Runs the pattern of one primitive category.
    pub fn run(&self, unit: &ParsedUnit, p: Primitive) -> (r: Vec<Span>)
        requires
            self.wf(),
        ensures
            r@ == primitive_captures(unit@, p),
    {
        let i = slot(p);
        run_pattern(&self.patterns[i], unit)
    }

    /// Every declaration of the unit: the sub-kinds' results concatenated in
    /// their fixed order.
    pub fn declarations(&self, unit: &ParsedUnit) -> (r: Vec<Span>)
        requires
            self.wf(),
        ensures
            r@ == declarations_of(unit@),
    {
        let mut out: Vec<Span> = Vec::new();
        let mut k: usize = 0;
        while k < DECLARATION_KIND_COUNT
            invariant
                self.wf(),
                k <= DECLARATION_KIND_COUNT,
                out@ == concat_captures(unit@, declaration_kinds().subrange(0, k as int)),
            decreases DECLARATION_KIND_COUNT - k,
        {
            let found = self.run(unit, declaration_kind_at(k));
            let ghost before = out@;
            let mut j: usize = 0;
            while j < found.len()
                invariant
                    j <= found@.len(),
                    out@ == before + found@.subrange(0, j as int),
                decreases found@.len() - j,
            {
                out.push(found[j]);
                j = j + 1;
            }
            proof {
                let next = declaration_kinds().subrange(0, k + 1);
                assert(next.drop_last() =~= declaration_kinds().subrange(0, k as int));
                assert(found@.subrange(0, j as int) =~= found@);
            }
            k = k + 1;
        }
        assert(declaration_kinds().subrange(0, DECLARATION_KIND_COUNT as int) =~= declaration_kinds());
        out
    }

    /// The explicit export list when it captures anything, else every
    /// declaration.
    pub fn exports(&self, unit: &ParsedUnit) -> (r: Vec<Span>)
        requires
            self.wf(),
        ensures
            r@ == exports_of(unit@),
    {
        let explicit = self.run(unit, Primitive::ExplicitExports);
        if explicit.len() > 0 {
            explicit
        } else {
            self.declarations(unit)
        }
    }

    /// What a category captures on the unit.
    pub fn resolve(&self, unit: &ParsedUnit, c: Category) -> (r: Vec<Span>)
        requires
            self.wf(),
        ensures
            r@ == resolve_spec(unit@, c),
    {
        match c {
            Category::Exports => self.exports(unit),
            Category::Declarations => self.declarations(unit),
            _ => {
                let p = c.primitive();
                match p {
                    Some(p) => self.run(unit, p),
                    None => Vec::new(),
                }
            }
        }
    }
}

/// Exports resolve to the explicit export list whenever it captures
/// anything, and to the declarations otherwise.
pub proof fn lemma_export_fallback(source: Seq<u8>)
    ensures
        resolve_spec(source, Category::ExplicitExports).len() > 0 ==> resolve_spec(source, Category::Exports)
            == resolve_spec(source, Category::ExplicitExports),
        resolve_spec(source, Category::ExplicitExports).len() == 0 ==> resolve_spec(source, Category::Exports)
            == resolve_spec(source, Category::Declarations),
{
}

/// The declarations are exactly the eight sub-kinds' results concatenated
/// in the fixed order: each sub-kind's records occur, in their own order,
/// at a known offset, and nothing else occurs.
pub proof fn lemma_declaration_union(source: Seq<u8>)
    ensures
        resolve_spec(source, Category::Declarations) == resolve_spec(source, Category::DataType)
            + resolve_spec(source, Category::Newtype) + resolve_spec(source, Category::TypeSynonym)
            + resolve_spec(source, Category::Class) + resolve_spec(source, Category::TypeFamily)
            + resolve_spec(source, Category::Function) + resolve_spec(source, Category::FunctionInfix)
            + resolve_spec(source, Category::Bind),
{
    reveal_with_fuel(concat_captures, 9);
    let k = declaration_kinds();
    assert(k.drop_last() =~= k.subrange(0, 7));
    assert(k.subrange(0, 7).drop_last() =~= k.subrange(0, 6));
    assert(k.subrange(0, 6).drop_last() =~= k.subrange(0, 5));
    assert(k.subrange(0, 5).drop_last() =~= k.subrange(0, 4));
    assert(k.subrange(0, 4).drop_last() =~= k.subrange(0, 3));
    assert(k.subrange(0, 3).drop_last() =~= k.subrange(0, 2));
    assert(k.subrange(0, 2).drop_last() =~= k.subrange(0, 1));
    assert(k.subrange(0, 1).drop_last() =~= Seq::<Primitive>::empty());
    assert(concat_captures(source, Seq::<Primitive>::empty()) =~= Seq::<Span>::empty());
    assert(Seq::<Span>::empty() + primitive_captures(source, Primitive::DataType) =~= primitive_captures(source, Primitive::DataType));
}

} // verus!
