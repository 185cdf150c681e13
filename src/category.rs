//! The closed set of symbol categories and the pattern catalog.

use vstd::prelude::*;

verus! {

/// A category that is answered by a single structural pattern.
#[derive(Clone, Copy, Debug, PartialEq, Eq, Structural)]
pub enum Primitive {
    Imports,
    ExplicitExports,
    DataType,
    Newtype,
    TypeSynonym,
    Class,
    TypeFamily,
    Function,
    FunctionInfix,
    Bind,
}

/// A category that can be asked for: the primitive ones, plus `Exports`
/// and `Declarations`, which are composed from several patterns.
#[derive(Clone, Copy, Debug, PartialEq, Eq, Structural)]
pub enum Category {
    Imports,
    Exports,
    ExplicitExports,
    Declarations,
    DataType,
    Newtype,
    TypeSynonym,
    Class,
    TypeFamily,
    Function,
    FunctionInfix,
    Bind,
}

/// Number of primitive categories, and so of compiled patterns.
pub const PRIMITIVE_COUNT: usize = 10;

/// The pattern text of each primitive category.
pub open spec fn pattern_spec(p: Primitive) -> Seq<char> {
    match p {
        Primitive::Imports => "(haskell (imports (import module: (_) @import)))"@,
        Primitive::ExplicitExports => "(haskell (header (exports export: (_) @export)))"@,
        Primitive::DataType => "(haskell (declarations (data_type name: (_) @data_type)))"@,
        Primitive::Newtype => "(haskell (declarations (newtype name: (_) @newtype)))"@,
        Primitive::TypeSynonym => "(haskell (declarations (type_synomym name: (_) @type_synonym)))"@,
        Primitive::Class => "(haskell (declarations (class name: (_) @class)))"@,
        Primitive::TypeFamily => "(haskell (declarations (type_family name: (_) @type_family)))"@,
        Primitive::Function => "(haskell (declarations (function name: (_) @function)))"@,
        Primitive::FunctionInfix => "(haskell (declarations (function (infix operator: (_) @function))))"@,
        Primitive::Bind => "(haskell (declarations (bind name: (_) @bind)))"@,
    }
}

/// Looks up the structural pattern of a primitive category.
pub fn pattern_for(p: Primitive) -> (r: &'static str)
    ensures
        r@ == pattern_spec(p),
        r@.len() > 0,
{
    proof {
        lemma_pattern_nonempty(p);
    }
    match p {
        Primitive::Imports => "(haskell (imports (import module: (_) @import)))",
        Primitive::ExplicitExports => "(haskell (header (exports export: (_) @export)))",
        Primitive::DataType => "(haskell (declarations (data_type name: (_) @data_type)))",
        Primitive::Newtype => "(haskell (declarations (newtype name: (_) @newtype)))",
        Primitive::TypeSynonym => "(haskell (declarations (type_synomym name: (_) @type_synonym)))",
        Primitive::Class => "(haskell (declarations (class name: (_) @class)))",
        Primitive::TypeFamily => "(haskell (declarations (type_family name: (_) @type_family)))",
        Primitive::Function => "(haskell (declarations (function name: (_) @function)))",
        Primitive::FunctionInfix => "(haskell (declarations (function (infix operator: (_) @function))))",
        Primitive::Bind => "(haskell (declarations (bind name: (_) @bind)))",
    }
}

/// Every pattern of the catalog is a non-empty text.
pub proof fn lemma_pattern_nonempty(p: Primitive)
    ensures
        pattern_spec(p).len() > 0,
{
    reveal_strlit("(haskell (imports (import module: (_) @import)))");
    reveal_strlit("(haskell (header (exports export: (_) @export)))");
    reveal_strlit("(haskell (declarations (data_type name: (_) @data_type)))");
    reveal_strlit("(haskell (declarations (newtype name: (_) @newtype)))");
    reveal_strlit("(haskell (declarations (type_synomym name: (_) @type_synonym)))");
    reveal_strlit("(haskell (declarations (class name: (_) @class)))");
    reveal_strlit("(haskell (declarations (type_family name: (_) @type_family)))");
    reveal_strlit("(haskell (declarations (function name: (_) @function)))");
    reveal_strlit("(haskell (declarations (function (infix operator: (_) @function))))");
    reveal_strlit("(haskell (declarations (bind name: (_) @bind)))");
}

/// The position of each primitive category in the catalog.
pub open spec fn slot_spec(p: Primitive) -> nat {
    match p {
        Primitive::Imports => 0,
        Primitive::ExplicitExports => 1,
        Primitive::DataType => 2,
        Primitive::Newtype => 3,
        Primitive::TypeSynonym => 4,
        Primitive::Class => 5,
        Primitive::TypeFamily => 6,
        Primitive::Function => 7,
        Primitive::FunctionInfix => 8,
        Primitive::Bind => 9,
    }
}

/// The primitive category held at each position of the catalog.
pub open spec fn primitive_at_spec(i: nat) -> Primitive {
    if i == 0 {
        Primitive::Imports
    } else if i == 1 {
        Primitive::ExplicitExports
    } else if i == 2 {
        Primitive::DataType
    } else if i == 3 {
        Primitive::Newtype
    } else if i == 4 {
        Primitive::TypeSynonym
    } else if i == 5 {
        Primitive::Class
    } else if i == 6 {
        Primitive::TypeFamily
    } else if i == 7 {
        Primitive::Function
    } else if i == 8 {
        Primitive::FunctionInfix
    } else {
        Primitive::Bind
    }
}

/// The catalog position of a primitive category.
pub fn slot(p: Primitive) -> (r: usize)
    ensures
        r == slot_spec(p),
        r < PRIMITIVE_COUNT,
        primitive_at_spec(r as nat) == p,
{
    match p {
        Primitive::Imports => 0,
        Primitive::ExplicitExports => 1,
        Primitive::DataType => 2,
        Primitive::Newtype => 3,
        Primitive::TypeSynonym => 4,
        Primitive::Class => 5,
        Primitive::TypeFamily => 6,
        Primitive::Function => 7,
        Primitive::FunctionInfix => 8,
        Primitive::Bind => 9,
    }
}

/// The primitive category at a catalog position.
pub fn primitive_at(i: usize) -> (r: Primitive)
    requires
        i < PRIMITIVE_COUNT,
    ensures
        r == primitive_at_spec(i as nat),
        slot_spec(r) == i,
{
    if i == 0 {
        Primitive::Imports
    } else if i == 1 {
        Primitive::ExplicitExports
    } else if i == 2 {
        Primitive::DataType
    } else if i == 3 {
        Primitive::Newtype
    } else if i == 4 {
        Primitive::TypeSynonym
    } else if i == 5 {
        Primitive::Class
    } else if i == 6 {
        Primitive::TypeFamily
    } else if i == 7 {
        Primitive::Function
    } else if i == 8 {
        Primitive::FunctionInfix
    } else {
        Primitive::Bind
    }
}

/// The declaration sub-kinds, in the fixed order in which their results
/// are concatenated.
pub open spec fn declaration_kinds() -> Seq<Primitive> {
    seq![
        Primitive::DataType,
        Primitive::Newtype,
        Primitive::TypeSynonym,
        Primitive::Class,
        Primitive::TypeFamily,
        Primitive::Function,
        Primitive::FunctionInfix,
        Primitive::Bind,
    ]
}

/// Number of declaration sub-kinds.
pub const DECLARATION_KIND_COUNT: usize = 8;

/// The declaration sub-kind at position `i` of the fixed order.
pub fn declaration_kind_at(i: usize) -> (r: Primitive)
    requires
        i < DECLARATION_KIND_COUNT,
    ensures
        r == declaration_kinds()[i as int],
{
    primitive_at(i + 2)
}

impl Category {
    /// The primitive category that answers this query on its own, if any.
    pub open spec fn primitive_spec(self) -> Option<Primitive> {
        match self {
            Category::Imports => Some(Primitive::Imports),
            Category::ExplicitExports => Some(Primitive::ExplicitExports),
            Category::DataType => Some(Primitive::DataType),
            Category::Newtype => Some(Primitive::Newtype),
            Category::TypeSynonym => Some(Primitive::TypeSynonym),
            Category::Class => Some(Primitive::Class),
            Category::TypeFamily => Some(Primitive::TypeFamily),
            Category::Function => Some(Primitive::Function),
            Category::FunctionInfix => Some(Primitive::FunctionInfix),
            Category::Bind => Some(Primitive::Bind),
            Category::Exports | Category::Declarations => None,
        }
    }

    /// The primitive category that answers this query on its own; `None`
    /// for the composite queries `Exports` and `Declarations`.
    pub fn primitive(self) -> (r: Option<Primitive>)
        ensures
            r == self.primitive_spec(),
    {
        match self {
            Category::Imports => Some(Primitive::Imports),
            Category::ExplicitExports => Some(Primitive::ExplicitExports),
            Category::DataType => Some(Primitive::DataType),
            Category::Newtype => Some(Primitive::Newtype),
            Category::TypeSynonym => Some(Primitive::TypeSynonym),
            Category::Class => Some(Primitive::Class),
            Category::TypeFamily => Some(Primitive::TypeFamily),
            Category::Function => Some(Primitive::Function),
            Category::FunctionInfix => Some(Primitive::FunctionInfix),
            Category::Bind => Some(Primitive::Bind),
            Category::Exports | Category::Declarations => None,
        }
    }

    /// The primitive categories whose patterns this query runs.
    pub open spec fn components(self) -> Seq<Primitive> {
        match self {
            Category::Exports => seq![Primitive::ExplicitExports] + declaration_kinds(),
            Category::Declarations => declaration_kinds(),
            _ => seq![self.primitive_spec().unwrap()],
        }
    }
}

/// Every category runs at least one pattern, and each pattern it runs is a
/// non-empty text.
pub proof fn lemma_category_closure(q: Category)
    ensures
        q.components().len() > 0,
        forall|i: int| 0 <= i < q.components().len() ==> pattern_spec(#[trigger] q.components()[i]).len() > 0,
{
    assert forall|i: int| 0 <= i < q.components().len() implies pattern_spec(#[trigger] q.components()[i]).len() > 0 by {
        lemma_pattern_nonempty(q.components()[i]);
    }
}

} // verus!
