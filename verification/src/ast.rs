use vstd::prelude::*;

use crate::interner::Name;

verus! {

/// A place in a source file: line and column, both counted from 1.
#[derive(Clone, Copy, Debug, PartialEq, Eq, Structural)]
pub struct Position {
    pub line: u32,
    pub column: u32,
}

impl Position {
    pub fn new(line: u32, column: u32) -> (p: Position)
        ensures
            p.line == line,
            p.column == column,
    {
        Position { line, column }
    }
}

/// A type as written in the source.
#[derive(Debug)]
pub enum Type {
    /// A named type with its type arguments, such as `Foo` or `Foo[String]`.
    Basic(TypeBasicType),
    /// A tuple type; `()` is the unit type.
    Tuple(TypeTupleType),
}

#[derive(Debug)]
pub struct TypeBasicType {
    pub name: Name,
    pub params: Vec<Type>,
    pub pos: Position,
}

#[derive(Debug)]
pub struct TypeTupleType {
    pub subtypes: Vec<Type>,
    pub pos: Position,
}

/// The name of a type written as a bare name, without type arguments.
pub open spec fn basic_name_without_type_params(ty: Type) -> Option<Name> {
    match ty {
        Type::Basic(b) => if b.params@.len() == 0 {
            Some(b.name)
        } else {
            None
        },
        Type::Tuple(_) => None,
    }
}

pub open spec fn type_pos(ty: Type) -> Position {
    match ty {
        Type::Basic(b) => b.pos,
        Type::Tuple(t) => t.pos,
    }
}

impl Type {
    pub fn to_basic_without_type_params(&self) -> (r: Option<Name>)
        ensures
            r == basic_name_without_type_params(*self),
    {
        match self {
            Type::Basic(b) => if b.params.len() == 0 {
                Some(b.name)
            } else {
                None
            },
            Type::Tuple(_) => None,
        }
    }

    pub fn pos(&self) -> (p: Position)
        ensures
            p == type_pos(*self),
    {
        match self {
            Type::Basic(b) => b.pos,
            Type::Tuple(t) => t.pos,
        }
    }
}

/// A method declared in an `impl` block. `has_block` tells whether the
/// declaration has a body; an `internal` method is implemented by the
/// runtime and needs none.
#[derive(Clone, Copy, Debug, PartialEq, Eq, Structural)]
pub struct Function {
    pub name: Name,
    pub pos: Position,
    pub has_block: bool,
    pub internal: bool,
}

/// An `impl Trait for Class { methods }` block.
#[derive(Debug)]
pub struct Impl {
    pub pos: Position,
    pub type_params: Option<Vec<Name>>,
    pub trait_type: Option<Type>,
    pub class_type: Type,
    pub methods: Vec<Function>,
}

/// An import `container::element` (or `container::element as target`).
#[derive(Clone, Copy, Debug, PartialEq, Eq, Structural)]
pub struct Import {
    pub pos: Position,
    pub container_name: Name,
    pub element_name: Name,
    pub target_name: Option<Name>,
}

} // verus!

verus! {

/// Every name written in `ty` is below `n`.
pub open spec fn type_names_below(ty: Type, n: nat) -> bool
    decreases ty,
{
    match ty {
        Type::Basic(b) => {
            &&& b.name < n
            &&& forall|k: int| 0 <= k < b.params@.len() ==> type_names_below(#[trigger] b.params@[k], n)
        },
        Type::Tuple(t) => forall|k: int|
            0 <= k < t.subtypes@.len() ==> type_names_below(#[trigger] t.subtypes@[k], n),
    }
}

/// A bound on the names of a type also holds for any larger bound.
pub proof fn lemma_type_names_below_grow(ty: Type, n: nat, n2: nat)
    requires
        type_names_below(ty, n),
        n <= n2,
    ensures
        type_names_below(ty, n2),
    decreases ty,
{
    match ty {
        Type::Basic(b) => {
            assert forall|k: int| 0 <= k < b.params@.len() implies type_names_below(
                #[trigger] b.params@[k],
                n2,
            ) by {
                lemma_type_names_below_grow(b.params@[k], n, n2);
            }
        },
        Type::Tuple(t) => {
            assert forall|k: int| 0 <= k < t.subtypes@.len() implies type_names_below(
                #[trigger] t.subtypes@[k],
                n2,
            ) by {
                lemma_type_names_below_grow(t.subtypes@[k], n, n2);
            }
        },
    }
}

} // verus!
