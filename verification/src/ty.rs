use vstd::prelude::*;

use crate::vm::{ClassId, EnumId, StructId, TraitId};

verus! {

/// The index of a list of type arguments in `VM::type_lists`.
#[derive(Clone, Copy, Debug, PartialEq, Eq, Hash, Structural)]
pub struct TypeListId(pub usize);

/// A resolved type. Type arguments are held in `VM::type_lists`.
#[derive(Clone, Copy, Debug, PartialEq, Eq, Structural)]
pub enum SourceType {
    /// The type of a declaration whose type is not (yet) resolved.
    Error,
    Unit,
    /// A class with its type arguments.
    Class(ClassId, TypeListId),
    Struct(StructId),
    Trait(TraitId),
    Enum(EnumId),
    /// A tuple of two or more types.
    Tuple(TypeListId),
}

pub open spec fn spec_cls_id(ty: SourceType) -> Option<ClassId> {
    match ty {
        SourceType::Class(c, _) => Some(c),
        _ => None,
    }
}

impl SourceType {
    pub fn is_error(&self) -> (b: bool)
        ensures
            b == (*self is Error),
    {
        match self {
            SourceType::Error => true,
            _ => false,
        }
    }

    /// The class of a class type.
    pub fn cls_id(&self) -> (c: Option<ClassId>)
        ensures
            c == spec_cls_id(*self),
    {
        match self {
            SourceType::Class(c, _) => Some(*c),
            _ => None,
        }
    }
}

} // verus!
