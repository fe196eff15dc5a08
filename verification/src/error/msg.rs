use vstd::prelude::*;

use crate::ast::Position;
use crate::vm::FileId;

verus! {

/// The errors that the semantic checks report. A `String` payload is the
/// text of the name concerned.
#[derive(Clone, Debug, PartialEq, Eq)]
pub enum SemError {
    Unimplemented,
    MissingFctBody,
    ExpectedTrait(String),
    ClassExpected,
    UnknownType(String),
    WrongNumberTypeParams(usize, usize),
    EnumExpected,
    UnknownEnumValue(String),
    ShadowFunction(String),
    ShadowGlobal(String),
    ShadowConst(String),
    ShadowClassConstructor(String),
    ShadowStructConstructor(String),
    ShadowNamespace(String),
    ShadowEnumValue(String),
    ShadowClass(String),
    ShadowStruct(String),
    ShadowTrait(String),
    ShadowEnum(String),
}

/// An error together with the file and the place where it was found.
#[derive(Clone, Debug, PartialEq, Eq)]
pub struct SemErrorAndPos {
    pub file: FileId,
    pub pos: Position,
    pub msg: SemError,
}

} // verus!
