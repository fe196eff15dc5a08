use vstd::prelude::*;

verus! {

/// A virtual register of a function's frame.
#[derive(Clone, Copy, Debug, PartialEq, Eq, Hash, Structural)]
pub struct Register(pub usize);

/// The index of an instruction in a function's bytecode.
#[derive(Clone, Copy, Debug, PartialEq, Eq, Hash, Structural)]
pub struct BytecodeIdx(pub u32);

/// The index of a string in a function's constant pool.
#[derive(Clone, Copy, Debug, PartialEq, Eq, Hash, Structural)]
pub struct StrConstPoolIdx(pub usize);

} // verus!
