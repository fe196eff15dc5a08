use vstd::prelude::*;

use crate::bytecode::generate::{BytecodeIdx, Register, StrConstPoolIdx};
use crate::ieee::{eq_f32_bits, eq_f64_bits, f32_bits_eq, f64_bits_eq};
use crate::vm::{ClassDefId, FctId, FieldId, GlobalId};
use vstd::std_specs::cmp::{PartialEqSpec, PartialEqSpecImpl};

verus! {

/// The instructions of the bytecode. A floating-point constant is held by
/// the bits of its IEEE 754 encoding (binary32 for `ConstFloat`, binary64 for
/// `ConstDouble`); two instructions are equal when they are the same
/// instruction with equal operands, floating-point operands compared as
/// numbers.
#[derive(Clone, Copy, Debug)]
pub enum Bytecode {
    AddInt(Register, Register, Register),
    AddLong(Register, Register, Register),
    AddFloat(Register, Register, Register),
    AddDouble(Register, Register, Register),

    SubInt(Register, Register, Register),
    SubFloat(Register, Register, Register),

    NegInt(Register, Register),
    NegLong(Register, Register),

    MulInt(Register, Register, Register),
    MulFloat(Register, Register, Register),

    DivInt(Register, Register, Register),
    DivFloat(Register, Register, Register),

    ModInt(Register, Register, Register),
    AndInt(Register, Register, Register),
    OrInt(Register, Register, Register),
    XorInt(Register, Register, Register),
    NotBool(Register, Register),

    ShlInt(Register, Register, Register),
    ShrInt(Register, Register, Register),
    SarInt(Register, Register, Register),

    MovBool(Register, Register),
    MovByte(Register, Register),
    MovChar(Register, Register),
    MovInt(Register, Register),
    MovLong(Register, Register),
    MovFloat(Register, Register),
    MovDouble(Register, Register),
    MovPtr(Register, Register),

    LoadFieldBool(Register, Register, ClassDefId, FieldId),
    LoadFieldByte(Register, Register, ClassDefId, FieldId),
    LoadFieldChar(Register, Register, ClassDefId, FieldId),
    LoadFieldInt(Register, Register, ClassDefId, FieldId),
    LoadFieldLong(Register, Register, ClassDefId, FieldId),
    LoadFieldFloat(Register, Register, ClassDefId, FieldId),
    LoadFieldDouble(Register, Register, ClassDefId, FieldId),
    LoadFieldPtr(Register, Register, ClassDefId, FieldId),

    LoadGlobalBool(Register, GlobalId),
    LoadGlobalByte(Register, GlobalId),
    LoadGlobalChar(Register, GlobalId),
    LoadGlobalInt(Register, GlobalId),
    LoadGlobalLong(Register, GlobalId),
    LoadGlobalFloat(Register, GlobalId),
    LoadGlobalDouble(Register, GlobalId),
    LoadGlobalPtr(Register, GlobalId),

    ConstNil(Register),
    ConstTrue(Register),
    ConstFalse(Register),
    ConstZeroByte(Register),
    ConstZeroInt(Register),
    ConstZeroLong(Register),
    ConstZeroFloat(Register),
    ConstZeroDouble(Register),
    ConstChar(Register, char),
    ConstByte(Register, u8),
    ConstInt(Register, u32),
    ConstLong(Register, u64),
    ConstFloat(Register, u32),
    ConstDouble(Register, u64),
    ConstString(Register, StrConstPoolIdx),

    TestEqPtr(Register, Register, Register),
    TestNePtr(Register, Register, Register),

    TestEqInt(Register, Register, Register),
    TestNeInt(Register, Register, Register),
    TestGtInt(Register, Register, Register),
    TestGeInt(Register, Register, Register),
    TestLtInt(Register, Register, Register),
    TestLeInt(Register, Register, Register),

    TestEqFloat(Register, Register, Register),
    TestNeFloat(Register, Register, Register),
    TestGtFloat(Register, Register, Register),
    TestGeFloat(Register, Register, Register),
    TestLtFloat(Register, Register, Register),
    TestLeFloat(Register, Register, Register),

    JumpIfFalse(Register, BytecodeIdx),
    JumpIfTrue(Register, BytecodeIdx),
    Jump(BytecodeIdx),

    InvokeDirectVoid(FctId, Register, usize),
    InvokeDirectBool(Register, FctId, Register, usize),
    InvokeDirectByte(Register, FctId, Register, usize),
    InvokeDirectChar(Register, FctId, Register, usize),
    InvokeDirectInt(Register, FctId, Register, usize),
    InvokeDirectLong(Register, FctId, Register, usize),
    InvokeDirectFloat(Register, FctId, Register, usize),
    InvokeDirectDouble(Register, FctId, Register, usize),
    InvokeDirectPtr(Register, FctId, Register, usize),

    InvokeVirtualVoid(FctId, Register, usize),
    InvokeVirtualBool(Register, FctId, Register, usize),
    InvokeVirtualByte(Register, FctId, Register, usize),
    InvokeVirtualChar(Register, FctId, Register, usize),
    InvokeVirtualInt(Register, FctId, Register, usize),
    InvokeVirtualLong(Register, FctId, Register, usize),
    InvokeVirtualFloat(Register, FctId, Register, usize),
    InvokeVirtualDouble(Register, FctId, Register, usize),
    InvokeVirtualPtr(Register, FctId, Register, usize),

    InvokeStaticVoid(FctId, Register, usize),
    InvokeStaticBool(Register, FctId, Register, usize),
    InvokeStaticByte(Register, FctId, Register, usize),
    InvokeStaticChar(Register, FctId, Register, usize),
    InvokeStaticInt(Register, FctId, Register, usize),
    InvokeStaticLong(Register, FctId, Register, usize),
    InvokeStaticFloat(Register, FctId, Register, usize),
    InvokeStaticDouble(Register, FctId, Register, usize),
    InvokeStaticPtr(Register, FctId, Register, usize),

    NewObject(Register, ClassDefId),

    Throw(Register),

    RetBool(Register),
    RetByte(Register),
    RetChar(Register),
    RetInt(Register),
    RetLong(Register),
    RetFloat(Register),
    RetDouble(Register),
    RetPtr(Register),

    RetVoid,
}

impl PartialEq for Bytecode {
    fn eq(&self, other: &Bytecode) -> (r: bool) {
        match (self, other) {
            (Bytecode::AddInt(a0, a1, a2), Bytecode::AddInt(b0, b1, b2)) => *a0 == *b0 && *a1 == *b1 && *a2 == *b2,
            (Bytecode::AddLong(a0, a1, a2), Bytecode::AddLong(b0, b1, b2)) => *a0 == *b0 && *a1 == *b1 && *a2 == *b2,
            (Bytecode::AddFloat(a0, a1, a2), Bytecode::AddFloat(b0, b1, b2)) => *a0 == *b0 && *a1 == *b1 && *a2 == *b2,
            (Bytecode::AddDouble(a0, a1, a2), Bytecode::AddDouble(b0, b1, b2)) => *a0 == *b0 && *a1 == *b1 && *a2 == *b2,
            (Bytecode::SubInt(a0, a1, a2), Bytecode::SubInt(b0, b1, b2)) => *a0 == *b0 && *a1 == *b1 && *a2 == *b2,
            (Bytecode::SubFloat(a0, a1, a2), Bytecode::SubFloat(b0, b1, b2)) => *a0 == *b0 && *a1 == *b1 && *a2 == *b2,
            (Bytecode::NegInt(a0, a1), Bytecode::NegInt(b0, b1)) => *a0 == *b0 && *a1 == *b1,
            (Bytecode::NegLong(a0, a1), Bytecode::NegLong(b0, b1)) => *a0 == *b0 && *a1 == *b1,
            (Bytecode::MulInt(a0, a1, a2), Bytecode::MulInt(b0, b1, b2)) => *a0 == *b0 && *a1 == *b1 && *a2 == *b2,
            (Bytecode::MulFloat(a0, a1, a2), Bytecode::MulFloat(b0, b1, b2)) => *a0 == *b0 && *a1 == *b1 && *a2 == *b2,
            (Bytecode::DivInt(a0, a1, a2), Bytecode::DivInt(b0, b1, b2)) => *a0 == *b0 && *a1 == *b1 && *a2 == *b2,
            (Bytecode::DivFloat(a0, a1, a2), Bytecode::DivFloat(b0, b1, b2)) => *a0 == *b0 && *a1 == *b1 && *a2 == *b2,
            (Bytecode::ModInt(a0, a1, a2), Bytecode::ModInt(b0, b1, b2)) => *a0 == *b0 && *a1 == *b1 && *a2 == *b2,
            (Bytecode::AndInt(a0, a1, a2), Bytecode::AndInt(b0, b1, b2)) => *a0 == *b0 && *a1 == *b1 && *a2 == *b2,
            (Bytecode::OrInt(a0, a1, a2), Bytecode::OrInt(b0, b1, b2)) => *a0 == *b0 && *a1 == *b1 && *a2 == *b2,
            (Bytecode::XorInt(a0, a1, a2), Bytecode::XorInt(b0, b1, b2)) => *a0 == *b0 && *a1 == *b1 && *a2 == *b2,
            (Bytecode::NotBool(a0, a1), Bytecode::NotBool(b0, b1)) => *a0 == *b0 && *a1 == *b1,
            (Bytecode::ShlInt(a0, a1, a2), Bytecode::ShlInt(b0, b1, b2)) => *a0 == *b0 && *a1 == *b1 && *a2 == *b2,
            (Bytecode::ShrInt(a0, a1, a2), Bytecode::ShrInt(b0, b1, b2)) => *a0 == *b0 && *a1 == *b1 && *a2 == *b2,
            (Bytecode::SarInt(a0, a1, a2), Bytecode::SarInt(b0, b1, b2)) => *a0 == *b0 && *a1 == *b1 && *a2 == *b2,
            (Bytecode::MovBool(a0, a1), Bytecode::MovBool(b0, b1)) => *a0 == *b0 && *a1 == *b1,
            (Bytecode::MovByte(a0, a1), Bytecode::MovByte(b0, b1)) => *a0 == *b0 && *a1 == *b1,
            (Bytecode::MovChar(a0, a1), Bytecode::MovChar(b0, b1)) => *a0 == *b0 && *a1 == *b1,
            (Bytecode::MovInt(a0, a1), Bytecode::MovInt(b0, b1)) => *a0 == *b0 && *a1 == *b1,
            (Bytecode::MovLong(a0, a1), Bytecode::MovLong(b0, b1)) => *a0 == *b0 && *a1 == *b1,
            (Bytecode::MovFloat(a0, a1), Bytecode::MovFloat(b0, b1)) => *a0 == *b0 && *a1 == *b1,
            (Bytecode::MovDouble(a0, a1), Bytecode::MovDouble(b0, b1)) => *a0 == *b0 && *a1 == *b1,
            (Bytecode::MovPtr(a0, a1), Bytecode::MovPtr(b0, b1)) => *a0 == *b0 && *a1 == *b1,
            (Bytecode::LoadFieldBool(a0, a1, a2, a3), Bytecode::LoadFieldBool(b0, b1, b2, b3)) => *a0 == *b0 && *a1 == *b1 && *a2 == *b2 && *a3 == *b3,
            (Bytecode::LoadFieldByte(a0, a1, a2, a3), Bytecode::LoadFieldByte(b0, b1, b2, b3)) => *a0 == *b0 && *a1 == *b1 && *a2 == *b2 && *a3 == *b3,
            (Bytecode::LoadFieldChar(a0, a1, a2, a3), Bytecode::LoadFieldChar(b0, b1, b2, b3)) => *a0 == *b0 && *a1 == *b1 && *a2 == *b2 && *a3 == *b3,
            (Bytecode::LoadFieldInt(a0, a1, a2, a3), Bytecode::LoadFieldInt(b0, b1, b2, b3)) => *a0 == *b0 && *a1 == *b1 && *a2 == *b2 && *a3 == *b3,
            (Bytecode::LoadFieldLong(a0, a1, a2, a3), Bytecode::LoadFieldLong(b0, b1, b2, b3)) => *a0 == *b0 && *a1 == *b1 && *a2 == *b2 && *a3 == *b3,
            (Bytecode::LoadFieldFloat(a0, a1, a2, a3), Bytecode::LoadFieldFloat(b0, b1, b2, b3)) => *a0 == *b0 && *a1 == *b1 && *a2 == *b2 && *a3 == *b3,
            (Bytecode::LoadFieldDouble(a0, a1, a2, a3), Bytecode::LoadFieldDouble(b0, b1, b2, b3)) => *a0 == *b0 && *a1 == *b1 && *a2 == *b2 && *a3 == *b3,
            (Bytecode::LoadFieldPtr(a0, a1, a2, a3), Bytecode::LoadFieldPtr(b0, b1, b2, b3)) => *a0 == *b0 && *a1 == *b1 && *a2 == *b2 && *a3 == *b3,
            (Bytecode::LoadGlobalBool(a0, a1), Bytecode::LoadGlobalBool(b0, b1)) => *a0 == *b0 && *a1 == *b1,
            (Bytecode::LoadGlobalByte(a0, a1), Bytecode::LoadGlobalByte(b0, b1)) => *a0 == *b0 && *a1 == *b1,
            (Bytecode::LoadGlobalChar(a0, a1), Bytecode::LoadGlobalChar(b0, b1)) => *a0 == *b0 && *a1 == *b1,
            (Bytecode::LoadGlobalInt(a0, a1), Bytecode::LoadGlobalInt(b0, b1)) => *a0 == *b0 && *a1 == *b1,
            (Bytecode::LoadGlobalLong(a0, a1), Bytecode::LoadGlobalLong(b0, b1)) => *a0 == *b0 && *a1 == *b1,
            (Bytecode::LoadGlobalFloat(a0, a1), Bytecode::LoadGlobalFloat(b0, b1)) => *a0 == *b0 && *a1 == *b1,
            (Bytecode::LoadGlobalDouble(a0, a1), Bytecode::LoadGlobalDouble(b0, b1)) => *a0 == *b0 && *a1 == *b1,
            (Bytecode::LoadGlobalPtr(a0, a1), Bytecode::LoadGlobalPtr(b0, b1)) => *a0 == *b0 && *a1 == *b1,
            (Bytecode::ConstNil(a0), Bytecode::ConstNil(b0)) => *a0 == *b0,
            (Bytecode::ConstTrue(a0), Bytecode::ConstTrue(b0)) => *a0 == *b0,
            (Bytecode::ConstFalse(a0), Bytecode::ConstFalse(b0)) => *a0 == *b0,
            (Bytecode::ConstZeroByte(a0), Bytecode::ConstZeroByte(b0)) => *a0 == *b0,
            (Bytecode::ConstZeroInt(a0), Bytecode::ConstZeroInt(b0)) => *a0 == *b0,
            (Bytecode::ConstZeroLong(a0), Bytecode::ConstZeroLong(b0)) => *a0 == *b0,
            (Bytecode::ConstZeroFloat(a0), Bytecode::ConstZeroFloat(b0)) => *a0 == *b0,
            (Bytecode::ConstZeroDouble(a0), Bytecode::ConstZeroDouble(b0)) => *a0 == *b0,
            (Bytecode::ConstChar(a0, a1), Bytecode::ConstChar(b0, b1)) => *a0 == *b0 && *a1 == *b1,
            (Bytecode::ConstByte(a0, a1), Bytecode::ConstByte(b0, b1)) => *a0 == *b0 && *a1 == *b1,
            (Bytecode::ConstInt(a0, a1), Bytecode::ConstInt(b0, b1)) => *a0 == *b0 && *a1 == *b1,
            (Bytecode::ConstLong(a0, a1), Bytecode::ConstLong(b0, b1)) => *a0 == *b0 && *a1 == *b1,
            (Bytecode::ConstFloat(a0, a1), Bytecode::ConstFloat(b0, b1)) => *a0 == *b0 && eq_f32_bits(*a1, *b1),
            (Bytecode::ConstDouble(a0, a1), Bytecode::ConstDouble(b0, b1)) => *a0 == *b0 && eq_f64_bits(*a1, *b1),
            (Bytecode::ConstString(a0, a1), Bytecode::ConstString(b0, b1)) => *a0 == *b0 && *a1 == *b1,
            (Bytecode::TestEqPtr(a0, a1, a2), Bytecode::TestEqPtr(b0, b1, b2)) => *a0 == *b0 && *a1 == *b1 && *a2 == *b2,
            (Bytecode::TestNePtr(a0, a1, a2), Bytecode::TestNePtr(b0, b1, b2)) => *a0 == *b0 && *a1 == *b1 && *a2 == *b2,
            (Bytecode::TestEqInt(a0, a1, a2), Bytecode::TestEqInt(b0, b1, b2)) => *a0 == *b0 && *a1 == *b1 && *a2 == *b2,
            (Bytecode::TestNeInt(a0, a1, a2), Bytecode::TestNeInt(b0, b1, b2)) => *a0 == *b0 && *a1 == *b1 && *a2 == *b2,
            (Bytecode::TestGtInt(a0, a1, a2), Bytecode::TestGtInt(b0, b1, b2)) => *a0 == *b0 && *a1 == *b1 && *a2 == *b2,
            (Bytecode::TestGeInt(a0, a1, a2), Bytecode::TestGeInt(b0, b1, b2)) => *a0 == *b0 && *a1 == *b1 && *a2 == *b2,
            (Bytecode::TestLtInt(a0, a1, a2), Bytecode::TestLtInt(b0, b1, b2)) => *a0 == *b0 && *a1 == *b1 && *a2 == *b2,
            (Bytecode::TestLeInt(a0, a1, a2), Bytecode::TestLeInt(b0, b1, b2)) => *a0 == *b0 && *a1 == *b1 && *a2 == *b2,
            (Bytecode::TestEqFloat(a0, a1, a2), Bytecode::TestEqFloat(b0, b1, b2)) => *a0 == *b0 && *a1 == *b1 && *a2 == *b2,
            (Bytecode::TestNeFloat(a0, a1, a2), Bytecode::TestNeFloat(b0, b1, b2)) => *a0 == *b0 && *a1 == *b1 && *a2 == *b2,
            (Bytecode::TestGtFloat(a0, a1, a2), Bytecode::TestGtFloat(b0, b1, b2)) => *a0 == *b0 && *a1 == *b1 && *a2 == *b2,
            (Bytecode::TestGeFloat(a0, a1, a2), Bytecode::TestGeFloat(b0, b1, b2)) => *a0 == *b0 && *a1 == *b1 && *a2 == *b2,
            (Bytecode::TestLtFloat(a0, a1, a2), Bytecode::TestLtFloat(b0, b1, b2)) => *a0 == *b0 && *a1 == *b1 && *a2 == *b2,
            (Bytecode::TestLeFloat(a0, a1, a2), Bytecode::TestLeFloat(b0, b1, b2)) => *a0 == *b0 && *a1 == *b1 && *a2 == *b2,
            (Bytecode::JumpIfFalse(a0, a1), Bytecode::JumpIfFalse(b0, b1)) => *a0 == *b0 && *a1 == *b1,
            (Bytecode::JumpIfTrue(a0, a1), Bytecode::JumpIfTrue(b0, b1)) => *a0 == *b0 && *a1 == *b1,
            (Bytecode::Jump(a0), Bytecode::Jump(b0)) => *a0 == *b0,
            (Bytecode::InvokeDirectVoid(a0, a1, a2), Bytecode::InvokeDirectVoid(b0, b1, b2)) => *a0 == *b0 && *a1 == *b1 && *a2 == *b2,
            (Bytecode::InvokeDirectBool(a0, a1, a2, a3), Bytecode::InvokeDirectBool(b0, b1, b2, b3)) => *a0 == *b0 && *a1 == *b1 && *a2 == *b2 && *a3 == *b3,
            (Bytecode::InvokeDirectByte(a0, a1, a2, a3), Bytecode::InvokeDirectByte(b0, b1, b2, b3)) => *a0 == *b0 && *a1 == *b1 && *a2 == *b2 && *a3 == *b3,
            (Bytecode::InvokeDirectChar(a0, a1, a2, a3), Bytecode::InvokeDirectChar(b0, b1, b2, b3)) => *a0 == *b0 && *a1 == *b1 && *a2 == *b2 && *a3 == *b3,
            (Bytecode::InvokeDirectInt(a0, a1, a2, a3), Bytecode::InvokeDirectInt(b0, b1, b2, b3)) => *a0 == *b0 && *a1 == *b1 && *a2 == *b2 && *a3 == *b3,
            (Bytecode::InvokeDirectLong(a0, a1, a2, a3), Bytecode::InvokeDirectLong(b0, b1, b2, b3)) => *a0 == *b0 && *a1 == *b1 && *a2 == *b2 && *a3 == *b3,
            (Bytecode::InvokeDirectFloat(a0, a1, a2, a3), Bytecode::InvokeDirectFloat(b0, b1, b2, b3)) => *a0 == *b0 && *a1 == *b1 && *a2 == *b2 && *a3 == *b3,
            (Bytecode::InvokeDirectDouble(a0, a1, a2, a3), Bytecode::InvokeDirectDouble(b0, b1, b2, b3)) => *a0 == *b0 && *a1 == *b1 && *a2 == *b2 && *a3 == *b3,
            (Bytecode::InvokeDirectPtr(a0, a1, a2, a3), Bytecode::InvokeDirectPtr(b0, b1, b2, b3)) => *a0 == *b0 && *a1 == *b1 && *a2 == *b2 && *a3 == *b3,
            (Bytecode::InvokeVirtualVoid(a0, a1, a2), Bytecode::InvokeVirtualVoid(b0, b1, b2)) => *a0 == *b0 && *a1 == *b1 && *a2 == *b2,
            (Bytecode::InvokeVirtualBool(a0, a1, a2, a3), Bytecode::InvokeVirtualBool(b0, b1, b2, b3)) => *a0 == *b0 && *a1 == *b1 && *a2 == *b2 && *a3 == *b3,
            (Bytecode::InvokeVirtualByte(a0, a1, a2, a3), Bytecode::InvokeVirtualByte(b0, b1, b2, b3)) => *a0 == *b0 && *a1 == *b1 && *a2 == *b2 && *a3 == *b3,
            (Bytecode::InvokeVirtualChar(a0, a1, a2, a3), Bytecode::InvokeVirtualChar(b0, b1, b2, b3)) => *a0 == *b0 && *a1 == *b1 && *a2 == *b2 && *a3 == *b3,
            (Bytecode::InvokeVirtualInt(a0, a1, a2, a3), Bytecode::InvokeVirtualInt(b0, b1, b2, b3)) => *a0 == *b0 && *a1 == *b1 && *a2 == *b2 && *a3 == *b3,
            (Bytecode::InvokeVirtualLong(a0, a1, a2, a3), Bytecode::InvokeVirtualLong(b0, b1, b2, b3)) => *a0 == *b0 && *a1 == *b1 && *a2 == *b2 && *a3 == *b3,
            (Bytecode::InvokeVirtualFloat(a0, a1, a2, a3), Bytecode::InvokeVirtualFloat(b0, b1, b2, b3)) => *a0 == *b0 && *a1 == *b1 && *a2 == *b2 && *a3 == *b3,
            (Bytecode::InvokeVirtualDouble(a0, a1, a2, a3), Bytecode::InvokeVirtualDouble(b0, b1, b2, b3)) => *a0 == *b0 && *a1 == *b1 && *a2 == *b2 && *a3 == *b3,
            (Bytecode::InvokeVirtualPtr(a0, a1, a2, a3), Bytecode::InvokeVirtualPtr(b0, b1, b2, b3)) => *a0 == *b0 && *a1 == *b1 && *a2 == *b2 && *a3 == *b3,
            (Bytecode::InvokeStaticVoid(a0, a1, a2), Bytecode::InvokeStaticVoid(b0, b1, b2)) => *a0 == *b0 && *a1 == *b1 && *a2 == *b2,
            (Bytecode::InvokeStaticBool(a0, a1, a2, a3), Bytecode::InvokeStaticBool(b0, b1, b2, b3)) => *a0 == *b0 && *a1 == *b1 && *a2 == *b2 && *a3 == *b3,
            (Bytecode::InvokeStaticByte(a0, a1, a2, a3), Bytecode::InvokeStaticByte(b0, b1, b2, b3)) => *a0 == *b0 && *a1 == *b1 && *a2 == *b2 && *a3 == *b3,
            (Bytecode::InvokeStaticChar(a0, a1, a2, a3), Bytecode::InvokeStaticChar(b0, b1, b2, b3)) => *a0 == *b0 && *a1 == *b1 && *a2 == *b2 && *a3 == *b3,
            (Bytecode::InvokeStaticInt(a0, a1, a2, a3), Bytecode::InvokeStaticInt(b0, b1, b2, b3)) => *a0 == *b0 && *a1 == *b1 && *a2 == *b2 && *a3 == *b3,
            (Bytecode::InvokeStaticLong(a0, a1, a2, a3), Bytecode::InvokeStaticLong(b0, b1, b2, b3)) => *a0 == *b0 && *a1 == *b1 && *a2 == *b2 && *a3 == *b3,
            (Bytecode::InvokeStaticFloat(a0, a1, a2, a3), Bytecode::InvokeStaticFloat(b0, b1, b2, b3)) => *a0 == *b0 && *a1 == *b1 && *a2 == *b2 && *a3 == *b3,
            (Bytecode::InvokeStaticDouble(a0, a1, a2, a3), Bytecode::InvokeStaticDouble(b0, b1, b2, b3)) => *a0 == *b0 && *a1 == *b1 && *a2 == *b2 && *a3 == *b3,
            (Bytecode::InvokeStaticPtr(a0, a1, a2, a3), Bytecode::InvokeStaticPtr(b0, b1, b2, b3)) => *a0 == *b0 && *a1 == *b1 && *a2 == *b2 && *a3 == *b3,
            (Bytecode::NewObject(a0, a1), Bytecode::NewObject(b0, b1)) => *a0 == *b0 && *a1 == *b1,
            (Bytecode::Throw(a0), Bytecode::Throw(b0)) => *a0 == *b0,
            (Bytecode::RetBool(a0), Bytecode::RetBool(b0)) => *a0 == *b0,
            (Bytecode::RetByte(a0), Bytecode::RetByte(b0)) => *a0 == *b0,
            (Bytecode::RetChar(a0), Bytecode::RetChar(b0)) => *a0 == *b0,
            (Bytecode::RetInt(a0), Bytecode::RetInt(b0)) => *a0 == *b0,
            (Bytecode::RetLong(a0), Bytecode::RetLong(b0)) => *a0 == *b0,
            (Bytecode::RetFloat(a0), Bytecode::RetFloat(b0)) => *a0 == *b0,
            (Bytecode::RetDouble(a0), Bytecode::RetDouble(b0)) => *a0 == *b0,
            (Bytecode::RetPtr(a0), Bytecode::RetPtr(b0)) => *a0 == *b0,
            (Bytecode::RetVoid, Bytecode::RetVoid) => true,
            _ => false,
        }
    }
}

impl PartialEqSpecImpl for Bytecode {
    open spec fn obeys_eq_spec() -> bool {
        true
    }

    open spec fn eq_spec(&self, other: &Bytecode) -> bool {
        match (*self, *other) {
            (Bytecode::AddInt(a0, a1, a2), Bytecode::AddInt(b0, b1, b2)) => a0 == b0 && a1 == b1 && a2 == b2,
            (Bytecode::AddLong(a0, a1, a2), Bytecode::AddLong(b0, b1, b2)) => a0 == b0 && a1 == b1 && a2 == b2,
            (Bytecode::AddFloat(a0, a1, a2), Bytecode::AddFloat(b0, b1, b2)) => a0 == b0 && a1 == b1 && a2 == b2,
            (Bytecode::AddDouble(a0, a1, a2), Bytecode::AddDouble(b0, b1, b2)) => a0 == b0 && a1 == b1 && a2 == b2,
            (Bytecode::SubInt(a0, a1, a2), Bytecode::SubInt(b0, b1, b2)) => a0 == b0 && a1 == b1 && a2 == b2,
            (Bytecode::SubFloat(a0, a1, a2), Bytecode::SubFloat(b0, b1, b2)) => a0 == b0 && a1 == b1 && a2 == b2,
            (Bytecode::NegInt(a0, a1), Bytecode::NegInt(b0, b1)) => a0 == b0 && a1 == b1,
            (Bytecode::NegLong(a0, a1), Bytecode::NegLong(b0, b1)) => a0 == b0 && a1 == b1,
            (Bytecode::MulInt(a0, a1, a2), Bytecode::MulInt(b0, b1, b2)) => a0 == b0 && a1 == b1 && a2 == b2,
            (Bytecode::MulFloat(a0, a1, a2), Bytecode::MulFloat(b0, b1, b2)) => a0 == b0 && a1 == b1 && a2 == b2,
            (Bytecode::DivInt(a0, a1, a2), Bytecode::DivInt(b0, b1, b2)) => a0 == b0 && a1 == b1 && a2 == b2,
            (Bytecode::DivFloat(a0, a1, a2), Bytecode::DivFloat(b0, b1, b2)) => a0 == b0 && a1 == b1 && a2 == b2,
            (Bytecode::ModInt(a0, a1, a2), Bytecode::ModInt(b0, b1, b2)) => a0 == b0 && a1 == b1 && a2 == b2,
            (Bytecode::AndInt(a0, a1, a2), Bytecode::AndInt(b0, b1, b2)) => a0 == b0 && a1 == b1 && a2 == b2,
            (Bytecode::OrInt(a0, a1, a2), Bytecode::OrInt(b0, b1, b2)) => a0 == b0 && a1 == b1 && a2 == b2,
            (Bytecode::XorInt(a0, a1, a2), Bytecode::XorInt(b0, b1, b2)) => a0 == b0 && a1 == b1 && a2 == b2,
            (Bytecode::NotBool(a0, a1), Bytecode::NotBool(b0, b1)) => a0 == b0 && a1 == b1,
            (Bytecode::ShlInt(a0, a1, a2), Bytecode::ShlInt(b0, b1, b2)) => a0 == b0 && a1 == b1 && a2 == b2,
            (Bytecode::ShrInt(a0, a1, a2), Bytecode::ShrInt(b0, b1, b2)) => a0 == b0 && a1 == b1 && a2 == b2,
            (Bytecode::SarInt(a0, a1, a2), Bytecode::SarInt(b0, b1, b2)) => a0 == b0 && a1 == b1 && a2 == b2,
            (Bytecode::MovBool(a0, a1), Bytecode::MovBool(b0, b1)) => a0 == b0 && a1 == b1,
            (Bytecode::MovByte(a0, a1), Bytecode::MovByte(b0, b1)) => a0 == b0 && a1 == b1,
            (Bytecode::MovChar(a0, a1), Bytecode::MovChar(b0, b1)) => a0 == b0 && a1 == b1,
            (Bytecode::MovInt(a0, a1), Bytecode::MovInt(b0, b1)) => a0 == b0 && a1 == b1,
            (Bytecode::MovLong(a0, a1), Bytecode::MovLong(b0, b1)) => a0 == b0 && a1 == b1,
            (Bytecode::MovFloat(a0, a1), Bytecode::MovFloat(b0, b1)) => a0 == b0 && a1 == b1,
            (Bytecode::MovDouble(a0, a1), Bytecode::MovDouble(b0, b1)) => a0 == b0 && a1 == b1,
            (Bytecode::MovPtr(a0, a1), Bytecode::MovPtr(b0, b1)) => a0 == b0 && a1 == b1,
            (Bytecode::LoadFieldBool(a0, a1, a2, a3), Bytecode::LoadFieldBool(b0, b1, b2, b3)) => a0 == b0 && a1 == b1 && a2 == b2 && a3 == b3,
            (Bytecode::LoadFieldByte(a0, a1, a2, a3), Bytecode::LoadFieldByte(b0, b1, b2, b3)) => a0 == b0 && a1 == b1 && a2 == b2 && a3 == b3,
            (Bytecode::LoadFieldChar(a0, a1, a2, a3), Bytecode::LoadFieldChar(b0, b1, b2, b3)) => a0 == b0 && a1 == b1 && a2 == b2 && a3 == b3,
            (Bytecode::LoadFieldInt(a0, a1, a2, a3), Bytecode::LoadFieldInt(b0, b1, b2, b3)) => a0 == b0 && a1 == b1 && a2 == b2 && a3 == b3,
            (Bytecode::LoadFieldLong(a0, a1, a2, a3), Bytecode::LoadFieldLong(b0, b1, b2, b3)) => a0 == b0 && a1 == b1 && a2 == b2 && a3 == b3,
            (Bytecode::LoadFieldFloat(a0, a1, a2, a3), Bytecode::LoadFieldFloat(b0, b1, b2, b3)) => a0 == b0 && a1 == b1 && a2 == b2 && a3 == b3,
            (Bytecode::LoadFieldDouble(a0, a1, a2, a3), Bytecode::LoadFieldDouble(b0, b1, b2, b3)) => a0 == b0 && a1 == b1 && a2 == b2 && a3 == b3,
            (Bytecode::LoadFieldPtr(a0, a1, a2, a3), Bytecode::LoadFieldPtr(b0, b1, b2, b3)) => a0 == b0 && a1 == b1 && a2 == b2 && a3 == b3,
            (Bytecode::LoadGlobalBool(a0, a1), Bytecode::LoadGlobalBool(b0, b1)) => a0 == b0 && a1 == b1,
            (Bytecode::LoadGlobalByte(a0, a1), Bytecode::LoadGlobalByte(b0, b1)) => a0 == b0 && a1 == b1,
            (Bytecode::LoadGlobalChar(a0, a1), Bytecode::LoadGlobalChar(b0, b1)) => a0 == b0 && a1 == b1,
            (Bytecode::LoadGlobalInt(a0, a1), Bytecode::LoadGlobalInt(b0, b1)) => a0 == b0 && a1 == b1,
            (Bytecode::LoadGlobalLong(a0, a1), Bytecode::LoadGlobalLong(b0, b1)) => a0 == b0 && a1 == b1,
            (Bytecode::LoadGlobalFloat(a0, a1), Bytecode::LoadGlobalFloat(b0, b1)) => a0 == b0 && a1 == b1,
            (Bytecode::LoadGlobalDouble(a0, a1), Bytecode::LoadGlobalDouble(b0, b1)) => a0 == b0 && a1 == b1,
            (Bytecode::LoadGlobalPtr(a0, a1), Bytecode::LoadGlobalPtr(b0, b1)) => a0 == b0 && a1 == b1,
            (Bytecode::ConstNil(a0), Bytecode::ConstNil(b0)) => a0 == b0,
            (Bytecode::ConstTrue(a0), Bytecode::ConstTrue(b0)) => a0 == b0,
            (Bytecode::ConstFalse(a0), Bytecode::ConstFalse(b0)) => a0 == b0,
            (Bytecode::ConstZeroByte(a0), Bytecode::ConstZeroByte(b0)) => a0 == b0,
            (Bytecode::ConstZeroInt(a0), Bytecode::ConstZeroInt(b0)) => a0 == b0,
            (Bytecode::ConstZeroLong(a0), Bytecode::ConstZeroLong(b0)) => a0 == b0,
            (Bytecode::ConstZeroFloat(a0), Bytecode::ConstZeroFloat(b0)) => a0 == b0,
            (Bytecode::ConstZeroDouble(a0), Bytecode::ConstZeroDouble(b0)) => a0 == b0,
            (Bytecode::ConstChar(a0, a1), Bytecode::ConstChar(b0, b1)) => a0 == b0 && a1 == b1,
            (Bytecode::ConstByte(a0, a1), Bytecode::ConstByte(b0, b1)) => a0 == b0 && a1 == b1,
            (Bytecode::ConstInt(a0, a1), Bytecode::ConstInt(b0, b1)) => a0 == b0 && a1 == b1,
            (Bytecode::ConstLong(a0, a1), Bytecode::ConstLong(b0, b1)) => a0 == b0 && a1 == b1,
            (Bytecode::ConstFloat(a0, a1), Bytecode::ConstFloat(b0, b1)) => a0 == b0 && f32_bits_eq(a1, b1),
            (Bytecode::ConstDouble(a0, a1), Bytecode::ConstDouble(b0, b1)) => a0 == b0 && f64_bits_eq(a1, b1),
            (Bytecode::ConstString(a0, a1), Bytecode::ConstString(b0, b1)) => a0 == b0 && a1 == b1,
            (Bytecode::TestEqPtr(a0, a1, a2), Bytecode::TestEqPtr(b0, b1, b2)) => a0 == b0 && a1 == b1 && a2 == b2,
            (Bytecode::TestNePtr(a0, a1, a2), Bytecode::TestNePtr(b0, b1, b2)) => a0 == b0 && a1 == b1 && a2 == b2,
            (Bytecode::TestEqInt(a0, a1, a2), Bytecode::TestEqInt(b0, b1, b2)) => a0 == b0 && a1 == b1 && a2 == b2,
            (Bytecode::TestNeInt(a0, a1, a2), Bytecode::TestNeInt(b0, b1, b2)) => a0 == b0 && a1 == b1 && a2 == b2,
            (Bytecode::TestGtInt(a0, a1, a2), Bytecode::TestGtInt(b0, b1, b2)) => a0 == b0 && a1 == b1 && a2 == b2,
            (Bytecode::TestGeInt(a0, a1, a2), Bytecode::TestGeInt(b0, b1, b2)) => a0 == b0 && a1 == b1 && a2 == b2,
            (Bytecode::TestLtInt(a0, a1, a2), Bytecode::TestLtInt(b0, b1, b2)) => a0 == b0 && a1 == b1 && a2 == b2,
            (Bytecode::TestLeInt(a0, a1, a2), Bytecode::TestLeInt(b0, b1, b2)) => a0 == b0 && a1 == b1 && a2 == b2,
            (Bytecode::TestEqFloat(a0, a1, a2), Bytecode::TestEqFloat(b0, b1, b2)) => a0 == b0 && a1 == b1 && a2 == b2,
            (Bytecode::TestNeFloat(a0, a1, a2), Bytecode::TestNeFloat(b0, b1, b2)) => a0 == b0 && a1 == b1 && a2 == b2,
            (Bytecode::TestGtFloat(a0, a1, a2), Bytecode::TestGtFloat(b0, b1, b2)) => a0 == b0 && a1 == b1 && a2 == b2,
            (Bytecode::TestGeFloat(a0, a1, a2), Bytecode::TestGeFloat(b0, b1, b2)) => a0 == b0 && a1 == b1 && a2 == b2,
            (Bytecode::TestLtFloat(a0, a1, a2), Bytecode::TestLtFloat(b0, b1, b2)) => a0 == b0 && a1 == b1 && a2 == b2,
            (Bytecode::TestLeFloat(a0, a1, a2), Bytecode::TestLeFloat(b0, b1, b2)) => a0 == b0 && a1 == b1 && a2 == b2,
            (Bytecode::JumpIfFalse(a0, a1), Bytecode::JumpIfFalse(b0, b1)) => a0 == b0 && a1 == b1,
            (Bytecode::JumpIfTrue(a0, a1), Bytecode::JumpIfTrue(b0, b1)) => a0 == b0 && a1 == b1,
            (Bytecode::Jump(a0), Bytecode::Jump(b0)) => a0 == b0,
            (Bytecode::InvokeDirectVoid(a0, a1, a2), Bytecode::InvokeDirectVoid(b0, b1, b2)) => a0 == b0 && a1 == b1 && a2 == b2,
            (Bytecode::InvokeDirectBool(a0, a1, a2, a3), Bytecode::InvokeDirectBool(b0, b1, b2, b3)) => a0 == b0 && a1 == b1 && a2 == b2 && a3 == b3,
            (Bytecode::InvokeDirectByte(a0, a1, a2, a3), Bytecode::InvokeDirectByte(b0, b1, b2, b3)) => a0 == b0 && a1 == b1 && a2 == b2 && a3 == b3,
            (Bytecode::InvokeDirectChar(a0, a1, a2, a3), Bytecode::InvokeDirectChar(b0, b1, b2, b3)) => a0 == b0 && a1 == b1 && a2 == b2 && a3 == b3,
            (Bytecode::InvokeDirectInt(a0, a1, a2, a3), Bytecode::InvokeDirectInt(b0, b1, b2, b3)) => a0 == b0 && a1 == b1 && a2 == b2 && a3 == b3,
            (Bytecode::InvokeDirectLong(a0, a1, a2, a3), Bytecode::InvokeDirectLong(b0, b1, b2, b3)) => a0 == b0 && a1 == b1 && a2 == b2 && a3 == b3,
            (Bytecode::InvokeDirectFloat(a0, a1, a2, a3), Bytecode::InvokeDirectFloat(b0, b1, b2, b3)) => a0 == b0 && a1 == b1 && a2 == b2 && a3 == b3,
            (Bytecode::InvokeDirectDouble(a0, a1, a2, a3), Bytecode::InvokeDirectDouble(b0, b1, b2, b3)) => a0 == b0 && a1 == b1 && a2 == b2 && a3 == b3,
            (Bytecode::InvokeDirectPtr(a0, a1, a2, a3), Bytecode::InvokeDirectPtr(b0, b1, b2, b3)) => a0 == b0 && a1 == b1 && a2 == b2 && a3 == b3,
            (Bytecode::InvokeVirtualVoid(a0, a1, a2), Bytecode::InvokeVirtualVoid(b0, b1, b2)) => a0 == b0 && a1 == b1 && a2 == b2,
            (Bytecode::InvokeVirtualBool(a0, a1, a2, a3), Bytecode::InvokeVirtualBool(b0, b1, b2, b3)) => a0 == b0 && a1 == b1 && a2 == b2 && a3 == b3,
            (Bytecode::InvokeVirtualByte(a0, a1, a2, a3), Bytecode::InvokeVirtualByte(b0, b1, b2, b3)) => a0 == b0 && a1 == b1 && a2 == b2 && a3 == b3,
            (Bytecode::InvokeVirtualChar(a0, a1, a2, a3), Bytecode::InvokeVirtualChar(b0, b1, b2, b3)) => a0 == b0 && a1 == b1 && a2 == b2 && a3 == b3,
            (Bytecode::InvokeVirtualInt(a0, a1, a2, a3), Bytecode::InvokeVirtualInt(b0, b1, b2, b3)) => a0 == b0 && a1 == b1 && a2 == b2 && a3 == b3,
            (Bytecode::InvokeVirtualLong(a0, a1, a2, a3), Bytecode::InvokeVirtualLong(b0, b1, b2, b3)) => a0 == b0 && a1 == b1 && a2 == b2 && a3 == b3,
            (Bytecode::InvokeVirtualFloat(a0, a1, a2, a3), Bytecode::InvokeVirtualFloat(b0, b1, b2, b3)) => a0 == b0 && a1 == b1 && a2 == b2 && a3 == b3,
            (Bytecode::InvokeVirtualDouble(a0, a1, a2, a3), Bytecode::InvokeVirtualDouble(b0, b1, b2, b3)) => a0 == b0 && a1 == b1 && a2 == b2 && a3 == b3,
            (Bytecode::InvokeVirtualPtr(a0, a1, a2, a3), Bytecode::InvokeVirtualPtr(b0, b1, b2, b3)) => a0 == b0 && a1 == b1 && a2 == b2 && a3 == b3,
            (Bytecode::InvokeStaticVoid(a0, a1, a2), Bytecode::InvokeStaticVoid(b0, b1, b2)) => a0 == b0 && a1 == b1 && a2 == b2,
            (Bytecode::InvokeStaticBool(a0, a1, a2, a3), Bytecode::InvokeStaticBool(b0, b1, b2, b3)) => a0 == b0 && a1 == b1 && a2 == b2 && a3 == b3,
            (Bytecode::InvokeStaticByte(a0, a1, a2, a3), Bytecode::InvokeStaticByte(b0, b1, b2, b3)) => a0 == b0 && a1 == b1 && a2 == b2 && a3 == b3,
            (Bytecode::InvokeStaticChar(a0, a1, a2, a3), Bytecode::InvokeStaticChar(b0, b1, b2, b3)) => a0 == b0 && a1 == b1 && a2 == b2 && a3 == b3,
            (Bytecode::InvokeStaticInt(a0, a1, a2, a3), Bytecode::InvokeStaticInt(b0, b1, b2, b3)) => a0 == b0 && a1 == b1 && a2 == b2 && a3 == b3,
            (Bytecode::InvokeStaticLong(a0, a1, a2, a3), Bytecode::InvokeStaticLong(b0, b1, b2, b3)) => a0 == b0 && a1 == b1 && a2 == b2 && a3 == b3,
            (Bytecode::InvokeStaticFloat(a0, a1, a2, a3), Bytecode::InvokeStaticFloat(b0, b1, b2, b3)) => a0 == b0 && a1 == b1 && a2 == b2 && a3 == b3,
            (Bytecode::InvokeStaticDouble(a0, a1, a2, a3), Bytecode::InvokeStaticDouble(b0, b1, b2, b3)) => a0 == b0 && a1 == b1 && a2 == b2 && a3 == b3,
            (Bytecode::InvokeStaticPtr(a0, a1, a2, a3), Bytecode::InvokeStaticPtr(b0, b1, b2, b3)) => a0 == b0 && a1 == b1 && a2 == b2 && a3 == b3,
            (Bytecode::NewObject(a0, a1), Bytecode::NewObject(b0, b1)) => a0 == b0 && a1 == b1,
            (Bytecode::Throw(a0), Bytecode::Throw(b0)) => a0 == b0,
            (Bytecode::RetBool(a0), Bytecode::RetBool(b0)) => a0 == b0,
            (Bytecode::RetByte(a0), Bytecode::RetByte(b0)) => a0 == b0,
            (Bytecode::RetChar(a0), Bytecode::RetChar(b0)) => a0 == b0,
            (Bytecode::RetInt(a0), Bytecode::RetInt(b0)) => a0 == b0,
            (Bytecode::RetLong(a0), Bytecode::RetLong(b0)) => a0 == b0,
            (Bytecode::RetFloat(a0), Bytecode::RetFloat(b0)) => a0 == b0,
            (Bytecode::RetDouble(a0), Bytecode::RetDouble(b0)) => a0 == b0,
            (Bytecode::RetPtr(a0), Bytecode::RetPtr(b0)) => a0 == b0,
            (Bytecode::RetVoid, Bytecode::RetVoid) => true,
            _ => false,
        }
    }
}

/// An instruction with a floating-point operand.
pub open spec fn has_float_operand(b: Bytecode) -> bool {
    b is ConstFloat || b is ConstDouble
}

/// Two instructions are equal exactly when they are the same instruction
/// with the same operands, but that floating-point operands are compared
/// as numbers (a NaN equals nothing, +0 equals -0).
pub proof fn lemma_bytecode_eq(a: Bytecode, b: Bytecode)
    ensures
        !(has_float_operand(a) && has_float_operand(b)) ==> (PartialEqSpec::eq_spec(&a, &b) <==> a == b),
        (a is ConstFloat && b is ConstFloat) ==> (PartialEqSpec::eq_spec(&a, &b) <==> (a->ConstFloat_0
            == b->ConstFloat_0 && f32_bits_eq(a->ConstFloat_1, b->ConstFloat_1))),
        (a is ConstDouble && b is ConstDouble) ==> (PartialEqSpec::eq_spec(&a, &b) <==> (a->ConstDouble_0
            == b->ConstDouble_0 && f64_bits_eq(a->ConstDouble_1, b->ConstDouble_1))),
{
}

} // verus!
