use dora::bytecode::generate::{BytecodeIdx, Register};
use dora::bytecode::opcode::Bytecode;
use dora::vm::consts::ConstValue;

#[test]
fn bytecode_equality_compares_operands() {
    assert_eq!(Bytecode::AddInt(Register(1), Register(2), Register(3)), Bytecode::AddInt(Register(1), Register(2), Register(3)));
    assert_ne!(Bytecode::AddInt(Register(1), Register(2), Register(3)), Bytecode::AddInt(Register(1), Register(3), Register(2)));
    assert_ne!(Bytecode::Jump(BytecodeIdx(4)), Bytecode::JumpIfTrue(Register(0), BytecodeIdx(4)));
    assert_eq!(Bytecode::RetVoid, Bytecode::RetVoid);
}

#[test]
fn float_constants_are_held_by_their_bits() {
    let one = Bytecode::ConstDouble(Register(0), 1.0f64.to_bits());
    match one {
        Bytecode::ConstDouble(_, bits) => assert_eq!(f64::from_bits(bits), 1.0),
        _ => panic!("expected ConstDouble"),
    }
    let half = Bytecode::ConstFloat(Register(0), 0.5f32.to_bits());
    assert_eq!(half, Bytecode::ConstFloat(Register(0), 0.5f32.to_bits()));
    let v = ConstValue::Float(2.5f64.to_bits());
    assert!(matches!(v, ConstValue::Float(b) if f64::from_bits(b) == 2.5));
}

#[test]
fn float_operands_compare_as_numbers() {
    let zero = Bytecode::ConstDouble(Register(0), 0.0f64.to_bits());
    let neg_zero = Bytecode::ConstDouble(Register(0), (-0.0f64).to_bits());
    assert_eq!(zero, neg_zero);
    let nan = Bytecode::ConstDouble(Register(0), f64::NAN.to_bits());
    assert_ne!(nan, nan);
    let fzero = Bytecode::ConstFloat(Register(1), 0.0f32.to_bits());
    let fneg_zero = Bytecode::ConstFloat(Register(1), (-0.0f32).to_bits());
    assert_eq!(fzero, fneg_zero);
    let fnan = Bytecode::ConstFloat(Register(1), f32::NAN.to_bits());
    assert_ne!(fnan, fnan);
    let inf = Bytecode::ConstFloat(Register(1), f32::INFINITY.to_bits());
    assert_eq!(inf, inf);
    assert_ne!(inf, Bytecode::ConstFloat(Register(1), f32::NEG_INFINITY.to_bits()));
    assert_ne!(fzero, Bytecode::ConstFloat(Register(2), 0.0f32.to_bits()));
    assert_ne!(zero, Bytecode::ConstDouble(Register(0), 1.0f64.to_bits()));
}

#[test]
fn float_const_values_compare_as_numbers() {
    assert_eq!(ConstValue::Float(0.0f64.to_bits()), ConstValue::Float((-0.0f64).to_bits()));
    let nan = ConstValue::Float(f64::NAN.to_bits());
    assert_ne!(nan, nan);
    assert_eq!(ConstValue::Float(1.5f64.to_bits()), ConstValue::Float(1.5f64.to_bits()));
    assert_ne!(ConstValue::Float(1.5f64.to_bits()), ConstValue::Int(1));
    assert_eq!(ConstValue::Unset, ConstValue::Unset);
    assert_ne!(ConstValue::Bool(true), ConstValue::Bool(false));
}
