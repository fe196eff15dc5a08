use dora::ast::Position;
use dora::interner::Interner;
use dora::sym::{SymTable, TermSym, TypeSym};
use dora::ty::SourceType;
use dora::utils::GrowableVec;
use dora::vm::consts::{const_accessible_from, ConstId, ConstValue};
use dora::vm::{accessible_from, namespace_path, ClassId, FctId, FileId, NamespaceId, VM};

fn root() -> NamespaceId {
    NamespaceId(0)
}

#[test]
fn const_value_accessors() {
    assert!(ConstValue::Bool(true).to_bool());
    assert!(!ConstValue::Bool(false).to_bool());
    assert_eq!(ConstValue::Char('x').to_char(), 'x');
    assert_eq!(ConstValue::Int(-42).to_int(), -42);
    assert_eq!(ConstValue::Int(i64::MAX).to_int(), i64::MAX);
}

#[test]
fn const_id_from_usize() {
    assert_eq!(ConstId::from(7), ConstId(7));
    let id: ConstId = 0.into();
    assert_eq!(id, ConstId(0));
}

#[test]
fn growable_vec_idx() {
    let mut vm = VM::new();
    let x = vm.intern("X");
    let y = vm.intern("Y");
    let p = Position::new(1, 1);
    let cx = vm.add_const(FileId(0), root(), true, p, x, SourceType::Unit, ConstValue::Int(1));
    let cy = vm.add_const(FileId(0), root(), false, p, y, SourceType::Unit, ConstValue::Bool(true));
    assert_eq!(cx, ConstId(0));
    assert_eq!(cy, ConstId(1));
    assert_eq!(vm.consts.idx(cy).name, y);
    assert_eq!(vm.consts.idx(cx).value, ConstValue::Int(1));
    assert_eq!(vm.consts.len(), 2);
    let mut g: GrowableVec<u8> = GrowableVec::new();
    g.push(3);
    assert_eq!(*g.idx_usize(0), 3);
}

#[test]
fn const_name_is_full_path() {
    let mut vm = VM::new();
    let a = vm.intern("a");
    let b = vm.intern("b");
    let c = vm.intern("C");
    let ns_a = vm.add_namespace(root(), a, true);
    let ns_b = vm.add_namespace(ns_a, b, false);
    let p = Position::new(1, 1);
    let top = vm.add_const(FileId(0), root(), true, p, c, SourceType::Unit, ConstValue::Unset);
    let nested = vm.add_const(FileId(0), ns_b, true, p, c, SourceType::Unit, ConstValue::Unset);
    assert_eq!(vm.consts.idx(top).name(&vm), "C");
    assert_eq!(vm.consts.idx(nested).name(&vm), "a::b::C");
    assert_eq!(namespace_path(&vm, ns_a, c), "a::C");
}

#[test]
fn const_accessibility() {
    let mut vm = VM::new();
    let a = vm.intern("a");
    let b = vm.intern("b");
    let d = vm.intern("d");
    let c = vm.intern("C");
    let p = Position::new(1, 1);
    // root { pub a { b { } } d { } }
    let ns_a = vm.add_namespace(root(), a, true);
    let ns_b = vm.add_namespace(ns_a, b, false);
    let ns_d = vm.add_namespace(root(), d, false);
    let priv_in_a = vm.add_const(FileId(0), ns_a, false, p, c, SourceType::Unit, ConstValue::Unset);
    let pub_in_a = vm.add_const(FileId(0), ns_a, true, p, c, SourceType::Unit, ConstValue::Unset);
    let pub_in_b = vm.add_const(FileId(0), ns_b, true, p, c, SourceType::Unit, ConstValue::Unset);
    let priv_in_root = vm.add_const(FileId(0), root(), false, p, c, SourceType::Unit, ConstValue::Unset);

    // A private constant is visible in its namespace and the ones inside.
    assert!(const_accessible_from(&vm, priv_in_a, ns_a));
    assert!(const_accessible_from(&vm, priv_in_a, ns_b));
    assert!(!const_accessible_from(&vm, priv_in_a, root()));
    assert!(!const_accessible_from(&vm, priv_in_a, ns_d));
    // A public constant of a public namespace is visible everywhere.
    assert!(const_accessible_from(&vm, pub_in_a, root()));
    assert!(const_accessible_from(&vm, pub_in_a, ns_d));
    // `b` is private in `a`: its public constant is visible inside `a`
    // only.
    assert!(const_accessible_from(&vm, pub_in_b, ns_a));
    assert!(!const_accessible_from(&vm, pub_in_b, root()));
    assert!(!const_accessible_from(&vm, pub_in_b, ns_d));
    // Everything of the root is visible everywhere.
    assert!(const_accessible_from(&vm, priv_in_root, ns_b));
    assert!(const_accessible_from(&vm, priv_in_root, ns_d));
    // Siblings: `d` is private in the root, yet its public elements are
    // visible from `a`, which lies in the root as well.
    assert!(accessible_from(&vm, ns_d, true, ns_a));
    assert!(!accessible_from(&vm, ns_d, false, ns_a));
}

#[test]
fn interner_gives_one_name_per_text() {
    let mut interner = Interner::new();
    let a = interner.intern("a");
    let b = interner.intern("b");
    let a2 = interner.intern("a");
    assert_eq!(a, a2);
    assert_ne!(a, b);
    assert_eq!(interner.str(b), "b");
}

#[test]
fn sym_table_read_after_write() {
    let mut t = SymTable::new();
    assert_eq!(t.insert_term(1, TermSym::Fct(FctId(4))), None);
    assert_eq!(t.insert_term(1, TermSym::Fct(FctId(5))), Some(TermSym::Fct(FctId(4))));
    assert_eq!(t.get_term(1), Some(TermSym::Fct(FctId(5))));
    assert_eq!(t.get_term(2), None);
    assert_eq!(t.get_type(1), None);
    assert_eq!(t.insert_type(1, TypeSym::Class(ClassId(0))), None);
    assert_eq!(t.get_type(1), Some(TypeSym::Class(ClassId(0))));
    assert_eq!(t.get_term(1), Some(TermSym::Fct(FctId(5))));
}

#[test]
fn interning_through_the_vm_gives_one_name_per_text() {
    let mut vm = VM::new();
    let a = vm.intern("a");
    let b = vm.intern("b");
    assert_eq!(vm.intern("a"), a);
    assert_eq!(b, a + 1);
    assert_eq!(vm.interner.str(a), "a");
}

#[test]
fn constants_of_one_namespace_and_publicity_are_visible_alike() {
    let mut vm = VM::new();
    let a = vm.intern("a");
    let x = vm.intern("X");
    let y = vm.intern("Y");
    let p = Position::new(1, 1);
    let ns_a = vm.add_namespace(root(), a, false);
    let cx = vm.add_const(FileId(0), ns_a, true, p, x, SourceType::Unit, ConstValue::Int(1));
    let cy = vm.add_const(FileId(2), ns_a, true, Position::new(5, 5), y, SourceType::Error, ConstValue::Bool(false));
    for ns in [root(), ns_a] {
        assert_eq!(const_accessible_from(&vm, cx, ns), const_accessible_from(&vm, cy, ns));
        assert_eq!(const_accessible_from(&vm, cx, ns), const_accessible_from(&vm, cx, ns));
    }
}
