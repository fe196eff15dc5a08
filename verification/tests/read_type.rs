use dora::ast::{Position, Type, TypeBasicType, TypeTupleType};
use dora::error::msg::SemError;
use dora::semck::read_type_namespace;
use dora::ty::SourceType;
use dora::vm::{FileId, NamespaceId, VM};

fn pos(line: u32, column: u32) -> Position {
    Position::new(line, column)
}

fn basic(name: usize, params: Vec<Type>) -> Type {
    Type::Basic(TypeBasicType { name, params, pos: pos(1, 1) })
}

#[test]
fn read_class_type_with_arguments() {
    let mut vm = VM::new();
    let list = vm.intern("List");
    let int = vm.intern("Int");
    let list_cls = vm.add_class(NamespaceId(0), list, 1);
    let int_cls = vm.add_class(NamespaceId(0), int, 0);
    let ty = read_type_namespace(&mut vm, FileId(0), None, &basic(list, vec![basic(int, vec![])]));
    assert!(!vm.diag.has_errors());
    match ty {
        Some(SourceType::Class(c, args)) => {
            assert_eq!(c, list_cls);
            assert_eq!(vm.type_lists[args.0].len(), 1);
            assert!(matches!(vm.type_lists[args.0][0], SourceType::Class(i, _) if i == int_cls));
        },
        _ => panic!("expected a class type"),
    }
}

#[test]
fn read_tuple_types() {
    let mut vm = VM::new();
    let int = vm.intern("Int");
    vm.add_class(NamespaceId(0), int, 0);
    let unit = Type::Tuple(TypeTupleType { subtypes: vec![], pos: pos(1, 1) });
    assert_eq!(read_type_namespace(&mut vm, FileId(0), None, &unit), Some(SourceType::Unit));
    let pair = Type::Tuple(TypeTupleType { subtypes: vec![basic(int, vec![]), basic(int, vec![])], pos: pos(1, 1) });
    match read_type_namespace(&mut vm, FileId(0), None, &pair) {
        Some(SourceType::Tuple(l)) => assert_eq!(vm.type_lists[l.0].len(), 2),
        _ => panic!("expected a tuple type"),
    }
    assert!(!vm.diag.has_errors());
}

#[test]
fn read_type_fails_exactly_when_it_reports() {
    let mut vm = VM::new();
    let t = vm.intern("T");
    let u = vm.intern("U");
    vm.add_trait(NamespaceId(0), t);
    assert!(read_type_namespace(&mut vm, FileId(0), None, &basic(t, vec![])).is_some());
    assert_eq!(vm.diag.errors().len(), 0);
    assert!(read_type_namespace(&mut vm, FileId(0), None, &basic(t, vec![basic(t, vec![])])).is_none());
    assert_eq!(vm.diag.errors().len(), 1);
    assert_eq!(vm.diag.errors()[0].msg, SemError::WrongNumberTypeParams(0, 1));
    assert!(read_type_namespace(&mut vm, FileId(0), None, &basic(u, vec![])).is_none());
    assert_eq!(vm.diag.errors().len(), 2);
    assert_eq!(vm.diag.errors()[1].msg, SemError::UnknownType("U".into()));
}
