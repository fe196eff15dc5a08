use dora::ast::{Function, Impl, Position, Type, TypeBasicType, TypeTupleType};
use dora::error::msg::SemError;
use dora::semck::impldefck;
use dora::sym::TypeSym;
use dora::ty::SourceType;
use dora::vm::{FctKind, FctParent, FileId, ImplId, NamespaceId, VM};

fn pos(line: u32, column: u32) -> Position {
    Position::new(line, column)
}

fn basic(name: usize, params: Vec<Type>, line: u32, column: u32) -> Type {
    Type::Basic(TypeBasicType { name, params, pos: pos(line, column) })
}

fn method(name: usize, line: u32, column: u32, has_block: bool) -> Function {
    Function { name, pos: pos(line, column), has_block, internal: false }
}

fn impl_block(at: Position, trait_type: Type, class_type: Type, methods: Vec<Function>) -> Impl {
    Impl { pos: at, type_params: None, trait_type: Some(trait_type), class_type, methods }
}

fn root() -> NamespaceId {
    NamespaceId(0)
}

fn assert_single_error(vm: &VM, at: Position, msg: SemError) {
    let errors = vm.diag.errors();
    assert_eq!(1, errors.len());
    assert_eq!(at, errors[0].pos);
    assert_eq!(msg, errors[0].msg);
}

fn assert_no_errors(vm: &VM) {
    assert!(!vm.diag.has_errors());
}

#[test]
fn impl_method_without_body() {
    // trait Foo {
    //     fun foo(): Int32;
    // }
    // class Bar {}
    // impl Foo for Bar { fun foo(): Int32;}
    let mut vm = VM::new();
    let foo_trait = vm.intern("Foo");
    let bar = vm.intern("Bar");
    let foo = vm.intern("foo");
    vm.add_trait(root(), foo_trait);
    vm.add_class(root(), bar, 0);
    vm.add_impl(
        FileId(0),
        None,
        impl_block(
            pos(6, 13),
            basic(foo_trait, vec![], 6, 18),
            basic(bar, vec![], 6, 26),
            vec![method(foo, 6, 32, false)],
        ),
    );
    impldefck::check(&mut vm);
    assert_single_error(&vm, pos(6, 32), SemError::MissingFctBody);
}

#[test]
fn impl_for_unknown_trait() {
    // class A {} impl Foo for A {}
    let mut vm = VM::new();
    let a = vm.intern("A");
    let foo = vm.intern("Foo");
    vm.add_class(root(), a, 0);
    vm.add_impl(
        FileId(0),
        None,
        impl_block(pos(1, 12), basic(foo, vec![], 1, 17), basic(a, vec![], 1, 25), vec![]),
    );
    impldefck::check(&mut vm);
    assert_single_error(&vm, pos(1, 12), SemError::ExpectedTrait("Foo".into()));
}

#[test]
fn impl_for_unknown_class() {
    // trait Foo {} impl Foo for A {}
    let mut vm = VM::new();
    let foo = vm.intern("Foo");
    let a = vm.intern("A");
    vm.add_trait(root(), foo);
    vm.add_impl(
        FileId(0),
        None,
        impl_block(pos(1, 14), basic(foo, vec![], 1, 19), basic(a, vec![], 1, 27), vec![]),
    );
    impldefck::check(&mut vm);
    assert_single_error(&vm, pos(1, 27), SemError::UnknownType("A".into()));

    // trait Foo {} trait A {} impl Foo for A {}
    let mut vm = VM::new();
    let foo = vm.intern("Foo");
    let a = vm.intern("A");
    vm.add_trait(root(), foo);
    vm.add_trait(root(), a);
    vm.add_impl(
        FileId(0),
        None,
        impl_block(pos(1, 25), basic(foo, vec![], 1, 30), basic(a, vec![], 1, 38), vec![]),
    );
    impldefck::check(&mut vm);
    assert_single_error(&vm, pos(1, 38), SemError::ClassExpected);
}

#[test]
fn impl_definitions() {
    // trait Foo {} class A {} impl Foo for A {}
    let mut vm = VM::new();
    let foo = vm.intern("Foo");
    let a = vm.intern("A");
    vm.add_trait(root(), foo);
    vm.add_class(root(), a, 0);
    vm.add_impl(
        FileId(0),
        None,
        impl_block(pos(1, 25), basic(foo, vec![], 1, 30), basic(a, vec![], 1, 38), vec![]),
    );
    impldefck::check(&mut vm);
    assert_no_errors(&vm);

    // trait Foo { fun toBool(): Bool; }
    // class A {}
    // impl Foo for A { fun toBool(): Bool { return false; } }
    let mut vm = VM::new();
    let foo = vm.intern("Foo");
    let a = vm.intern("A");
    let to_bool = vm.intern("toBool");
    vm.add_trait(root(), foo);
    vm.add_class(root(), a, 0);
    vm.add_impl(
        FileId(0),
        None,
        impl_block(
            pos(3, 13),
            basic(foo, vec![], 3, 18),
            basic(a, vec![], 3, 26),
            vec![method(to_bool, 3, 30, true)],
        ),
    );
    impldefck::check(&mut vm);
    assert_no_errors(&vm);
}

#[test]
fn impl_class_type_params() {
    // trait MyTrait {} class Foo[T] impl MyTrait for Foo[String] {}
    let mut vm = VM::new();
    let my_trait = vm.intern("MyTrait");
    let foo = vm.intern("Foo");
    let string = vm.intern("String");
    vm.add_class(root(), string, 0);
    vm.add_trait(root(), my_trait);
    vm.add_class(root(), foo, 1);
    vm.add_impl(
        FileId(0),
        None,
        impl_block(
            pos(1, 32),
            basic(my_trait, vec![], 1, 37),
            basic(foo, vec![basic(string, vec![], 1, 53)], 1, 49),
            vec![],
        ),
    );
    impldefck::check(&mut vm);
    assert!(!vm.diag.has_errors());
}

#[test]
fn impl_records_trait_and_impl_on_class() {
    let mut vm = VM::new();
    let foo = vm.intern("Foo");
    let a = vm.intern("A");
    let f = vm.intern("f");
    let g = vm.intern("g");
    let trait_id = vm.add_trait(root(), foo);
    let cls = vm.add_class(root(), a, 0);
    let impl_id = vm.add_impl(
        FileId(3),
        None,
        impl_block(
            pos(1, 1),
            basic(foo, vec![], 1, 6),
            basic(a, vec![], 1, 14),
            vec![method(f, 2, 5, true), method(g, 3, 5, true)],
        ),
    );
    impldefck::check(&mut vm);
    assert_no_errors(&vm);
    assert_eq!(vm.classes[cls.0].traits, vec![trait_id]);
    assert_eq!(vm.classes[cls.0].impls, vec![impl_id]);
    let ximpl = &vm.impls[impl_id.0];
    assert_eq!(ximpl.trait_id, Some(trait_id));
    assert_eq!(ximpl.class_ty.cls_id(), Some(cls));
    assert_eq!(ximpl.methods.len(), 2);
    assert_eq!(vm.fcts.len(), 2);
    for (k, name) in [f, g].iter().enumerate() {
        let fct = &vm.fcts[ximpl.methods[k].0];
        assert_eq!(fct.id, ximpl.methods[k]);
        assert_eq!(fct.name, *name);
        assert_eq!(fct.parent, FctParent::Impl(ImplId(0)));
        assert_eq!(fct.kind, FctKind::Source);
        assert_eq!(fct.file_id, FileId(3));
    }
}

#[test]
fn impl_internal_method_needs_no_body() {
    let mut vm = VM::new();
    let foo = vm.intern("Foo");
    let a = vm.intern("A");
    let f = vm.intern("f");
    vm.add_trait(root(), foo);
    vm.add_class(root(), a, 0);
    vm.add_impl(
        FileId(0),
        None,
        impl_block(
            pos(1, 1),
            basic(foo, vec![], 1, 6),
            basic(a, vec![], 1, 14),
            vec![Function { name: f, pos: pos(2, 3), has_block: false, internal: true }],
        ),
    );
    impldefck::check(&mut vm);
    assert_no_errors(&vm);
    assert_eq!(vm.fcts[0].kind, FctKind::Definition);
}

#[test]
fn impl_with_type_params_is_unimplemented() {
    let mut vm = VM::new();
    let foo = vm.intern("Foo");
    let a = vm.intern("A");
    let t = vm.intern("T");
    let trait_id = vm.add_trait(root(), foo);
    let cls = vm.add_class(root(), a, 0);
    let mut block = impl_block(pos(4, 2), basic(foo, vec![], 4, 10), basic(a, vec![], 4, 18), vec![]);
    block.type_params = Some(vec![t]);
    vm.add_impl(FileId(0), None, block);
    impldefck::check(&mut vm);
    assert_single_error(&vm, pos(4, 2), SemError::Unimplemented);
    assert!(vm.classes[cls.0].traits.is_empty());
    assert_ne!(vm.impls[0].trait_id, Some(trait_id));
}

#[test]
fn impl_of_trait_with_type_arguments_is_unimplemented() {
    let mut vm = VM::new();
    let foo = vm.intern("Foo");
    let a = vm.intern("A");
    vm.add_trait(root(), foo);
    vm.add_class(root(), a, 0);
    vm.add_impl(
        FileId(0),
        None,
        impl_block(
            pos(1, 1),
            basic(foo, vec![basic(a, vec![], 1, 10)], 1, 6),
            basic(a, vec![], 1, 18),
            vec![],
        ),
    );
    impldefck::check(&mut vm);
    assert_single_error(&vm, pos(1, 1), SemError::Unimplemented);
}

#[test]
fn impl_for_class_with_wrong_number_of_type_arguments() {
    let mut vm = VM::new();
    let foo = vm.intern("Foo");
    let a = vm.intern("A");
    let b = vm.intern("B");
    vm.add_trait(root(), foo);
    vm.add_class(root(), a, 2);
    vm.add_class(root(), b, 0);
    vm.add_impl(
        FileId(0),
        None,
        impl_block(
            pos(1, 1),
            basic(foo, vec![], 1, 6),
            basic(a, vec![basic(b, vec![], 1, 16)], 1, 14),
            vec![],
        ),
    );
    impldefck::check(&mut vm);
    assert_single_error(&vm, pos(1, 14), SemError::WrongNumberTypeParams(2, 1));
    assert!(vm.impls[0].class_ty.is_error());
    assert!(vm.classes[0].traits.is_empty());
}

#[test]
fn impl_for_class_with_bad_type_argument() {
    let mut vm = VM::new();
    let foo = vm.intern("Foo");
    let a = vm.intern("A");
    let missing = vm.intern("Missing");
    vm.add_trait(root(), foo);
    vm.add_class(root(), a, 1);
    vm.add_impl(
        FileId(0),
        None,
        impl_block(
            pos(1, 1),
            basic(foo, vec![], 1, 6),
            basic(a, vec![basic(missing, vec![], 1, 16)], 1, 14),
            vec![],
        ),
    );
    impldefck::check(&mut vm);
    // Only the argument is reported; the class is not counted again.
    assert_single_error(&vm, pos(1, 16), SemError::UnknownType("Missing".into()));
}

#[test]
fn impl_for_tuple_expects_class() {
    let mut vm = VM::new();
    let foo = vm.intern("Foo");
    vm.add_trait(root(), foo);
    let unit = Type::Tuple(TypeTupleType { subtypes: vec![], pos: pos(1, 14) });
    vm.add_impl(FileId(0), None, impl_block(pos(1, 1), basic(foo, vec![], 1, 6), unit, vec![]));
    impldefck::check(&mut vm);
    assert_single_error(&vm, pos(1, 14), SemError::ClassExpected);
    assert!(vm.impls[0].trait_id.is_some());
}

#[test]
fn impl_names_are_looked_up_in_its_namespace_then_the_root() {
    let mut vm = VM::new();
    let ns_name = vm.intern("inner");
    let foo = vm.intern("Foo");
    let a = vm.intern("A");
    let inner = vm.add_namespace(root(), ns_name, true);
    let trait_id = vm.add_trait(inner, foo);
    let cls = vm.add_class(root(), a, 0);
    vm.add_impl(
        FileId(0),
        Some(inner),
        impl_block(pos(1, 1), basic(foo, vec![], 1, 6), basic(a, vec![], 1, 14), vec![]),
    );
    // From the root, the trait declared in `inner` is not visible.
    vm.add_impl(
        FileId(0),
        None,
        impl_block(pos(2, 1), basic(foo, vec![], 2, 6), basic(a, vec![], 2, 14), vec![]),
    );
    impldefck::check(&mut vm);
    assert_single_error(&vm, pos(2, 1), SemError::ExpectedTrait("Foo".into()));
    assert_eq!(vm.classes[cls.0].traits, vec![trait_id]);
    assert_eq!(
        vm.namespaces[inner.0].table.get_type(foo),
        Some(TypeSym::Trait(trait_id))
    );
    assert!(matches!(vm.impls[1].class_ty, SourceType::Class(c, _) if c == cls));
}

#[test]
fn two_impls_keep_class_records_aligned_and_methods_distinct() {
    let mut vm = VM::new();
    let foo = vm.intern("Foo");
    let bar = vm.intern("Bar");
    let a = vm.intern("A");
    let f = vm.intern("f");
    let t1 = vm.add_trait(root(), foo);
    let t2 = vm.add_trait(root(), bar);
    let cls = vm.add_class(root(), a, 0);
    vm.add_impl(
        FileId(0),
        None,
        impl_block(pos(1, 1), basic(foo, vec![], 1, 6), basic(a, vec![], 1, 14), vec![method(f, 1, 20, true)]),
    );
    vm.add_impl(
        FileId(0),
        None,
        impl_block(pos(2, 1), basic(bar, vec![], 2, 6), basic(a, vec![], 2, 14), vec![method(f, 2, 20, true)]),
    );
    impldefck::check(&mut vm);
    assert_no_errors(&vm);
    assert_eq!(vm.classes[cls.0].traits, vec![t1, t2]);
    assert_eq!(vm.classes[cls.0].impls, vec![ImplId(0), ImplId(1)]);
    assert_eq!(vm.impls[0].methods.len(), 1);
    assert_eq!(vm.impls[1].methods.len(), 1);
    assert_ne!(vm.impls[0].methods[0], vm.impls[1].methods[0]);
    for (i, fct) in vm.fcts.iter().enumerate() {
        assert_eq!(fct.id.0, i);
    }
    assert_eq!(vm.fcts[vm.impls[1].methods[0].0].parent, FctParent::Impl(ImplId(1)));
}
