use dora::ast::{Import, Position};
use dora::error::msg::SemError;
use dora::semck::importck;
use dora::sym::{TermSym, TypeSym};
use dora::vm::{Fct, FctKind, FctParent, FileId, NamespaceId, VM};

fn pos(line: u32, column: u32) -> Position {
    Position::new(line, column)
}

fn root() -> NamespaceId {
    NamespaceId(0)
}

fn import(container_name: usize, element_name: usize, target_name: Option<usize>) -> Import {
    Import { pos: pos(1, 1), container_name, element_name, target_name }
}

/// Declares function `name` in namespace `ns`.
fn add_function(vm: &mut VM, ns: NamespaceId, name: usize) -> dora::vm::FctId {
    let ast = dora::ast::Function { name, pos: pos(9, 9), has_block: true, internal: false };
    let fct = Fct::new(FileId(0), Some(ns), &ast, FctParent::Module, FctKind::Source);
    let id = vm.add_fct(fct);
    vm.namespaces[ns.0].table.insert_term(name, TermSym::Fct(id));
    id
}

#[test]
fn import_function_from_namespace() {
    let mut vm = VM::new();
    let lib = vm.intern("lib");
    let f = vm.intern("f");
    let lib_ns = vm.add_namespace(root(), lib, true);
    let fct = add_function(&mut vm, lib_ns, f);
    vm.add_import(root(), FileId(0), import(lib, f, None));
    importck::check(&mut vm);
    assert!(!vm.diag.has_errors());
    assert_eq!(vm.namespaces[0].table.get_term(f), Some(TermSym::Fct(fct)));
}

#[test]
fn import_function_under_another_name() {
    let mut vm = VM::new();
    let lib = vm.intern("lib");
    let f = vm.intern("f");
    let g = vm.intern("g");
    let lib_ns = vm.add_namespace(root(), lib, true);
    let fct = add_function(&mut vm, lib_ns, f);
    vm.add_import(root(), FileId(0), import(lib, f, Some(g)));
    importck::check(&mut vm);
    assert!(!vm.diag.has_errors());
    assert_eq!(vm.namespaces[0].table.get_term(g), Some(TermSym::Fct(fct)));
    assert_eq!(vm.namespaces[0].table.get_term(f), None);
}

#[test]
fn import_class_from_namespace() {
    let mut vm = VM::new();
    let lib = vm.intern("lib");
    let c = vm.intern("C");
    let lib_ns = vm.add_namespace(root(), lib, true);
    let cls = vm.add_class(lib_ns, c, 0);
    vm.add_import(root(), FileId(0), import(lib, c, None));
    importck::check(&mut vm);
    assert!(!vm.diag.has_errors());
    assert_eq!(vm.namespaces[0].table.get_type(c), Some(TypeSym::Class(cls)));
}

#[test]
fn import_shadowing_reports_old_meaning() {
    let mut vm = VM::new();
    let lib = vm.intern("lib");
    let f = vm.intern("f");
    let c = vm.intern("C");
    let lib_ns = vm.add_namespace(root(), lib, true);
    let new_fct = add_function(&mut vm, lib_ns, f);
    add_function(&mut vm, root(), f);
    let new_cls = vm.add_class(lib_ns, c, 0);
    vm.add_class(root(), c, 0);
    let mut imp = import(lib, f, None);
    imp.pos = pos(2, 3);
    vm.add_import(root(), FileId(7), imp);
    let mut imp = import(lib, c, None);
    imp.pos = pos(3, 3);
    vm.add_import(root(), FileId(7), imp);
    importck::check(&mut vm);
    let errors = vm.diag.errors();
    assert_eq!(errors.len(), 2);
    assert_eq!(errors[0].msg, SemError::ShadowFunction("f".into()));
    assert_eq!(errors[0].pos, pos(2, 3));
    assert_eq!(errors[0].file, FileId(7));
    assert_eq!(errors[1].msg, SemError::ShadowClass("C".into()));
    assert_eq!(errors[1].pos, pos(3, 3));
    assert_eq!(vm.namespaces[0].table.get_term(f), Some(TermSym::Fct(new_fct)));
    assert_eq!(vm.namespaces[0].table.get_type(c), Some(TypeSym::Class(new_cls)));
}

#[test]
fn import_enum_variant() {
    let mut vm = VM::new();
    let color = vm.intern("Color");
    let red = vm.intern("Red");
    let green = vm.intern("Green");
    let en = vm.add_enum(root(), color, &vec![red, green]);
    vm.add_import(root(), FileId(0), import(color, green, None));
    importck::check(&mut vm);
    assert!(!vm.diag.has_errors());
    assert_eq!(vm.namespaces[0].table.get_term(green), Some(TermSym::EnumValue(en, 1)));
}

#[test]
fn import_unknown_enum_variant() {
    let mut vm = VM::new();
    let color = vm.intern("Color");
    let red = vm.intern("Red");
    let blue = vm.intern("Blue");
    vm.add_enum(root(), color, &vec![red]);
    vm.add_import(root(), FileId(0), import(color, blue, None));
    importck::check(&mut vm);
    let errors = vm.diag.errors();
    assert_eq!(errors.len(), 1);
    assert_eq!(errors[0].msg, SemError::UnknownEnumValue("Blue".into()));
    assert_eq!(vm.namespaces[0].table.get_term(blue), None);
}

#[test]
fn import_from_something_else_expects_enum() {
    let mut vm = VM::new();
    let c = vm.intern("C");
    let x = vm.intern("x");
    let missing = vm.intern("missing");
    vm.add_class(root(), c, 0);
    vm.add_import(root(), FileId(0), import(c, x, None));
    vm.add_import(root(), FileId(0), import(missing, x, None));
    importck::check(&mut vm);
    let errors = vm.diag.errors();
    assert_eq!(errors.len(), 2);
    assert_eq!(errors[0].msg, SemError::EnumExpected);
    assert_eq!(errors[1].msg, SemError::EnumExpected);
    assert_eq!(vm.namespaces[0].table.get_term(x), None);
}

#[test]
fn import_into_nested_namespace_leaves_root_alone() {
    let mut vm = VM::new();
    let lib = vm.intern("lib");
    let app = vm.intern("app");
    let f = vm.intern("f");
    let lib_ns = vm.add_namespace(root(), lib, true);
    let app_ns = vm.add_namespace(root(), app, false);
    let fct = add_function(&mut vm, lib_ns, f);
    // `lib` is visible in `app` only through the root.
    vm.namespaces[app_ns.0].table.insert_term(lib, TermSym::Namespace(lib_ns));
    vm.add_import(app_ns, FileId(0), import(lib, f, None));
    importck::check(&mut vm);
    assert!(!vm.diag.has_errors());
    assert_eq!(vm.namespaces[app_ns.0].table.get_term(f), Some(TermSym::Fct(fct)));
    assert_eq!(vm.namespaces[0].table.get_term(f), None);
}

#[test]
fn import_one_by_one() {
    let mut vm = VM::new();
    let lib = vm.intern("lib");
    let f = vm.intern("f");
    let lib_ns = vm.add_namespace(root(), lib, true);
    let fct = add_function(&mut vm, lib_ns, f);
    let imp = dora::vm::ImportData { namespace_id: root(), file_id: FileId(0), ast: import(lib, f, None) };
    importck::check_import(&mut vm, &imp);
    assert_eq!(vm.namespaces[0].table.get_term(f), Some(TermSym::Fct(fct)));
    // Importing it again hides the binding made by the first import.
    importck::check_import(&mut vm, &imp);
    assert_eq!(vm.diag.errors().len(), 1);
    assert_eq!(vm.diag.errors()[0].msg, SemError::ShadowFunction("f".into()));
}

#[test]
fn later_import_of_same_name_wins() {
    let mut vm = VM::new();
    let a = vm.intern("a");
    let b = vm.intern("b");
    let f = vm.intern("f");
    let g = vm.intern("g");
    let ns_a = vm.add_namespace(root(), a, true);
    let ns_b = vm.add_namespace(root(), b, true);
    let fa = add_function(&mut vm, ns_a, f);
    let fb = add_function(&mut vm, ns_b, f);
    let mut first = import(a, f, None);
    first.pos = pos(1, 1);
    let mut unrelated = import(a, f, Some(g));
    unrelated.pos = pos(2, 1);
    let mut second = import(b, f, None);
    second.pos = pos(3, 1);
    vm.add_import(root(), FileId(1), first);
    vm.add_import(root(), FileId(1), unrelated);
    vm.add_import(root(), FileId(1), second);
    importck::check(&mut vm);
    assert_eq!(vm.namespaces[0].table.get_term(f), Some(TermSym::Fct(fb)));
    assert_eq!(vm.namespaces[0].table.get_term(g), Some(TermSym::Fct(fa)));
    let errors = vm.diag.errors();
    assert_eq!(errors.len(), 1);
    assert_eq!(errors[0].pos, pos(3, 1));
    assert_eq!(errors[0].msg, SemError::ShadowFunction("f".into()));
}

#[test]
fn no_imports_change_nothing() {
    let mut vm = VM::new();
    let f = vm.intern("f");
    add_function(&mut vm, root(), f);
    importck::check(&mut vm);
    assert!(!vm.diag.has_errors());
    assert_eq!(vm.imports.len(), 0);
    assert_eq!(vm.namespaces.len(), 1);
}
