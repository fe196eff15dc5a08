use vstd::prelude::*;

use crate::error::msg::{SemError, SemErrorAndPos};
use crate::interner::Name;
use crate::semck::{report_term_shadow, report_type_shadow, term_shadow_error, type_shadow_error};
use crate::sym::{SymTableModel, TermSym, TypeSym};
use crate::vm::{ClassId, EnumId, FctId, ImportData, NamespaceId, VmModel, VM};

verus! {

broadcast use vstd::std_specs::hash::group_hash_axioms;

/// The name under which an import binds what it imports.
pub open spec fn import_target(import: ImportData) -> Name {
    match import.ast.target_name {
        Some(t) => t,
        None => import.ast.element_name,
    }
}

/// The state after binding `target` to the term `sym` in the namespace of
/// `import`, with a report when the name stood for another term before.
pub open spec fn bind_term(m: VmModel, import: ImportData, target: Name, sym: TermSym) -> VmModel {
    let ns = import.namespace_id.0 as int;
    let table = m.namespaces[ns].table;
    let bound = m.with_table(ns, SymTableModel { terms: table.terms.insert(target, sym), ..table });
    match table.terms.get(target) {
        Some(old_sym) => bound.report(
            import.file_id,
            import.ast.pos,
            term_shadow_error(old_sym, m.names[target as int]),
        ),
        None => bound,
    }
}

/// The state after binding `target` to the type `sym` in the namespace of
/// `import`, with a report when the name stood for another type before.
pub open spec fn bind_type(m: VmModel, import: ImportData, target: Name, sym: TypeSym) -> VmModel {
    let ns = import.namespace_id.0 as int;
    let table = m.namespaces[ns].table;
    let bound = m.with_table(ns, SymTableModel { types: table.types.insert(target, sym), ..table });
    match table.types.get(target) {
        Some(old_sym) => bound.report(
            import.file_id,
            import.ast.pos,
            type_shadow_error(old_sym, m.names[target as int]),
        ),
        None => bound,
    }
}

/// An element of a namespace can be imported when it is a function or a
/// class; for anything else the import is not implemented.
pub open spec fn import_namespace_supported(
    m: VmModel,
    namespace_id: NamespaceId,
    element_name: Name,
) -> bool {
    let table = m.namespaces[namespace_id.0 as int].table;
    ||| table.terms.get(element_name) matches Some(TermSym::Fct(_))
    ||| table.types.get(element_name) matches Some(TypeSym::Class(_))
}

pub open spec fn import_namespace_spec(
    m: VmModel,
    import: ImportData,
    namespace_id: NamespaceId,
    element_name: Name,
    target_name: Name,
) -> VmModel {
    let table = m.namespaces[namespace_id.0 as int].table;
    match (table.terms.get(element_name), table.types.get(element_name)) {
        (Some(TermSym::Fct(fct_id)), _) => bind_term(m, import, target_name, TermSym::Fct(fct_id)),
        (_, Some(TypeSym::Class(cls_id))) => bind_type(
            m,
            import,
            target_name,
            TypeSym::Class(cls_id),
        ),
        _ => m,
    }
}

pub open spec fn import_enum_spec(
    m: VmModel,
    import: ImportData,
    enum_id: EnumId,
    element_name: Name,
    target_name: Name,
) -> VmModel {
    match m.enums[enum_id.0 as int].name_to_value.get(element_name) {
        Some(variant) => bind_term(
            m,
            import,
            target_name,
            TermSym::EnumValue(enum_id, variant as usize),
        ),
        None => m.report(
            import.file_id,
            import.ast.pos,
            SemError::UnknownEnumValue(m.names[element_name as int]),
        ),
    }
}

/// The import can be checked: it does not name an element of a namespace
/// that is neither a function nor a class.
pub open spec fn check_import_supported(m: VmModel, import: ImportData) -> bool {
    let table = m.namespaces[import.namespace_id.0 as int].table;
    match table.terms.get(import.ast.container_name) {
        Some(TermSym::Namespace(namespace_id)) => import_namespace_supported(
            m,
            namespace_id,
            import.ast.element_name,
        ),
        _ => true,
    }
}

/// The state after checking `import`. The container is looked up in the
/// namespace of the import: a namespace has its element (a function or a
/// class) bound under the target name; an enum has its variant bound, or
/// `UnknownEnumValue` reported when it has none of that name; anything else
/// is reported as `EnumExpected`.
pub open spec fn check_import_spec(m: VmModel, import: ImportData) -> VmModel {
    let table = m.namespaces[import.namespace_id.0 as int].table;
    let container = import.ast.container_name;
    match (table.terms.get(container), table.types.get(container)) {
        (Some(TermSym::Namespace(namespace_id)), _) => import_namespace_spec(
            m,
            import,
            namespace_id,
            import.ast.element_name,
            import_target(import),
        ),
        (_, Some(TypeSym::Enum(enum_id))) => import_enum_spec(
            m,
            import,
            enum_id,
            import.ast.element_name,
            import_target(import),
        ),
        _ => m.report(import.file_id, import.ast.pos, SemError::EnumExpected),
    }
}

/// The state after checking the first `n` imports of `imports` in order.
pub open spec fn check_imports_spec(m: VmModel, imports: Seq<ImportData>, n: nat) -> VmModel
    decreases n,
{
    if n == 0 {
        m
    } else {
        check_import_spec(check_imports_spec(m, imports, (n - 1) as nat), imports[n - 1])
    }
}

/// Each of the first `n` imports can be checked in the state that the
/// imports before it leave.
pub open spec fn imports_supported(m: VmModel, imports: Seq<ImportData>, n: nat) -> bool
    decreases n,
{
    n == 0 || (imports_supported(m, imports, (n - 1) as nat) && check_import_supported(
        check_imports_spec(m, imports, (n - 1) as nat),
        imports[n - 1],
    ))
}

/// Checks every import of the VM, in order.
pub fn check(vm: &mut VM)
    requires
        old(vm)@.wf(),
        imports_supported(old(vm)@, old(vm)@.imports, old(vm)@.imports.len()),
    ensures
        final(vm)@ == check_imports_spec(old(vm)@, old(vm)@.imports, old(vm)@.imports.len()),
{
    let ghost m0 = vm@;
    let ghost imports = vm@.imports;
    let n = vm.imports.len();
    let mut i: usize = 0;
    while i < n
        invariant
            n == imports.len(),
            i <= n,
            imports == m0.imports,
            imports_supported(m0, imports, n as nat),
            vm@ == check_imports_spec(m0, imports, i as nat),
            vm@.wf(),
            vm@.imports == imports,
        decreases n - i,
    {
        let import = vm.imports[i];
        proof {
            lemma_imports_supported_prefix(m0, imports, n as nat, i as nat);
            assert(vm@.import_wf(vm@.imports[i as int]));
            lemma_check_import_wf(vm@, import);
        }
        check_import(vm, &import);
        i = i + 1;
    }
}

proof fn lemma_imports_supported_prefix(m: VmModel, imports: Seq<ImportData>, n: nat, i: nat)
    requires
        imports_supported(m, imports, n),
        i < n,
    ensures
        imports_supported(m, imports, i + 1),
        check_import_supported(check_imports_spec(m, imports, i), imports[i as int]),
    decreases n,
{
    if i + 1 < n {
        lemma_imports_supported_prefix(m, imports, (n - 1) as nat, i);
    }
}

proof fn lemma_bind_term_wf(m: VmModel, import: ImportData, target: Name, sym: TermSym)
    requires
        m.wf(),
        m.import_wf(import),
        target < m.names.len(),
        m.term_sym_wf(sym),
    ensures
        bind_term(m, import, target, sym).wf(),
        bind_term(m, import, target, sym).imports == m.imports,
{
    let ns = import.namespace_id.0 as int;
    let table = m.namespaces[ns].table;
    let new_table = SymTableModel { terms: table.terms.insert(target, sym), ..table };
    let bound = m.with_table(ns, new_table);
    assert(m.table_wf(table));
    assert(bound.table_wf(new_table));
    assert forall|i: int| 0 <= i < bound.namespaces.len() implies bound.table_wf(
        #[trigger] bound.namespaces[i].table,
    ) by {
        if i != ns {
            assert(m.table_wf(m.namespaces[i].table));
        }
    }
    assert forall|i: int| 0 <= i < bound.impls.len() implies #[trigger] bound.impl_wf(i) by {
        assert(m.impl_wf(i));
    }
    assert forall|i: int| 0 <= i < bound.imports.len() implies bound.import_wf(
        #[trigger] bound.imports[i],
    ) by {
        assert(m.import_wf(m.imports[i]));
    }
    assert(bound.wf());
    if let Some(old_sym) = table.terms.get(target) {
        bound.lemma_report_wf(
            import.file_id,
            import.ast.pos,
            term_shadow_error(old_sym, m.names[target as int]),
        );
    }
}

proof fn lemma_bind_type_wf(m: VmModel, import: ImportData, target: Name, sym: TypeSym)
    requires
        m.wf(),
        m.import_wf(import),
        target < m.names.len(),
        m.type_sym_wf(sym),
    ensures
        bind_type(m, import, target, sym).wf(),
        bind_type(m, import, target, sym).imports == m.imports,
{
    let ns = import.namespace_id.0 as int;
    let table = m.namespaces[ns].table;
    let new_table = SymTableModel { types: table.types.insert(target, sym), ..table };
    let bound = m.with_table(ns, new_table);
    assert(m.table_wf(table));
    assert(bound.table_wf(new_table));
    assert forall|i: int| 0 <= i < bound.namespaces.len() implies bound.table_wf(
        #[trigger] bound.namespaces[i].table,
    ) by {
        if i != ns {
            assert(m.table_wf(m.namespaces[i].table));
        }
    }
    assert forall|i: int| 0 <= i < bound.impls.len() implies #[trigger] bound.impl_wf(i) by {
        assert(m.impl_wf(i));
    }
    assert forall|i: int| 0 <= i < bound.imports.len() implies bound.import_wf(
        #[trigger] bound.imports[i],
    ) by {
        assert(m.import_wf(m.imports[i]));
    }
    assert(bound.wf());
    if let Some(old_sym) = table.types.get(target) {
        bound.lemma_report_wf(
            import.file_id,
            import.ast.pos,
            type_shadow_error(old_sym, m.names[target as int]),
        );
    }
}

/// Checking a supported import keeps the state well formed and leaves the
/// list of imports as it is.
proof fn lemma_check_import_wf(m: VmModel, import: ImportData)
    requires
        m.wf(),
        m.import_wf(import),
        check_import_supported(m, import),
    ensures
        check_import_spec(m, import).wf(),
        check_import_spec(m, import).imports == m.imports,
{
    let ns = import.namespace_id.0 as int;
    let table = m.namespaces[ns].table;
    let container = import.ast.container_name;
    let target = import_target(import);
    assert(m.table_wf(table));
    match (table.terms.get(container), table.types.get(container)) {
        (Some(TermSym::Namespace(namespace_id)), _) => {
            assert(m.term_sym_wf(table.terms[container]));
            let src = m.namespaces[namespace_id.0 as int].table;
            assert(m.table_wf(src));
            let element = import.ast.element_name;
            match (src.terms.get(element), src.types.get(element)) {
                (Some(TermSym::Fct(fct_id)), _) => {
                    lemma_bind_term_wf(m, import, target, TermSym::Fct(fct_id));
                },
                (_, Some(TypeSym::Class(cls_id))) => {
                    assert(m.type_sym_wf(src.types[element]));
                    lemma_bind_type_wf(m, import, target, TypeSym::Class(cls_id));
                },
                _ => {},
            }
        },
        (_, Some(TypeSym::Enum(enum_id))) => {
            assert(m.type_sym_wf(table.types[container]));
            match m.enums[enum_id.0 as int].name_to_value.get(import.ast.element_name) {
                Some(variant) => {
                    lemma_bind_term_wf(
                        m,
                        import,
                        target,
                        TermSym::EnumValue(enum_id, variant as usize),
                    );
                },
                None => {
                    m.lemma_report_wf(
                        import.file_id,
                        import.ast.pos,
                        SemError::UnknownEnumValue(m.names[import.ast.element_name as int]),
                    );
                },
            }
        },
        _ => {
            m.lemma_report_wf(import.file_id, import.ast.pos, SemError::EnumExpected);
        },
    }
}

/// Checks one import.
pub fn check_import(vm: &mut VM, import: &ImportData)
    requires
        old(vm)@.wf(),
        old(vm)@.import_wf(*import),
        check_import_supported(old(vm)@, *import),
    ensures
        final(vm)@ == check_import_spec(old(vm)@, *import),
{
    let ns = import.namespace_id.to_usize();
    let container_name = import.ast.container_name;
    let element_name = import.ast.element_name;
    let target_name = match import.ast.target_name {
        Some(t) => t,
        None => element_name,
    };
    proof {
        assert(vm@.namespaces[ns as int] == vm.namespaces@[ns as int]@);
    }
    let sym_term = vm.namespaces[ns].table.get_term(container_name);
    let sym_type = vm.namespaces[ns].table.get_type(container_name);

    match (sym_term, sym_type) {
        (Some(TermSym::Namespace(namespace_id)), _) => {
            proof {
                assert(vm@.table_wf(vm@.namespaces[ns as int].table));
                assert(vm@.term_sym_wf(vm@.namespaces[ns as int].table.terms[container_name]));
            }
            import_namespace(vm, import, namespace_id, element_name, target_name)
        },
        (_, Some(TypeSym::Enum(enum_id))) => {
            proof {
                assert(vm@.table_wf(vm@.namespaces[ns as int].table));
                assert(vm@.type_sym_wf(vm@.namespaces[ns as int].table.types[container_name]));
            }
            import_enum(vm, import, enum_id, element_name, target_name)
        },
        _ => {
            vm.diag.report(import.file_id, import.ast.pos, SemError::EnumExpected);
            proof {
                assert(vm@ =~= old(vm)@.report(
                    import.file_id,
                    import.ast.pos,
                    SemError::EnumExpected,
                ));
            }
        },
    }
}

fn import_namespace(
    vm: &mut VM,
    import: &ImportData,
    namespace_id: NamespaceId,
    element_name: Name,
    target_name: Name,
)
    requires
        old(vm)@.wf(),
        old(vm)@.import_wf(*import),
        namespace_id.0 < old(vm)@.namespaces.len(),
        target_name < old(vm)@.names.len(),
        import_namespace_supported(old(vm)@, namespace_id, element_name),
    ensures
        final(vm)@ == import_namespace_spec(
            old(vm)@,
            *import,
            namespace_id,
            element_name,
            target_name,
        ),
{
    let src = namespace_id.to_usize();
    let ns = import.namespace_id.to_usize();
    proof {
        assert(vm@.namespaces[src as int] == vm.namespaces@[src as int]@);
        assert(vm@.namespaces[ns as int] == vm.namespaces@[ns as int]@);
    }
    let sym_term = vm.namespaces[src].table.get_term(element_name);
    let sym_type = vm.namespaces[src].table.get_type(element_name);

    match (sym_term, sym_type) {
        (Some(TermSym::Fct(fct_id)), _) => {
            let new_sym = TermSym::Fct(fct_id);
            let ghost m = vm@;
            let old_sym = vm.namespaces[ns].table.insert_term(target_name, new_sym);
            proof {
                let table = m.namespaces[ns as int].table;
                assert(vm@ =~= m.with_table(
                    ns as int,
                    SymTableModel { terms: table.terms.insert(target_name, new_sym), ..table },
                ));
            }
            if let Some(old_sym) = old_sym {
                report_term_shadow(vm, target_name, import.file_id, import.ast.pos, old_sym);
            }
        },
        (_, Some(TypeSym::Class(cls_id))) => {
            let new_sym = TypeSym::Class(cls_id);
            let ghost m = vm@;
            let old_sym = vm.namespaces[ns].table.insert_type(target_name, new_sym);
            proof {
                let table = m.namespaces[ns as int].table;
                assert(vm@ =~= m.with_table(
                    ns as int,
                    SymTableModel { types: table.types.insert(target_name, new_sym), ..table },
                ));
            }
            if let Some(old_sym) = old_sym {
                report_type_shadow(vm, target_name, import.file_id, import.ast.pos, old_sym);
            }
        },
        (_, _) => {
            proof {
                assert(false);
            }
        },
    }
}

fn import_enum(
    vm: &mut VM,
    import: &ImportData,
    enum_id: EnumId,
    element_name: Name,
    target_name: Name,
)
    requires
        old(vm)@.wf(),
        old(vm)@.import_wf(*import),
        enum_id.0 < old(vm)@.enums.len(),
        element_name < old(vm)@.names.len(),
        target_name < old(vm)@.names.len(),
    ensures
        final(vm)@ == import_enum_spec(old(vm)@, *import, enum_id, element_name, target_name),
{
    let ns = import.namespace_id.to_usize();
    proof {
        assert(vm@.enums[enum_id.0 as int] == vm.enums@[enum_id.0 as int]@);
    }
    match vm.enums[enum_id.0].name_to_value.get(&element_name) {
        Some(variant_id) => {
            let sym = TermSym::EnumValue(enum_id, *variant_id as usize);
            let ghost m = vm@;
            let old_sym = vm.namespaces[ns].table.insert_term(target_name, sym);
            proof {
                let table = m.namespaces[ns as int].table;
                assert(vm@ =~= m.with_table(
                    ns as int,
                    SymTableModel { terms: table.terms.insert(target_name, sym), ..table },
                ));
            }
            if let Some(old_sym) = old_sym {
                report_term_shadow(vm, target_name, import.file_id, import.ast.pos, old_sym);
            }
        },
        None => {
            let name = vm.interner.str(element_name).clone();
            vm.diag.report(import.file_id, import.ast.pos, SemError::UnknownEnumValue(name));
            proof {
                assert(vm@ =~= old(vm)@.report(
                    import.file_id,
                    import.ast.pos,
                    SemError::UnknownEnumValue(old(vm)@.names[element_name as int]),
                ));
            }
        },
    }
}

/// Importing a function of a namespace makes the target name stand for
/// that function in the namespace of the import.
pub proof fn lemma_import_function_binds(
    m: VmModel,
    import: ImportData,
    namespace_id: NamespaceId,
    fct: FctId,
)
    requires
        m.namespaces[import.namespace_id.0 as int].table.terms.get(import.ast.container_name)
            == Some(TermSym::Namespace(namespace_id)),
        m.namespaces[namespace_id.0 as int].table.terms.get(import.ast.element_name) == Some(
            TermSym::Fct(fct),
        ),
        import.namespace_id.0 < m.namespaces.len(),
    ensures
        check_import_spec(m, import).namespaces[import.namespace_id.0 as int].table.terms.get(
            import_target(import),
        ) == Some(TermSym::Fct(fct)),
{
}

/// Importing a class of a namespace makes the target name stand for that
/// class (as a type) in the namespace of the import.
pub proof fn lemma_import_class_binds(
    m: VmModel,
    import: ImportData,
    namespace_id: NamespaceId,
    cls: ClassId,
)
    requires
        m.namespaces[import.namespace_id.0 as int].table.terms.get(import.ast.container_name)
            == Some(TermSym::Namespace(namespace_id)),
        !(m.namespaces[namespace_id.0 as int].table.terms.get(
            import.ast.element_name,
        ) matches Some(TermSym::Fct(_))),
        m.namespaces[namespace_id.0 as int].table.types.get(import.ast.element_name) == Some(
            TypeSym::Class(cls),
        ),
        import.namespace_id.0 < m.namespaces.len(),
    ensures
        check_import_spec(m, import).namespaces[import.namespace_id.0 as int].table.types.get(
            import_target(import),
        ) == Some(TypeSym::Class(cls)),
{
}

/// Importing a variant of an enum makes the target name stand for that
/// variant, by its index.
pub proof fn lemma_import_enum_variant_binds(
    m: VmModel,
    import: ImportData,
    enum_id: EnumId,
    variant: u32,
)
    requires
        !(m.namespaces[import.namespace_id.0 as int].table.terms.get(
            import.ast.container_name,
        ) matches Some(TermSym::Namespace(_))),
        m.namespaces[import.namespace_id.0 as int].table.types.get(import.ast.container_name)
            == Some(TypeSym::Enum(enum_id)),
        m.enums[enum_id.0 as int].name_to_value.get(import.ast.element_name) == Some(variant),
        import.namespace_id.0 < m.namespaces.len(),
    ensures
        check_import_spec(m, import).namespaces[import.namespace_id.0 as int].table.terms.get(
            import_target(import),
        ) == Some(TermSym::EnumValue(enum_id, variant as usize)),
{
}

/// An import changes at most the meaning of its target name in its own
/// namespace, and adds at most one error: the tables of other namespaces,
/// the other names of its own namespace and everything else stay as they
/// were.
pub proof fn lemma_import_frame(m: VmModel, import: ImportData, ns: int, name: Name)
    requires
        import.namespace_id.0 < m.namespaces.len(),
        0 <= ns < m.namespaces.len(),
        ns != import.namespace_id.0 || name != import_target(import),
    ensures
        ({
            let r = check_import_spec(m, import);
            &&& r.namespaces.len() == m.namespaces.len()
            &&& r.namespaces[ns].table.terms.get(name) == m.namespaces[ns].table.terms.get(name)
            &&& r.namespaces[ns].table.types.get(name) == m.namespaces[ns].table.types.get(name)
            &&& r == (VmModel { namespaces: r.namespaces, errors: r.errors, ..m })
            &&& m.errors.len() <= r.errors.len() <= m.errors.len() + 1
            &&& r.errors.subrange(0, m.errors.len() as int) == m.errors
        }),
{
    let r = check_import_spec(m, import);
    assert(r.errors.subrange(0, m.errors.len() as int) =~= m.errors);
}

/// An import whose container is neither a namespace nor an enum binds
/// nothing and is reported as `EnumExpected`.
pub proof fn lemma_import_enum_expected(m: VmModel, import: ImportData)
    requires
        !(m.namespaces[import.namespace_id.0 as int].table.terms.get(
            import.ast.container_name,
        ) matches Some(TermSym::Namespace(_))),
        !(m.namespaces[import.namespace_id.0 as int].table.types.get(
            import.ast.container_name,
        ) matches Some(TypeSym::Enum(_))),
    ensures
        check_import_spec(m, import) == m.report(
            import.file_id,
            import.ast.pos,
            SemError::EnumExpected,
        ),
{
}

/// The term that `import` binds, when it binds one: a function of a
/// namespace, or a variant of an enum.
pub open spec fn imported_term(m: VmModel, import: ImportData) -> Option<TermSym> {
    let table = m.namespaces[import.namespace_id.0 as int].table;
    let container = import.ast.container_name;
    let element = import.ast.element_name;
    match (table.terms.get(container), table.types.get(container)) {
        (Some(TermSym::Namespace(namespace_id)), _) => match m.namespaces[namespace_id.0 as int].table.terms.get(
            element,
        ) {
            Some(TermSym::Fct(fct_id)) => Some(TermSym::Fct(fct_id)),
            _ => None,
        },
        (_, Some(TypeSym::Enum(enum_id))) => match m.enums[enum_id.0 as int].name_to_value.get(
            element,
        ) {
            Some(variant) => Some(TermSym::EnumValue(enum_id, variant as usize)),
            None => None,
        },
        _ => None,
    }
}

/// An import that binds a term binds it under its target name in its own
/// namespace, reporting the term that the name stood for before, if any.
pub proof fn lemma_imported_term_binds(m: VmModel, import: ImportData, sym: TermSym)
    requires
        imported_term(m, import) == Some(sym),
    ensures
        check_import_spec(m, import) == bind_term(m, import, import_target(import), sym),
{
}

/// The first `n` imports are checked one after the other, in order, each
/// seeing the bindings of those before it; with no import nothing changes.
/// Checking them changes only the tables and the errors, and only adds
/// errors.
pub proof fn lemma_check_imports_in_order(m: VmModel, imports: Seq<ImportData>, n: nat)
    requires
        n <= imports.len(),
        forall|k: int| 0 <= k < imports.len() ==> (#[trigger] imports[k]).namespace_id.0 < m.namespaces.len(),
    ensures
        check_imports_spec(m, imports, 0) == m,
        n < imports.len() ==> check_imports_spec(m, imports, n + 1) == check_import_spec(
            check_imports_spec(m, imports, n),
            imports[n as int],
        ),
        ({
            let r = check_imports_spec(m, imports, n);
            &&& r == (VmModel { namespaces: r.namespaces, errors: r.errors, ..m })
            &&& r.namespaces.len() == m.namespaces.len()
            &&& r.errors.len() >= m.errors.len()
            &&& r.errors.subrange(0, m.errors.len() as int) == m.errors
        }),
    decreases n,
{
    if n == 0 {
        assert(m.errors.subrange(0, m.errors.len() as int) =~= m.errors);
    } else {
        lemma_check_imports_in_order(m, imports, (n - 1) as nat);
        let p = check_imports_spec(m, imports, (n - 1) as nat);
        let import = imports[n - 1];
        let other: Name = if import_target(import) == 0 {
            1
        } else {
            0
        };
        lemma_import_frame(p, import, import.namespace_id.0 as int, other);
        let r = check_imports_spec(m, imports, n);
        assert(r.errors.subrange(0, m.errors.len() as int) =~= r.errors.subrange(
            0,
            p.errors.len() as int,
        ).subrange(0, m.errors.len() as int));
    }
}

/// Between imports `i` and `k`, the binding of the target name of import
/// `i` made by import `i` stays, when no import in between has the same
/// namespace and target name.
proof fn lemma_binding_kept(
    m: VmModel,
    imports: Seq<ImportData>,
    i: int,
    k: int,
    sym: TermSym,
)
    requires
        0 <= i < k <= imports.len(),
        forall|l: int| 0 <= l < imports.len() ==> (#[trigger] imports[l]).namespace_id.0 < m.namespaces.len(),
        imported_term(check_imports_spec(m, imports, i as nat), imports[i]) == Some(sym),
        forall|l: int|
            i < l < k ==> (#[trigger] imports[l]).namespace_id != imports[i].namespace_id
                || import_target(imports[l]) != import_target(imports[i]),
    ensures
        check_imports_spec(m, imports, k as nat).namespaces[imports[i].namespace_id.0 as int].table.terms.get(
            import_target(imports[i]),
        ) == Some(sym),
    decreases k,
{
    let ns = imports[i].namespace_id.0 as int;
    let x = import_target(imports[i]);
    if k == i + 1 {
        let p = check_imports_spec(m, imports, i as nat);
        lemma_check_imports_in_order(m, imports, i as nat);
        lemma_imported_term_binds(p, imports[i], sym);
    } else {
        lemma_binding_kept(m, imports, i, k - 1, sym);
        let p = check_imports_spec(m, imports, (k - 1) as nat);
        lemma_check_imports_in_order(m, imports, (k - 1) as nat);
        lemma_import_frame(p, imports[k - 1], ns, x);
    }
}

/// Of two imports of terms under the same name into the same namespace,
/// with none in between binding that name there, the later one wins: the
/// name stands for its term, and its check reports one error, that it hides
/// the term bound by the earlier one.
pub proof fn lemma_later_import_wins(
    m: VmModel,
    imports: Seq<ImportData>,
    i: int,
    j: int,
    earlier: TermSym,
    later: TermSym,
)
    requires
        0 <= i < j < imports.len(),
        forall|l: int| 0 <= l < imports.len() ==> (#[trigger] imports[l]).namespace_id.0 < m.namespaces.len(),
        imports[j].namespace_id == imports[i].namespace_id,
        import_target(imports[j]) == import_target(imports[i]),
        imported_term(check_imports_spec(m, imports, i as nat), imports[i]) == Some(earlier),
        imported_term(check_imports_spec(m, imports, j as nat), imports[j]) == Some(later),
        forall|l: int|
            i < l < j ==> (#[trigger] imports[l]).namespace_id != imports[i].namespace_id
                || import_target(imports[l]) != import_target(imports[i]),
    ensures
        ({
            let ns = imports[i].namespace_id.0 as int;
            let x = import_target(imports[i]);
            let before = check_imports_spec(m, imports, j as nat);
            let after = check_imports_spec(m, imports, (j + 1) as nat);
            &&& after.namespaces[ns].table.terms.get(x) == Some(later)
            &&& after.errors == before.errors.push(
                SemErrorAndPos {
                    file: imports[j].file_id,
                    pos: imports[j].ast.pos,
                    msg: term_shadow_error(earlier, m.names[x as int]),
                },
            )
        }),
{
    lemma_binding_kept(m, imports, i, j, earlier);
    let before = check_imports_spec(m, imports, j as nat);
    lemma_check_imports_in_order(m, imports, j as nat);
    lemma_check_imports_in_order(m, imports, (j + 1) as nat);
    lemma_imported_term_binds(before, imports[j], later);
}

/// Importing a class binds it under the target name in the import's
/// namespace; when the name stood for a type before, whatever kind of type
/// it was, exactly one error is added, naming that earlier type; otherwise
/// none. No term binding changes.
pub proof fn lemma_import_class_reports_shadowed_type(
    m: VmModel,
    import: ImportData,
    namespace_id: NamespaceId,
    cls: ClassId,
)
    requires
        m.namespaces[import.namespace_id.0 as int].table.terms.get(import.ast.container_name)
            == Some(TermSym::Namespace(namespace_id)),
        !(m.namespaces[namespace_id.0 as int].table.terms.get(
            import.ast.element_name,
        ) matches Some(TermSym::Fct(_))),
        m.namespaces[namespace_id.0 as int].table.types.get(import.ast.element_name) == Some(
            TypeSym::Class(cls),
        ),
        import.namespace_id.0 < m.namespaces.len(),
    ensures
        ({
            let r = check_import_spec(m, import);
            let ns = import.namespace_id.0 as int;
            let x = import_target(import);
            let at = |msg: SemError| SemErrorAndPos { file: import.file_id, pos: import.ast.pos, msg };
            &&& r.namespaces[ns].table.types.get(x) == Some(TypeSym::Class(cls))
            &&& r.namespaces[ns].table.terms == m.namespaces[ns].table.terms
            &&& match m.namespaces[ns].table.types.get(x) {
                Some(earlier) => r.errors == m.errors.push(
                    at(type_shadow_error(earlier, m.names[x as int])),
                ),
                None => r.errors == m.errors,
            }
        }),
{
}

/// Importing a function, or a variant of an enum, binds it under the target
/// name in the import's namespace; when the name stood for a term before,
/// whatever kind of term it was, exactly one error is added, naming that
/// earlier term; otherwise none. No type binding changes.
pub proof fn lemma_import_term_reports_shadowed_term(m: VmModel, import: ImportData, sym: TermSym)
    requires
        imported_term(m, import) == Some(sym),
        import.namespace_id.0 < m.namespaces.len(),
    ensures
        ({
            let r = check_import_spec(m, import);
            let ns = import.namespace_id.0 as int;
            let x = import_target(import);
            let at = |msg: SemError| SemErrorAndPos { file: import.file_id, pos: import.ast.pos, msg };
            &&& r.namespaces[ns].table.terms.get(x) == Some(sym)
            &&& r.namespaces[ns].table.types == m.namespaces[ns].table.types
            &&& match m.namespaces[ns].table.terms.get(x) {
                Some(earlier) => r.errors == m.errors.push(
                    at(term_shadow_error(earlier, m.names[x as int])),
                ),
                None => r.errors == m.errors,
            }
        }),
{
    lemma_imported_term_binds(m, import, sym);
}

/// Importing an unknown variant of an enum binds nothing and adds exactly
/// one error, `UnknownEnumValue` with the text of the variant's name.
pub proof fn lemma_import_unknown_variant(m: VmModel, import: ImportData, enum_id: EnumId)
    requires
        !(m.namespaces[import.namespace_id.0 as int].table.terms.get(
            import.ast.container_name,
        ) matches Some(TermSym::Namespace(_))),
        m.namespaces[import.namespace_id.0 as int].table.types.get(import.ast.container_name)
            == Some(TypeSym::Enum(enum_id)),
        !m.enums[enum_id.0 as int].name_to_value.contains_key(import.ast.element_name),
    ensures
        check_import_spec(m, import) == m.report(
            import.file_id,
            import.ast.pos,
            SemError::UnknownEnumValue(m.names[import.ast.element_name as int]),
        ),
{
}

} // verus!
