use vstd::prelude::*;

use crate::ast::{self, type_names_below, Position};
use crate::error::msg::SemError;
use crate::interner::Name;
use crate::sym::{TermSym, TypeSym};
use crate::ty::{SourceType, TypeListId};
use crate::vm::consts::ConstId;
use crate::vm::{ClassId, EnumId, FctId, FileId, GlobalId, NamespaceId, StructId, TraitId, VmModel, VM};

pub mod impldefck;
pub mod importck;

verus! {

/// The error for declaring `name` where it already names the term `sym`.
pub open spec fn term_shadow_error(sym: TermSym, name: String) -> SemError {
    match sym {
        TermSym::Fct(_) => SemError::ShadowFunction(name),
        TermSym::Global(_) => SemError::ShadowGlobal(name),
        TermSym::Const(_) => SemError::ShadowConst(name),
        TermSym::ClassConstructor(_) => SemError::ShadowClassConstructor(name),
        TermSym::StructConstructor(_) => SemError::ShadowStructConstructor(name),
        TermSym::Namespace(_) => SemError::ShadowNamespace(name),
        TermSym::EnumValue(_, _) => SemError::ShadowEnumValue(name),
    }
}

/// The error for declaring `name` where it already names the type `sym`.
pub open spec fn type_shadow_error(sym: TypeSym, name: String) -> SemError {
    match sym {
        TypeSym::Class(_) => SemError::ShadowClass(name),
        TypeSym::Struct(_) => SemError::ShadowStruct(name),
        TypeSym::Trait(_) => SemError::ShadowTrait(name),
        TypeSym::Enum(_) => SemError::ShadowEnum(name),
    }
}

/// The error for hiding a symbol names the kind of symbol hidden and
/// carries the text of the name.
pub proof fn lemma_shadow_errors_name_the_kind(name: String)
    ensures
        forall|f: FctId| term_shadow_error(TermSym::Fct(f), name) == SemError::ShadowFunction(name),
        forall|g: GlobalId|
            term_shadow_error(TermSym::Global(g), name) == SemError::ShadowGlobal(name),
        forall|c: ConstId| term_shadow_error(TermSym::Const(c), name) == SemError::ShadowConst(name),
        forall|c: ClassId|
            term_shadow_error(TermSym::ClassConstructor(c), name)
                == SemError::ShadowClassConstructor(name),
        forall|s: StructId|
            term_shadow_error(TermSym::StructConstructor(s), name)
                == SemError::ShadowStructConstructor(name),
        forall|n: NamespaceId|
            term_shadow_error(TermSym::Namespace(n), name) == SemError::ShadowNamespace(name),
        forall|e: EnumId, v: usize|
            term_shadow_error(TermSym::EnumValue(e, v), name) == SemError::ShadowEnumValue(name),
        forall|c: ClassId| type_shadow_error(TypeSym::Class(c), name) == SemError::ShadowClass(name),
        forall|s: StructId|
            type_shadow_error(TypeSym::Struct(s), name) == SemError::ShadowStruct(name),
        forall|t: TraitId| type_shadow_error(TypeSym::Trait(t), name) == SemError::ShadowTrait(name),
        forall|e: EnumId| type_shadow_error(TypeSym::Enum(e), name) == SemError::ShadowEnum(name),
{
}

/// Reports that declaring `name` at `pos` hides the term `sym`.
pub fn report_term_shadow(vm: &mut VM, name: Name, file: FileId, pos: Position, sym: TermSym)
    requires
        name < old(vm)@.names.len(),
    ensures
        final(vm)@ == old(vm)@.report(
            file,
            pos,
            term_shadow_error(sym, old(vm)@.names[name as int]),
        ),
{
    let text = vm.interner.str(name).clone();
    let msg = match sym {
        TermSym::Fct(_) => SemError::ShadowFunction(text),
        TermSym::Global(_) => SemError::ShadowGlobal(text),
        TermSym::Const(_) => SemError::ShadowConst(text),
        TermSym::ClassConstructor(_) => SemError::ShadowClassConstructor(text),
        TermSym::StructConstructor(_) => SemError::ShadowStructConstructor(text),
        TermSym::Namespace(_) => SemError::ShadowNamespace(text),
        TermSym::EnumValue(_, _) => SemError::ShadowEnumValue(text),
    };
    vm.diag.report(file, pos, msg);
    proof {
        assert(vm@ =~= old(vm)@.report(
            file,
            pos,
            term_shadow_error(sym, old(vm)@.names[name as int]),
        ));
    }
}

/// Reports that declaring `name` at `pos` hides the type `sym`.
pub fn report_type_shadow(vm: &mut VM, name: Name, file: FileId, pos: Position, sym: TypeSym)
    requires
        name < old(vm)@.names.len(),
    ensures
        final(vm)@ == old(vm)@.report(
            file,
            pos,
            type_shadow_error(sym, old(vm)@.names[name as int]),
        ),
{
    let text = vm.interner.str(name).clone();
    let msg = match sym {
        TypeSym::Class(_) => SemError::ShadowClass(text),
        TypeSym::Struct(_) => SemError::ShadowStruct(text),
        TypeSym::Trait(_) => SemError::ShadowTrait(text),
        TypeSym::Enum(_) => SemError::ShadowEnum(text),
    };
    vm.diag.report(file, pos, msg);
    proof {
        assert(vm@ =~= old(vm)@.report(
            file,
            pos,
            type_shadow_error(sym, old(vm)@.names[name as int]),
        ));
    }
}

/// What `name` means as a type in namespace `namespace_id` (the root
/// namespace when `None`): its meaning there, else its meaning in the root.
pub open spec fn lookup_type(m: VmModel, namespace_id: Option<NamespaceId>, name: Name) -> Option<
    TypeSym,
> {
    match namespace_id {
        Some(ns) => match m.namespaces[ns.0 as int].table.types.get(name) {
            Some(sym) => Some(sym),
            None => m.namespaces[0].table.types.get(name),
        },
        None => m.namespaces[0].table.types.get(name),
    }
}

/// Looks `name` up as a type in namespace `namespace_id`, then in the root.
pub fn lookup_type_exec(vm: &VM, namespace_id: Option<NamespaceId>, name: Name) -> (sym: Option<
    TypeSym,
>)
    requires
        vm@.wf(),
        namespace_id matches Some(ns) ==> ns.0 < vm@.namespaces.len(),
    ensures
        sym == lookup_type(vm@, namespace_id, name),
{
    proof {
        assert(vm@.namespaces[0] == vm.namespaces@[0]@);
    }
    match namespace_id {
        Some(ns) => {
            proof {
                assert(vm@.namespaces[ns.0 as int] == vm.namespaces@[ns.0 as int]@);
            }
            match vm.namespaces[ns.0].table.get_type(name) {
                Some(sym) => Some(sym),
                None => vm.namespaces[0].table.get_type(name),
            }
        },
        None => vm.namespaces[0].table.get_type(name),
    }
}

/// What a name means as a type refers to something that exists.
pub proof fn lemma_lookup_type_wf(m: VmModel, namespace_id: Option<NamespaceId>, name: Name)
    requires
        m.wf(),
        namespace_id matches Some(ns) ==> ns.0 < m.namespaces.len(),
    ensures
        lookup_type(m, namespace_id, name) matches Some(sym) ==> m.type_sym_wf(sym),
{
    assert(m.table_wf(m.namespaces[0].table));
    if let Some(ns) = namespace_id {
        assert(m.table_wf(m.namespaces[ns.0 as int].table));
    }
}

/// The symbol for a type that is not a class, as a type.
pub open spec fn non_class_type(sym: TypeSym) -> SourceType {
    match sym {
        TypeSym::Class(_) => SourceType::Error,
        TypeSym::Struct(s) => SourceType::Struct(s),
        TypeSym::Trait(t) => SourceType::Trait(t),
        TypeSym::Enum(e) => SourceType::Enum(e),
    }
}

/// Resolving the type `ty` written in namespace `namespace_id` of `file`:
/// the state afterwards (with the errors found and the type argument lists
/// made) and the type, or `None` when an error was found.
///
/// A bare name is looked up as a type. A class takes as many type arguments
/// as it has type parameters; they are resolved in order, and any other
/// type takes none. A name that is not a type is `UnknownType`. A tuple has
/// its element types resolved; the empty tuple is the unit type.
pub open spec fn read_type_spec(
    m: VmModel,
    file: FileId,
    namespace_id: Option<NamespaceId>,
    ty: ast::Type,
) -> (VmModel, Option<SourceType>)
    decreases ty, 0nat,
{
    match ty {
        ast::Type::Basic(b) => match lookup_type(m, namespace_id, b.name) {
            Some(TypeSym::Class(cls_id)) => {
                let (m1, args, ok) = read_types_spec(
                    m,
                    file,
                    namespace_id,
                    b.params@,
                    b.params@.len(),
                );
                let expected = m1.classes[cls_id.0 as int].type_params;
                if !ok {
                    (m1, None)
                } else if args.len() != expected {
                    (
                        m1.report(
                            file,
                            b.pos,
                            SemError::WrongNumberTypeParams(expected, args.len() as usize),
                        ),
                        None,
                    )
                } else {
                    (
                        m1.with_type_list(args),
                        Some(SourceType::Class(cls_id, TypeListId(m1.type_lists.len() as usize))),
                    )
                }
            },
            Some(sym) => if b.params@.len() != 0 {
                (
                    m.report(
                        file,
                        b.pos,
                        SemError::WrongNumberTypeParams(0, b.params@.len() as usize),
                    ),
                    None,
                )
            } else {
                (m, Some(non_class_type(sym)))
            },
            None => (m.report(file, b.pos, SemError::UnknownType(m.names[b.name as int])), None),
        },
        ast::Type::Tuple(t) => {
            let (m1, args, ok) = read_types_spec(
                m,
                file,
                namespace_id,
                t.subtypes@,
                t.subtypes@.len(),
            );
            if !ok {
                (m1, None)
            } else if args.len() == 0 {
                (m1, Some(SourceType::Unit))
            } else {
                (
                    m1.with_type_list(args),
                    Some(SourceType::Tuple(TypeListId(m1.type_lists.len() as usize))),
                )
            }
        },
    }
}

/// Resolving the first `n` of `tys` in order: the state afterwards, the
/// types resolved, and whether all of them were.
pub open spec fn read_types_spec(
    m: VmModel,
    file: FileId,
    namespace_id: Option<NamespaceId>,
    tys: Seq<ast::Type>,
    n: nat,
) -> (VmModel, Seq<SourceType>, bool)
    decreases tys, n,
{
    if n == 0 || n > tys.len() {
        (m, Seq::empty(), true)
    } else {
        let (m1, args, ok) = read_types_spec(m, file, namespace_id, tys, (n - 1) as nat);
        let (m2, r) = read_type_spec(m1, file, namespace_id, tys[n - 1]);
        match r {
            Some(t) => (m2, args.push(t), ok),
            None => (m2, args, false),
        }
    }
}

/// Resolves the type `t` written in namespace `namespace_id` of `file`,
/// reporting what cannot be resolved.
pub fn read_type_namespace(
    vm: &mut VM,
    file: FileId,
    namespace_id: Option<NamespaceId>,
    t: &ast::Type,
) -> (r: Option<SourceType>)
    requires
        old(vm)@.wf(),
        namespace_id matches Some(ns) ==> ns.0 < old(vm)@.namespaces.len(),
        type_names_below(*t, old(vm)@.names.len()),
    ensures
        read_type_spec(old(vm)@, file, namespace_id, *t) == (final(vm)@, r),
        final(vm)@ == old(vm)@.with_errors_and_lists(final(vm)@.errors, final(vm)@.type_lists),
        r matches Some(SourceType::Class(c, _)) ==> c.0 < old(vm)@.classes.len(),
    decreases *t,
{
    let ghost m = vm@;
    match t {
        ast::Type::Basic(b) => {
            match lookup_type_exec(vm, namespace_id, b.name) {
                Some(TypeSym::Class(cls_id)) => {
                    proof {
                        lemma_lookup_type_wf(m, namespace_id, b.name);
                    }
                    let (args, ok) = read_type_args(vm, file, namespace_id, &b.params);
                    proof {
                        assert(vm@.classes[cls_id.0 as int] == vm.classes@[cls_id.0 as int]@);
                    }
                    let expected = vm.classes[cls_id.0].type_params;
                    if !ok {
                        None
                    } else if args.len() != expected {
                        let given = args.len();
                        vm.diag.report(file, b.pos, SemError::WrongNumberTypeParams(expected, given));
                        None
                    } else {
                        let id = TypeListId(vm.type_lists.len());
                        let ghost before = vm@;
                        vm.type_lists.push(args);
                        proof {
                            assert(vm@.type_lists =~= before.type_lists.push(args@));
                        }
                        Some(SourceType::Class(cls_id, id))
                    }
                },
                Some(sym) => {
                    if b.params.len() != 0 {
                        let given = b.params.len();
                        vm.diag.report(file, b.pos, SemError::WrongNumberTypeParams(0, given));
                        None
                    } else {
                        let ty = match sym {
                            TypeSym::Class(_) => SourceType::Error,
                            TypeSym::Struct(s) => SourceType::Struct(s),
                            TypeSym::Trait(t) => SourceType::Trait(t),
                            TypeSym::Enum(e) => SourceType::Enum(e),
                        };
                        Some(ty)
                    }
                },
                None => {
                    let name = vm.interner.str(b.name).clone();
                    vm.diag.report(file, b.pos, SemError::UnknownType(name));
                    None
                },
            }
        },
        ast::Type::Tuple(tuple) => {
            let (args, ok) = read_type_args(vm, file, namespace_id, &tuple.subtypes);
            if !ok {
                None
            } else if args.len() == 0 {
                Some(SourceType::Unit)
            } else {
                let id = TypeListId(vm.type_lists.len());
                let ghost before = vm@;
                vm.type_lists.push(args);
                proof {
                    assert(vm@.type_lists =~= before.type_lists.push(args@));
                }
                Some(SourceType::Tuple(id))
            }
        },
    }
}

/// Resolves the types `tys` in order; the flag tells whether all of them
/// were resolved.
fn read_type_args(
    vm: &mut VM,
    file: FileId,
    namespace_id: Option<NamespaceId>,
    tys: &Vec<ast::Type>,
) -> (r: (Vec<SourceType>, bool))
    requires
        old(vm)@.wf(),
        namespace_id matches Some(ns) ==> ns.0 < old(vm)@.namespaces.len(),
        forall|k: int| 0 <= k < tys@.len() ==> type_names_below(#[trigger] tys@[k], old(vm)@.names.len()),
    ensures
        read_types_spec(old(vm)@, file, namespace_id, tys@, tys@.len()) == (final(vm)@, r.0@, r.1),
        final(vm)@ == old(vm)@.with_errors_and_lists(final(vm)@.errors, final(vm)@.type_lists),
    decreases *tys,
{
    let ghost m = vm@;
    let mut args: Vec<SourceType> = Vec::new();
    let mut ok = true;
    let mut k: usize = 0;
    while k < tys.len()
        invariant
            k <= tys@.len(),
            m.wf(),
            namespace_id matches Some(ns) ==> ns.0 < m.namespaces.len(),
            forall|j: int| 0 <= j < tys@.len() ==> type_names_below(#[trigger] tys@[j], m.names.len()),
            read_types_spec(m, file, namespace_id, tys@, k as nat) == (vm@, args@, ok),
            vm@ == m.with_errors_and_lists(vm@.errors, vm@.type_lists),
        decreases tys@.len() - k,
    {
        proof {
            m.lemma_wf_errors_and_lists(vm@.errors, vm@.type_lists);
        }
        match read_type_namespace(vm, file, namespace_id, &tys[k]) {
            Some(t) => args.push(t),
            None => ok = false,
        }
        k = k + 1;
    }
    (args, ok)
}

/// Resolving a type changes nothing but the errors and the type lists; it
/// only adds errors, and it succeeds exactly when it adds none.
pub proof fn lemma_read_type_reports_iff_fails(
    m: VmModel,
    file: FileId,
    namespace_id: Option<NamespaceId>,
    ty: ast::Type,
)
    ensures
        ({
            let (m2, r) = read_type_spec(m, file, namespace_id, ty);
            &&& m2 == m.with_errors_and_lists(m2.errors, m2.type_lists)
            &&& m2.errors.len() >= m.errors.len()
            &&& m2.errors.subrange(0, m.errors.len() as int) == m.errors
            &&& (r is Some) == (m2.errors.len() == m.errors.len())
        }),
    decreases ty, 0nat,
{
    match ty {
        ast::Type::Basic(b) => {
            lemma_read_types_reports_iff_fails(m, file, namespace_id, b.params@, b.params@.len());
        },
        ast::Type::Tuple(t) => {
            lemma_read_types_reports_iff_fails(
                m,
                file,
                namespace_id,
                t.subtypes@,
                t.subtypes@.len(),
            );
        },
    }
    let (m2, r) = read_type_spec(m, file, namespace_id, ty);
    assert(m2.errors.subrange(0, m.errors.len() as int) =~= m.errors);
}

/// Resolving a list of types changes nothing but the errors and the type
/// lists; it only adds errors, and all resolve exactly when it adds none.
pub proof fn lemma_read_types_reports_iff_fails(
    m: VmModel,
    file: FileId,
    namespace_id: Option<NamespaceId>,
    tys: Seq<ast::Type>,
    n: nat,
)
    ensures
        ({
            let (m2, args, ok) = read_types_spec(m, file, namespace_id, tys, n);
            &&& m2 == m.with_errors_and_lists(m2.errors, m2.type_lists)
            &&& m2.errors.len() >= m.errors.len()
            &&& m2.errors.subrange(0, m.errors.len() as int) == m.errors
            &&& ok == (m2.errors.len() == m.errors.len())
        }),
    decreases tys, n,
{
    if n == 0 || n > tys.len() {
        assert(m == m.with_errors_and_lists(m.errors, m.type_lists));
        assert(m.errors.subrange(0, m.errors.len() as int) =~= m.errors);
    } else {
        lemma_read_types_reports_iff_fails(m, file, namespace_id, tys, (n - 1) as nat);
        let (m1, args, ok) = read_types_spec(m, file, namespace_id, tys, (n - 1) as nat);
        lemma_read_type_reports_iff_fails(m1, file, namespace_id, tys[n - 1]);
        let (m2, r) = read_type_spec(m1, file, namespace_id, tys[n - 1]);
        assert(m2.errors.subrange(0, m1.errors.len() as int) == m1.errors);
        assert(m1.errors.subrange(0, m.errors.len() as int) == m.errors);
        assert(m2.errors.subrange(0, m.errors.len() as int) =~= m2.errors.subrange(
            0,
            m1.errors.len() as int,
        ).subrange(0, m.errors.len() as int));
    }
}

/// The tables of all namespaces are well formed, and `namespace_id` names a
/// namespace.
pub open spec fn lookup_wf(m: VmModel, namespace_id: Option<NamespaceId>) -> bool {
    &&& m.namespaces.len() > 0
    &&& namespace_id matches Some(ns) ==> ns.0 < m.namespaces.len()
    &&& forall|i: int| 0 <= i < m.namespaces.len() ==> m.table_wf(#[trigger] m.namespaces[i].table)
}

/// A class type that a type resolves to is a class that exists.
pub proof fn lemma_read_type_class_exists(
    m: VmModel,
    file: FileId,
    namespace_id: Option<NamespaceId>,
    ty: ast::Type,
)
    requires
        lookup_wf(m, namespace_id),
    ensures
        read_type_spec(m, file, namespace_id, ty).1 matches Some(SourceType::Class(c, _)) ==> c.0
            < m.classes.len(),
{
    lemma_read_type_reports_iff_fails(m, file, namespace_id, ty);
    if let ast::Type::Basic(b) = ty {
        assert(m.table_wf(m.namespaces[0].table));
        if let Some(ns) = namespace_id {
            assert(m.table_wf(m.namespaces[ns.0 as int].table));
        }
        lemma_read_types_reports_iff_fails(m, file, namespace_id, b.params@, b.params@.len());
    }
}

/// Resolving a list of types resolves them one after the other, in the
/// order written: when all of the first `n` resolve, there are `n` results
/// and the `k`-th is what the `k`-th written type resolves to, in the state
/// that the ones before it leave.
pub proof fn lemma_read_types_in_order(
    m: VmModel,
    file: FileId,
    namespace_id: Option<NamespaceId>,
    tys: Seq<ast::Type>,
    n: nat,
)
    requires
        n <= tys.len(),
    ensures
        ({
            let (m2, args, ok) = read_types_spec(m, file, namespace_id, tys, n);
            ok ==> {
                &&& args.len() == n
                &&& forall|k: int|
                    0 <= k < n ==> Some(#[trigger] args[k]) == read_type_spec(
                        read_types_spec(m, file, namespace_id, tys, k as nat).0,
                        file,
                        namespace_id,
                        tys[k],
                    ).1
            }
        }),
    decreases n,
{
    if n > 0 {
        lemma_read_types_in_order(m, file, namespace_id, tys, (n - 1) as nat);
        let (m1, args1, ok1) = read_types_spec(m, file, namespace_id, tys, (n - 1) as nat);
        let (m2, args, ok) = read_types_spec(m, file, namespace_id, tys, n);
        if ok {
            assert forall|k: int| 0 <= k < n implies Some(#[trigger] args[k]) == read_type_spec(
                read_types_spec(m, file, namespace_id, tys, k as nat).0,
                file,
                namespace_id,
                tys[k],
            ).1 by {
                if k < n - 1 {
                    assert(args[k] == args1[k]);
                }
            }
        }
    }
}

/// What a written class type `C[T1, ..., Tn]` resolves to: when it resolves
/// to a class type, the name stands for that class, the class has `n` type
/// parameters, and the type list made last holds the types that `T1`, ...,
/// `Tn` resolve to, in that order. A tuple type resolves likewise to a tuple
/// of its element types, made last.
pub proof fn lemma_read_type_arguments(
    m: VmModel,
    file: FileId,
    namespace_id: Option<NamespaceId>,
    ty: ast::Type,
)
    ensures
        ({
            let (r, res) = read_type_spec(m, file, namespace_id, ty);
            let written = match ty {
                ast::Type::Basic(b) => b.params@,
                ast::Type::Tuple(t) => t.subtypes@,
            };
            let last = r.type_lists[r.type_lists.len() - 1];
            &&& (res matches Some(SourceType::Class(c, l)) ==> {
                &&& ty matches ast::Type::Basic(b) && lookup_type(m, namespace_id, b.name) == Some(
                    TypeSym::Class(c),
                )
                &&& r.type_lists.len() > 0
                &&& l == TypeListId((r.type_lists.len() - 1) as usize)
                &&& last.len() == written.len()
                &&& last.len() == m.classes[c.0 as int].type_params
                &&& forall|k: int|
                    0 <= k < written.len() ==> Some(#[trigger] last[k]) == read_type_spec(
                        read_types_spec(m, file, namespace_id, written, k as nat).0,
                        file,
                        namespace_id,
                        written[k],
                    ).1
            })
            &&& (res matches Some(SourceType::Tuple(l)) ==> {
                &&& ty is Tuple
                &&& r.type_lists.len() > 0
                &&& l == TypeListId((r.type_lists.len() - 1) as usize)
                &&& last.len() == written.len()
                &&& written.len() > 0
                &&& forall|k: int|
                    0 <= k < written.len() ==> Some(#[trigger] last[k]) == read_type_spec(
                        read_types_spec(m, file, namespace_id, written, k as nat).0,
                        file,
                        namespace_id,
                        written[k],
                    ).1
            })
        }),
{
    let written = match ty {
        ast::Type::Basic(b) => b.params@,
        ast::Type::Tuple(t) => t.subtypes@,
    };
    lemma_read_types_in_order(m, file, namespace_id, written, written.len());
    lemma_read_types_reports_iff_fails(m, file, namespace_id, written, written.len());
    let (m1, args, ok) = read_types_spec(m, file, namespace_id, written, written.len());
    assert(m1.classes == m.classes);
}

/// A bare name that stands for no type in the namespace nor in the root
/// does not resolve, and exactly one error is added: `UnknownType` with the
/// text of the name, at the place of the name.
pub proof fn lemma_read_unknown_type(
    m: VmModel,
    file: FileId,
    namespace_id: Option<NamespaceId>,
    b: ast::TypeBasicType,
)
    requires
        lookup_type(m, namespace_id, b.name) is None,
    ensures
        read_type_spec(m, file, namespace_id, ast::Type::Basic(b)) == (
            m.report(file, b.pos, SemError::UnknownType(m.names[b.name as int])),
            None::<SourceType>,
        ),
{
}

/// A name declared as a type in the namespace stands for that type there,
/// whatever the root declares; a name not declared in the namespace stands
/// for what the root declares.
pub proof fn lemma_lookup_prefers_namespace(m: VmModel, ns: NamespaceId, name: Name)
    ensures
        m.namespaces[ns.0 as int].table.types.contains_key(name) ==> lookup_type(m, Some(ns), name)
            == Some(m.namespaces[ns.0 as int].table.types[name]),
        !m.namespaces[ns.0 as int].table.types.contains_key(name) ==> lookup_type(
            m,
            Some(ns),
            name,
        ) == lookup_type(m, None, name),
        lookup_type(m, None, name) == m.namespaces[0].table.types.get(name),
{
}

} // verus!
