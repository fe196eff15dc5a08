use vstd::prelude::*;

use std::sync::Arc;

use crate::ast::{self, basic_name_without_type_params, type_pos};
use crate::error::msg::{SemError, SemErrorAndPos};
use crate::semck::{
    lemma_lookup_type_wf, lemma_read_type_arguments, lemma_read_type_class_exists, lemma_read_type_reports_iff_fails,
    lookup_type, lookup_type_exec, lookup_wf, read_type_namespace, read_type_spec, read_types_spec,
};
use crate::interner::Name;
use crate::sym::TypeSym;
use crate::ty::{spec_cls_id, SourceType};
use crate::vm::{
    new_fct_spec, ClassId, ClassModel, Fct, FctId, FctKind, FctParent, FileId, ImplId, ImplModel, NamespaceId,
    TraitId, VmModel, VM,
};

verus! {

/// Shares the syntax tree of an impl block.
#[verifier::external_body]
fn share_impl_ast(ast: &Arc<ast::Impl>) -> (r: Arc<ast::Impl>)
    ensures
        *r == **ast,
{
    Arc::clone(ast)
}

/// Every impl block names a trait (`impl Trait for Class`).
pub open spec fn impls_name_traits(m: VmModel) -> bool {
    forall|i: int| 0 <= i < m.impls.len() ==> (#[trigger] m.impls[i]).ast.trait_type is Some
}

/// The function that method `method` of impl block `impl_id` becomes.
pub open spec fn method_fct(
    m: VmModel,
    impl_id: int,
    file_id: FileId,
    namespace_id: Option<NamespaceId>,
    method: ast::Function,
) -> Fct {
    let kind = if method.internal {
        FctKind::Definition
    } else {
        FctKind::Source
    };
    Fct {
        id: FctId(m.fcts.len() as usize),
        ..new_fct_spec(file_id, namespace_id, method, FctParent::Impl(ImplId(impl_id as usize)), kind)
    }
}

/// The state after visiting `method` of impl block `impl_id`: a method
/// without a body that is not internal is reported as `MissingFctBody`; the
/// method becomes a new function, which is added to the methods of the impl
/// block.
pub open spec fn visit_method_spec(
    m: VmModel,
    impl_id: int,
    file_id: FileId,
    namespace_id: Option<NamespaceId>,
    method: ast::Function,
) -> VmModel {
    let m1 = if !method.has_block && !method.internal {
        m.report(file_id, method.pos, SemError::MissingFctBody)
    } else {
        m
    };
    let fct = method_fct(m1, impl_id, file_id, namespace_id, method);
    let imp = m1.impls[impl_id];
    VmModel {
        fcts: m1.fcts.push(fct),
        impls: m1.impls.update(impl_id, ImplModel { methods: imp.methods.push(fct.id), ..imp }),
        ..m1
    }
}

/// The state after visiting the first `n` of `methods` in order.
pub open spec fn visit_methods_spec(
    m: VmModel,
    impl_id: int,
    file_id: FileId,
    namespace_id: Option<NamespaceId>,
    methods: Seq<ast::Function>,
    n: nat,
) -> VmModel
    decreases n,
{
    if n == 0 {
        m
    } else {
        visit_method_spec(
            visit_methods_spec(m, impl_id, file_id, namespace_id, methods, (n - 1) as nat),
            impl_id,
            file_id,
            namespace_id,
            methods[n - 1],
        )
    }
}

pub open spec fn with_impl_trait(m: VmModel, impl_id: int, trait_id: TraitId) -> VmModel {
    VmModel {
        impls: m.impls.update(impl_id, ImplModel { trait_id: Some(trait_id), ..m.impls[impl_id] }),
        ..m
    }
}

pub open spec fn with_impl_class_ty(m: VmModel, impl_id: int, ty: SourceType) -> VmModel {
    VmModel {
        impls: m.impls.update(impl_id, ImplModel { class_ty: ty, ..m.impls[impl_id] }),
        ..m
    }
}

/// The state after recording that class `cls` implements `trait_id`
/// through impl block `impl_id`.
pub open spec fn with_class_impl(m: VmModel, cls: int, trait_id: TraitId, impl_id: ImplId) -> VmModel {
    let c = m.classes[cls];
    VmModel {
        classes: m.classes.update(
            cls,
            ClassModel { traits: c.traits.push(trait_id), impls: c.impls.push(impl_id), ..c },
        ),
        ..m
    }
}

/// What the check does once the methods are visited. An impl block with
/// type parameters, or whose trait is written with type arguments or is not
/// a bare name, is reported as `Unimplemented`. Otherwise the trait is
/// looked up (`ExpectedTrait` when the name is not a trait) and the class
/// type is resolved (`ClassExpected` when it is not a class); when both are
/// known, the class records the trait and the impl block.
pub open spec fn impl_check_rest(m: VmModel, impl_id: int, ast: ast::Impl) -> VmModel {
    let imp = m.impls[impl_id];
    let file_id = imp.file_id;
    if ast.type_params is Some {
        m.report(file_id, ast.pos, SemError::Unimplemented)
    } else {
        match ast.trait_type {
            None => m.report(file_id, ast.pos, SemError::Unimplemented),
            Some(trait_type) => match basic_name_without_type_params(trait_type) {
                None => m.report(file_id, ast.pos, SemError::Unimplemented),
                Some(trait_name) => {
                    let m1 = match lookup_type(m, imp.namespace_id, trait_name) {
                        Some(TypeSym::Trait(trait_id)) => with_impl_trait(m, impl_id, trait_id),
                        _ => m.report(
                            file_id,
                            ast.pos,
                            SemError::ExpectedTrait(m.names[trait_name as int]),
                        ),
                    };
                    let (m2, class_ty) = read_type_spec(
                        m1,
                        file_id,
                        imp.namespace_id,
                        ast.class_type,
                    );
                    let m3 = match class_ty {
                        Some(ty) => if spec_cls_id(ty) is Some {
                            with_impl_class_ty(m2, impl_id, ty)
                        } else {
                            m2.report(file_id, type_pos(ast.class_type), SemError::ClassExpected)
                        },
                        None => m2,
                    };
                    link_class(m3, impl_id)
                },
            },
        }
    }
}

/// When the trait and the class of impl block `impl_id` are both known, the
/// class records the trait and the impl block.
pub open spec fn link_class(m: VmModel, impl_id: int) -> VmModel {
    let imp = m.impls[impl_id];
    match (imp.trait_id, imp.class_ty) {
        (Some(trait_id), SourceType::Class(cls_id, _)) => with_class_impl(
            m,
            cls_id.0 as int,
            trait_id,
            ImplId(impl_id as usize),
        ),
        _ => m,
    }
}

/// The state after checking impl block `impl_id`.
pub open spec fn impl_check_spec(m: VmModel, impl_id: int) -> VmModel {
    let imp = m.impls[impl_id];
    impl_check_rest(
        visit_methods_spec(
            m,
            impl_id,
            imp.file_id,
            imp.namespace_id,
            imp.ast.methods@,
            imp.ast.methods@.len(),
        ),
        impl_id,
        imp.ast,
    )
}

/// The state after checking the first `n` impl blocks in order.
pub open spec fn impls_check_spec(m: VmModel, n: nat) -> VmModel
    decreases n,
{
    if n == 0 {
        m
    } else {
        impl_check_spec(impls_check_spec(m, (n - 1) as nat), n - 1)
    }
}

/// Checks every impl block of the VM, in order.
pub fn check(vm: &mut VM)
    requires
        old(vm)@.wf(),
        impls_name_traits(old(vm)@),
    ensures
        final(vm)@ == impls_check_spec(old(vm)@, old(vm)@.impls.len()),
        final(vm)@.wf(),
{
    let ghost m0 = vm@;
    let n = vm.impls.len();
    let mut i: usize = 0;
    while i < n
        invariant
            i <= n,
            n == m0.impls.len(),
            vm@ == impls_check_spec(m0, i as nat),
            vm@.wf(),
            impls_name_traits(vm@),
            vm@.impls.len() == n,
        decreases n - i,
    {
        proof {
            assert(vm@.impls[i as int] == vm.impls@[i as int]@);
        }
        let (impl_id, file_id, namespace_id, ast) = {
            let ximpl = &vm.impls[i];
            (ximpl.id, ximpl.file_id, ximpl.namespace_id, share_impl_ast(&ximpl.ast))
        };
        proof {
            assert(vm@.impl_wf(i as int));
        }
        let implck = ImplCheck { file_id, impl_id, namespace_id, ast: &ast };
        implck.check(vm);
        i = i + 1;
    }
}

struct ImplCheck<'x> {
    file_id: FileId,
    impl_id: ImplId,
    namespace_id: Option<NamespaceId>,
    ast: &'x ast::Impl,
}

impl<'x> ImplCheck<'x> {
    /// The check is set up for impl block `impl_id` of the state.
    spec fn matches(&self, m: VmModel) -> bool {
        let imp = m.impls[self.impl_id.0 as int];
        &&& self.impl_id.0 < m.impls.len()
        &&& imp.file_id == self.file_id
        &&& imp.namespace_id == self.namespace_id
        &&& imp.ast == *self.ast
    }

    fn check(&self, vm: &mut VM)
        requires
            old(vm)@.wf(),
            impls_name_traits(old(vm)@),
            self.matches(old(vm)@),
        ensures
            final(vm)@ == impl_check_spec(old(vm)@, self.impl_id.0 as int),
            final(vm)@.wf(),
            impls_name_traits(final(vm)@),
            final(vm)@.impls.len() == old(vm)@.impls.len(),
    {
        let ghost m0 = vm@;
        let ghost i = self.impl_id.0 as int;
        let n = self.ast.methods.len();
        let mut k: usize = 0;
        while k < n
            invariant
                k <= n,
                i == self.impl_id.0 as int,
                n == self.ast.methods@.len(),
                vm@ == visit_methods_spec(
                    m0,
                    i,
                    self.file_id,
                    self.namespace_id,
                    self.ast.methods@,
                    k as nat,
                ),
                vm@.wf(),
                impls_name_traits(vm@),
                self.matches(vm@),
                vm@.impls.len() == m0.impls.len(),
            decreases n - k,
        {
            let method = &self.ast.methods[k];
            proof {
                assert(*method == self.ast.methods@[k as int]);
            }
            self.visit_method(vm, method);
            k = k + 1;
        }
        proof {
            assert(self.ast.methods@.len() == m0.impls[i].ast.methods@.len());
        }
        self.check_rest(vm);
    }

    fn visit_method(&self, vm: &mut VM, method: &ast::Function)
        requires
            old(vm)@.wf(),
            impls_name_traits(old(vm)@),
            self.matches(old(vm)@),
        ensures
            final(vm)@ == visit_method_spec(
                old(vm)@,
                self.impl_id.0 as int,
                self.file_id,
                self.namespace_id,
                *method,
            ),
            final(vm)@.wf(),
            impls_name_traits(final(vm)@),
            self.matches(final(vm)@),
            final(vm)@.impls.len() == old(vm)@.impls.len(),
    {
        let ghost m0 = vm@;
        let ghost i = self.impl_id.0 as int;
        if !method.has_block && !method.internal {
            vm.diag.report(self.file_id, method.pos, SemError::MissingFctBody);
            proof {
                assert(vm@ =~= m0.report(self.file_id, method.pos, SemError::MissingFctBody));
            }
        }
        let ghost m1 = vm@;
        let kind = if method.internal {
            FctKind::Definition
        } else {
            FctKind::Source
        };
        let parent = FctParent::Impl(self.impl_id);
        let fct = Fct::new(self.file_id, self.namespace_id, method, parent, kind);
        let fctid = vm.add_fct(fct);
        proof {
            assert(vm@.impls[i] == vm.impls@[i]@);
        }
        vm.impls[self.impl_id.0].methods.push(fctid);
        proof {
            let f = method_fct(m1, i, self.file_id, self.namespace_id, *method);
            let imp = m1.impls[i];
            assert(vm@.impls =~= m1.impls.update(i, ImplModel { methods: imp.methods.push(f.id), ..imp }));
            assert(vm@ =~= visit_method_spec(m0, i, self.file_id, self.namespace_id, *method));
            assert(m1.fcts == m0.fcts);
            assert forall|j: int| 0 <= j < vm@.fcts.len() implies (#[trigger] vm@.fcts[j]).id.0 == j by {
                if j < m0.fcts.len() {
                    assert(vm@.fcts[j] == m0.fcts[j]);
                    assert(m0.fcts[j].id.0 == j);
                } else {
                    assert(vm@.fcts[j].id == fctid);
                    assert(fctid.0 == m1.fcts.len());
                }
            }
            lemma_wf_step(m0, vm@);
        }
    }

    fn check_rest(&self, vm: &mut VM)
        requires
            old(vm)@.wf(),
            impls_name_traits(old(vm)@),
            self.matches(old(vm)@),
        ensures
            final(vm)@ == impl_check_rest(old(vm)@, self.impl_id.0 as int, *self.ast),
            final(vm)@.wf(),
            impls_name_traits(final(vm)@),
            final(vm)@.impls.len() == old(vm)@.impls.len(),
    {
        let ghost m0 = vm@;
        let ghost i = self.impl_id.0 as int;
        let iu = self.impl_id.0;
        proof {
            assert(m0.impl_wf(i));
        }
        if self.ast.type_params.is_some() {
            // Type parameters for impl blocks are not supported yet.
            vm.diag.report(self.file_id, self.ast.pos, SemError::Unimplemented);
            proof {
                assert(vm@ =~= m0.report(self.file_id, self.ast.pos, SemError::Unimplemented));
                m0.lemma_report_wf(self.file_id, self.ast.pos, SemError::Unimplemented);
            }
            return;
        }
        match &self.ast.trait_type {
            Some(trait_type) => {
                match trait_type.to_basic_without_type_params() {
                    Some(trait_name) => {
                        proof {
                            lemma_lookup_type_wf(m0, self.namespace_id, trait_name);
                        }
                        match lookup_type_exec(vm, self.namespace_id, trait_name) {
                            Some(TypeSym::Trait(trait_id)) => {
                                proof {
                                    assert(vm@.impls[i] == vm.impls@[i]@);
                                }
                                vm.impls[iu].trait_id = Some(trait_id);
                                proof {
                                    assert(vm@.impls =~= with_impl_trait(m0, i, trait_id).impls);
                                    assert(vm@ =~= with_impl_trait(m0, i, trait_id));
                                    lemma_wf_step(m0, vm@);
                                }
                            },
                            _ => {
                                let name = vm.interner.str(trait_name).clone();
                                vm.diag.report(
                                    self.file_id,
                                    self.ast.pos,
                                    SemError::ExpectedTrait(name),
                                );
                                proof {
                                    let e = SemError::ExpectedTrait(m0.names[trait_name as int]);
                                    assert(vm@ =~= m0.report(self.file_id, self.ast.pos, e));
                                    m0.lemma_report_wf(self.file_id, self.ast.pos, e);
                                }
                            },
                        }
                    },
                    None => {
                        // Traits with type arguments are not supported yet.
                        vm.diag.report(self.file_id, self.ast.pos, SemError::Unimplemented);
                        proof {
                            assert(vm@ =~= m0.report(
                                self.file_id,
                                self.ast.pos,
                                SemError::Unimplemented,
                            ));
                            m0.lemma_report_wf(self.file_id, self.ast.pos, SemError::Unimplemented);
                        }
                        return;
                    },
                }
            },
            None => {
                // Extension blocks (impl blocks without a trait) are not
                // supported yet.
                vm.diag.report(self.file_id, self.ast.pos, SemError::Unimplemented);
                proof {
                    assert(vm@ =~= m0.report(self.file_id, self.ast.pos, SemError::Unimplemented));
                    m0.lemma_report_wf(self.file_id, self.ast.pos, SemError::Unimplemented);
                }
                return;
            },
        }
        let ghost m1 = vm@;
        proof {
            assert(m1.impl_wf(i));
        }
        let class_ty = read_type_namespace(vm, self.file_id, self.namespace_id, &self.ast.class_type);
        let ghost m2 = vm@;
        proof {
            m1.lemma_wf_errors_and_lists(m2.errors, m2.type_lists);
        }
        match class_ty {
            Some(class_ty) => {
                if class_ty.cls_id().is_some() {
                    proof {
                        assert(vm@.impls[i] == vm.impls@[i]@);
                    }
                    vm.impls[iu].class_ty = class_ty;
                    proof {
                        assert(vm@.impls =~= with_impl_class_ty(m2, i, class_ty).impls);
                        assert(vm@ =~= with_impl_class_ty(m2, i, class_ty));
                        lemma_wf_step(m2, vm@);
                    }
                } else {
                    let pos = self.ast.class_type.pos();
                    vm.diag.report(self.file_id, pos, SemError::ClassExpected);
                    proof {
                        assert(vm@ =~= m2.report(self.file_id, pos, SemError::ClassExpected));
                        m2.lemma_report_wf(self.file_id, pos, SemError::ClassExpected);
                    }
                }
            },
            None => {},
        }
        let ghost m3 = vm@;
        proof {
            assert(m3.impl_wf(i));
            assert(vm@.impls[i] == vm.impls@[i]@);
        }
        if vm.impls[iu].trait_id.is_some() && !vm.impls[iu].class_ty.is_error() {
            let cls_id = vm.impls[iu].cls_id();
            let trait_id = vm.impls[iu].trait_id();
            let impl_id = vm.impls[iu].id;
            proof {
                assert(vm@.classes[cls_id.0 as int] == vm.classes@[cls_id.0 as int]@);
            }
            vm.classes[cls_id.0].traits.push(trait_id);
            vm.classes[cls_id.0].impls.push(impl_id);
            proof {
                let target = with_class_impl(m3, cls_id.0 as int, trait_id, impl_id);
                assert(vm@.classes =~= target.classes);
                assert(vm@ =~= target);
                lemma_wf_step(m3, vm@);
            }
        }
    }
}

/// A state that differs from a well-formed one only in its errors, type
/// lists, functions, the methods, trait and (well-formed) class type of impl
/// blocks, and the traits and impl blocks recorded for classes, is well
/// formed.
proof fn lemma_wf_step(m: VmModel, m2: VmModel)
    requires
        m.wf(),
        m2.names == m.names,
        m2.namespaces == m.namespaces,
        m2.traits == m.traits,
        m2.enums == m.enums,
        m2.imports == m.imports,
        m2.consts == m.consts,
        m2.classes.len() == m.classes.len(),
        forall|j: int|
            0 <= j < m.classes.len() ==> {
                &&& (#[trigger] m2.classes[j]).id == m.classes[j].id
                &&& m2.classes[j].traits.len() == m2.classes[j].impls.len()
            },
        forall|j: int| 0 <= j < m2.fcts.len() ==> (#[trigger] m2.fcts[j]).id.0 == j,
        m2.impls.len() == m.impls.len(),
        forall|j: int|
            0 <= j < m.impls.len() ==> {
                &&& (#[trigger] m2.impls[j]).id == m.impls[j].id
                &&& m2.impls[j].namespace_id == m.impls[j].namespace_id
                &&& m2.impls[j].ast == m.impls[j].ast
                &&& (m2.impls[j].class_ty == m.impls[j].class_ty || m2.class_ty_wf(
                    m2.impls[j].class_ty,
                ))
            },
    ensures
        m2.wf(),
{
    assert forall|j: int| 0 <= j < m2.namespaces.len() implies m2.table_wf(
        #[trigger] m2.namespaces[j].table,
    ) by {
        assert(m.table_wf(m.namespaces[j].table));
    }
    assert forall|j: int| 0 <= j < m2.impls.len() implies #[trigger] m2.impl_wf(j) by {
        assert(m.impl_wf(j));
        assert(m2.impls[j].id == m.impls[j].id);
    }
    assert forall|j: int| 0 <= j < m2.imports.len() implies m2.import_wf(
        #[trigger] m2.imports[j],
    ) by {
        assert(m.import_wf(m.imports[j]));
    }
}

/// Visiting the first `n` methods appends one function per method, in order,
/// and appends their ids to the methods of the impl block; it changes no
/// class, and only adds errors.
proof fn lemma_visit_methods(
    m: VmModel,
    impl_id: int,
    file_id: FileId,
    namespace_id: Option<NamespaceId>,
    methods: Seq<ast::Function>,
    n: nat,
)
    requires
        0 <= impl_id < m.impls.len(),
        n <= methods.len(),
    ensures
        ({
            let r = visit_methods_spec(m, impl_id, file_id, namespace_id, methods, n);
            let base = m.fcts.len();
            &&& r.fcts.len() == base + n
            &&& r.fcts.subrange(0, base as int) == m.fcts
            &&& forall|k: int|
                0 <= k < n ==> #[trigger] r.fcts[base + k] == method_fct_at(
                    impl_id,
                    file_id,
                    namespace_id,
                    methods[k],
                    base + k,
                )
            &&& r.impls.len() == m.impls.len()
            &&& r.impls[impl_id].methods == m.impls[impl_id].methods + Seq::new(
                n,
                |k: int| FctId((base + k) as usize),
            )
            &&& forall|j: int|
                0 <= j < m.impls.len() && j != impl_id ==> #[trigger] r.impls[j] == m.impls[j]
            &&& r.impls[impl_id] == ImplModel { methods: r.impls[impl_id].methods, ..m.impls[impl_id] }
            &&& r.classes == m.classes
            &&& r.namespaces == m.namespaces
            &&& r.enums == m.enums
            &&& r.names == m.names
            &&& r.type_lists == m.type_lists
            &&& r.errors.len() >= m.errors.len()
            &&& r.errors.subrange(0, m.errors.len() as int) == m.errors
        }),
    decreases n,
{
    let base = m.fcts.len();
    if n == 0 {
        assert(m.fcts.subrange(0, base as int) =~= m.fcts);
        assert(m.errors.subrange(0, m.errors.len() as int) =~= m.errors);
        assert(m.impls[impl_id].methods + Seq::new(0, |k: int| FctId((base + k) as usize))
            =~= m.impls[impl_id].methods);
    } else {
        lemma_visit_methods(m, impl_id, file_id, namespace_id, methods, (n - 1) as nat);
        let p = visit_methods_spec(m, impl_id, file_id, namespace_id, methods, (n - 1) as nat);
        let r = visit_methods_spec(m, impl_id, file_id, namespace_id, methods, n);
        assert(r.fcts.subrange(0, base as int) =~= m.fcts) by {
            assert(r.fcts.subrange(0, base as int) =~= p.fcts.subrange(0, base as int));
        }
        assert(r.impls[impl_id].methods =~= m.impls[impl_id].methods + Seq::new(
            n,
            |k: int| FctId((base + k) as usize),
        ));
        assert(r.errors.subrange(0, m.errors.len() as int) =~= m.errors) by {
            assert(r.errors.subrange(0, m.errors.len() as int) =~= p.errors.subrange(
                0,
                m.errors.len() as int,
            ));
        }
    }
}

/// The function that method `method` becomes when it gets id `id`.
pub open spec fn method_fct_at(
    impl_id: int,
    file_id: FileId,
    namespace_id: Option<NamespaceId>,
    method: ast::Function,
    id: int,
) -> Fct {
    let kind = if method.internal {
        FctKind::Definition
    } else {
        FctKind::Source
    };
    Fct {
        id: FctId(id as usize),
        ..new_fct_spec(file_id, namespace_id, method, FctParent::Impl(ImplId(impl_id as usize)), kind)
    }
}

/// After the methods are visited, the check adds no function and changes no
/// list of methods; it only adds errors, and it changes at most one class:
/// the class of the impl block, which records the trait and the impl block.
proof fn lemma_check_rest_frame(m: VmModel, impl_id: int, ast: ast::Impl)
    requires
        0 <= impl_id < m.impls.len(),
        lookup_wf(m, m.impls[impl_id].namespace_id),
        m.class_ty_wf(m.impls[impl_id].class_ty),
    ensures
        ({
            let r = impl_check_rest(m, impl_id, ast);
            &&& r.fcts == m.fcts
            &&& r.impls.len() == m.impls.len()
            &&& r.impls[impl_id].methods == m.impls[impl_id].methods
            &&& forall|j: int|
                0 <= j < m.impls.len() && j != impl_id ==> #[trigger] r.impls[j] == m.impls[j]
            &&& r.errors.len() >= m.errors.len()
            &&& r.errors.subrange(0, m.errors.len() as int) == m.errors
            &&& r.classes.len() == m.classes.len()
            &&& forall|c: int|
                0 <= c < m.classes.len() ==> #[trigger] r.classes[c] == m.classes[c] || {
                    &&& r.impls[impl_id].trait_id is Some
                    &&& spec_cls_id(r.impls[impl_id].class_ty) == Some(ClassId(c as usize))
                    &&& r.classes[c] == ClassModel {
                        traits: m.classes[c].traits.push(r.impls[impl_id].trait_id->0),
                        impls: m.classes[c].impls.push(ImplId(impl_id as usize)),
                        ..m.classes[c]
                    }
                }
        }),
{
    let r = impl_check_rest(m, impl_id, ast);
    let imp = m.impls[impl_id];
    if ast.type_params is Some {
        assert(r.errors.subrange(0, m.errors.len() as int) =~= m.errors);
    } else {
        match ast.trait_type {
            None => {
                assert(r.errors.subrange(0, m.errors.len() as int) =~= m.errors);
            },
            Some(trait_type) => match basic_name_without_type_params(trait_type) {
                None => {
                    assert(r.errors.subrange(0, m.errors.len() as int) =~= m.errors);
                },
                Some(trait_name) => {
                    let m1 = match lookup_type(m, imp.namespace_id, trait_name) {
                        Some(TypeSym::Trait(trait_id)) => with_impl_trait(m, impl_id, trait_id),
                        _ => m.report(
                            imp.file_id,
                            ast.pos,
                            SemError::ExpectedTrait(m.names[trait_name as int]),
                        ),
                    };
                    assert(m1.errors.subrange(0, m.errors.len() as int) =~= m.errors);
                    lemma_read_type_reports_iff_fails(m1, imp.file_id, imp.namespace_id, ast.class_type);
                    lemma_read_type_class_exists(m1, imp.file_id, imp.namespace_id, ast.class_type);
                    let (m2, class_ty) = read_type_spec(
                        m1,
                        imp.file_id,
                        imp.namespace_id,
                        ast.class_type,
                    );
                    let m3 = match class_ty {
                        Some(ty) => if spec_cls_id(ty) is Some {
                            with_impl_class_ty(m2, impl_id, ty)
                        } else {
                            m2.report(imp.file_id, type_pos(ast.class_type), SemError::ClassExpected)
                        },
                        None => m2,
                    };
                    assert(m2.errors.subrange(0, m.errors.len() as int) =~= m2.errors.subrange(
                        0,
                        m1.errors.len() as int,
                    ).subrange(0, m.errors.len() as int));
                    assert(m3.errors.subrange(0, m.errors.len() as int) =~= m.errors);
                    assert(m3.classes == m.classes);
                    assert(m3.fcts == m.fcts);
                    assert(m3.impls.len() == m.impls.len());
                    assert(m3.impls[impl_id].methods == m.impls[impl_id].methods);
                    assert(forall|j: int|
                        0 <= j < m.impls.len() && j != impl_id ==> #[trigger] m3.impls[j]
                            == m.impls[j]);
                    assert(r == link_class(m3, impl_id));
                    let imp3 = m3.impls[impl_id];
                    assert(r.impls == m3.impls);
                    match (imp3.trait_id, imp3.class_ty) {
                        (Some(trait_id), SourceType::Class(cls_id, _)) => {
                            assert forall|c: int| 0 <= c < m.classes.len() implies #[trigger] r.classes[c]
                                == m.classes[c] || {
                                &&& r.impls[impl_id].trait_id is Some
                                &&& spec_cls_id(r.impls[impl_id].class_ty) == Some(ClassId(c as usize))
                                &&& r.classes[c] == ClassModel {
                                    traits: m.classes[c].traits.push(r.impls[impl_id].trait_id->0),
                                    impls: m.classes[c].impls.push(ImplId(impl_id as usize)),
                                    ..m.classes[c]
                                }
                            } by {
                                if c == cls_id.0 as int {
                                    assert(ClassId(c as usize) == cls_id);
                                }
                            }
                        },
                        _ => {},
                    }
                },
            },
        }
    }
}

/// Every method of an impl block becomes a new function whose parent is the
/// impl block, in the order of the methods, and the impl block lists these
/// functions among its methods; the functions that existed stay as they
/// were.
pub proof fn lemma_impl_check_methods(m: VmModel, impl_id: int)
    requires
        m.wf(),
        0 <= impl_id < m.impls.len(),
    ensures
        ({
            let r = impl_check_spec(m, impl_id);
            let imp = m.impls[impl_id];
            let methods = imp.ast.methods@;
            let base = m.fcts.len();
            &&& r.fcts.len() == base + methods.len()
            &&& r.fcts.subrange(0, base as int) == m.fcts
            &&& forall|k: int|
                0 <= k < methods.len() ==> #[trigger] r.fcts[base + k] == method_fct_at(
                    impl_id,
                    imp.file_id,
                    imp.namespace_id,
                    methods[k],
                    base + k,
                )
            &&& forall|k: int|
                0 <= k < methods.len() ==> {
                    let f = #[trigger] r.fcts[base + k];
                    &&& f.parent == FctParent::Impl(ImplId(impl_id as usize))
                    &&& f.ast == methods[k]
                    &&& f.name == methods[k].name
                    &&& f.pos == methods[k].pos
                    &&& f.file_id == imp.file_id
                    &&& f.namespace_id == imp.namespace_id
                    &&& (f.kind == FctKind::Definition) == methods[k].internal
                }
            &&& r.impls[impl_id].methods == imp.methods + Seq::new(
                methods.len(),
                |k: int| FctId((base + k) as usize),
            )
            &&& r.impls.len() == m.impls.len()
            &&& forall|j: int|
                0 <= j < m.impls.len() && j != impl_id ==> #[trigger] r.impls[j] == m.impls[j]
        }),
{
    let imp = m.impls[impl_id];
    let methods = imp.ast.methods@;
    lemma_visit_methods(m, impl_id, imp.file_id, imp.namespace_id, methods, methods.len());
    let v = visit_methods_spec(m, impl_id, imp.file_id, imp.namespace_id, methods, methods.len());
    assert(m.impl_wf(impl_id));
    assert forall|i: int| 0 <= i < v.namespaces.len() implies v.table_wf(
        #[trigger] v.namespaces[i].table,
    ) by {
        assert(m.table_wf(m.namespaces[i].table));
    }
    lemma_check_rest_frame(v, impl_id, imp.ast);
}

/// Checking an impl block only adds errors, and a class changes only when
/// the check resolved both the trait and the class of the impl block: that
/// class then records the trait and the impl block.
pub proof fn lemma_impl_check_links_class(m: VmModel, impl_id: int, cls: int)
    requires
        m.wf(),
        0 <= impl_id < m.impls.len(),
        0 <= cls < m.classes.len(),
    ensures
        ({
            let r = impl_check_spec(m, impl_id);
            &&& r.errors.len() >= m.errors.len()
            &&& r.errors.subrange(0, m.errors.len() as int) == m.errors
            &&& r.classes.len() == m.classes.len()
            &&& r.classes[cls] == m.classes[cls] || {
                &&& r.impls[impl_id].trait_id is Some
                &&& spec_cls_id(r.impls[impl_id].class_ty) == Some(ClassId(cls as usize))
                &&& r.classes[cls].traits == m.classes[cls].traits.push(
                    r.impls[impl_id].trait_id->0,
                )
                &&& r.classes[cls].impls == m.classes[cls].impls.push(ImplId(impl_id as usize))
            }
        }),
{
    let imp = m.impls[impl_id];
    let methods = imp.ast.methods@;
    lemma_visit_methods(m, impl_id, imp.file_id, imp.namespace_id, methods, methods.len());
    let v = visit_methods_spec(m, impl_id, imp.file_id, imp.namespace_id, methods, methods.len());
    assert(m.impl_wf(impl_id));
    assert forall|i: int| 0 <= i < v.namespaces.len() implies v.table_wf(
        #[trigger] v.namespaces[i].table,
    ) by {
        assert(m.table_wf(m.namespaces[i].table));
    }
    lemma_check_rest_frame(v, impl_id, imp.ast);
    let r = impl_check_spec(m, impl_id);
    assert(r.errors.subrange(0, m.errors.len() as int) =~= r.errors.subrange(
        0,
        v.errors.len() as int,
    ).subrange(0, m.errors.len() as int));
}

/// The methods of impl block `impl_id` are distinct functions that exist,
/// each with the impl block as its parent.
pub open spec fn impl_methods_wf(m: VmModel, impl_id: int) -> bool {
    let ms = m.impls[impl_id].methods;
    &&& forall|p: int, q: int| 0 <= p < q < ms.len() ==> #[trigger] ms[p] != #[trigger] ms[q]
    &&& forall|k: int|
        0 <= k < ms.len() ==> {
            &&& (#[trigger] ms[k]).0 < m.fcts.len()
            &&& m.fcts[ms[k].0 as int].parent == FctParent::Impl(ImplId(impl_id as usize))
        }
}

/// Checking an impl block keeps its methods distinct functions that exist,
/// each with the impl block as its parent; it leaves the methods of the
/// other impl blocks and the functions that existed as they were.
pub proof fn lemma_impl_check_method_ids_distinct(m: VmModel, impl_id: int)
    requires
        m.wf(),
        0 <= impl_id < m.impls.len(),
        impl_methods_wf(m, impl_id),
        m.fcts.len() + m.impls[impl_id].ast.methods@.len() <= usize::MAX,
    ensures
        ({
            let r = impl_check_spec(m, impl_id);
            &&& impl_methods_wf(r, impl_id)
            &&& forall|j: int|
                0 <= j < m.impls.len() && j != impl_id ==> #[trigger] r.impls[j].methods
                    == m.impls[j].methods
            &&& r.fcts.subrange(0, m.fcts.len() as int) == m.fcts
        }),
{
    lemma_impl_check_methods(m, impl_id);
    let r = impl_check_spec(m, impl_id);
    let imp = m.impls[impl_id];
    let base = m.fcts.len();
    let n = imp.ast.methods@.len();
    let old_ms = imp.methods;
    let ms = r.impls[impl_id].methods;
    assert(ms == old_ms + Seq::new(n, |k: int| FctId((base + k) as usize)));
    assert forall|k: int| 0 <= k < ms.len() implies {
        &&& (#[trigger] ms[k]).0 < r.fcts.len()
        &&& r.fcts[ms[k].0 as int].parent == FctParent::Impl(ImplId(impl_id as usize))
    } by {
        if k < old_ms.len() {
            assert(ms[k] == old_ms[k]);
            assert(old_ms[k].0 < base);
            assert(r.fcts[old_ms[k].0 as int] == r.fcts.subrange(0, base as int)[old_ms[k].0 as int]);
        } else {
            let kk = k - old_ms.len();
            assert(ms[k] == FctId((base + kk) as usize));
            assert(r.fcts[base + kk] == method_fct_at(
                impl_id,
                imp.file_id,
                imp.namespace_id,
                imp.ast.methods@[kk],
                base + kk,
            ));
        }
    }
    assert forall|p: int, q: int| 0 <= p < q < ms.len() implies #[trigger] ms[p] != #[trigger] ms[q] by {
        if q < old_ms.len() {
            assert(ms[p] == old_ms[p] && ms[q] == old_ms[q]);
        } else if p < old_ms.len() {
            assert(ms[p] == old_ms[p]);
            assert(old_ms[p].0 < base);
            assert(ms[q] == FctId((base + (q - old_ms.len())) as usize));
        } else {
            assert(ms[p] == FctId((base + (p - old_ms.len())) as usize));
            assert(ms[q] == FctId((base + (q - old_ms.len())) as usize));
        }
    }
}

/// Checking an impl block keeps, for every class, as many recorded traits
/// as recorded impl blocks.
pub proof fn lemma_impl_check_keeps_class_records_aligned(m: VmModel, impl_id: int)
    requires
        m.wf(),
        0 <= impl_id < m.impls.len(),
    ensures
        ({
            let r = impl_check_spec(m, impl_id);
            &&& r.classes.len() == m.classes.len()
            &&& forall|c: int|
                0 <= c < r.classes.len() ==> (#[trigger] r.classes[c]).traits.len()
                    == r.classes[c].impls.len()
        }),
{
    let r = impl_check_spec(m, impl_id);
    let imp = m.impls[impl_id];
    let methods = imp.ast.methods@;
    lemma_visit_methods(m, impl_id, imp.file_id, imp.namespace_id, methods, methods.len());
    let v = visit_methods_spec(m, impl_id, imp.file_id, imp.namespace_id, methods, methods.len());
    assert(m.impl_wf(impl_id));
    assert forall|i: int| 0 <= i < v.namespaces.len() implies v.table_wf(
        #[trigger] v.namespaces[i].table,
    ) by {
        assert(m.table_wf(m.namespaces[i].table));
    }
    lemma_check_rest_frame(v, impl_id, imp.ast);
    assert forall|c: int| 0 <= c < r.classes.len() implies (#[trigger] r.classes[c]).traits.len()
        == r.classes[c].impls.len() by {
        lemma_impl_check_links_class(m, impl_id, c);
        assert(m.classes[c].traits.len() == m.classes[c].impls.len());
    }
}

/// Checking a fresh impl block (nothing resolved yet) records it on its
/// class exactly when the check resolved both its trait and its class: then
/// that class's traits gain the trait and its impl blocks gain the impl
/// block, at the end, and no other class changes; otherwise no class
/// changes.
pub proof fn lemma_impl_check_records_resolved_impl(m: VmModel, impl_id: int)
    requires
        m.wf(),
        0 <= impl_id < m.impls.len(),
        m.impls[impl_id].trait_id is None,
        m.impls[impl_id].class_ty is Error,
    ensures
        ({
            let r = impl_check_spec(m, impl_id);
            let imp = r.impls[impl_id];
            &&& r.classes.len() == m.classes.len()
            &&& match (imp.trait_id, imp.class_ty) {
                (Some(t), SourceType::Class(c, _)) => {
                    &&& c.0 < m.classes.len()
                    &&& r.classes[c.0 as int].traits == m.classes[c.0 as int].traits.push(t)
                    &&& r.classes[c.0 as int].impls == m.classes[c.0 as int].impls.push(
                        ImplId(impl_id as usize),
                    )
                    &&& r.classes[c.0 as int].id == m.classes[c.0 as int].id
                    &&& forall|d: int|
                        0 <= d < m.classes.len() && d != c.0 ==> #[trigger] r.classes[d]
                            == m.classes[d]
                },
                _ => r.classes == m.classes,
            }
        }),
{
    let imp = m.impls[impl_id];
    let methods = imp.ast.methods@;
    lemma_visit_methods(m, impl_id, imp.file_id, imp.namespace_id, methods, methods.len());
    let v = visit_methods_spec(m, impl_id, imp.file_id, imp.namespace_id, methods, methods.len());
    assert(m.impl_wf(impl_id));
    assert forall|i: int| 0 <= i < v.namespaces.len() implies v.table_wf(
        #[trigger] v.namespaces[i].table,
    ) by {
        assert(m.table_wf(m.namespaces[i].table));
    }
    let ast = imp.ast;
    let r = impl_check_spec(m, impl_id);
    assert(r == impl_check_rest(v, impl_id, ast));
    if ast.type_params is Some {
    } else {
        match ast.trait_type {
            None => {},
            Some(trait_type) => match basic_name_without_type_params(trait_type) {
                None => {},
                Some(trait_name) => {
                    let m1 = match lookup_type(v, imp.namespace_id, trait_name) {
                        Some(TypeSym::Trait(trait_id)) => with_impl_trait(v, impl_id, trait_id),
                        _ => v.report(
                            imp.file_id,
                            ast.pos,
                            SemError::ExpectedTrait(v.names[trait_name as int]),
                        ),
                    };
                    lemma_read_type_reports_iff_fails(m1, imp.file_id, imp.namespace_id, ast.class_type);
                    lemma_read_type_class_exists(m1, imp.file_id, imp.namespace_id, ast.class_type);
                    let (m2, class_ty) = read_type_spec(
                        m1,
                        imp.file_id,
                        imp.namespace_id,
                        ast.class_type,
                    );
                    let m3 = match class_ty {
                        Some(ty) => if spec_cls_id(ty) is Some {
                            with_impl_class_ty(m2, impl_id, ty)
                        } else {
                            m2.report(imp.file_id, type_pos(ast.class_type), SemError::ClassExpected)
                        },
                        None => m2,
                    };
                    assert(m3.classes == m.classes);
                    assert(r == link_class(m3, impl_id));
                    assert(r.impls == m3.impls);
                    let imp3 = m3.impls[impl_id];
                    match (imp3.trait_id, imp3.class_ty) {
                        (Some(t), SourceType::Class(c, _)) => {
                            assert(c.0 < m.classes.len());
                        },
                        _ => {},
                    }
                },
            },
        }
    }
}

/// The report for a method of `file` that has no body and is not
/// internal; none for any other method.
pub open spec fn missing_body_report(file_id: FileId, method: ast::Function) -> Option<
    SemErrorAndPos,
> {
    if !method.has_block && !method.internal {
        Some(SemErrorAndPos { file: file_id, pos: method.pos, msg: SemError::MissingFctBody })
    } else {
        None
    }
}

/// The reports for all methods without a body, in the order of the methods.
pub open spec fn missing_body_reports(file_id: FileId, methods: Seq<ast::Function>) -> Seq<
    SemErrorAndPos,
> {
    methods.filter_map(|f: ast::Function| missing_body_report(file_id, f))
}

proof fn lemma_visit_errors(
    m: VmModel,
    impl_id: int,
    file_id: FileId,
    namespace_id: Option<NamespaceId>,
    methods: Seq<ast::Function>,
    n: nat,
)
    requires
        0 <= impl_id < m.impls.len(),
        n <= methods.len(),
    ensures
        visit_methods_spec(m, impl_id, file_id, namespace_id, methods, n).errors == m.errors
            + missing_body_reports(file_id, methods.take(n as int)),
    decreases n,
{
    if n == 0 {
        assert(methods.take(0) =~= Seq::<ast::Function>::empty());
        assert(missing_body_reports(file_id, methods.take(0)) =~= Seq::<SemErrorAndPos>::empty());
        assert(m.errors + Seq::<SemErrorAndPos>::empty() =~= m.errors);
    } else {
        lemma_visit_errors(m, impl_id, file_id, namespace_id, methods, (n - 1) as nat);
        lemma_visit_methods(m, impl_id, file_id, namespace_id, methods, (n - 1) as nat);
        let f = |x: ast::Function| missing_body_report(file_id, x);
        methods.lemma_filter_map_take_succ(f, n - 1);
        let p = visit_methods_spec(m, impl_id, file_id, namespace_id, methods, (n - 1) as nat);
        let r = visit_methods_spec(m, impl_id, file_id, namespace_id, methods, n);
        let before = missing_body_reports(file_id, methods.take(n - 1));
        let after = missing_body_reports(file_id, methods.take(n as int));
        if !methods[n - 1].has_block && !methods[n - 1].internal {
            assert(r.errors == p.errors.push(f(methods[n - 1])->0));
            assert(r.errors =~= m.errors + after);
        } else {
            assert(r.errors == p.errors);
            assert(after =~= before);
        }
    }
}

/// Checking an impl block first reports, in the order of the methods, each
/// method without a body that is not internal, at the method's place; the
/// errors that were there before stay in front.
pub proof fn lemma_impl_check_reports_missing_bodies(m: VmModel, impl_id: int)
    requires
        m.wf(),
        0 <= impl_id < m.impls.len(),
    ensures
        ({
            let r = impl_check_spec(m, impl_id);
            let imp = m.impls[impl_id];
            let reports = missing_body_reports(imp.file_id, imp.ast.methods@);
            &&& r.errors.len() >= m.errors.len() + reports.len()
            &&& r.errors.subrange(0, (m.errors.len() + reports.len()) as int) == m.errors + reports
        }),
{
    let imp = m.impls[impl_id];
    let methods = imp.ast.methods@;
    lemma_visit_errors(m, impl_id, imp.file_id, imp.namespace_id, methods, methods.len());
    assert(methods.take(methods.len() as int) =~= methods);
    lemma_visit_methods(m, impl_id, imp.file_id, imp.namespace_id, methods, methods.len());
    let v = visit_methods_spec(m, impl_id, imp.file_id, imp.namespace_id, methods, methods.len());
    assert(m.impl_wf(impl_id));
    assert forall|i: int| 0 <= i < v.namespaces.len() implies v.table_wf(
        #[trigger] v.namespaces[i].table,
    ) by {
        assert(m.table_wf(m.namespaces[i].table));
    }
    lemma_check_rest_frame(v, impl_id, imp.ast);
}

/// The trait that `name` stands for as a type in namespace `ns`, if any.
pub open spec fn named_trait(m: VmModel, ns: Option<NamespaceId>, name: Name) -> Option<TraitId> {
    match lookup_type(m, ns, name) {
        Some(TypeSym::Trait(t)) => Some(t),
        _ => None,
    }
}

/// The class that `ty` names when it is a bare name, without type
/// arguments, that stands for a class without type parameters.
pub open spec fn plain_class(m: VmModel, ns: Option<NamespaceId>, ty: ast::Type) -> Option<ClassId> {
    match ty {
        ast::Type::Basic(b) => if b.params@.len() == 0 {
            match lookup_type(m, ns, b.name) {
                Some(TypeSym::Class(c)) => if m.classes[c.0 as int].type_params == 0 {
                    Some(c)
                } else {
                    None
                },
                _ => None,
            }
        } else {
            None
        },
        _ => None,
    }
}

/// How checking an impl block resolves its trait and its class. The trait
/// is only set when the block has no type parameters and names a trait by a
/// bare name that stands for a trait: then it is that trait. When the bare
/// name stands for no trait, the trait stays as it was and `ExpectedTrait`
/// with the text of the name is reported at the block. The class type is
/// only set to a class type, of the class that the written name stands
/// for; a bare class name without type arguments, standing for a class
/// without type parameters, sets it.
pub proof fn lemma_impl_check_resolves(m: VmModel, impl_id: int)
    requires
        m.wf(),
        0 <= impl_id < m.impls.len(),
    ensures
        ({
            let r = impl_check_spec(m, impl_id);
            let imp = m.impls[impl_id];
            let ast = imp.ast;
            let ns = imp.namespace_id;
            let trait_named = ast.type_params is None && ast.trait_type is Some
                && basic_name_without_type_params(ast.trait_type->0) is Some;
            let trait_name = basic_name_without_type_params(ast.trait_type->0)->0;
            &&& r.impls[impl_id].trait_id != imp.trait_id ==> trait_named && lookup_type(
                m,
                ns,
                trait_name,
            ) == Some(TypeSym::Trait(r.impls[impl_id].trait_id->0))
            &&& (trait_named && named_trait(m, ns, trait_name) is Some) ==> r.impls[impl_id].trait_id
                == named_trait(m, ns, trait_name)
            &&& (trait_named && named_trait(m, ns, trait_name) is None) ==> {
                &&& r.impls[impl_id].trait_id == imp.trait_id
                &&& exists|k: int|
                    m.errors.len() <= k < r.errors.len() && #[trigger] r.errors[k] == (
                    SemErrorAndPos {
                        file: imp.file_id,
                        pos: ast.pos,
                        msg: SemError::ExpectedTrait(m.names[trait_name as int]),
                    })
            }
            &&& r.impls[impl_id].class_ty != imp.class_ty ==> {
                &&& trait_named
                &&& r.impls[impl_id].class_ty matches SourceType::Class(c, _)
                &&& ast.class_type matches ast::Type::Basic(b)
                &&& lookup_type(m, ns, b.name) == Some(TypeSym::Class(c))
            }
            &&& (trait_named && plain_class(m, ns, ast.class_type) is Some) ==> spec_cls_id(
                r.impls[impl_id].class_ty,
            ) == plain_class(m, ns, ast.class_type)
        }),
{
    let imp = m.impls[impl_id];
    let methods = imp.ast.methods@;
    lemma_visit_methods(m, impl_id, imp.file_id, imp.namespace_id, methods, methods.len());
    let v = visit_methods_spec(m, impl_id, imp.file_id, imp.namespace_id, methods, methods.len());
    assert(m.impl_wf(impl_id));
    assert(v.impls[impl_id].trait_id == imp.trait_id);
    assert(v.impls[impl_id].class_ty == imp.class_ty);
    assert(v.namespaces == m.namespaces);
    assert(v.classes == m.classes);
    assert(v.names == m.names);
    let ast = imp.ast;
    let r = impl_check_spec(m, impl_id);
    assert(r == impl_check_rest(v, impl_id, ast));
    if ast.type_params is Some {
    } else {
        match ast.trait_type {
            None => {},
            Some(trait_type) => match basic_name_without_type_params(trait_type) {
                None => {},
                Some(trait_name) => {
                    assert(lookup_type(v, imp.namespace_id, trait_name) == lookup_type(
                        m,
                        imp.namespace_id,
                        trait_name,
                    ));
                    let m1 = match lookup_type(v, imp.namespace_id, trait_name) {
                        Some(TypeSym::Trait(trait_id)) => with_impl_trait(v, impl_id, trait_id),
                        _ => v.report(
                            imp.file_id,
                            ast.pos,
                            SemError::ExpectedTrait(v.names[trait_name as int]),
                        ),
                    };
                    lemma_read_type_reports_iff_fails(m1, imp.file_id, imp.namespace_id, ast.class_type);
                    lemma_read_type_arguments(m1, imp.file_id, imp.namespace_id, ast.class_type);
                    let (m2, class_ty) = read_type_spec(
                        m1,
                        imp.file_id,
                        imp.namespace_id,
                        ast.class_type,
                    );
                    let m3 = match class_ty {
                        Some(ty) => if spec_cls_id(ty) is Some {
                            with_impl_class_ty(m2, impl_id, ty)
                        } else {
                            m2.report(imp.file_id, type_pos(ast.class_type), SemError::ClassExpected)
                        },
                        None => m2,
                    };
                    assert(r == link_class(m3, impl_id));
                    assert(r.impls == m3.impls);
                    assert(m2.errors.subrange(0, m1.errors.len() as int) == m1.errors);
                    if !(lookup_type(m, imp.namespace_id, trait_name) matches Some(
                        TypeSym::Trait(_),
                    )) {
                        let e = SemErrorAndPos {
                            file: imp.file_id,
                            pos: ast.pos,
                            msg: SemError::ExpectedTrait(m.names[trait_name as int]),
                        };
                        let k = v.errors.len() as int;
                        assert(m1.errors[k] == e);
                        assert(m2.errors[k] == m2.errors.subrange(0, m1.errors.len() as int)[k]);
                        assert(m3.errors.len() >= m2.errors.len());
                        assert(m3.errors[k] == m2.errors[k]);
                        assert(r.errors[k] == e);
                    }
                    if let ast::Type::Basic(b) = ast.class_type {
                        if b.params@.len() == 0 {
                            if let Some(TypeSym::Class(c)) = lookup_type(m, imp.namespace_id, b.name) {
                                if m.classes[c.0 as int].type_params == 0 {
                                    assert(read_types_spec(m1, imp.file_id, imp.namespace_id, b.params@, 0).2);
                                    assert(lookup_type(m1, imp.namespace_id, b.name) == lookup_type(m, imp.namespace_id, b.name));
                                    assert(m1.classes == m.classes);
                                }
                            }
                        }
                    }
                },
            },
        }
    }
}

} // verus!
