use vstd::prelude::*;

use std::collections::HashMap;
use std::sync::Arc;

use crate::ast::{self, type_names_below, Position};
use crate::error::diag::Diagnostic;
use crate::interner::{Interner, Name};
use crate::sym::{SymTable, SymTableModel, TermSym, TypeSym};
use crate::ty::SourceType;
use crate::utils::GrowableVec;
use crate::vm::consts::{ConstData, ConstId, ConstValue};
use crate::vm::namespace::{namespace_names_wf, namespaces_wf};
use crate::vm::{
    ClassData, ClassId, ClassModel, EnumData, EnumId, EnumModel, FileId, ImplData, ImplId,
    ImplModel, ImportData, NamespaceData, NamespaceId, NamespaceModel, TraitData, TraitId, VmModel,
    VM,
};

verus! {

broadcast use vstd::std_specs::hash::group_hash_axioms;

pub open spec fn empty_table() -> SymTableModel {
    SymTableModel { types: Map::empty(), terms: Map::empty() }
}

/// The indices of the variant names: each name is mapped to the index of
/// its last occurrence among the first `n`.
pub open spec fn variant_indices(variants: Seq<Name>, n: nat) -> Map<Name, u32>
    decreases n,
{
    if n == 0 || n > variants.len() {
        Map::empty()
    } else {
        variant_indices(variants, (n - 1) as nat).insert(variants[n - 1], (n - 1) as u32)
    }
}

/// Each variant name of an enum whose variant names are distinct maps to its
/// position, and no other name maps to anything.
pub proof fn lemma_variant_indices(variants: Seq<Name>, n: nat)
    requires
        n <= variants.len(),
        variants.len() <= u32::MAX,
        forall|p: int, q: int| 0 <= p < q < variants.len() ==> variants[p] != variants[q],
    ensures
        forall|k: int| 0 <= k < n ==> #[trigger] variant_indices(variants, n).get(variants[k]) == Some(
            k as u32,
        ),
        forall|x: Name|
            #[trigger] variant_indices(variants, n).contains_key(x) ==> exists|k: int|
                0 <= k < n && variants[k] == x,
    decreases n,
{
    if n > 0 {
        lemma_variant_indices(variants, (n - 1) as nat);
        let prev = variant_indices(variants, (n - 1) as nat);
        let cur = variant_indices(variants, n);
        assert forall|k: int| 0 <= k < n implies #[trigger] cur.get(variants[k]) == Some(k as u32) by {
            if k < n - 1 {
                assert(variants[k] != variants[n - 1]);
                assert(prev.get(variants[k]) == Some(k as u32));
            }
        }
        assert forall|x: Name| #[trigger] cur.contains_key(x) implies exists|k: int|
            0 <= k < n && variants[k] == x by {
            if x != variants[n - 1] {
                assert(prev.contains_key(x));
            } else {
                assert(variants[n - 1] == x);
            }
        }
    }
}

impl VM {
    /// A state with only the root namespace, which is public and empty.
    pub fn new() -> (vm: VM)
        ensures
            vm@.wf(),
            vm@ == (VmModel {
                names: Seq::empty(),
                errors: Seq::empty(),
                namespaces: seq![
                    NamespaceModel {
                        id: NamespaceId(0),
                        parent: None,
                        name: None,
                        is_pub: true,
                        table: empty_table(),
                    },
                ],
                classes: Seq::empty(),
                traits: Seq::empty(),
                enums: Seq::empty(),
                impls: Seq::empty(),
                fcts: Seq::empty(),
                imports: Seq::empty(),
                consts: Seq::empty(),
                type_lists: Seq::empty(),
            }),
    {
        let mut namespaces: Vec<NamespaceData> = Vec::new();
        namespaces.push(
            NamespaceData {
                id: NamespaceId(0),
                parent: None,
                name: None,
                is_pub: true,
                table: SymTable::new(),
            },
        );
        let vm = VM {
            interner: Interner::new(),
            diag: Diagnostic::new(),
            namespaces,
            classes: Vec::new(),
            traits: Vec::new(),
            enums: Vec::new(),
            impls: Vec::new(),
            fcts: Vec::new(),
            imports: Vec::new(),
            consts: GrowableVec::new(),
            type_lists: Vec::new(),
        };
        proof {
            assert(vm@.namespaces =~= seq![
                NamespaceModel {
                    id: NamespaceId(0),
                    parent: None,
                    name: None,
                    is_pub: true,
                    table: empty_table(),
                },
            ]);
            assert(vm@.table_wf(empty_table()));
        }
        vm
    }

    /// Returns the name of `text`, interning it when it is new.
    pub fn intern(&mut self, text: &str) -> (name: Name)
        requires
            old(self)@.wf(),
        ensures
            final(self)@.wf(),
            name < final(self)@.names.len(),
            final(self)@.names[name as int]@ == text@,
            final(self)@ == (VmModel { names: final(self)@.names, ..old(self)@ }),
            final(self)@.names.len() >= old(self)@.names.len(),
            final(self)@.names.subrange(0, old(self)@.names.len() as int) == old(self)@.names,
            (exists|i: int| 0 <= i < old(self)@.names.len() && old(self)@.names[i]@ == text@) ==> {
                &&& final(self)@ == old(self)@
                &&& forall|i: int| 0 <= i < name ==> old(self)@.names[i]@ != text@
            },
            (forall|i: int| 0 <= i < old(self)@.names.len() ==> old(self)@.names[i]@ != text@) ==> {
                &&& name == old(self)@.names.len()
                &&& final(self)@.names.len() == old(self)@.names.len() + 1
            },
    {
        let ghost m = self@;
        let name = self.interner.intern(text);
        proof {
            let r = self@;
            if r.names.len() == m.names.len() {
                assert(r.names =~= m.names);
                assert(r =~= m);
            } else {
                assert(r.names.subrange(0, m.names.len() as int) == m.names);
            }
            assert(r.names.subrange(0, m.names.len() as int) =~= m.names);
            assert forall|i: int| 0 <= i < r.namespaces.len() implies r.table_wf(
                #[trigger] r.namespaces[i].table,
            ) by {
                assert(m.table_wf(m.namespaces[i].table));
            }
            m.lemma_grow_wf(r);
        }
        name
    }

    /// Declares namespace `name` inside `parent`, public or not, and binds
    /// the name to it there.
    pub fn add_namespace(&mut self, parent: NamespaceId, name: Name, is_pub: bool) -> (id:
        NamespaceId)
        requires
            old(self)@.wf(),
            parent.0 < old(self)@.namespaces.len(),
            name < old(self)@.names.len(),
        ensures
            final(self)@.wf(),
            id == NamespaceId(old(self)@.namespaces.len() as usize),
            final(self)@ == (VmModel {
                namespaces: old(self)@.namespaces.push(
                    NamespaceModel {
                        id,
                        parent: Some(parent),
                        name: Some(name),
                        is_pub,
                        table: empty_table(),
                    },
                ),
                ..old(self)@
            }).with_term_binding(parent.0 as int, name, TermSym::Namespace(id)),
    {
        let ghost m = self@;
        let id = NamespaceId(self.namespaces.len());
        self.namespaces.push(
            NamespaceData { id, parent: Some(parent), name: Some(name), is_pub, table: SymTable::new() },
        );
        let ghost m1 = self@;
        proof {
            assert(m1.namespaces =~= m.namespaces.push(
                NamespaceModel {
                    id,
                    parent: Some(parent),
                    name: Some(name),
                    is_pub,
                    table: empty_table(),
                },
            ));
            assert(m1.table_wf(empty_table()));
            assert forall|i: int| 0 <= i < m1.namespaces.len() implies m1.table_wf(
                #[trigger] m1.namespaces[i].table,
            ) by {
                if i < m.namespaces.len() {
                    assert(m.table_wf(m.namespaces[i].table));
                }
            }
            m.lemma_grow_wf(m1);
            assert(self@.namespaces[parent.0 as int] == self.namespaces@[parent.0 as int]@);
        }
        self.namespaces[parent.0].table.insert_term(name, TermSym::Namespace(id));
        proof {
            let t = m1.namespaces[parent.0 as int].table;
            let t2 = SymTableModel { terms: t.terms.insert(name, TermSym::Namespace(id)), ..t };
            assert(self@ =~= m1.with_term_binding(parent.0 as int, name, TermSym::Namespace(id)));
            assert(m1.table_wf(t));
            assert(m1.table_wf(t2));
            m1.lemma_with_table_wf(parent.0 as int, t2);
        }
        id
    }

    /// Declares class `name` with `type_params` type parameters in namespace
    /// `ns`, and binds the name to it there.
    pub fn add_class(&mut self, ns: NamespaceId, name: Name, type_params: usize) -> (id: ClassId)
        requires
            old(self)@.wf(),
            ns.0 < old(self)@.namespaces.len(),
        ensures
            final(self)@.wf(),
            id == ClassId(old(self)@.classes.len() as usize),
            final(self)@ == (VmModel {
                classes: old(self)@.classes.push(
                    ClassModel { id, name, type_params, traits: Seq::empty(), impls: Seq::empty() },
                ),
                ..old(self)@
            }).with_type_binding(ns.0 as int, name, TypeSym::Class(id)),
    {
        let ghost m = self@;
        let id = ClassId(self.classes.len());
        self.classes.push(
            ClassData { id, name, type_params, traits: Vec::new(), impls: Vec::new() },
        );
        let ghost m1 = self@;
        proof {
            assert(m1.classes =~= m.classes.push(
                ClassModel { id, name, type_params, traits: Seq::empty(), impls: Seq::empty() },
            ));
            assert forall|i: int| 0 <= i < m1.namespaces.len() implies m1.table_wf(
                #[trigger] m1.namespaces[i].table,
            ) by {
                assert(m.table_wf(m.namespaces[i].table));
            }
            m.lemma_grow_wf(m1);
            assert(self@.namespaces[ns.0 as int] == self.namespaces@[ns.0 as int]@);
        }
        self.namespaces[ns.0].table.insert_type(name, TypeSym::Class(id));
        proof {
            let t = m1.namespaces[ns.0 as int].table;
            let t2 = SymTableModel { types: t.types.insert(name, TypeSym::Class(id)), ..t };
            assert(self@ =~= m1.with_type_binding(ns.0 as int, name, TypeSym::Class(id)));
            assert(m1.table_wf(t));
            assert(m1.table_wf(t2));
            m1.lemma_with_table_wf(ns.0 as int, t2);
        }
        id
    }

    /// Declares trait `name` in namespace `ns`, and binds the name to it
    /// there.
    pub fn add_trait(&mut self, ns: NamespaceId, name: Name) -> (id: TraitId)
        requires
            old(self)@.wf(),
            ns.0 < old(self)@.namespaces.len(),
        ensures
            final(self)@.wf(),
            id == TraitId(old(self)@.traits.len() as usize),
            final(self)@ == (VmModel {
                traits: old(self)@.traits.push(TraitData { id, name }),
                ..old(self)@
            }).with_type_binding(ns.0 as int, name, TypeSym::Trait(id)),
    {
        let ghost m = self@;
        let id = TraitId(self.traits.len());
        self.traits.push(TraitData { id, name });
        let ghost m1 = self@;
        proof {
            assert(m1.traits =~= m.traits.push(TraitData { id, name }));
            assert forall|i: int| 0 <= i < m1.namespaces.len() implies m1.table_wf(
                #[trigger] m1.namespaces[i].table,
            ) by {
                assert(m.table_wf(m.namespaces[i].table));
            }
            m.lemma_grow_wf(m1);
            assert(self@.namespaces[ns.0 as int] == self.namespaces@[ns.0 as int]@);
        }
        self.namespaces[ns.0].table.insert_type(name, TypeSym::Trait(id));
        proof {
            let t = m1.namespaces[ns.0 as int].table;
            let t2 = SymTableModel { types: t.types.insert(name, TypeSym::Trait(id)), ..t };
            assert(self@ =~= m1.with_type_binding(ns.0 as int, name, TypeSym::Trait(id)));
            assert(m1.table_wf(t));
            assert(m1.table_wf(t2));
            m1.lemma_with_table_wf(ns.0 as int, t2);
        }
        id
    }

    /// Declares enum `name` with the given variants in namespace `ns`, and
    /// binds the name to it there.
    pub fn add_enum(&mut self, ns: NamespaceId, name: Name, variants: &Vec<Name>) -> (id: EnumId)
        requires
            old(self)@.wf(),
            ns.0 < old(self)@.namespaces.len(),
            variants@.len() <= u32::MAX,
        ensures
            final(self)@.wf(),
            id == EnumId(old(self)@.enums.len() as usize),
            final(self)@ == (VmModel {
                enums: old(self)@.enums.push(
                    EnumModel {
                        id,
                        name,
                        name_to_value: variant_indices(variants@, variants@.len()),
                    },
                ),
                ..old(self)@
            }).with_type_binding(ns.0 as int, name, TypeSym::Enum(id)),
    {
        let ghost m = self@;
        let mut name_to_value: HashMap<Name, u32> = HashMap::new();
        let mut k: usize = 0;
        while k < variants.len()
            invariant
                k <= variants@.len(),
                variants@.len() <= u32::MAX,
                name_to_value@ == variant_indices(variants@, k as nat),
            decreases variants@.len() - k,
        {
            name_to_value.insert(variants[k], k as u32);
            k = k + 1;
        }
        let id = EnumId(self.enums.len());
        self.enums.push(EnumData { id, name, name_to_value });
        let ghost m1 = self@;
        proof {
            assert(m1.enums =~= m.enums.push(
                EnumModel { id, name, name_to_value: variant_indices(variants@, variants@.len()) },
            ));
            assert forall|i: int| 0 <= i < m1.namespaces.len() implies m1.table_wf(
                #[trigger] m1.namespaces[i].table,
            ) by {
                assert(m.table_wf(m.namespaces[i].table));
            }
            m.lemma_grow_wf(m1);
            assert(self@.namespaces[ns.0 as int] == self.namespaces@[ns.0 as int]@);
        }
        self.namespaces[ns.0].table.insert_type(name, TypeSym::Enum(id));
        proof {
            let t = m1.namespaces[ns.0 as int].table;
            let t2 = SymTableModel { types: t.types.insert(name, TypeSym::Enum(id)), ..t };
            assert(self@ =~= m1.with_type_binding(ns.0 as int, name, TypeSym::Enum(id)));
            assert(m1.table_wf(t));
            assert(m1.table_wf(t2));
            m1.lemma_with_table_wf(ns.0 as int, t2);
        }
        id
    }

    /// Adds the impl block `ast` of `file`, declared in namespace
    /// `namespace_id`, with nothing resolved yet.
    pub fn add_impl(&mut self, file_id: FileId, namespace_id: Option<NamespaceId>, ast: ast::Impl) -> (id:
        ImplId)
        requires
            old(self)@.wf(),
            namespace_id matches Some(n) ==> n.0 < old(self)@.namespaces.len(),
            ast.trait_type matches Some(t) ==> type_names_below(t, old(self)@.names.len()),
            type_names_below(ast.class_type, old(self)@.names.len()),
        ensures
            final(self)@.wf(),
            id == ImplId(old(self)@.impls.len() as usize),
            final(self)@ == (VmModel {
                impls: old(self)@.impls.push(
                    ImplModel {
                        id,
                        file_id,
                        namespace_id,
                        ast,
                        trait_id: None,
                        class_ty: SourceType::Error,
                        methods: Seq::empty(),
                    },
                ),
                ..old(self)@
            }),
    {
        let ghost m = self@;
        let id = ImplId(self.impls.len());
        let ghost a = ast;
        self.impls.push(
            ImplData {
                id,
                file_id,
                namespace_id,
                ast: Arc::new(ast),
                trait_id: None,
                class_ty: SourceType::Error,
                methods: Vec::new(),
            },
        );
        proof {
            let r = self@;
            assert(r.impls =~= m.impls.push(
                ImplModel {
                    id,
                    file_id,
                    namespace_id,
                    ast: a,
                    trait_id: None,
                    class_ty: SourceType::Error,
                    methods: Seq::empty(),
                },
            ));
            assert forall|i: int| 0 <= i < r.namespaces.len() implies r.table_wf(
                #[trigger] r.namespaces[i].table,
            ) by {
                assert(m.table_wf(m.namespaces[i].table));
            }
            assert(r.impl_wf(m.impls.len() as int));
            m.lemma_grow_wf(r);
        }
        id
    }

    /// Adds the import `ast` of `file`, declared in namespace `namespace_id`.
    pub fn add_import(&mut self, namespace_id: NamespaceId, file_id: FileId, ast: ast::Import)
        requires
            old(self)@.wf(),
            old(self)@.import_wf(ImportData { namespace_id, file_id, ast }),
        ensures
            final(self)@.wf(),
            final(self)@ == (VmModel {
                imports: old(self)@.imports.push(ImportData { namespace_id, file_id, ast }),
                ..old(self)@
            }),
    {
        let ghost m = self@;
        self.imports.push(ImportData { namespace_id, file_id, ast });
        proof {
            let r = self@;
            assert(r.imports =~= m.imports.push(ImportData { namespace_id, file_id, ast }));
            assert forall|i: int| 0 <= i < r.namespaces.len() implies r.table_wf(
                #[trigger] r.namespaces[i].table,
            ) by {
                assert(m.table_wf(m.namespaces[i].table));
            }
            m.lemma_grow_wf(r);
        }
    }

    /// Declares constant `name` of type `ty` with value `value` in namespace
    /// `namespace_id`.
    pub fn add_const(
        &mut self,
        file_id: FileId,
        namespace_id: NamespaceId,
        is_pub: bool,
        pos: Position,
        name: Name,
        ty: SourceType,
        value: ConstValue,
    ) -> (id: ConstId)
        requires
            old(self)@.wf(),
            namespace_id.0 < old(self)@.namespaces.len(),
            name < old(self)@.names.len(),
        ensures
            final(self)@.wf(),
            id == ConstId(old(self)@.consts.len() as usize),
            final(self)@ == (VmModel {
                consts: old(self)@.consts.push(
                    ConstData { id, file_id, namespace_id, is_pub, pos, name, ty, value },
                ),
                ..old(self)@
            }),
    {
        let ghost m = self@;
        let id = ConstId(self.consts.len());
        self.consts.push(ConstData { id, file_id, namespace_id, is_pub, pos, name, ty, value });
        proof {
            let r = self@;
            assert(r.consts =~= m.consts.push(
                ConstData { id, file_id, namespace_id, is_pub, pos, name, ty, value },
            ));
            assert forall|i: int| 0 <= i < r.namespaces.len() implies r.table_wf(
                #[trigger] r.namespaces[i].table,
            ) by {
                assert(m.table_wf(m.namespaces[i].table));
            }
            m.lemma_grow_wf(r);
        }
        id
    }
}

} // verus!
