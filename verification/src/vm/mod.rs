use vstd::prelude::*;

use std::collections::HashMap;
use std::sync::Arc;

use crate::ast;
use crate::ast::Position;
use crate::error::diag::Diagnostic;
use crate::error::msg::{SemError, SemErrorAndPos};
use crate::interner::{Interner, Name};
use crate::sym::{SymTable, SymTableModel, TermSym, TypeSym};
use crate::ty::SourceType;
use crate::utils::GrowableVec;

pub mod consts;
pub mod namespace;
pub mod setup;

pub use self::namespace::{accessible_from, namespace_path};

use self::consts::ConstData;
use self::namespace::{namespace_names_wf, namespaces_wf};

verus! {

broadcast use vstd::std_specs::hash::group_hash_axioms;

#[derive(Clone, Copy, Debug, PartialEq, Eq, Hash, Structural)]
pub struct FileId(pub usize);

#[derive(Clone, Copy, Debug, PartialEq, Eq, Hash, Structural)]
pub struct NamespaceId(pub usize);

#[derive(Clone, Copy, Debug, PartialEq, Eq, Hash, Structural)]
pub struct ClassId(pub usize);

#[derive(Clone, Copy, Debug, PartialEq, Eq, Hash, Structural)]
pub struct StructId(pub usize);

#[derive(Clone, Copy, Debug, PartialEq, Eq, Hash, Structural)]
pub struct TraitId(pub usize);

#[derive(Clone, Copy, Debug, PartialEq, Eq, Hash, Structural)]
pub struct EnumId(pub usize);

#[derive(Clone, Copy, Debug, PartialEq, Eq, Hash, Structural)]
pub struct FctId(pub usize);

#[derive(Clone, Copy, Debug, PartialEq, Eq, Hash, Structural)]
pub struct GlobalId(pub usize);

#[derive(Clone, Copy, Debug, PartialEq, Eq, Hash, Structural)]
pub struct ImplId(pub usize);

/// The id of a class as laid out for code generation.
#[derive(Clone, Copy, Debug, PartialEq, Eq, Hash, Structural)]
pub struct ClassDefId(pub usize);

#[derive(Clone, Copy, Debug, PartialEq, Eq, Hash, Structural)]
pub struct FieldId(pub usize);

impl NamespaceId {
    pub fn to_usize(self) -> (r: usize)
        ensures
            r == self.0,
    {
        self.0
    }
}

/// A namespace: the root namespace has no parent and no name; every other
/// namespace is declared inside its parent, publicly or not.
pub struct NamespaceData {
    pub id: NamespaceId,
    pub parent: Option<NamespaceId>,
    pub name: Option<Name>,
    pub is_pub: bool,
    pub table: SymTable,
}

#[verifier::ext_equal]
pub struct NamespaceModel {
    pub id: NamespaceId,
    pub parent: Option<NamespaceId>,
    pub name: Option<Name>,
    pub is_pub: bool,
    pub table: SymTableModel,
}

impl View for NamespaceData {
    type V = NamespaceModel;

    open spec fn view(&self) -> NamespaceModel {
        NamespaceModel {
            id: self.id,
            parent: self.parent,
            name: self.name,
            is_pub: self.is_pub,
            table: self.table@,
        }
    }
}

pub struct ClassData {
    pub id: ClassId,
    pub name: Name,
    /// The number of type parameters.
    pub type_params: usize,
    /// The traits that the class implements.
    pub traits: Vec<TraitId>,
    /// The impl blocks for the class.
    pub impls: Vec<ImplId>,
}

#[verifier::ext_equal]
pub struct ClassModel {
    pub id: ClassId,
    pub name: Name,
    pub type_params: usize,
    pub traits: Seq<TraitId>,
    pub impls: Seq<ImplId>,
}

impl View for ClassData {
    type V = ClassModel;

    open spec fn view(&self) -> ClassModel {
        ClassModel {
            id: self.id,
            name: self.name,
            type_params: self.type_params,
            traits: self.traits@,
            impls: self.impls@,
        }
    }
}

#[derive(Clone, Copy, Debug, PartialEq, Eq, Structural)]
pub struct TraitData {
    pub id: TraitId,
    pub name: Name,
}

/// An enum: the variant names, each mapped to its index.
pub struct EnumData {
    pub id: EnumId,
    pub name: Name,
    pub name_to_value: HashMap<Name, u32>,
}

#[verifier::ext_equal]
pub struct EnumModel {
    pub id: EnumId,
    pub name: Name,
    pub name_to_value: Map<Name, u32>,
}

impl View for EnumData {
    type V = EnumModel;

    open spec fn view(&self) -> EnumModel {
        EnumModel { id: self.id, name: self.name, name_to_value: self.name_to_value@ }
    }
}

/// An `impl` block together with what the checks found out about it.
pub struct ImplData {
    pub id: ImplId,
    pub file_id: FileId,
    pub namespace_id: Option<NamespaceId>,
    pub ast: Arc<ast::Impl>,
    pub trait_id: Option<TraitId>,
    pub class_ty: SourceType,
    pub methods: Vec<FctId>,
}

#[verifier::ext_equal]
pub struct ImplModel {
    pub id: ImplId,
    pub file_id: FileId,
    pub namespace_id: Option<NamespaceId>,
    pub ast: ast::Impl,
    pub trait_id: Option<TraitId>,
    pub class_ty: SourceType,
    pub methods: Seq<FctId>,
}

impl View for ImplData {
    type V = ImplModel;

    open spec fn view(&self) -> ImplModel {
        ImplModel {
            id: self.id,
            file_id: self.file_id,
            namespace_id: self.namespace_id,
            ast: *self.ast,
            trait_id: self.trait_id,
            class_ty: self.class_ty,
            methods: self.methods@,
        }
    }
}

impl ImplData {
    /// The class of the impl block, once resolved.
    pub fn cls_id(&self) -> (c: ClassId)
        requires
            self.class_ty is Class,
        ensures
            Some(c) == crate::ty::spec_cls_id(self.class_ty),
    {
        match self.class_ty.cls_id() {
            Some(c) => c,
            None => {
                proof {
                    assert(false);
                }
                ClassId(0)
            },
        }
    }

    /// The trait that the impl block implements, once resolved.
    pub fn trait_id(&self) -> (t: TraitId)
        requires
            self.trait_id is Some,
        ensures
            t == self.trait_id->0,
    {
        match self.trait_id {
            Some(t) => t,
            None => {
                proof {
                    assert(false);
                }
                TraitId(0)
            },
        }
    }
}

#[derive(Clone, Copy, Debug, PartialEq, Eq, Structural)]
pub enum FctParent {
    Class(ClassId),
    Trait(TraitId),
    Impl(ImplId),
    Module,
}

/// A function defined in the source (`Source`) or provided by the runtime
/// (`Definition`).
#[derive(Clone, Copy, Debug, PartialEq, Eq, Structural)]
pub enum FctKind {
    Source,
    Definition,
}

#[derive(Clone, Copy, Debug, PartialEq, Eq, Structural)]
pub struct Fct {
    pub id: FctId,
    pub file_id: FileId,
    pub namespace_id: Option<NamespaceId>,
    pub ast: ast::Function,
    pub name: Name,
    pub pos: Position,
    pub parent: FctParent,
    pub kind: FctKind,
}

impl Fct {
    /// A function not yet added to the VM: its id is set by `VM::add_fct`.
    pub fn new(
        file_id: FileId,
        namespace_id: Option<NamespaceId>,
        ast: &ast::Function,
        parent: FctParent,
        kind: FctKind,
    ) -> (f: Fct)
        ensures
            f == new_fct_spec(file_id, namespace_id, *ast, parent, kind),
    {
        Fct {
            id: FctId(0),
            file_id,
            namespace_id,
            ast: *ast,
            name: ast.name,
            pos: ast.pos,
            parent,
            kind,
        }
    }
}

pub open spec fn new_fct_spec(
    file_id: FileId,
    namespace_id: Option<NamespaceId>,
    ast: ast::Function,
    parent: FctParent,
    kind: FctKind,
) -> Fct {
    Fct { id: FctId(0), file_id, namespace_id, ast, name: ast.name, pos: ast.pos, parent, kind }
}

/// An import declaration and the namespace in which it stands.
#[derive(Clone, Copy, Debug, PartialEq, Eq, Structural)]
pub struct ImportData {
    pub namespace_id: NamespaceId,
    pub file_id: FileId,
    pub ast: ast::Import,
}

impl VM {
    /// Adds `fct`, giving it the next free id, and returns that id.
    pub fn add_fct(&mut self, fct: Fct) -> (id: FctId)
        ensures
            id == FctId(old(self)@.fcts.len() as usize),
            id.0 == old(self)@.fcts.len(),
            final(self)@ == (VmModel { fcts: old(self)@.fcts.push(Fct { id, ..fct }), ..old(self)@ }),
    {
        let id = FctId(self.fcts.len());
        let mut fct = fct;
        fct.id = id;
        self.fcts.push(fct);
        proof {
            assert(self@ =~= (VmModel { fcts: old(self)@.fcts.push(Fct { id, ..fct }), ..old(self)@ }));
        }
        id
    }
}

/// The state that the semantic checks read and update.
pub struct VM {
    pub interner: Interner,
    pub diag: Diagnostic,
    pub namespaces: Vec<NamespaceData>,
    pub classes: Vec<ClassData>,
    pub traits: Vec<TraitData>,
    pub enums: Vec<EnumData>,
    pub impls: Vec<ImplData>,
    pub fcts: Vec<Fct>,
    pub imports: Vec<ImportData>,
    pub consts: GrowableVec<ConstData>,
    pub type_lists: Vec<Vec<SourceType>>,
}

#[verifier::ext_equal]
pub struct VmModel {
    pub names: Seq<String>,
    pub errors: Seq<SemErrorAndPos>,
    pub namespaces: Seq<NamespaceModel>,
    pub classes: Seq<ClassModel>,
    pub traits: Seq<TraitData>,
    pub enums: Seq<EnumModel>,
    pub impls: Seq<ImplModel>,
    pub fcts: Seq<Fct>,
    pub imports: Seq<ImportData>,
    pub consts: Seq<ConstData>,
    pub type_lists: Seq<Seq<SourceType>>,
}

impl View for VM {
    type V = VmModel;

    open spec fn view(&self) -> VmModel {
        VmModel {
            names: self.interner@,
            errors: self.diag@,
            namespaces: self.namespaces@.map_values(|n: NamespaceData| n@),
            classes: self.classes@.map_values(|c: ClassData| c@),
            traits: self.traits@,
            enums: self.enums@.map_values(|e: EnumData| e@),
            impls: self.impls@.map_values(|i: ImplData| i@),
            fcts: self.fcts@,
            imports: self.imports@,
            consts: self.consts@,
            type_lists: self.type_lists@.map_values(|l: Vec<SourceType>| l@),
        }
    }
}

impl VmModel {
    /// The state after reporting `msg` at `pos` in `file`.
    pub open spec fn report(self, file: FileId, pos: Position, msg: SemError) -> VmModel {
        VmModel { errors: self.errors.push(SemErrorAndPos { file, pos, msg }), ..self }
    }

    /// Reporting an error keeps the state well formed.
    pub proof fn lemma_report_wf(self, file: FileId, pos: Position, msg: SemError)
        requires
            self.wf(),
        ensures
            self.report(file, pos, msg).wf(),
    {
        let r = self.report(file, pos, msg);
        assert forall|i: int| 0 <= i < r.namespaces.len() implies r.table_wf(
            #[trigger] r.namespaces[i].table,
        ) by {
            assert(self.table_wf(self.namespaces[i].table));
        }
        assert forall|i: int| 0 <= i < r.impls.len() implies #[trigger] r.impl_wf(i) by {
            assert(self.impl_wf(i));
        }
        assert forall|i: int| 0 <= i < r.imports.len() implies r.import_wf(
            #[trigger] r.imports[i],
        ) by {
            assert(self.import_wf(self.imports[i]));
        }
    }

    /// The state with other errors and type lists.
    pub open spec fn with_errors_and_lists(
        self,
        errors: Seq<SemErrorAndPos>,
        type_lists: Seq<Seq<SourceType>>,
    ) -> VmModel {
        VmModel { errors, type_lists, ..self }
    }

    /// Errors and type lists play no part in well-formedness.
    pub proof fn lemma_wf_errors_and_lists(
        self,
        errors: Seq<SemErrorAndPos>,
        type_lists: Seq<Seq<SourceType>>,
    )
        requires
            self.wf(),
        ensures
            self.with_errors_and_lists(errors, type_lists).wf(),
    {
        let r = self.with_errors_and_lists(errors, type_lists);
        assert forall|i: int| 0 <= i < r.namespaces.len() implies r.table_wf(
            #[trigger] r.namespaces[i].table,
        ) by {
            assert(self.table_wf(self.namespaces[i].table));
        }
        assert forall|i: int| 0 <= i < r.impls.len() implies #[trigger] r.impl_wf(i) by {
            assert(self.impl_wf(i));
        }
        assert forall|i: int| 0 <= i < r.imports.len() implies r.import_wf(
            #[trigger] r.imports[i],
        ) by {
            assert(self.import_wf(self.imports[i]));
        }
    }

    /// The state with the list of types `list` appended to the type lists;
    /// its id is the former number of lists.
    pub open spec fn with_type_list(self, list: Seq<SourceType>) -> VmModel {
        VmModel { type_lists: self.type_lists.push(list), ..self }
    }

    /// The state with the table of namespace `ns` replaced by `table`.
    pub open spec fn with_table(self, ns: int, table: SymTableModel) -> VmModel {
        VmModel {
            namespaces: self.namespaces.update(ns, NamespaceModel { table, ..self.namespaces[ns] }),
            ..self
        }
    }

    /// The state with `name` bound to the type `sym` in namespace `ns`.
    pub open spec fn with_type_binding(self, ns: int, name: Name, sym: TypeSym) -> VmModel {
        let t = self.namespaces[ns].table;
        self.with_table(ns, SymTableModel { types: t.types.insert(name, sym), ..t })
    }

    /// The state with `name` bound to the term `sym` in namespace `ns`.
    pub open spec fn with_term_binding(self, ns: int, name: Name, sym: TermSym) -> VmModel {
        let t = self.namespaces[ns].table;
        self.with_table(ns, SymTableModel { terms: t.terms.insert(name, sym), ..t })
    }

    /// Replacing a table by a well-formed one keeps the state well formed.
    pub proof fn lemma_with_table_wf(self, ns: int, table: SymTableModel)
        requires
            self.wf(),
            0 <= ns < self.namespaces.len(),
            self.table_wf(table),
        ensures
            self.with_table(ns, table).wf(),
    {
        let r = self.with_table(ns, table);
        assert forall|i: int| 0 <= i < r.namespaces.len() implies r.table_wf(
            #[trigger] r.namespaces[i].table,
        ) by {
            if i != ns {
                assert(self.table_wf(self.namespaces[i].table));
            }
        }
        assert forall|i: int| 0 <= i < r.impls.len() implies #[trigger] r.impl_wf(i) by {
            assert(self.impl_wf(i));
        }
        assert forall|i: int| 0 <= i < r.imports.len() implies r.import_wf(
            #[trigger] r.imports[i],
        ) by {
            assert(self.import_wf(self.imports[i]));
        }
    }

    /// A state that only grew (more names, namespaces, classes, enums,
    /// traits, impl blocks, imports, constants), where all that was there
    /// stays as it was, is well formed when the new parts are.
    pub proof fn lemma_grow_wf(self, r: VmModel)
        requires
            self.wf(),
            namespaces_wf(r.namespaces),
            namespace_names_wf(r),
            self.names.len() <= r.names.len(),
            self.namespaces.len() <= r.namespaces.len(),
            self.classes.len() <= r.classes.len(),
            self.enums.len() <= r.enums.len(),
            forall|i: int| 0 <= i < r.namespaces.len() ==> r.table_wf(#[trigger] r.namespaces[i].table),
            forall|i: int|
                0 <= i < r.classes.len() ==> {
                    &&& (#[trigger] r.classes[i]).id.0 == i
                    &&& r.classes[i].traits.len() == r.classes[i].impls.len()
                },
            forall|i: int| 0 <= i < r.enums.len() ==> (#[trigger] r.enums[i]).id.0 == i,
            forall|i: int| 0 <= i < r.traits.len() ==> (#[trigger] r.traits[i]).id.0 == i,
            r.fcts == self.fcts,
            self.impls.len() <= r.impls.len(),
            forall|i: int| 0 <= i < self.impls.len() ==> #[trigger] r.impls[i] == self.impls[i],
            forall|i: int| self.impls.len() <= i < r.impls.len() ==> #[trigger] r.impl_wf(i),
            self.imports.len() <= r.imports.len(),
            forall|i: int| 0 <= i < self.imports.len() ==> #[trigger] r.imports[i] == self.imports[i],
            forall|i: int|
                self.imports.len() <= i < r.imports.len() ==> r.import_wf(#[trigger] r.imports[i]),
            self.consts.len() <= r.consts.len(),
            forall|i: int| 0 <= i < self.consts.len() ==> #[trigger] r.consts[i] == self.consts[i],
            forall|i: int|
                self.consts.len() <= i < r.consts.len() ==> {
                    &&& (#[trigger] r.consts[i]).namespace_id.0 < r.namespaces.len()
                    &&& r.consts[i].name < r.names.len()
                },
        ensures
            r.wf(),
    {
        assert forall|i: int| 0 <= i < r.impls.len() implies #[trigger] r.impl_wf(i) by {
            if i < self.impls.len() {
                assert(self.impl_wf(i));
                assert(r.impls[i] == self.impls[i]);
                assert(self.class_ty_wf(self.impls[i].class_ty));
                if let Some(t) = self.impls[i].ast.trait_type {
                    ast::lemma_type_names_below_grow(t, self.names.len(), r.names.len());
                }
                ast::lemma_type_names_below_grow(
                    self.impls[i].ast.class_type,
                    self.names.len(),
                    r.names.len(),
                );
            }
        }
        assert forall|i: int| 0 <= i < r.imports.len() implies r.import_wf(
            #[trigger] r.imports[i],
        ) by {
            if i < self.imports.len() {
                assert(self.import_wf(self.imports[i]));
            }
        }
    }

    pub open spec fn type_sym_wf(self, sym: TypeSym) -> bool {
        match sym {
            TypeSym::Class(c) => c.0 < self.classes.len(),
            TypeSym::Enum(e) => e.0 < self.enums.len(),
            _ => true,
        }
    }

    pub open spec fn term_sym_wf(self, sym: TermSym) -> bool {
        match sym {
            TermSym::Namespace(n) => n.0 < self.namespaces.len(),
            TermSym::EnumValue(e, _) => e.0 < self.enums.len(),
            _ => true,
        }
    }

    /// Every symbol in `table` refers to a class, an enum or a namespace that
    /// exists.
    pub open spec fn table_wf(self, table: SymTableModel) -> bool {
        &&& forall|n: Name|
            #[trigger] table.types.contains_key(n) ==> self.type_sym_wf(table.types[n])
        &&& forall|n: Name|
            #[trigger] table.terms.contains_key(n) ==> self.term_sym_wf(table.terms[n])
    }

    pub open spec fn import_wf(self, import: ImportData) -> bool {
        &&& import.namespace_id.0 < self.namespaces.len()
        &&& import.ast.container_name < self.names.len()
        &&& import.ast.element_name < self.names.len()
        &&& import.ast.target_name matches Some(t) ==> t < self.names.len()
    }

    /// The resolved class type of an impl block is unset (`Error`) or a class.
    pub open spec fn class_ty_wf(self, ty: SourceType) -> bool {
        match ty {
            SourceType::Error => true,
            SourceType::Class(c, _) => c.0 < self.classes.len(),
            _ => false,
        }
    }

    pub open spec fn impl_wf(self, i: int) -> bool {
        let imp = self.impls[i];
        &&& imp.id.0 == i
        &&& imp.namespace_id matches Some(n) ==> n.0 < self.namespaces.len()
        &&& self.class_ty_wf(imp.class_ty)
        &&& imp.ast.trait_type matches Some(t) ==> ast::type_names_below(t, self.names.len())
        &&& ast::type_names_below(imp.ast.class_type, self.names.len())
    }

    /// The invariant of the state: ids match positions, the namespaces form
    /// a tree, and every id and name that the state holds refers to
    /// something that exists.
    pub open spec fn wf(self) -> bool {
        &&& namespaces_wf(self.namespaces)
        &&& namespace_names_wf(self)
        &&& forall|i: int|
            0 <= i < self.namespaces.len() ==> self.table_wf(#[trigger] self.namespaces[i].table)
        &&& forall|i: int|
            0 <= i < self.classes.len() ==> {
                &&& (#[trigger] self.classes[i]).id.0 == i
                &&& self.classes[i].traits.len() == self.classes[i].impls.len()
            }
        &&& forall|i: int| 0 <= i < self.enums.len() ==> (#[trigger] self.enums[i]).id.0 == i
        &&& forall|i: int| 0 <= i < self.traits.len() ==> (#[trigger] self.traits[i]).id.0 == i
        &&& forall|i: int| 0 <= i < self.fcts.len() ==> (#[trigger] self.fcts[i]).id.0 == i
        &&& forall|i: int| 0 <= i < self.impls.len() ==> #[trigger] self.impl_wf(i)
        &&& forall|i: int| 0 <= i < self.imports.len() ==> self.import_wf(#[trigger] self.imports[i])
        &&& forall|i: int|
            0 <= i < self.consts.len() ==> {
                &&& (#[trigger] self.consts[i]).namespace_id.0 < self.namespaces.len()
                &&& self.consts[i].name < self.names.len()
            }
    }
}

} // verus!
