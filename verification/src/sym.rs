use vstd::prelude::*;

use std::collections::HashMap;

use crate::interner::Name;
use crate::vm::consts::ConstId;
use crate::vm::{ClassId, EnumId, FctId, GlobalId, NamespaceId, StructId, TraitId};

verus! {

broadcast use vstd::std_specs::hash::group_hash_axioms;

/// What a name means where a type is expected.
#[derive(Clone, Copy, Debug, PartialEq, Eq, Structural)]
pub enum TypeSym {
    Class(ClassId),
    Struct(StructId),
    Trait(TraitId),
    Enum(EnumId),
}

/// What a name means where a value or a namespace is expected.
#[derive(Clone, Copy, Debug, PartialEq, Eq, Structural)]
pub enum TermSym {
    Fct(FctId),
    Global(GlobalId),
    Const(ConstId),
    ClassConstructor(ClassId),
    StructConstructor(StructId),
    Namespace(NamespaceId),
    EnumValue(EnumId, usize),
}

/// The names declared in one namespace: one map for types, one for terms.
pub struct SymTable {
    types: HashMap<Name, TypeSym>,
    terms: HashMap<Name, TermSym>,
}

#[verifier::ext_equal]
pub struct SymTableModel {
    pub types: Map<Name, TypeSym>,
    pub terms: Map<Name, TermSym>,
}

impl View for SymTable {
    type V = SymTableModel;

    closed spec fn view(&self) -> SymTableModel {
        SymTableModel { types: self.types@, terms: self.terms@ }
    }
}

impl SymTable {
    pub fn new() -> (t: SymTable)
        ensures
            t@.types == Map::<Name, TypeSym>::empty(),
            t@.terms == Map::<Name, TermSym>::empty(),
    {
        SymTable { types: HashMap::new(), terms: HashMap::new() }
    }

    pub fn get_type(&self, name: Name) -> (sym: Option<TypeSym>)
        ensures
            sym == self@.types.get(name),
    {
        match self.types.get(&name) {
            Some(s) => Some(*s),
            None => None,
        }
    }

    pub fn get_term(&self, name: Name) -> (sym: Option<TermSym>)
        ensures
            sym == self@.terms.get(name),
    {
        match self.terms.get(&name) {
            Some(s) => Some(*s),
            None => None,
        }
    }

    /// Binds `name` to `sym` among the types and returns what it was bound
    /// to before, if anything.
    pub fn insert_type(&mut self, name: Name, sym: TypeSym) -> (old_sym: Option<TypeSym>)
        ensures
            final(self)@.types == old(self)@.types.insert(name, sym),
            final(self)@.terms == old(self)@.terms,
            old_sym == old(self)@.types.get(name),
    {
        self.types.insert(name, sym)
    }

    /// Binds `name` to `sym` among the terms and returns what it was bound
    /// to before, if anything.
    pub fn insert_term(&mut self, name: Name, sym: TermSym) -> (old_sym: Option<TermSym>)
        ensures
            final(self)@.terms == old(self)@.terms.insert(name, sym),
            final(self)@.types == old(self)@.types,
            old_sym == old(self)@.terms.get(name),
    {
        self.terms.insert(name, sym)
    }
}

/// After binding `name` to a term, the name means that term, and every other
/// name keeps its meaning.
pub proof fn lemma_term_read_after_write(t: SymTableModel, name: Name, sym: TermSym, other: Name)
    ensures
        t.terms.insert(name, sym).get(name) == Some(sym),
        other != name ==> t.terms.insert(name, sym).get(other) == t.terms.get(other),
{
}

/// After binding `name` to a type, the name means that type, and every other
/// name keeps its meaning.
pub proof fn lemma_type_read_after_write(t: SymTableModel, name: Name, sym: TypeSym, other: Name)
    ensures
        t.types.insert(name, sym).get(name) == Some(sym),
        other != name ==> t.types.insert(name, sym).get(other) == t.types.get(other),
{
}

} // verus!
