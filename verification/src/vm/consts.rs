use vstd::prelude::*;
use vstd::std_specs::cmp::{PartialEqSpec, PartialEqSpecImpl};

use crate::ast::Position;
use crate::ieee::{eq_f64_bits, f64_bits_eq};
use crate::interner::Name;
use crate::ty::SourceType;
use crate::utils::GrowableVec;
use crate::vm::namespace::{accessible, namespace_names_wf, namespace_path_spec, namespaces_wf};
use crate::vm::{accessible_from, namespace_path, FileId, NamespaceId, VmModel, VM};

verus! {

#[derive(Copy, Clone, Debug, PartialEq, Eq, Hash, Structural)]
pub struct ConstId(pub usize);

impl From<usize> for ConstId {
    fn from(data: usize) -> (c: ConstId) {
        ConstId(data)
    }
}

impl vstd::std_specs::convert::FromSpecImpl<usize> for ConstId {
    open spec fn obeys_from_spec() -> bool {
        true
    }

    open spec fn from_spec(data: usize) -> ConstId {
        ConstId(data)
    }
}

impl GrowableVec<ConstData> {
    pub fn idx(&self, index: ConstId) -> (c: &ConstData)
        requires
            index.0 < self@.len(),
        ensures
            *c == self@[index.0 as int],
    {
        self.idx_usize(index.0)
    }
}

/// A constant declaration: `const name: ty = value;`.
#[derive(Debug)]
pub struct ConstData {
    pub id: ConstId,
    pub file_id: FileId,
    pub namespace_id: NamespaceId,
    pub is_pub: bool,
    pub pos: Position,
    pub name: Name,
    pub ty: SourceType,
    pub value: ConstValue,
}

impl ConstData {
    /// The full name of the constant, with the namespaces it is declared in.
    pub fn name(&self, vm: &VM) -> (s: String)
        requires
            namespaces_wf(vm@.namespaces),
            namespace_names_wf(vm@),
            self.namespace_id.0 < vm@.namespaces.len(),
            self.name < vm@.names.len(),
        ensures
            s@ == namespace_path_spec(vm@, self.namespace_id.0 as int, self.name),
    {
        namespace_path(vm, self.namespace_id, self.name)
    }
}

/// Tells whether constant `const_id` can be named from namespace
/// `namespace_id`.
pub fn const_accessible_from(vm: &VM, const_id: ConstId, namespace_id: NamespaceId) -> (b: bool)
    requires
        namespaces_wf(vm@.namespaces),
        const_id.0 < vm@.consts.len(),
        vm@.consts[const_id.0 as int].namespace_id.0 < vm@.namespaces.len(),
        namespace_id.0 < vm@.namespaces.len(),
    ensures
        b == accessible(
            vm@.namespaces,
            vm@.consts[const_id.0 as int].namespace_id.0 as int,
            vm@.consts[const_id.0 as int].is_pub,
            namespace_id.0 as int,
        ),
{
    let xconst = vm.consts.idx(const_id);
    accessible_from(vm, xconst.namespace_id, xconst.is_pub, namespace_id)
}

/// Whether a constant can be named from a namespace depends only on the
/// namespace it is declared in and on whether it is public: two such
/// constants are visible from the same namespaces.
pub proof fn lemma_const_visibility_by_namespace_and_publicity(
    m: VmModel,
    id1: ConstId,
    id2: ConstId,
    from: NamespaceId,
)
    requires
        id1.0 < m.consts.len(),
        id2.0 < m.consts.len(),
        m.consts[id1.0 as int].namespace_id == m.consts[id2.0 as int].namespace_id,
        m.consts[id1.0 as int].is_pub == m.consts[id2.0 as int].is_pub,
    ensures
        accessible(
            m.namespaces,
            m.consts[id1.0 as int].namespace_id.0 as int,
            m.consts[id1.0 as int].is_pub,
            from.0 as int,
        ) == accessible(
            m.namespaces,
            m.consts[id2.0 as int].namespace_id.0 as int,
            m.consts[id2.0 as int].is_pub,
            from.0 as int,
        ),
{
}

/// The value of a compile-time constant. A floating-point value is held by
/// the bits of its IEEE 754 binary64 encoding; two such values are equal
/// when they are equal as numbers.
#[derive(Clone, Copy, Debug)]
pub enum ConstValue {
    Unset,
    Bool(bool),
    Char(char),
    Int(i64),
    Float(u64),
}

impl PartialEq for ConstValue {
    fn eq(&self, other: &ConstValue) -> (r: bool) {
        match (self, other) {
            (ConstValue::Unset, ConstValue::Unset) => true,
            (ConstValue::Bool(a), ConstValue::Bool(b)) => *a == *b,
            (ConstValue::Char(a), ConstValue::Char(b)) => *a == *b,
            (ConstValue::Int(a), ConstValue::Int(b)) => *a == *b,
            (ConstValue::Float(a), ConstValue::Float(b)) => eq_f64_bits(*a, *b),
            _ => false,
        }
    }
}

impl PartialEqSpecImpl for ConstValue {
    open spec fn obeys_eq_spec() -> bool {
        true
    }

    open spec fn eq_spec(&self, other: &ConstValue) -> bool {
        match (*self, *other) {
            (ConstValue::Unset, ConstValue::Unset) => true,
            (ConstValue::Bool(a), ConstValue::Bool(b)) => a == b,
            (ConstValue::Char(a), ConstValue::Char(b)) => a == b,
            (ConstValue::Int(a), ConstValue::Int(b)) => a == b,
            (ConstValue::Float(a), ConstValue::Float(b)) => f64_bits_eq(a, b),
            _ => false,
        }
    }
}

/// Two constant values are equal exactly when they are the same value, but
/// that floating-point values are compared as numbers: a NaN equals nothing
/// and +0 equals -0.
pub proof fn lemma_const_value_eq(a: ConstValue, b: ConstValue)
    ensures
        !(a is Float && b is Float) ==> (PartialEqSpec::eq_spec(&a, &b) <==> a == b),
        (a is Float && b is Float) ==> (PartialEqSpec::eq_spec(&a, &b) <==> f64_bits_eq(a->Float_0, b->Float_0)),
        PartialEqSpec::eq_spec(&a, &b) == PartialEqSpec::eq_spec(&b, &a),
{
    if a is Float && b is Float {
        crate::ieee::lemma_f64_eq_laws(a->Float_0, b->Float_0);
    }
}

impl ConstValue {
    pub fn to_bool(&self) -> (b: bool)
        requires
            *self is Bool,
        ensures
            b == self->Bool_0,
    {
        match self {
            ConstValue::Bool(b) => *b,
            _ => {
                proof {
                    assert(false);
                }
                false
            },
        }
    }

    pub fn to_char(&self) -> (c: char)
        requires
            *self is Char,
        ensures
            c == self->Char_0,
    {
        match self {
            ConstValue::Char(c) => *c,
            _ => {
                proof {
                    assert(false);
                }
                ' '
            },
        }
    }

    pub fn to_int(&self) -> (i: i64)
        requires
            *self is Int,
        ensures
            i == self->Int_0,
    {
        match self {
            ConstValue::Int(i) => *i,
            _ => {
                proof {
                    assert(false);
                }
                0
            },
        }
    }
}

} // verus!
