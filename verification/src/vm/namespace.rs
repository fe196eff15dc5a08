use vstd::prelude::*;

use crate::interner::Name;
use crate::vm::{NamespaceId, NamespaceModel, VmModel, VM};

verus! {

/// The namespaces form a tree rooted at namespace 0: each other namespace
/// has a parent with a smaller id and a name.
pub open spec fn namespaces_wf(nss: Seq<NamespaceModel>) -> bool {
    &&& nss.len() > 0
    &&& nss[0].parent is None
    &&& forall|i: int| 0 <= i < nss.len() ==> (#[trigger] nss[i]).id.0 == i
    &&& forall|i: int|
        0 < i < nss.len() ==> ((#[trigger] nss[i]).parent matches Some(p) && p.0 < i
            && nss[i].name is Some)
}

/// Every namespace name is a known name.
pub open spec fn namespace_names_wf(m: VmModel) -> bool {
    forall|i: int|
        0 <= i < m.namespaces.len() ==> ((#[trigger] m.namespaces[i]).name matches Some(n) ==> n
            < m.names.len())
}

/// `outer` is `inner` or one of its ancestors: `inner` lies inside `outer`.
pub open spec fn namespace_contains(nss: Seq<NamespaceModel>, outer: int, inner: int) -> bool
    decreases inner,
{
    if outer == inner {
        true
    } else if 0 <= inner < nss.len() {
        match nss[inner].parent {
            Some(p) => if p.0 < inner {
                namespace_contains(nss, outer, p.0 as int)
            } else {
                false
            },
            None => false,
        }
    } else {
        false
    }
}

/// An element declared in namespace `target`, public or not, can be named
/// from namespace `from`: either `from` lies inside `target`, or the element
/// is public and `target` itself, as an element of its parent, can be named
/// from `from`.
pub open spec fn accessible(
    nss: Seq<NamespaceModel>,
    target: int,
    element_pub: bool,
    from: int,
) -> bool
    decreases target,
{
    if namespace_contains(nss, target, from) {
        true
    } else if element_pub && 0 <= target < nss.len() {
        match nss[target].parent {
            Some(p) => if p.0 < target {
                accessible(nss, p.0 as int, nss[target].is_pub, from)
            } else {
                false
            },
            None => false,
        }
    } else {
        false
    }
}

/// Tells whether namespace `inner` lies inside namespace `outer` (or is it).
pub fn namespace_contains_exec(vm: &VM, outer: NamespaceId, inner: NamespaceId) -> (b: bool)
    requires
        namespaces_wf(vm@.namespaces),
        inner.0 < vm@.namespaces.len(),
    ensures
        b == namespace_contains(vm@.namespaces, outer.0 as int, inner.0 as int),
{
    let ghost nss = vm@.namespaces;
    let mut cur: usize = inner.0;
    loop
        invariant
            namespaces_wf(nss),
            nss == vm@.namespaces,
            cur < nss.len(),
            namespace_contains(nss, outer.0 as int, inner.0 as int) == namespace_contains(
                nss,
                outer.0 as int,
                cur as int,
            ),
        decreases cur,
    {
        if cur == outer.0 {
            return true;
        }
        assert(nss[cur as int] == vm.namespaces@[cur as int]@);
        match vm.namespaces[cur].parent {
            Some(p) => {
                cur = p.0;
            },
            None => {
                return false;
            },
        }
    }
}

/// Tells whether an element declared in namespace `target_id`, public if
/// `element_pub`, can be named from namespace `from_id`.
pub fn accessible_from(
    vm: &VM,
    target_id: NamespaceId,
    element_pub: bool,
    from_id: NamespaceId,
) -> (b: bool)
    requires
        namespaces_wf(vm@.namespaces),
        target_id.0 < vm@.namespaces.len(),
        from_id.0 < vm@.namespaces.len(),
    ensures
        b == accessible(vm@.namespaces, target_id.0 as int, element_pub, from_id.0 as int),
{
    let ghost nss = vm@.namespaces;
    let mut t: usize = target_id.0;
    let mut e: bool = element_pub;
    loop
        invariant
            namespaces_wf(nss),
            nss == vm@.namespaces,
            t < nss.len(),
            from_id.0 < nss.len(),
            accessible(nss, t as int, e, from_id.0 as int) == accessible(
                nss,
                target_id.0 as int,
                element_pub,
                from_id.0 as int,
            ),
        decreases t,
    {
        if namespace_contains_exec(vm, NamespaceId(t), from_id) {
            return true;
        }
        if !e {
            return false;
        }
        assert(nss[t as int] == vm.namespaces@[t as int]@);
        match vm.namespaces[t].parent {
            Some(p) => {
                e = vm.namespaces[t].is_pub;
                t = p.0;
            },
            None => {
                return false;
            },
        }
    }
}

/// `prefix::last`, or `last` alone when `prefix` is empty.
pub open spec fn join_path(prefix: Seq<char>, last: Seq<char>) -> Seq<char> {
    if prefix.len() == 0 {
        last
    } else {
        prefix + "::"@ + last
    }
}

pub open spec fn name_text(m: VmModel, name: Option<Name>) -> Seq<char> {
    match name {
        Some(n) => m.names[n as int]@,
        None => Seq::empty(),
    }
}

/// The full name of a namespace: the names from the root's child down to
/// the namespace, joined by `::`; empty for the root.
pub open spec fn namespace_name(m: VmModel, ns: int) -> Seq<char>
    decreases ns,
{
    if 0 <= ns < m.namespaces.len() {
        match m.namespaces[ns].parent {
            Some(p) => if p.0 < ns {
                join_path(namespace_name(m, p.0 as int), name_text(m, m.namespaces[ns].name))
            } else {
                Seq::empty()
            },
            None => Seq::empty(),
        }
    } else {
        Seq::empty()
    }
}

/// The full name of the element `name` declared in namespace `ns`.
pub open spec fn namespace_path_spec(m: VmModel, ns: int, name: Name) -> Seq<char> {
    join_path(namespace_name(m, ns), m.names[name as int]@)
}

fn append_path(prefix: String, last: &String) -> (s: String)
    ensures
        s@ == join_path(prefix@, last@),
{
    let mut s = prefix;
    if !s.as_str().is_empty() {
        s.append("::");
    }
    s.append(last.as_str());
    s
}

/// The full name of namespace `ns`.
pub fn namespace_name_exec(vm: &VM, ns: NamespaceId) -> (s: String)
    requires
        namespaces_wf(vm@.namespaces),
        namespace_names_wf(vm@),
        ns.0 < vm@.namespaces.len(),
    ensures
        s@ == namespace_name(vm@, ns.0 as int),
    decreases ns.0,
{
    let ghost m = vm@;
    assert(m.namespaces[ns.0 as int] == vm.namespaces@[ns.0 as int]@);
    match vm.namespaces[ns.0].parent {
        Some(p) => {
            let prefix = namespace_name_exec(vm, p);
            match vm.namespaces[ns.0].name {
                Some(n) => append_path(prefix, vm.interner.str(n)),
                None => {
                    let empty = String::new();
                    append_path(prefix, &empty)
                },
            }
        },
        None => String::new(),
    }
}

/// The full name of the element `name` declared in namespace `ns`.
pub fn namespace_path(vm: &VM, ns: NamespaceId, name: Name) -> (s: String)
    requires
        namespaces_wf(vm@.namespaces),
        namespace_names_wf(vm@),
        ns.0 < vm@.namespaces.len(),
        name < vm@.names.len(),
    ensures
        s@ == namespace_path_spec(vm@, ns.0 as int, name),
{
    let prefix = namespace_name_exec(vm, ns);
    append_path(prefix, vm.interner.str(name))
}

/// The id of the parent of `ns`, or -1 when it has none.
pub open spec fn parent_index(nss: Seq<NamespaceModel>, ns: int) -> int {
    match nss[ns].parent {
        Some(p) => p.0 as int,
        None => -1,
    }
}

/// Every namespace lies inside itself, and inside the root namespace.
pub proof fn lemma_contains_self_and_root(nss: Seq<NamespaceModel>, ns: int)
    requires
        namespaces_wf(nss),
        0 <= ns < nss.len(),
    ensures
        namespace_contains(nss, ns, ns),
        namespace_contains(nss, 0, ns),
    decreases ns,
{
    if ns != 0 {
        let p = parent_index(nss, ns);
        lemma_contains_self_and_root(nss, p);
    }
}

/// `inner` lies inside `outer` and `outer` inside `outermost`: then `inner`
/// lies inside `outermost`.
pub proof fn lemma_contains_transitive(
    nss: Seq<NamespaceModel>,
    outermost: int,
    outer: int,
    inner: int,
)
    requires
        namespaces_wf(nss),
        0 <= inner < nss.len(),
        namespace_contains(nss, outer, inner),
        namespace_contains(nss, outermost, outer),
    ensures
        namespace_contains(nss, outermost, inner),
    decreases inner,
{
    if outer != inner {
        let p = parent_index(nss, inner);
        lemma_contains_transitive(nss, outermost, outer, p);
    }
}

/// An element, public or not, can be named from the namespace it is
/// declared in and from every namespace inside that one.
pub proof fn lemma_accessible_inside(
    nss: Seq<NamespaceModel>,
    target: int,
    element_pub: bool,
    from: int,
)
    requires
        namespace_contains(nss, target, from),
    ensures
        accessible(nss, target, element_pub, from),
{
}

/// A private element can be named exactly from the namespace it is declared
/// in and from the namespaces inside that one.
pub proof fn lemma_private_accessible_only_inside(nss: Seq<NamespaceModel>, target: int, from: int)
    ensures
        accessible(nss, target, false, from) == namespace_contains(nss, target, from),
{
}

/// Making an element public never hides it from anywhere.
pub proof fn lemma_accessible_pub_monotone(nss: Seq<NamespaceModel>, target: int, from: int)
    requires
        accessible(nss, target, false, from),
    ensures
        accessible(nss, target, true, from),
{
}

/// Every element of the root namespace can be named from every namespace.
pub proof fn lemma_root_elements_accessible(
    nss: Seq<NamespaceModel>,
    element_pub: bool,
    from: int,
)
    requires
        namespaces_wf(nss),
        0 <= from < nss.len(),
    ensures
        accessible(nss, 0, element_pub, from),
{
    lemma_contains_self_and_root(nss, from);
}

/// `ns` and all the namespaces around it, up to the root, are public.
pub open spec fn public_chain(nss: Seq<NamespaceModel>, ns: int) -> bool
    decreases ns,
{
    if 0 <= ns < nss.len() {
        match nss[ns].parent {
            Some(p) => nss[ns].is_pub && p.0 < ns && public_chain(nss, p.0 as int),
            None => true,
        }
    } else {
        false
    }
}

/// A public element of a namespace that is public all the way up to the
/// root can be named from every namespace.
pub proof fn lemma_public_chain_accessible(nss: Seq<NamespaceModel>, target: int, from: int)
    requires
        namespaces_wf(nss),
        0 <= from < nss.len(),
        public_chain(nss, target),
    ensures
        accessible(nss, target, true, from),
    decreases target,
{
    match nss[target].parent {
        Some(p) => {
            lemma_public_chain_accessible(nss, p.0 as int, from);
        },
        None => {
            assert(target == 0);
            lemma_root_elements_accessible(nss, true, from);
        },
    }
}

/// The full name of an element of the root namespace is its own name.
pub proof fn lemma_root_path(m: VmModel, name: Name)
    requires
        namespaces_wf(m.namespaces),
    ensures
        namespace_path_spec(m, 0, name) == m.names[name as int]@,
{
}

/// The full name of a namespace other than the root is the full name of
/// that namespace as an element of its parent.
pub proof fn lemma_namespace_name_is_path_in_parent(m: VmModel, ns: int)
    requires
        namespaces_wf(m.namespaces),
        0 < ns < m.namespaces.len(),
    ensures
        namespace_name(m, ns) == namespace_path_spec(
            m,
            parent_index(m.namespaces, ns),
            m.namespaces[ns].name->0,
        ),
{
}

/// The full name of an element of a namespace declared in the root is the
/// namespace's name, `::`, and the element's name.
pub proof fn lemma_child_of_root_path(m: VmModel, ns: int, name: Name)
    requires
        namespaces_wf(m.namespaces),
        0 < ns < m.namespaces.len(),
        m.namespaces[ns].parent == Some(NamespaceId(0)),
        name_text(m, m.namespaces[ns].name).len() > 0,
    ensures
        namespace_path_spec(m, ns, name) == name_text(m, m.namespaces[ns].name) + "::"@
            + m.names[name as int]@,
{
    assert(namespace_name(m, 0) == Seq::<char>::empty());
}

/// The full name of an element of a namespace with a nonempty full name is
/// that full name, `::`, and the element's name.
pub proof fn lemma_path_extends_namespace_name(m: VmModel, ns: int, name: Name)
    requires
        namespace_name(m, ns).len() > 0,
    ensures
        namespace_path_spec(m, ns, name) == namespace_name(m, ns) + "::"@ + m.names[name as int]@,
{
}

} // verus!
