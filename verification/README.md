# dora (semantic checks, verified)

Semantic checks of the Dora compiler's front end, with their behaviour stated
in contracts that Verus proves:

- `semck::impldefck` checks `impl Trait for Class` blocks: each method becomes
  a function of the VM, a method without a body is reported, the trait and the
  class are resolved, and the class records the trait and the impl block.
- `semck::importck` checks imports: an element of a namespace (a function or a
  class) or a variant of an enum is bound under the target name; shadowed
  names, unknown variants and containers that are neither are reported.
- `semck::read_type_namespace` resolves written types; `vm::accessible_from`
  and `vm::consts::const_accessible_from` decide visibility across
  namespaces; `vm::namespace_path` builds full names.
- `bytecode::opcode::Bytecode` is the instruction set.

The state (`vm::VM`) has a model (`vm::VmModel`) and an invariant
(`VmModel::wf`); every check is specified as a function on the model. The
public proof functions named `lemma_*` state the laws of the library.

`app/` holds the conversions between floating-point numbers and the bits by
which the library holds them.
