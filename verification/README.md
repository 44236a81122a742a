# majit

A verified library for pieces of the majit/pyre JIT toolchain:

- `lltype`: low-level types, pointer values, `nullptr`, `opaqueptr`, `malloc`.
- `model`: flow-graph constants, host objects, variables and operations.
- `annotator`, `llmemory`: annotations, and those of low-level addresses
  (`supported_access_type`, `sizeof`).
- `rtyper`, `rweakref`: the RTyper's high-level operation and the native and
  emulated weak reference representations.
- `cpu`, `pyre_cpu`: class and field reads over a byte model of memory, and
  pyre's string reads.
- `pyobject`, `dictviewobject`, `getsetproperty`: pyre's object space, dict
  views and getset descriptors.

`app/` holds the trait-object CPU interface, float reads and the
process-wide pyre CPU.
