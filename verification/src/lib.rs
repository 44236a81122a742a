//! Low-level types, weak reference representations, address annotations,
//! object layouts and CPU field reads of the majit/pyre JIT toolchain.

pub mod text;
pub mod lltype;
pub mod model;
pub mod annotator;
pub mod llmemory;
pub mod rtyper;
pub mod rweakref;
pub mod cpu;
pub mod pyre_cpu;
pub mod pyobject;
pub mod dictviewobject;
pub mod getsetproperty;
