pub mod double;
pub mod value;
pub mod bytecode;
pub mod runtime;
pub mod plan;
pub mod sites;
pub mod handoff;
pub mod semantics;
pub mod operands;
pub mod ops;
pub mod instruction;
pub mod executor;
pub mod native_entry;
pub mod ic;
pub mod host;
pub mod sidecars;
pub mod sidecar_dispatch;
pub mod sidecar_executor;
pub mod laws;
pub mod number_laws;
