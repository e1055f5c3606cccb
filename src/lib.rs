//! Verified core of a WebAssembly code generator: backend configuration,
//! the cached VM-context accessor with its alias labels, the intrinsics
//! catalog and the endian-tagged artifact envelope.
use vstd::prelude::*;

pub mod config;
pub mod tbaa;
pub mod offsets;
pub mod vmctx;
pub mod envelope;
pub mod intrinsics;

verus! {

} // verus!
