//! Build-time configuration logic for bindings to the xmlsec1 native library.
//!
//! The decisions a build script makes for these bindings — which tokens an
//! `xmlsec1-config` invocation produced, whether the local xmlsec1 was built
//! for dynamic crypto loading, which libraries to link, and which cargo
//! directives to emit — are ordinary computations on bytes and strings, and
//! they are specified and verified here. The surrounding process invocation,
//! environment inspection and code generation live outside the library.

use vstd::prelude::*;

pub mod args;
pub mod config;
pub mod split;
pub mod trim;
pub mod whitespace;

verus! {

} // verus!
