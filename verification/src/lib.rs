//! Verified safety layer for embedding the J* scripting runtime.
//!
//! The J* runtime is a stack-based virtual machine reached through a C-style
//! interface. This crate holds the host-side rules of that embedding: the result
//! taxonomy, the validation of text that crosses the boundary, the configuration
//! record, the module descriptors handed back by import resolution, the stack
//! slot conventions, and the ownership and lifecycle rules of a machine handle.
//! Every function carries a contract that is checked by Verus.
use vstd::prelude::*;
use crate::abi::{JSR_CORE_MODULE, JSR_MAIN_MODULE};

pub mod abi;
pub mod error;
pub mod text;
pub mod trampoline;
pub mod conf;
pub mod import;
pub mod native;
pub mod stack;
pub mod string;
pub mod vm;

verus! {

/// The name of the core module.
///
/// It holds the standard library, is implicitly imported by every other
/// module, and is bootstrapped when the runtime is initialised.
pub const CORE_MODULE: &'static str = JSR_CORE_MODULE;

/// The name of the main module.
///
/// It is created when the runtime is initialised and is the module in which
/// top-level code is evaluated.
pub const MAIN_MODULE: &'static str = JSR_MAIN_MODULE;

} // verus!
