//! The plain data of the foreign interface: result codes, entry kinds and the
//! names and limits the runtime fixes.
use vstd::prelude::*;

verus! {

/// Result code of an evaluation, a call or a compilation.
#[derive(Clone, Copy, Debug, PartialEq, Eq, Structural)]
pub enum JStarResult {
    /// The operation completed.
    Success,
    /// The source text could not be parsed.
    SyntaxErr,
    /// The parsed program could not be compiled.
    CompileErr,
    /// An exception was raised and not handled.
    RuntimeErr,
    /// The bytecode is malformed.
    DeserializeErr,
    /// The bytecode was produced for another version of the runtime.
    VersionErr,
}

/// Kind of an entry in a table of native registrations.
#[derive(Clone, Copy, Debug, PartialEq, Eq, Structural)]
pub enum JStarRegEntryType {
    /// A native method of a class.
    Method,
    /// A native function of a module.
    Function,
    /// The entry that ends a table.
    Sentinel,
}

/// Name under which a class constructor is registered.
pub const JSR_CONSTRUCT: &'static str = "@construct";

/// Name of the module in which top-level code runs.
pub const JSR_MAIN_MODULE: &'static str = "__main__";

/// Name of the module that holds the standard library.
pub const JSR_CORE_MODULE: &'static str = "__core__";

/// Number of stack slots that are guaranteed to a native function on entry.
pub const JSTAR_MIN_NATIVE_STACK_SZ: usize = 20;

} // verus!
