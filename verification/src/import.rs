//! Module descriptors: what import resolution hands back to the runtime.
use vstd::prelude::*;
use vstd::slice::slice_to_vec;
use vstd::string::StringSliceAdditionalSpecFns;
use vstd::utf8::encode_utf8;
use crate::text::{nul_free, CText};

verus! {

/// The outcome of resolving an import: a module, or nothing where no module
/// of that name can be found.
pub type ImportResult<R> = Option<Module<R>>;

/// A module resolved by an import callback.
///
/// `R` is the type of a table of native registrations; the table is
/// installed into the module's namespace before its code runs.
pub enum Module<R> {
    /// A module given as source text, to be compiled and run.
    Source {
        /// The source text.
        src: CText,
        /// The path of the module, used when errors are reported.
        path: CText,
        /// The native registrations of the module, if it has any.
        reg: Option<R>,
    },
    /// A module given as bytecode, to be run directly.
    Binary {
        /// The bytecode.
        code: Vec<u8>,
        /// The path of the module, used when errors are reported.
        path: CText,
        /// The native registrations of the module, if it has any.
        reg: Option<R>,
    },
}

/// The encoding of `s`, which is known to hold no terminator, as text.
fn checked_text(s: &String) -> (text: CText)
    requires
        nul_free(encode_utf8(s@)),
    ensures
        text@ == encode_utf8(s@),
{
    CText::from_checked(slice_to_vec(s.as_str().as_bytes()))
}

impl<R> Module<R> {
    /// The bytes that the runtime reads as the module's code: the source
    /// text without a terminator, or the bytecode.
    pub open spec fn code(self) -> Seq<u8> {
        match self {
            Module::Source { src, .. } => src@,
            Module::Binary { code, .. } => code@,
        }
    }

    /// The path of the module.
    pub open spec fn path(self) -> Seq<u8> {
        match self {
            Module::Source { path, .. } => path@,
            Module::Binary { path, .. } => path@,
        }
    }

    /// The native registrations of the module.
    pub open spec fn reg(self) -> Option<R> {
        match self {
            Module::Source { reg, .. } => reg,
            Module::Binary { reg, .. } => reg,
        }
    }

    /// A module from source code, without native registrations.
    ///
    /// Neither the source nor the path may hold a terminator byte.
    pub fn source(src: String, path: String) -> (module: Self)
        requires
            nul_free(encode_utf8(src@)),
            nul_free(encode_utf8(path@)),
        ensures
            module is Source,
            module.code() == encode_utf8(src@),
            module.path() == encode_utf8(path@),
            module.reg() is None,
    {
        Module::Source { src: checked_text(&src), path: checked_text(&path), reg: None }
    }

    /// A module from source code, with a table of native registrations.
    ///
    /// Neither the source nor the path may hold a terminator byte.
    pub fn source_with_reg(src: String, path: String, reg: R) -> (module: Self)
        requires
            nul_free(encode_utf8(src@)),
            nul_free(encode_utf8(path@)),
        ensures
            module is Source,
            module.code() == encode_utf8(src@),
            module.path() == encode_utf8(path@),
            module.reg() == Some(reg),
    {
        Module::Source { src: checked_text(&src), path: checked_text(&path), reg: Some(reg) }
    }

    /// A module from bytecode, without native registrations.
    ///
    /// The path may not hold a terminator byte; the bytecode may hold any
    /// byte.
    pub fn binary(code: Vec<u8>, path: String) -> (module: Self)
        requires
            nul_free(encode_utf8(path@)),
        ensures
            module is Binary,
            module.code() == code@,
            module.path() == encode_utf8(path@),
            module.reg() is None,
    {
        Module::Binary { code, path: checked_text(&path), reg: None }
    }

    /// A module from bytecode, with a table of native registrations.
    ///
    /// The path may not hold a terminator byte; the bytecode may hold any
    /// byte.
    pub fn binary_with_reg(code: Vec<u8>, path: String, reg: R) -> (module: Self)
        requires
            nul_free(encode_utf8(path@)),
        ensures
            module is Binary,
            module.code() == code@,
            module.path() == encode_utf8(path@),
            module.reg() == Some(reg),
    {
        Module::Binary { code, path: checked_text(&path), reg: Some(reg) }
    }
}

/// The record that answers an import request.
///
/// It states what the runtime is to read: the code and its length, the
/// path, the native registrations, and whether a finalizer is attached
/// through which the runtime gives the code and the path back once it has
/// read them. An absent field stands for a null pointer.
pub struct ImportRecord<R> {
    /// The code of the module.
    pub code: Option<Vec<u8>>,
    /// The number of bytes of code.
    pub code_len: usize,
    /// The path of the module.
    pub path: Option<CText>,
    /// The native registrations of the module.
    pub reg: Option<R>,
    /// Whether the record carries a finalizer for `code` and `path`.
    pub finalize: bool,
}

impl<R> ImportRecord<R> {
    /// The record is the empty one, by which the runtime is told that no
    /// module was found.
    pub open spec fn is_empty(self) -> bool {
        &&& self.code is None
        &&& self.code_len == 0
        &&& self.path is None
        &&& self.reg is None
        &&& !self.finalize
    }

    /// The record describes `module`: it holds the module's code in full,
    /// its path and its registrations, and a finalizer for the buffers.
    pub open spec fn describes(self, module: Module<R>) -> bool {
        &&& self.code matches Some(code) && code@ == module.code()
        &&& self.code_len == module.code().len()
        &&& self.path matches Some(path) && path@ == module.path()
        &&& self.reg == module.reg()
        &&& self.finalize
    }
}

impl<R> ImportRecord<R> {
    /// The record is the answer to an import request that was resolved to
    /// `resolved`: the description of the module that was found, or the
    /// empty record where none was.
    pub open spec fn answers(self, resolved: ImportResult<R>) -> bool {
        match resolved {
            Some(module) => self.describes(module),
            None => self.is_empty(),
        }
    }
}

impl<R> Default for ImportRecord<R> {
    /// The empty record.
    fn default() -> (record: Self)
        ensures
            record.is_empty(),
    {
        ImportRecord { code: None, code_len: 0, path: None, reg: None, finalize: false }
    }
}

/// Turns the outcome of import resolution into the record that the
/// runtime reads.
///
/// A resolved module gives a record that holds its code, path and
/// registrations and that carries a finalizer, so that the buffers are
/// released once, after the runtime has read them. No module gives the
/// empty record, which the runtime reports to the importing script as a
/// failed import.
pub fn import_record<R>(resolved: ImportResult<R>) -> (record: ImportRecord<R>)
    ensures
        record.answers(resolved),
{
    match resolved {
        None => ImportRecord::default(),
        Some(module) => match module {
            Module::Source { src, path, reg } => {
                let code = src.into_bytes();
                let code_len = code.len();
                ImportRecord { code: Some(code), code_len, path: Some(path), reg, finalize: true }
            },
            Module::Binary { code, path, reg } => {
                let code_len = code.len();
                ImportRecord { code: Some(code), code_len, path: Some(path), reg, finalize: true }
            },
        },
    }
}

} // verus!
