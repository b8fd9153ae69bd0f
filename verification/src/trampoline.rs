//! The state behind the two fixed callback entry points, and what each entry
//! point does when the runtime calls it.
//!
//! The runtime accepts bare function pointers only. One fixed entry point per
//! role is registered with it, and each finds the host's callbacks again
//! through the state that was registered alongside. This module holds that
//! state and the two dispatchers; the entry points themselves only turn
//! pointers into slices and back.
use vstd::prelude::*;
use vstd::string::StringSliceAdditionalSpecFns;
use vstd::utf8::valid_utf8;
use crate::abi::JStarResult;
use crate::error::{error_of, Error};
use crate::import::{import_record, ImportRecord, ImportResult};

verus! {

/// The callbacks of one machine: what the fixed entry points dispatch to.
///
/// `E` is the type of the error callback and `I` that of the import
/// callback. Either may be absent, in which case its entry point does
/// nothing.
pub struct Trampolines<E, I> {
    /// Called once for each syntax, compile or runtime error.
    pub error_callback: Option<E>,
    /// Called to resolve a module that the runtime does not know.
    pub import_callback: Option<I>,
}

/// What an error callback is told about the kind and the place of an error.
pub struct ErrorNotice {
    /// The kind of the error.
    pub kind: Error,
    /// The line the error was found on, if it has one.
    pub line: Option<i32>,
}

/// The line of an error as the host sees it: the runtime reports zero or a
/// negative number where there is no line.
pub open spec fn line_of(line: i32) -> Option<i32> {
    if line > 0 {
        Some(line)
    } else {
        None
    }
}

/// Maps a reported line number to an optional value.
pub fn report_line(line: i32) -> (ret: Option<i32>)
    ensures
        ret == line_of(line),
{
    if line > 0 {
        Some(line)
    } else {
        None
    }
}

/// Marshals the kind and the line of a reported error.
///
/// The runtime reports errors only, so `code` is never `Success`.
pub fn error_notice(code: JStarResult, line: i32) -> (notice: ErrorNotice)
    requires
        code != JStarResult::Success,
    ensures
        Some(notice.kind) == error_of(code),
        notice.line == line_of(line),
{
    let kind = match Error::try_from(code) {
        Ok(kind) => kind,
        Err(_) => vstd::pervasive::unreached(),
    };
    ErrorNotice { kind, line: report_line(line) }
}

/// Reads bytes that are known to be legal text.
fn text_of(bytes: &[u8]) -> (text: &str)
    requires
        valid_utf8(bytes@),
    ensures
        text.spec_bytes() == bytes@,
{
    std::str::from_utf8(bytes).unwrap()
}

/// The entry point for error reports.
///
/// If an error callback is stored it is called, exactly once, with the
/// kind of the error, the path of the reporting module, the line if there
/// is one, and the message. Without a callback nothing happens. The result
/// tells whether the callback was called.
///
/// Where a callback is stored, `code` must be an error and `file` and
/// `message` legal text, as the runtime guarantees, and the callback must
/// accept every report.
pub fn error_trampoline<E: FnMut(Error, &str, Option<i32>, &str), I>(
    state: &mut Trampolines<E, I>,
    code: JStarResult,
    file: &[u8],
    line: i32,
    message: &[u8],
) -> (called: bool)
    requires
        old(state).error_callback matches Some(callback) ==> {
            &&& code != JStarResult::Success
            &&& valid_utf8(file@)
            &&& valid_utf8(message@)
            &&& forall|kind: Error, path: &str, at: Option<i32>, text: &str|
                call_requires(callback, (kind, path, at, text))
        },
    ensures
        called == (old(state).error_callback is Some),
        old(state).error_callback matches Some(callback) ==> exists|
            kind: Error,
            path: &str,
            text: &str,
        |
            {
                &&& call_ensures(callback, (kind, path, line_of(line), text), ())
                &&& Some(kind) == error_of(code)
                &&& path.spec_bytes() == file@
                &&& text.spec_bytes() == message@
            },
        final(state).error_callback is Some <==> old(state).error_callback is Some,
        final(state).import_callback == old(state).import_callback,
{
    match &mut state.error_callback {
        Some(callback) => {
            let notice = error_notice(code, line);
            let path = text_of(file);
            let text = text_of(message);
            callback(notice.kind, path, notice.line, text);
            true
        },
        None => false,
    }
}

/// The entry point for import resolution.
///
/// If an import callback is stored it is called, exactly once, with the
/// machine and the name of the module, and what it resolved is turned
/// into the record that the runtime reads. Without a callback, or where
/// the callback finds no module, the record is the empty one.
///
/// Where a callback is stored, `module_name` must be legal text, as the
/// runtime guarantees, and the callback must accept every request.
pub fn import_trampoline<E, I: FnMut(&mut V, &str) -> ImportResult<R>, V, R>(
    state: &mut Trampolines<E, I>,
    vm: &mut V,
    module_name: &[u8],
) -> (record: ImportRecord<R>)
    requires
        old(state).import_callback matches Some(callback) ==> {
            &&& valid_utf8(module_name@)
            &&& forall|machine: &mut V, name: &str| call_requires(callback, (machine, name))
        },
    ensures
        old(state).import_callback is None ==> record.is_empty() && *final(vm) == *old(vm),
        old(state).import_callback matches Some(callback) ==> exists|
            machine: &mut V,
            name: &str,
            resolved: ImportResult<R>,
        |
            {
                &&& call_ensures(callback, (machine, name), resolved)
                &&& *machine == *old(vm)
                &&& *final(machine) == *final(vm)
                &&& name.spec_bytes() == module_name@
                &&& record.answers(resolved)
            },
        final(state).import_callback is Some <==> old(state).import_callback is Some,
        final(state).error_callback == old(state).error_callback,
{
    match &mut state.import_callback {
        Some(callback) => {
            let name = text_of(module_name);
            let resolved = callback(vm, name);
            import_record(resolved)
        },
        None => ImportRecord::default(),
    }
}

} // verus!
