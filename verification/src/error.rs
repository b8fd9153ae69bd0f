//! The closed taxonomy of failures that evaluation, calls and compilation
//! surface to the host.
use vstd::prelude::*;
use vstd::string::StringExecFns;
use vstd::std_specs::convert::TryFromSpecImpl;
use vstd::std_specs::convert::FromSpecImpl;
use crate::abi::JStarResult;

verus! {

/// The error of the standard I/O layer, carried through unchanged.
#[verifier::external_type_specification]
#[verifier::external_body]
pub struct ExIoError(std::io::Error);

/// A failure reported by the J* machine, or met while draining compiled code
/// to a sink.
#[derive(Debug)]
pub enum Error {
    /// A syntax error was encountered while parsing.
    Syntax,
    /// An error was encountered while compiling code.
    Compile,
    /// An exception was thrown while executing code.
    Runtime,
    /// An error was encountered while deserializing compiled code.
    Deserialize,
    /// Compiled code version mismatch.
    Version,
    /// The sink that received compiled code failed.
    IO(std::io::Error),
}

/// Shorthand for a result whose failure is an [`Error`].
pub type Result<T> = std::result::Result<T, Error>;

/// The error that a result code stands for; `Success` stands for none.
pub open spec fn error_of(code: JStarResult) -> Option<Error> {
    match code {
        JStarResult::Success => None,
        JStarResult::SyntaxErr => Some(Error::Syntax),
        JStarResult::CompileErr => Some(Error::Compile),
        JStarResult::RuntimeErr => Some(Error::Runtime),
        JStarResult::DeserializeErr => Some(Error::Deserialize),
        JStarResult::VersionErr => Some(Error::Version),
    }
}

impl Error {
    /// The text that describes an error of this kind to a reader. For a
    /// failure of the sink it is the fixed part of the description, which
    /// the sink's own account of the failure follows.
    pub open spec fn description(self) -> Seq<char> {
        match self {
            Error::Syntax => "Syntax error encountered while parsing"@,
            Error::Compile => "Error encountered while compiling code"@,
            Error::Runtime => "Exception was throw while executing code"@,
            Error::Deserialize => "Error while deserializing compiled code"@,
            Error::Version => "Compiled code version mismatch"@,
            Error::IO(_) => "I/O error: "@,
        }
    }

    /// Describes the error to a reader.
    ///
    /// The message is the description of the kind; for a failure of the
    /// sink, the sink's own account of the failure follows it.
    pub fn message(&self) -> (msg: String)
        ensures
            !(self is IO) ==> msg@ == self.description(),
            self is IO ==> exists|account: Seq<char>| msg@ == self.description() + account,
    {
        match self {
            Error::Syntax => "Syntax error encountered while parsing".to_owned(),
            Error::Compile => "Error encountered while compiling code".to_owned(),
            Error::Runtime => "Exception was throw while executing code".to_owned(),
            Error::Deserialize => "Error while deserializing compiled code".to_owned(),
            Error::Version => "Compiled code version mismatch".to_owned(),
            Error::IO(source) => {
                let account = source.to_string();
                let msg = "I/O error: ".to_owned().concat(account.as_str());
                assert(msg@ == self.description() + account@);
                msg
            },
        }
    }
}

impl TryFrom<JStarResult> for Error {
    type Error = ();

    /// Maps a result code onto the error it stands for. `Success` is no
    /// error and is the one code that is refused.
    fn try_from(value: JStarResult) -> (ret: std::result::Result<Self, ()>) {
        match value {
            JStarResult::SyntaxErr => Ok(Self::Syntax),
            JStarResult::CompileErr => Ok(Self::Compile),
            JStarResult::RuntimeErr => Ok(Self::Runtime),
            JStarResult::DeserializeErr => Ok(Self::Deserialize),
            JStarResult::VersionErr => Ok(Self::Version),
            JStarResult::Success => Err(()),
        }
    }
}

impl TryFromSpecImpl<JStarResult> for Error {
    open spec fn obeys_try_from_spec() -> bool {
        true
    }

    open spec fn try_from_spec(v: JStarResult) -> std::result::Result<Self, ()> {
        match error_of(v) {
            Some(e) => Ok(e),
            None => Err(()),
        }
    }
}

impl From<std::io::Error> for Error {
    /// Wraps a failure of the sink that compiled code was written to.
    fn from(source: std::io::Error) -> (ret: Self) {
        Error::IO(source)
    }
}

impl FromSpecImpl<std::io::Error> for Error {
    open spec fn obeys_from_spec() -> bool {
        true
    }

    open spec fn from_spec(v: std::io::Error) -> Self {
        Error::IO(v)
    }
}

/// What the host is told after an evaluation, a call or a compilation that
/// ended with `code`: the error the code stands for, or success where it
/// stands for none.
pub open spec fn outcome_of(code: JStarResult) -> Result<()> {
    match error_of(code) {
        Some(e) => Err(e),
        None => Ok(()),
    }
}

/// The taxonomy is closed and faithful: `Success` is the one code that is no
/// error and the one outcome that is a success, different codes stand for
/// different errors, and no code stands for a failure of a sink.
pub proof fn lemma_taxonomy(a: JStarResult, b: JStarResult)
    ensures
        error_of(a) is None <==> a == JStarResult::Success,
        outcome_of(a) is Ok <==> a == JStarResult::Success,
        error_of(a) == error_of(b) ==> a == b,
        error_of(a) matches Some(e) ==> !(e is IO),
{
}

/// Turns the result code of an evaluation, a call or a compilation into the
/// host's result. `Success` is filtered out and never surfaces as an error.
pub fn check_result(code: JStarResult) -> (ret: Result<()>)
    ensures
        ret == outcome_of(code),
{
    match Error::try_from(code) {
        Ok(err) => Err(err),
        Err(_) => Ok(()),
    }
}

/// Turns the success flag of a stack operation that may raise into the
/// host's result: a cleared flag means that an exception was left on top of
/// the stack, which is a runtime error.
pub fn check_flag(ok: bool) -> (ret: Result<()>)
    ensures
        ok ==> ret == Ok::<(), Error>(()),
        !ok ==> ret == Err::<(), Error>(Error::Runtime),
{
    if !ok {
        Err(Error::Runtime)
    } else {
        Ok(())
    }
}

/// Turns the result of writing compiled code to a sink into the host's
/// result: a failure of the sink is carried inside [`Error::IO`].
pub fn drain_result(written: std::result::Result<(), std::io::Error>) -> (ret: Result<()>)
    ensures
        ret == match written {
            Ok(_) => Ok::<(), Error>(()),
            Err(e) => Err::<(), Error>(Error::IO(e)),
        },
{
    match written {
        Ok(_) => Ok(()),
        Err(e) => Err(Error::from(e)),
    }
}

/// What an in-memory compilation hands back: the error that `code` stands
/// for, or a copy of the `compiled` bytes where it stands for none.
pub fn compiled_bytes(code: JStarResult, compiled: &[u8]) -> (ret: Result<Vec<u8>>)
    ensures
        match error_of(code) {
            Some(e) => ret == Err::<Vec<u8>, Error>(e),
            None => ret is Ok && ret->Ok_0@ == compiled@,
        },
{
    match check_result(code) {
        Err(e) => Err(e),
        Ok(_) => Ok(vstd::slice::slice_to_vec(compiled)),
    }
}

} // verus!
