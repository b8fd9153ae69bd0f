//! Text that crosses into the foreign runtime.
//!
//! The runtime reads paths, names and source text up to the first zero byte,
//! so such text must hold none. [`CText`] is a byte string for which that has
//! been checked.
use vstd::prelude::*;
use vstd::slice::slice_to_vec;
use vstd::string::StringSliceAdditionalSpecFns;
use vstd::utf8::valid_utf8;

verus! {

/// No byte of `bytes` is the terminator.
pub open spec fn nul_free(bytes: Seq<u8>) -> bool {
    forall|i: int| 0 <= i < bytes.len() ==> bytes[i] != 0u8
}

/// `i` is the position of a terminator in `bytes` and none stands before it.
pub open spec fn is_first_nul(bytes: Seq<u8>, i: int) -> bool {
    &&& 0 <= i < bytes.len()
    &&& bytes[i] == 0u8
    &&& nul_free(bytes.take(i))
}

/// Finds the first terminator byte in `bytes`.
///
/// The result is `None` exactly when `bytes` holds no terminator, and
/// otherwise the position of the earliest one.
pub fn find_nul(bytes: &[u8]) -> (pos: Option<usize>)
    ensures
        pos is None <==> nul_free(bytes@),
        pos matches Some(i) ==> is_first_nul(bytes@, i as int),
{
    let mut i: usize = 0;
    while i < bytes.len()
        invariant
            i <= bytes.len(),
            nul_free(bytes@.take(i as int)),
        decreases bytes.len() - i,
    {
        if bytes[i] == 0 {
            return Some(i);
        }
        i += 1;
    }
    assert(bytes@.take(i as int) =~= bytes@);
    None
}

/// Tells whether `bytes` may be handed to the runtime as text.
pub fn is_nul_free(bytes: &[u8]) -> (ok: bool)
    ensures
        ok == nul_free(bytes@),
{
    find_nul(bytes).is_none()
}

/// The error of the standard library's UTF-8 validation, carried through
/// unchanged.
#[verifier::external_type_specification]
#[verifier::external_body]
pub struct ExUtf8Error(std::str::Utf8Error);

/// `std::str::from_utf8` reads bytes as text: it succeeds exactly on a valid
/// UTF-8 encoding, and the text it gives is made of the very bytes it was
/// given.
pub assume_specification[ std::str::from_utf8 ](v: &[u8]) -> (text: std::result::Result<
    &str,
    std::str::Utf8Error,
>)
    ensures
        text is Ok <==> valid_utf8(v@),
        text matches Ok(s) ==> s.spec_bytes() == v@,
;

/// Tells whether `bytes` are legal text, that is, a valid UTF-8 encoding.
pub fn is_text(bytes: &[u8]) -> (ok: bool)
    ensures
        ok == valid_utf8(bytes@),
{
    std::str::from_utf8(bytes).is_ok()
}

/// A byte string without a terminator byte: text in the form in which the
/// runtime takes paths, names and source code.
#[derive(Debug)]
pub struct CText {
    bytes: Vec<u8>,
}

impl View for CText {
    type V = Seq<u8>;

    closed spec fn view(&self) -> Seq<u8> {
        self.bytes@
    }
}

impl CText {
    #[verifier::type_invariant]
    spec fn terminator_free(self) -> bool {
        nul_free(self.bytes@)
    }

    /// Checks `bytes` and keeps them as text. The bytes are refused, and
    /// `None` is returned, exactly when one of them is the terminator.
    pub fn new(bytes: Vec<u8>) -> (text: Option<CText>)
        ensures
            text is Some <==> nul_free(bytes@),
            text matches Some(t) ==> t@ == bytes@,
    {
        if is_nul_free(bytes.as_slice()) {
            Some(CText { bytes })
        } else {
            None
        }
    }

    /// Keeps bytes that are known to hold no terminator.
    pub(crate) fn from_checked(bytes: Vec<u8>) -> (text: CText)
        requires
            nul_free(bytes@),
        ensures
            text@ == bytes@,
    {
        CText { bytes }
    }

    /// Checks the UTF-8 encoding of `s` and keeps it as text.
    pub fn from_text(s: &str) -> (text: Option<CText>)
        ensures
            text is Some <==> nul_free(s.spec_bytes()),
            text matches Some(t) ==> t@ == s.spec_bytes(),
    {
        CText::new(slice_to_vec(s.as_bytes()))
    }

    /// The bytes of the text; none of them is the terminator.
    pub fn as_bytes(&self) -> (bytes: &[u8])
        ensures
            bytes@ == self@,
            nul_free(bytes@),
    {
        proof {
            use_type_invariant(self);
        }
        self.bytes.as_slice()
    }

    /// Gives up the text for its bytes; none of them is the terminator.
    pub fn into_bytes(self) -> (bytes: Vec<u8>)
        ensures
            bytes@ == self@,
            nul_free(bytes@),
    {
        proof {
            use_type_invariant(&self);
        }
        self.bytes
    }

    /// The number of bytes of the text.
    pub fn len(&self) -> (n: usize)
        ensures
            n == self@.len(),
    {
        self.bytes.len()
    }
}

} // verus!
