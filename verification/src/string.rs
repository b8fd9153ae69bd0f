//! The J* string as the host sees it.
//!
//! A J* string is more akin to a byte slice than to a Rust string: it can
//! hold arbitrary data and no encoding is assumed. [`String`] is a view of
//! such a string where it lies, in a slot of the stack, and it is bound to
//! the borrow of the machine it was read through: as long as the view is
//! alive the stack cannot be changed, so the slot cannot be popped and its
//! storage cannot be reclaimed.
use vstd::prelude::*;
use vstd::slice::slice_to_vec;
use vstd::std_specs::cmp::PartialEqSpecImpl;
use vstd::string::StringSliceAdditionalSpecFns;
use vstd::utf8::valid_utf8;

verus! {

/// Tells whether two byte slices hold the same bytes.
pub fn bytes_eq(a: &[u8], b: &[u8]) -> (same: bool)
    ensures
        same == (a@ == b@),
{
    if a.len() != b.len() {
        return false;
    }
    let mut i: usize = 0;
    while i < a.len()
        invariant
            a.len() == b.len(),
            i <= a.len(),
            a@.take(i as int) == b@.take(i as int),
        decreases a.len() - i,
    {
        if a[i] != b[i] {
            return false;
        }
        assert(a@.take(i + 1) =~= a@.take(i as int).push(a@[i as int]));
        assert(b@.take(i + 1) =~= b@.take(i as int).push(b@[i as int]));
        i += 1;
    }
    assert(a@.take(i as int) =~= a@);
    assert(b@.take(i as int) =~= b@);
    true
}

/// A J* string in a slot of the stack, borrowed without a copy.
#[derive(Debug, Eq, Hash)]
pub struct String<'vm> {
    bytes: &'vm [u8],
}

impl<'vm> View for String<'vm> {
    type V = Seq<u8>;

    closed spec fn view(&self) -> Seq<u8> {
        self.bytes@
    }
}

impl<'vm> String<'vm> {
    /// The view of the J* string whose content is `bytes`.
    pub fn new(bytes: &'vm [u8]) -> (string: Self)
        ensures
            string@ == bytes@,
    {
        String { bytes }
    }

    /// Reads the string as text.
    ///
    /// A J* string can hold arbitrary data, so this fails exactly when the
    /// content is not valid UTF-8. The text is made of the very bytes of the
    /// string.
    pub fn as_str(&self) -> (text: Result<&'vm str, std::str::Utf8Error>)
        ensures
            text is Ok <==> valid_utf8(self@),
            text matches Ok(s) ==> s.spec_bytes() == self@,
    {
        std::str::from_utf8(self.bytes)
    }

    /// The content of the string.
    pub fn as_bytes(&self) -> (bytes: &'vm [u8])
        ensures
            bytes@ == self@,
    {
        self.bytes
    }

    /// The number of bytes of the string.
    pub fn len(&self) -> (n: usize)
        ensures
            n == self@.len(),
    {
        self.bytes.len()
    }

    /// Tells whether the string holds exactly the bytes `other`.
    pub fn eq_bytes(&self, other: &[u8]) -> (same: bool)
        ensures
            same == (self@ == other@),
    {
        bytes_eq(self.bytes, other)
    }

    /// Tells whether the string holds exactly the encoding of `other`.
    pub fn eq_str(&self, other: &str) -> (same: bool)
        ensures
            same == (self@ == other.spec_bytes()),
    {
        bytes_eq(self.bytes, other.as_bytes())
    }

    /// Copies the content out of the stack, so that it may outlive the
    /// borrow of the machine.
    pub fn to_vec(&self) -> (owned: Vec<u8>)
        ensures
            owned@ == self@,
    {
        slice_to_vec(self.bytes)
    }

    /// Copies the content out of the stack as text. This fails exactly when
    /// the content is not valid UTF-8.
    pub fn to_text(&self) -> (owned: Result<std::string::String, std::str::Utf8Error>)
        ensures
            owned is Ok <==> valid_utf8(self@),
            owned matches Ok(s) ==> vstd::utf8::encode_utf8(s@) == self@,
    {
        match self.as_str() {
            Ok(s) => Ok(s.to_owned()),
            Err(e) => Err(e),
        }
    }
}

impl<'vm> PartialEq for String<'vm> {
    /// Two strings are equal when they hold the same bytes.
    fn eq(&self, other: &Self) -> (same: bool) {
        bytes_eq(self.bytes, other.bytes)
    }
}

impl<'vm> PartialEqSpecImpl for String<'vm> {
    open spec fn obeys_eq_spec() -> bool {
        true
    }

    open spec fn eq_spec(&self, other: &Self) -> bool {
        self@ == other@
    }
}

} // verus!
