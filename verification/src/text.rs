//! Text helpers shared by the other modules: comparing strings, turning
//! captured bytes into text, and quoting a value for a message.

use vstd::prelude::*;
use vstd::string::StringSliceAdditionalSpecFns;
use vstd::utf8::{encode_utf8, encode_utf8_decode_utf8};

verus! {

/// The text that `{:?}` formatting of a string produces: the string between
/// double quotes, with the characters that need it escaped.
pub uninterp spec fn debug_form(s: Seq<char>) -> Seq<char>;

/// The text that a lossy UTF-8 decoding of `bytes` produces: each malformed
/// sequence is replaced by U+FFFD.
pub uninterp spec fn lossy_decoding(bytes: Seq<u8>) -> Seq<char>;

/// Two strings hold the same characters exactly when their encodings agree.
pub proof fn lemma_same_encoding_same_text(a: Seq<char>, b: Seq<char>)
    ensures
        (encode_utf8(a) == encode_utf8(b)) <==> (a == b),
{
    encode_utf8_decode_utf8(a);
    encode_utf8_decode_utf8(b);
}

/// Whether `a` and `b` hold the same characters.
pub fn same_text(a: &str, b: &str) -> (r: bool)
    ensures
        r == (a@ == b@),
{
    let x = a.as_bytes();
    let y = b.as_bytes();
    proof {
        lemma_same_encoding_same_text(a@, b@);
    }
    if x.len() != y.len() {
        return false;
    }
    let mut i: usize = 0;
    while i < x.len()
        invariant
            i <= x.len(),
            x.len() == y.len(),
            a@ == b@ ==> x@ == y@,
            forall|j: int| 0 <= j < i ==> x@[j] == y@[j],
        decreases x.len() - i,
    {
        if x[i] != y[i] {
            return false;
        }
        i += 1;
    }
    assert(x@ =~= y@);
    true
}

/// Calls `format!("{:?}", s)`: the result is the `Debug` rendering of the
/// string, which this library names [`debug_form`] without describing it.
#[verifier::external_body]
pub(crate) fn debug_quoted(s: &str) -> (r: String)
    ensures
        r@ == debug_form(s@),
{
    format!("{:?}", s)
}

/// Calls `String::from_utf8_lossy`: the result is the lenient decoding of
/// the bytes, which this library names [`lossy_decoding`] without
/// describing it.
#[verifier::external_body]
pub(crate) fn lossy_text(bytes: &[u8]) -> (r: String)
    ensures
        r@ == lossy_decoding(bytes@),
{
    String::from_utf8_lossy(bytes).into_owned()
}

} // verus!
