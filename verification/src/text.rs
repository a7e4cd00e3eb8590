//! UTF-8 text: the conversion from bytes, and how encoding treats concatenation.

use vstd::prelude::*;
use vstd::utf8::{encode_scalar, encode_utf8, valid_utf8};

verus! {

/// The error of `String::from_utf8`, carried through unread.
#[verifier::external_type_specification]
#[verifier::external_body]
pub struct ExFromUtf8Error(std::string::FromUtf8Error);

/// `String::from_utf8` of std: succeeds on exactly the vectors that hold valid UTF-8, and then gives
/// the text whose UTF-8 encoding they hold.
pub assume_specification[ String::from_utf8 ](bytes: Vec<u8>) -> (text: Result<
    String,
    std::string::FromUtf8Error,
>)
    ensures
        text is Ok <==> valid_utf8(bytes@),
        text matches Ok(s) ==> encode_utf8(s@) == bytes@,
;

/// The encoding of a concatenation is the concatenation of the encodings.
pub proof fn law_encode_concat(a: Seq<char>, b: Seq<char>)
    ensures
        encode_utf8(a + b) == encode_utf8(a) + encode_utf8(b),
    decreases a.len(),
{
    if a.len() == 0 {
        assert(a + b =~= b);
        assert(encode_utf8(a) =~= seq![]);
        assert(encode_utf8(a) + encode_utf8(b) =~= encode_utf8(b));
    } else {
        let head = encode_scalar(a[0] as u32);
        assert((a + b).drop_first() =~= a.drop_first() + b);
        law_encode_concat(a.drop_first(), b);
        assert(encode_utf8(a + b) =~= head + (encode_utf8(a.drop_first()) + encode_utf8(b)));
        assert(encode_utf8(a) + encode_utf8(b) =~= head + (encode_utf8(a.drop_first())
            + encode_utf8(b)));
    }
}

} // verus!
