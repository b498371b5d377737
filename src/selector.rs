use crate::symbols::option_view;
use vstd::prelude::*;

verus! {

/// The byte that ends a C string.
pub const TERMINATOR: u8 = 0;

/// The selection as handed to the host: the selector's output, with a
/// terminator appended unless it already ends in one.
pub open spec fn terminated(b: Seq<u8>) -> Seq<u8> {
    if b.len() > 0 && b.last() == TERMINATOR {
        b
    } else {
        b.push(TERMINATOR)
    }
}

/// Makes sure the selector's output ends in a terminator.
pub fn terminate(buf: Vec<u8>) -> (r: Vec<u8>)
    ensures
        r@ == terminated(buf@),
{
    let mut buf = buf;
    let n = buf.len();
    if n == 0 || buf[n - 1] != TERMINATOR {
        buf.push(TERMINATOR);
    }
    buf
}

/// Relies on `String::from_utf8`: the bytes as text exactly when they are
/// valid UTF-8.
#[verifier::external_body]
fn decode_utf8(b: Vec<u8>) -> (r: Option<String>)
    ensures
        r is Some <==> vstd::utf8::valid_utf8(b@),
        r matches Some(s) ==> s@ == vstd::utf8::decode_utf8(b@),
{
    String::from_utf8(b).ok()
}

/// The identity name as text: none where the global holds null or its
/// bytes are not valid UTF-8.
pub open spec fn name_text(value: Option<Vec<u8>>) -> Option<Seq<char>> {
    match value {
        None => None,
        Some(b) => if vstd::utf8::valid_utf8(b@) {
            Some(vstd::utf8::decode_utf8(b@))
        } else {
            None
        },
    }
}

/// The identity name the host reports, read from its global: none when the
/// global holds null or its bytes are not valid UTF-8.
pub fn get_readline_name(value: Option<Vec<u8>>) -> (r: Option<String>)
    ensures
        option_view(r) == name_text(value),
{
    match value {
        None => None,
        Some(b) => decode_utf8(b),
    }
}

} // verus!
