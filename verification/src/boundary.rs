//! Discovery of the boundary token on the first line of a body.

use vstd::prelude::*;
use vstd::slice::slice_subrange;
use vstd::utf8::{decode_utf8, valid_utf8};

verus! {

/// The carriage return that ends the boundary line.
pub const CR: u8 = 13;

/// Length of the two-byte marker that precedes the token on the boundary line.
pub const PREFIX_LEN: usize = 2;

/// `i` is the position of the first carriage return of `body`.
pub open spec fn is_first_cr(body: Seq<u8>, i: int) -> bool {
    &&& 0 <= i < body.len()
    &&& body[i] == CR
    &&& forall|j: int| 0 <= j < i ==> body[j] != CR
}

/// The body holds a carriage return.
pub open spec fn has_cr(body: Seq<u8>) -> bool {
    exists|i: int| is_first_cr(body, i)
}

/// Position of the first carriage return of a body that holds one.
pub open spec fn first_cr(body: Seq<u8>) -> int {
    choose|i: int| is_first_cr(body, i)
}

/// The bytes between the two-byte marker and the first carriage return:
/// `None` where there is no carriage return, where nothing lies between the
/// two, or where what lies there is not UTF-8.
pub open spec fn boundary_token(body: Seq<u8>) -> Option<Seq<u8>> {
    if has_cr(body) && first_cr(body) > PREFIX_LEN && valid_utf8(
        body.subrange(PREFIX_LEN as int, first_cr(body)),
    ) {
        Some(body.subrange(PREFIX_LEN as int, first_cr(body)))
    } else {
        None
    }
}

/// `std::str::from_utf8`: the slice read as text, which succeeds exactly on
/// well-formed UTF-8 and then holds the characters that the bytes encode.
#[verifier::external_body]
pub(crate) fn utf8_text(bytes: &[u8]) -> (r: Option<&str>)
    ensures
        r is Some <==> valid_utf8(bytes@),
        r matches Some(s) ==> s@ == decode_utf8(bytes@),
{
    std::str::from_utf8(bytes).ok()
}

/// Position of the first carriage return of `body`, if it has one.
pub fn find_cr(body: &[u8]) -> (r: Option<usize>)
    ensures
        r is Some <==> has_cr(body@),
        r matches Some(i) ==> is_first_cr(body@, i as int),
{
    let mut i: usize = 0;
    while i < body.len()
        invariant
            i <= body.len(),
            forall|j: int| 0 <= j < i ==> body@[j] != CR,
        decreases body.len() - i,
    {
        if body[i] == CR {
            assert(is_first_cr(body@, i as int));
            return Some(i);
        }
        i += 1;
    }
    assert forall|k: int| !is_first_cr(body@, k) by {}
    None
}

/// The boundary token of `body` as text, or `None` where the body has none.
pub fn extract_boundary(body: &[u8]) -> (r: Option<String>)
    ensures
        r is Some <==> boundary_token(body@) is Some,
        r matches Some(s) ==> s@ == decode_utf8(boundary_token(body@).unwrap()),
{
    match find_cr(body) {
        None => None,
        Some(end) => {
            if end <= PREFIX_LEN {
                None
            } else {
                match utf8_text(slice_subrange(body, PREFIX_LEN, end)) {
                    None => None,
                    Some(text) => Some(text.to_owned()),
                }
            }
        },
    }
}

} // verus!
