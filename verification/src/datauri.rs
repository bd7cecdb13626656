use vstd::prelude::*;

use vstd::string::StringExecFns;

verus! {

/// What the standard-alphabet, no-padding base64 encoding of the bytes is; a
/// function of the bytes alone.
pub uninterp spec fn b64_of(bytes: Seq<u8>) -> Seq<char>;

/// Relies on base64's STANDARD_NO_PAD engine: four characters for every three
/// bytes, rounded up, from the standard alphabet and so never the padding
/// character '='. The length bound keeps the engine's buffer arithmetic from
/// overflowing, on which it panics.
#[verifier::external_body]
fn b64_encode(bytes: &Vec<u8>) -> (r: String)
    requires
        bytes@.len() <= usize::MAX / 4,
    ensures
        r@ == b64_of(bytes@),
        r@.len() == (4 * bytes@.len() + 2) / 3,
        forall|i: int| 0 <= i < r@.len() ==> r@[i] != '=',
{
    base64::Engine::encode(&base64::engine::general_purpose::STANDARD_NO_PAD, bytes)
}

/// The data-URI prefix declaring a content type.
pub open spec fn data_uri_prefix(content_type: Seq<char>) -> Seq<char> {
    "data:"@ + content_type + ";base64,"@
}

/// Wraps an encoded buffer as a base64 data URI: the prefix declaring the
/// content type, then the no-padding base64 text of the buffer, so the result
/// holds no '=' as long as the content type holds none. The buffer must leave
/// the base64 engine's length arithmetic room, a machine limit.
pub fn to_base64(buffer: &Vec<u8>, content_type: &str) -> (r: String)
    requires
        buffer@.len() <= usize::MAX / 4,
    ensures
        r@ == data_uri_prefix(content_type@) + b64_of(buffer@),
        (forall|i: int| 0 <= i < content_type@.len() ==> content_type@[i] != '=') ==> (forall|
            i: int,
        |
            0 <= i < r@.len() ==> r@[i] != '='),
{
    let mut s = String::from_str("data:");
    s.append(content_type);
    s.append(";base64,");
    let enc = b64_encode(buffer);
    s.append(enc.as_str());
    proof {
        reveal_strlit("data:");
        reveal_strlit(";base64,");
        assert(s@ =~= data_uri_prefix(content_type@) + b64_of(buffer@));
        assert(forall|i: int| 0 <= i < "data:"@.len() ==> "data:"@[i] != '=');
        assert(forall|i: int| 0 <= i < ";base64,"@.len() ==> ";base64,"@[i] != '=');
    }
    s
}

} // verus!
