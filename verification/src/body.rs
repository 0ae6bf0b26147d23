//! The body encoding rule: how a payload of bytes travels as a JSON string.

use vstd::prelude::*;
use vstd::string::*;
use vstd::utf8::*;

use crate::encoding::{
    base64_bytes, base64_encode, base64_fits, base64_text, decode_base64, string_from_utf8,
};
use crate::text::str_eq;

verus! {

/// The view of an optional string slice.
pub open spec fn opt_text(s: Option<&str>) -> Option<Seq<char>> {
    match s {
        Some(t) => Some(t@),
        None => None,
    }
}

/// The encoding rule: an absent payload stays absent; well-formed UTF-8
/// (the empty payload included) travels verbatim and untagged; anything else
/// travels as base64, tagged `"base64"`.
pub open spec fn encode_body_spec(body: Option<Seq<u8>>) -> (Option<Seq<char>>, Option<Seq<char>>) {
    match body {
        None => (None, None),
        Some(data) => if valid_utf8(data) {
            (Some(decode_utf8(data)), None)
        } else {
            (Some(base64_text(data)), Some("base64"@))
        },
    }
}

/// The decoding rule: the tag `"base64"` asks for base64 decoding, which may
/// fail; any other tag, or none, takes the text's UTF-8 bytes.
pub open spec fn decode_body_spec(body: Option<Seq<char>>, encoding: Option<Seq<char>>) -> Option<
    Seq<u8>,
> {
    match body {
        None => None,
        Some(text) => if encoding == Some("base64"@) {
            base64_bytes(text)
        } else {
            Some(encode_utf8(text))
        },
    }
}

/// Encodes a payload for the wire. Decoding the result gives the payload
/// back, and encoding that again gives the same text and tag.
pub fn encode_body(body: Option<Vec<u8>>) -> (r: (Option<String>, Option<String>))
    requires
        body matches Some(data) ==> valid_utf8(data@) || base64_fits(data@.len()),
    ensures
        r.deep_view() == encode_body_spec(body.deep_view()),
        decode_body_spec(r.0.deep_view(), r.1.deep_view()) == body.deep_view(),
        encode_body_spec(decode_body_spec(r.0.deep_view(), r.1.deep_view())) == r.deep_view(),
{
    match body {
        None => (None, None),
        Some(data) => {
            assert(data.deep_view() =~= data@);
            if data.len() == 0 {
                proof {
                    assert(valid_utf8(data@));
                    assert(decode_utf8(data@) =~= Seq::<char>::empty());
                    assert(encode_utf8(Seq::<char>::empty()) =~= data@);
                }
                return (Some(String::new()), None);
            }
            let copy = data.clone();
            assert(copy@ =~= data@);
            match string_from_utf8(copy) {
                Some(s) => {
                    proof {
                        decode_utf8_encode_utf8(data@);
                    }
                    (Some(s), None)
                },
                None => {
                    let encoded = base64_encode(data.as_slice());
                    (Some(encoded), Some("base64".to_string()))
                },
            }
        },
    }
}

/// Decodes a payload from the wire; `None` where it is absent or where its
/// base64 is malformed.
pub fn decode_body(body: Option<&str>, encoding: Option<&str>) -> (r: Option<Vec<u8>>)
    ensures
        r.deep_view() == decode_body_spec(opt_text(body), opt_text(encoding)),
{
    match body {
        None => None,
        Some(text) => {
            let tagged = match encoding {
                Some(e) => str_eq(e, "base64"),
                None => false,
            };
            if tagged {
                decode_base64(text)
            } else {
                let bytes = text.as_bytes_vec();
                assert(bytes.deep_view() =~= bytes@);
                Some(bytes)
            }
        },
    }
}

/// Decoding what the encoding rule makes of a payload gives the payload
/// back, and encoding that again gives the same text and tag. For text this
/// holds by UTF-8 alone; for any other payload it holds where decoding the
/// payload's base64 text gives the payload back, which is what the base64
/// library is trusted to do.
pub proof fn lemma_body_round_trip(body: Option<Seq<u8>>)
    requires
        body matches Some(data) ==> valid_utf8(data) || base64_bytes(base64_text(data)) == Some(
            data,
        ),
    ensures
        decode_body_spec(encode_body_spec(body).0, encode_body_spec(body).1) == body,
        encode_body_spec(
            decode_body_spec(encode_body_spec(body).0, encode_body_spec(body).1),
        ) == encode_body_spec(body),
{
    match body {
        Some(data) => {
            if valid_utf8(data) {
                decode_utf8_encode_utf8(data);
            }
        },
        None => {},
    }
}

} // verus!
