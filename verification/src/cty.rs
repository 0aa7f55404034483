//! The codec for unknown values: a transform on MessagePack bytes that swaps
//! every string equal to the reserved literal for a three-byte extension
//! marker, and its reverse.
//!
//! The transform is syntactic. It reads its input as a row of tokens: where
//! a byte is a string marker, the string value that starts there; anywhere
//! else, the byte itself. It never looks at the shape of the record.

use crate::msgpack::{
    marker_byte, marker_kind_of, peek_marker, peek_str_len, read_str, str_content, str_encoding,
    str_size, write_str, MarkerKind,
};
use crate::util::UNKNOWN_STRING;
use vstd::prelude::*;
use vstd::slice::slice_subrange;
use vstd::utf8::{
    decode_utf8, decode_utf8_encode_utf8, encode_utf8, encode_utf8_decode_utf8,
    encode_utf8_valid_utf8, is_ascii_chars, is_ascii_chars_encode_utf8, valid_utf8,
};

verus! {

/// Why the forward transform gave up.
#[derive(Clone, Copy, Debug, PartialEq, Eq, Structural)]
pub enum CodecError {
    /// A string marker is not followed by a complete string value in valid
    /// UTF-8.
    ExpectedString,
}

/// The UTF-8 bytes of the reserved literal, `<unknown>`.
pub open spec fn unknown_bytes() -> Seq<u8> {
    seq![0x3cu8, 0x75u8, 0x6eu8, 0x6bu8, 0x6eu8, 0x6fu8, 0x77u8, 0x6eu8, 0x3eu8]
}

/// The marker that stands for the reserved literal: a one-byte fixed
/// extension of type 0 that holds a zero byte.
pub open spec fn unknown_marker() -> Seq<u8> {
    seq![0xd4u8, 0x00u8, 0x00u8]
}

/// One step of the scan.
pub enum Token {
    /// A string value, by its content.
    Str(Seq<u8>),
    /// A byte that is no string marker, passed on as it is.
    Raw(u8),
}

/// The token that non-empty `bytes` begin with, and how many bytes it takes.
/// `None` where a string marker is not followed by a complete string value
/// in valid UTF-8.
pub open spec fn first_token(bytes: Seq<u8>) -> Option<(Token, int)>
    recommends
        bytes.len() > 0,
{
    if marker_kind_of(bytes[0]).is_str() {
        match str_content(bytes) {
            Some(content) => Some((Token::Str(content), str_size(bytes))),
            None => None,
        }
    } else {
        Some((Token::Raw(bytes[0]), 1))
    }
}

/// What the forward transform writes for a token.
pub open spec fn encode_token(token: Token) -> Seq<u8> {
    match token {
        Token::Str(content) => if content == unknown_bytes() {
            unknown_marker()
        } else {
            str_encoding(content)
        },
        Token::Raw(b) => seq![b],
    }
}

/// The forward transform: token by token, the reserved literal becomes the
/// marker, any other string its standard encoding, any other byte itself.
/// `None` where the scan meets a string marker without a valid string.
pub open spec fn encode_spec(bytes: Seq<u8>) -> Option<Seq<u8>>
    decreases bytes.len(),
{
    if bytes.len() == 0 {
        Some(Seq::empty())
    } else {
        match first_token(bytes) {
            Some((token, size)) => match encode_spec(bytes.skip(size)) {
                Some(rest) => Some(encode_token(token) + rest),
                None => None,
            },
            None => None,
        }
    }
}

/// Whether `bytes` begin with the three bytes of the marker.
pub open spec fn starts_with_marker(bytes: Seq<u8>) -> bool {
    bytes.len() >= 3 && bytes[0] == 0xd4 && bytes[1] == 0x00 && bytes[2] == 0x00
}

/// The reverse transform: every occurrence of the marker, found from the
/// left, becomes the standard encoding of the reserved literal; every other
/// byte stays.
pub open spec fn decode_spec(bytes: Seq<u8>) -> Seq<u8>
    decreases bytes.len(),
{
    if bytes.len() == 0 {
        Seq::empty()
    } else if starts_with_marker(bytes) {
        str_encoding(unknown_bytes()) + decode_spec(bytes.skip(3))
    } else {
        seq![bytes[0]] + decode_spec(bytes.skip(1))
    }
}

/// The reserved literal is nine ASCII characters, and its UTF-8 bytes are
/// `unknown_bytes()`.
pub proof fn lemma_unknown_string_bytes()
    ensures
        encode_utf8(UNKNOWN_STRING@) == unknown_bytes(),
        decode_utf8(unknown_bytes()) == UNKNOWN_STRING@,
        valid_utf8(unknown_bytes()),
{
    reveal_strlit("<unknown>");
    let chars = UNKNOWN_STRING@;
    assert(chars.len() == 9);
    assert(is_ascii_chars(chars));
    is_ascii_chars_encode_utf8(chars);
    assert(encode_utf8(chars) =~= unknown_bytes());
    encode_utf8_decode_utf8(chars);
    encode_utf8_valid_utf8(chars);
}

/// A valid UTF-8 content decodes to the reserved literal exactly when it is
/// `unknown_bytes()`.
pub proof fn lemma_unknown_content(content: Seq<u8>)
    requires
        valid_utf8(content),
    ensures
        decode_utf8(content) == UNKNOWN_STRING@ <==> content == unknown_bytes(),
{
    lemma_unknown_string_bytes();
    decode_utf8_encode_utf8(content);
}

/// Appending in two steps is appending the whole.
proof fn lemma_append_assoc(done: Seq<u8>, step: Seq<u8>, tail: Option<Seq<u8>>)
    ensures
        tail matches Some(t) ==> done + (step + t) == (done + step) + t,
{
    if let Some(t) = tail {
        assert(done + (step + t) =~= (done + step) + t);
    }
}

/// Replaces every string equal to the reserved literal by the marker, and
/// writes every other string in its standard encoding.
pub fn encode_unknown_string_values(bytes: Vec<u8>) -> (r: Result<Vec<u8>, CodecError>)
    ensures
        (match r {
            Ok(out) => encode_spec(bytes@) == Some(out@),
            Err(e) => encode_spec(bytes@) is None && e == CodecError::ExpectedString,
        }),
{
    let mut result: Vec<u8> = Vec::with_capacity(bytes.len());
    let mut rest: &[u8] = bytes.as_slice();
    let unknown: String = UNKNOWN_STRING.to_owned();
    while rest.len() > 0
        invariant
            unknown@ == UNKNOWN_STRING@,
            encode_spec(bytes@) == (match encode_spec(rest@) {
                Some(tail) => Some(result@ + tail),
                None => None,
            }),
        decreases rest@.len(),
    {
        let is_str: bool = match peek_marker(rest) {
            Some(MarkerKind::FixStr(_)) => true,
            Some(MarkerKind::Str8) => true,
            Some(MarkerKind::Str16) => true,
            Some(MarkerKind::Str32) => true,
            _ => false,
        };
        if is_str {
            let announced: usize = match peek_str_len(rest) {
                Some(len) => len as usize,
                None => {
                    return Err(CodecError::ExpectedString);
                },
            };
            if announced > rest.len() {
                return Err(CodecError::ExpectedString);
            }
            let (text, tail) = match read_str(rest, announced) {
                Some(read) => read,
                None => {
                    return Err(CodecError::ExpectedString);
                },
            };
            let ghost content = str_content(rest@)->0;
            proof {
                lemma_unknown_content(content);
                decode_utf8_encode_utf8(content);
                assert(encode_spec(rest@) == (match encode_spec(tail@) {
                    Some(after) => Some(encode_token(Token::Str(content)) + after),
                    None => None,
                }));
            }
            let ghost before = result@;
            if text == unknown {
                result.push(marker_byte(MarkerKind::FixExt1));
                result.push(0x00);
                result.push(0x00);
                assert(result@ =~= before + unknown_marker());
            } else {
                write_str(&mut result, text.as_str());
            }
            assert(result@ == before + encode_token(Token::Str(content)));
            proof {
                lemma_append_assoc(before, encode_token(Token::Str(content)), encode_spec(tail@));
            }
            rest = tail;
        } else {
            let ghost before = result@;
            let ghost token = Token::Raw(rest@[0]);
            proof {
                assert(rest@.subrange(1, rest@.len() as int) == rest@.skip(1));
                lemma_append_assoc(before, encode_token(token), encode_spec(rest@.skip(1)));
            }
            result.push(rest[0]);
            assert(result@ =~= before + encode_token(token));
            rest = slice_subrange(rest, 1, rest.len());
        }
    }
    Ok(result)
}

/// Replaces every occurrence of the marker by the standard encoding of the
/// reserved literal, and copies every other byte.
pub fn decode_unknown_string_values(bytes: Vec<u8>) -> (r: Result<Vec<u8>, CodecError>)
    ensures
        r matches Ok(out) && out@ == decode_spec(bytes@),
{
    let mut result: Vec<u8> = Vec::with_capacity(bytes.len());
    let mut rest: &[u8] = bytes.as_slice();
    while rest.len() > 0
        invariant
            decode_spec(bytes@) == result@ + decode_spec(rest@),
        decreases rest@.len(),
    {
        let is_ext: bool = match peek_marker(rest) {
            Some(MarkerKind::FixExt1) => true,
            _ => false,
        };
        let ghost before = result@;
        if is_ext && rest.len() >= 3 && rest[1] == 0x00 && rest[2] == 0x00 {
            proof {
                lemma_unknown_string_bytes();
                assert(rest@.subrange(3, rest@.len() as int) == rest@.skip(3));
                assert(before + (str_encoding(unknown_bytes()) + decode_spec(rest@.skip(3))) =~= (
                before + str_encoding(unknown_bytes())) + decode_spec(rest@.skip(3)));
            }
            write_str(&mut result, UNKNOWN_STRING);
            rest = slice_subrange(rest, 3, rest.len());
        } else {
            proof {
                assert(rest@.subrange(1, rest@.len() as int) == rest@.skip(1));
                assert(before + (seq![rest@[0]] + decode_spec(rest@.skip(1))) =~= (before
                    + seq![rest@[0]]) + decode_spec(rest@.skip(1)));
            }
            result.push(rest[0]);
            assert(result@ =~= before + seq![rest@[0]]);
            rest = slice_subrange(rest, 1, rest.len());
        }
    }
    Ok(result)
}

} // verus!
