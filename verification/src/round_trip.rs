//! What the two transforms of the codec do to each other: the reverse
//! transform undoes the forward one up to the choice of string headers, and
//! a stream without the reserved literal passes the forward transform with
//! nothing but its string headers rewritten.

use crate::cty::{
    decode_spec, encode_spec, encode_token, first_token, starts_with_marker, unknown_bytes,
    unknown_marker, Token,
};
use crate::msgpack::{
    marker_kind_of, str_content, str_encoding, str_header, str_prefix, str_size, MarkerKind,
};
use vstd::prelude::*;
use vstd::utf8::valid_utf8;

verus! {

/// The tokens that the scan reads `bytes` as. `None` where it meets a string
/// marker that is not followed by a complete string value in valid UTF-8.
pub open spec fn scan(bytes: Seq<u8>) -> Option<Seq<Token>>
    decreases bytes.len(),
{
    if bytes.len() == 0 {
        Some(Seq::empty())
    } else {
        match first_token(bytes) {
            Some((token, size)) => match scan(bytes.skip(size)) {
                Some(rest) => Some(seq![token] + rest),
                None => None,
            },
            None => None,
        }
    }
}

/// A token as the standard encoding has it: a string with the shortest
/// header, any other byte as it is.
pub open spec fn plain_token(token: Token) -> Seq<u8> {
    match token {
        Token::Str(content) => str_encoding(content),
        Token::Raw(b) => seq![b],
    }
}

/// `bytes` with every string value rewritten in its standard encoding.
pub open spec fn canonical_spec(bytes: Seq<u8>) -> Option<Seq<u8>>
    decreases bytes.len(),
{
    if bytes.len() == 0 {
        Some(Seq::empty())
    } else {
        match first_token(bytes) {
            Some((token, size)) => match canonical_spec(bytes.skip(size)) {
                Some(rest) => Some(plain_token(token) + rest),
                None => None,
            },
            None => None,
        }
    }
}

/// Whether the three bytes of the marker stand at index `i` of `bytes`.
pub open spec fn marker_at(bytes: Seq<u8>, i: int) -> bool {
    0 <= i && i + 3 <= bytes.len() && bytes[i] == 0xd4 && bytes[i + 1] == 0x00 && bytes[i + 2]
        == 0x00
}

/// Whether index `i` of the forward transform of `bytes` is where the
/// transform wrote the marker for a string equal to the reserved literal.
pub open spec fn written_for_unknown(bytes: Seq<u8>, i: int) -> bool
    decreases bytes.len(),
{
    if bytes.len() == 0 {
        false
    } else {
        match first_token(bytes) {
            Some((token, size)) => {
                let written = encode_token(token).len() as int;
                (i == 0 && token == Token::Str(unknown_bytes())) || (i >= written
                    && written_for_unknown(bytes.skip(size), i - written))
            },
            None => false,
        }
    }
}

/// Whether the scan could have read the token: a string is valid UTF-8 of a
/// length that a header can announce, a raw byte is no string marker.
pub open spec fn well_formed(token: Token) -> bool {
    match token {
        Token::Str(content) => valid_utf8(content) && content.len() <= u32::MAX,
        Token::Raw(b) => !marker_kind_of(b).is_str(),
    }
}

/// The token that the scan reads first is well formed and takes at least one
/// byte, and no more than there are.
pub proof fn lemma_first_token_well_formed(bytes: Seq<u8>)
    requires
        bytes.len() > 0,
        first_token(bytes) is Some,
    ensures
        first_token(bytes) matches Some((token, size)) && well_formed(token) && 1 <= size
            <= bytes.len(),
{
}

/// The shortest header for `len` bytes is a complete string header that
/// announces `len`.
#[verifier::rlimit(50)]
#[verifier::spinoff_prover]
proof fn lemma_str_prefix_header(len: int, tail: Seq<u8>)
    requires
        0 <= len <= u32::MAX,
    ensures
        str_header(str_prefix(len) + tail) == Some((str_prefix(len).len() as int, len)),
        marker_kind_of((str_prefix(len) + tail)[0]).is_str(),
        1 <= str_prefix(len).len() <= 5,
{
    let bytes = str_prefix(len) + tail;
    if len < 32 {
        assert(bytes[0] == (0xa0 + len) as u8);
    } else if len < 0x100 {
        assert(bytes[0] == 0xd9u8);
        assert(bytes[1] == len as u8);
    } else if len < 0x1_0000 {
        assert(bytes[0] == 0xdau8);
        assert(bytes[1] == (len / 0x100) as u8);
        assert(bytes[2] == (len % 0x100) as u8);
    } else {
        assert(bytes[0] == 0xdbu8);
        assert(bytes[1] == (len / 0x100_0000) as u8);
        assert(bytes[2] == (len / 0x1_0000 % 0x100) as u8);
        assert(bytes[3] == (len / 0x100 % 0x100) as u8);
        assert(bytes[4] == (len % 0x100) as u8);
    }
}

/// A well-formed token in its standard encoding is read back as itself,
/// whatever follows it.
#[verifier::rlimit(50)]
#[verifier::spinoff_prover]
pub proof fn lemma_first_token_of_plain(token: Token, tail: Seq<u8>)
    requires
        well_formed(token),
    ensures
        first_token(plain_token(token) + tail) == Some((token, plain_token(token).len() as int)),
        (plain_token(token) + tail).skip(plain_token(token).len() as int) == tail,
        plain_token(token).len() >= 1,
{
    let bytes = plain_token(token) + tail;
    match token {
        Token::Str(content) => {
            let len = content.len() as int;
            let prefix = str_prefix(len);
            assert(bytes =~= prefix + (content + tail));
            lemma_str_prefix_header(len, content + tail);
            let header = prefix.len() as int;
            assert(bytes.subrange(header, header + len) =~= content);
            assert(str_content(bytes) == Some(content));
            assert(str_size(bytes) == header + len);
        },
        Token::Raw(b) => {
            assert(bytes[0] == b);
        },
    }
    assert(bytes.skip(plain_token(token).len() as int) =~= tail);
}

/// The forward transform, the standard rewriting and the scan succeed on the
/// same inputs.
pub proof fn lemma_same_domain(bytes: Seq<u8>)
    ensures
        encode_spec(bytes) is Some <==> scan(bytes) is Some,
        canonical_spec(bytes) is Some <==> scan(bytes) is Some,
    decreases bytes.len(),
{
    if bytes.len() > 0 {
        if let Some((token, size)) = first_token(bytes) {
            lemma_first_token_well_formed(bytes);
            lemma_same_domain(bytes.skip(size));
        }
    }
}

/// Rewriting every string in its standard encoding changes no token: the
/// scan reads the same strings and the same other bytes, in the same order.
pub proof fn lemma_canonical_keeps_tokens(bytes: Seq<u8>)
    requires
        scan(bytes) is Some,
    ensures
        canonical_spec(bytes) is Some,
        scan(canonical_spec(bytes)->0) == scan(bytes),
    decreases bytes.len(),
{
    if bytes.len() > 0 {
        let (token, size) = first_token(bytes)->0;
        lemma_first_token_well_formed(bytes);
        let rest = bytes.skip(size);
        lemma_canonical_keeps_tokens(rest);
        let tail = canonical_spec(rest)->0;
        lemma_first_token_of_plain(token, tail);
    }
}

/// The reverse transform copies a prefix in which no marker begins.
pub proof fn lemma_decode_copies(prefix: Seq<u8>, tail: Seq<u8>)
    requires
        forall|i: int| 0 <= i < prefix.len() ==> !marker_at(prefix + tail, i),
    ensures
        decode_spec(prefix + tail) == prefix + decode_spec(tail),
    decreases prefix.len(),
{
    let bytes = prefix + tail;
    if prefix.len() == 0 {
        assert(bytes =~= tail);
        assert(prefix + decode_spec(tail) =~= decode_spec(tail));
    } else {
        assert(!marker_at(bytes, 0));
        assert(!starts_with_marker(bytes));
        let shorter = prefix.skip(1);
        assert(bytes.skip(1) =~= shorter + tail);
        assert forall|i: int| 0 <= i < shorter.len() implies !marker_at(shorter + tail, i) by {
            assert(!marker_at(bytes, i + 1));
            assert((shorter + tail)[i] == bytes[i + 1]);
            assert(i + 3 <= (shorter + tail).len() ==> (shorter + tail)[i + 1] == bytes[i + 2]);
            assert(i + 3 <= (shorter + tail).len() ==> (shorter + tail)[i + 2] == bytes[i + 3]);
        }
        lemma_decode_copies(shorter, tail);
        assert(seq![bytes[0]] + (shorter + decode_spec(tail)) =~= prefix + decode_spec(tail));
    }
}

/// Where the marker occurs in the forward transform of `bytes` only in the
/// places in which the transform wrote it for the reserved literal, the
/// reverse transform gives back `bytes` with every string in its standard
/// encoding.
#[verifier::rlimit(50)]
#[verifier::spinoff_prover]
pub proof fn lemma_decode_undoes_encode(bytes: Seq<u8>)
    requires
        encode_spec(bytes) is Some,
        forall|i: int| marker_at(encode_spec(bytes)->0, i) ==> written_for_unknown(bytes, i),
    ensures
        canonical_spec(bytes) is Some,
        decode_spec(encode_spec(bytes)->0) == canonical_spec(bytes)->0,
    decreases bytes.len(),
{
    let encoded = encode_spec(bytes)->0;
    if bytes.len() > 0 {
        let (token, size) = first_token(bytes)->0;
        lemma_first_token_well_formed(bytes);
        let rest = bytes.skip(size);
        let written = encode_token(token);
        let encoded_rest = encode_spec(rest)->0;
        assert(encoded == written + encoded_rest);
        assert forall|j: int| marker_at(encoded_rest, j) implies written_for_unknown(rest, j) by {
            assert(marker_at(encoded, j + written.len())) by {
                assert(encoded[j + written.len()] == encoded_rest[j]);
                assert(encoded[j + written.len() + 1] == encoded_rest[j + 1]);
                assert(encoded[j + written.len() + 2] == encoded_rest[j + 2]);
            }
            assert(written_for_unknown(bytes, j + written.len()));
            assert(written.len() >= 1) by {
                lemma_first_token_of_plain(token, encoded_rest);
            }
        }
        lemma_decode_undoes_encode(rest);
        if token == Token::Str(unknown_bytes()) {
            assert(starts_with_marker(encoded));
            assert(encoded.skip(3) =~= encoded_rest);
        } else {
            assert(written == plain_token(token));
            assert forall|i: int| 0 <= i < written.len() implies !marker_at(
                written + encoded_rest,
                i,
            ) by {
                if marker_at(encoded, i) {
                    assert(written_for_unknown(bytes, i));
                }
            }
            lemma_decode_copies(written, encoded_rest);
        }
    } else {
        assert(encoded =~= Seq::<u8>::empty());
    }
}

/// Round trip. Where the forward transform succeeds, and the marker occurs
/// in its result only where it was written for the reserved literal, the
/// reverse transform of that result holds the tokens of the input: every
/// string with its content, the reserved literal among them, and every
/// other byte, in the same order.
pub proof fn lemma_round_trip(bytes: Seq<u8>)
    requires
        encode_spec(bytes) is Some,
        forall|i: int| marker_at(encode_spec(bytes)->0, i) ==> written_for_unknown(bytes, i),
    ensures
        scan(decode_spec(encode_spec(bytes)->0)) == scan(bytes),
{
    lemma_same_domain(bytes);
    lemma_decode_undoes_encode(bytes);
    lemma_canonical_keeps_tokens(bytes);
}

/// Round trip of a stream whose strings all have the shortest header: under
/// the same condition, the reverse transform gives back the very bytes.
pub proof fn lemma_round_trip_of_standard(bytes: Seq<u8>)
    requires
        canonical_spec(bytes) == Some(bytes),
        forall|i: int| marker_at(encode_spec(bytes)->0, i) ==> written_for_unknown(bytes, i),
    ensures
        encode_spec(bytes) is Some,
        decode_spec(encode_spec(bytes)->0) == bytes,
{
    lemma_same_domain(bytes);
    lemma_decode_undoes_encode(bytes);
}

/// Non-interference. Where no token of the input is the reserved literal,
/// the forward transform writes no marker: its result is the input with
/// every string in its standard encoding, and holds the same tokens. The
/// result holds the three bytes of the marker only if the input held them.
pub proof fn lemma_encode_without_unknown(bytes: Seq<u8>)
    requires
        scan(bytes) is Some,
        !scan(bytes)->0.contains(Token::Str(unknown_bytes())),
    ensures
        encode_spec(bytes) is Some,
        encode_spec(bytes) == canonical_spec(bytes),
        scan(encode_spec(bytes)->0) == scan(bytes),
        forall|i: int| !written_for_unknown(bytes, i),
        forall|i: int|
            marker_at(encode_spec(bytes)->0, i) ==> exists|j: int| #[trigger] marker_at(bytes, j),
    decreases bytes.len(),
{
    lemma_same_domain(bytes);
    lemma_canonical_keeps_tokens(bytes);
    if bytes.len() > 0 {
        let (token, size) = first_token(bytes)->0;
        lemma_first_token_well_formed(bytes);
        let rest = bytes.skip(size);
        let tokens = scan(bytes)->0;
        let rest_tokens = scan(rest)->0;
        assert(tokens == seq![token] + rest_tokens);
        assert(tokens[0] == token);
        assert(token != Token::Str(unknown_bytes()));
        assert forall|k: int| 0 <= k < rest_tokens.len() implies rest_tokens[k] != Token::Str(
            unknown_bytes(),
        ) by {
            assert(tokens[k + 1] == rest_tokens[k]);
        }
        lemma_encode_without_unknown(rest);
        let written = encode_token(token).len() as int;
        assert forall|i: int| !written_for_unknown(bytes, i) by {
            assert(!written_for_unknown(rest, i - written));
        }
    }
    assert forall|i: int| marker_at(encode_spec(bytes)->0, i) implies exists|j: int| #[trigger]
        marker_at(bytes, j) by {
        lemma_marker_origin(bytes, i);
    }
}

/// Only the reserved literal is written as the marker: no other token that
/// the scan can read comes out as these three bytes. The marker is neither
/// the empty string nor nil.
pub proof fn lemma_marker_means_unknown(token: Token)
    requires
        well_formed(token),
    ensures
        encode_token(token) == unknown_marker() <==> token == Token::Str(unknown_bytes()),
        unknown_marker() != str_encoding(Seq::<u8>::empty()),
        unknown_marker() != seq![0xc0u8],
{
    assert(str_encoding(Seq::<u8>::empty())[0] == 0xa0u8);
    assert(unknown_marker()[0] == 0xd4u8);
    assert(seq![0xc0u8][0] == 0xc0u8);
    match token {
        Token::Str(content) => {
            if content != unknown_bytes() {
                lemma_str_prefix_header(content.len() as int, content);
                assert(str_encoding(content)[0] != 0xd4u8);
            }
        },
        Token::Raw(b) => {
            assert(seq![b].len() == 1);
            assert(unknown_marker().len() == 3);
        },
    }
}

/// Where the forward transform of `bytes` begins with a zero byte, so do
/// `bytes`, and the rest is the forward transform of what follows.
proof fn lemma_leading_zero(bytes: Seq<u8>)
    requires
        encode_spec(bytes) is Some,
        encode_spec(bytes)->0.len() > 0,
        encode_spec(bytes)->0[0] == 0x00,
    ensures
        bytes.len() > 0,
        bytes[0] == 0x00,
        encode_spec(bytes.skip(1)) is Some,
        encode_spec(bytes) == Some(seq![0x00u8] + encode_spec(bytes.skip(1))->0),
{
    if bytes.len() > 0 {
        let (token, size) = first_token(bytes)->0;
        lemma_first_token_well_formed(bytes);
        let rest = encode_spec(bytes.skip(size))->0;
        match token {
            Token::Str(content) => {
                if content != unknown_bytes() {
                    lemma_str_prefix_header(content.len() as int, content);
                }
                assert((encode_token(token) + rest)[0] == encode_token(token)[0]);
            },
            Token::Raw(b) => {
                assert((encode_token(token) + rest)[0] == b);
            },
        }
    }
}

/// Where the forward transform of `bytes` begins with `count` zero bytes,
/// for `count` up to two, so do `bytes`.
proof fn lemma_leading_zeros(bytes: Seq<u8>, count: int)
    requires
        0 <= count <= 2,
        encode_spec(bytes) is Some,
        encode_spec(bytes)->0.len() >= count,
        forall|k: int| 0 <= k < count ==> encode_spec(bytes)->0[k] == 0x00,
    ensures
        bytes.len() >= count,
        forall|k: int| 0 <= k < count ==> bytes[k] == 0x00,
{
    if count >= 1 {
        let encoded = encode_spec(bytes)->0;
        assert(encoded[0] == 0x00);
        lemma_leading_zero(bytes);
        if count == 2 {
            let after = encode_spec(bytes.skip(1))->0;
            assert(encoded[1] == 0x00);
            assert(encoded[1] == after[0]);
            lemma_leading_zero(bytes.skip(1));
            assert(bytes.skip(1)[0] == bytes[1]);
        }
    }
}

/// The value of two bytes in big-endian order, taken apart again.
proof fn lemma_two_bytes(hi: u8, lo: u8)
    ensures
        ({
            let n = hi * 0x100 + lo;
            &&& 0 <= n < 0x1_0000
            &&& n / 0x100 == hi
            &&& n % 0x100 == lo
        }),
{
}

/// The value of four bytes in big-endian order, taken apart again.
#[verifier::rlimit(50)]
#[verifier::spinoff_prover]
proof fn lemma_four_bytes(b1: u8, b2: u8, b3: u8, b4: u8)
    ensures
        ({
            let n = b1 * 0x100_0000 + b2 * 0x1_0000 + b3 * 0x100 + b4;
            &&& 0 <= n <= u32::MAX
            &&& n / 0x100_0000 == b1
            &&& n / 0x1_0000 % 0x100 == b2
            &&& n / 0x100 % 0x100 == b3
            &&& n % 0x100 == b4
        }),
{
    let n = b1 * 0x100_0000 + b2 * 0x1_0000 + b3 * 0x100 + b4;
    let low = b3 * 0x100 + b4;
    let mid = b2 * 0x1_0000 + low;
    assert(0 <= low < 0x1_0000);
    assert(0 <= mid < 0x100_0000);
    assert(n / 0x100_0000 == b1);
    assert(n / 0x1_0000 == b1 * 0x100 + b2);
    assert(n / 0x100 == b1 * 0x1_0000 + b2 * 0x100 + b3);
}

/// Whether the standard encoding of the string value that `bytes` begin
/// with is, from its second byte on, the tail of that value as it stands in
/// `bytes`, and does not begin with the first byte of the marker.
spec fn plain_is_tail(bytes: Seq<u8>) -> bool {
    let plain = str_encoding(str_content(bytes)->0);
    let shift = str_size(bytes) - plain.len();
    &&& 0 <= shift
    &&& plain.len() >= 1
    &&& plain[0] != 0xd4
    &&& forall|k: int| 1 <= k < plain.len() ==> plain[k] == bytes[k + shift]
}

/// The bytes of the shortest header, one by one.
proof fn lemma_str_prefix_bytes(len: int)
    requires
        0 <= len <= u32::MAX,
    ensures
        len < 32 ==> str_prefix(len).len() == 1,
        32 <= len < 0x100 ==> str_prefix(len).len() == 2 && str_prefix(len)[1] == len,
        0x100 <= len < 0x1_0000 ==> str_prefix(len).len() == 3 && str_prefix(len)[1] == len / 0x100
            && str_prefix(len)[2] == len % 0x100,
        0x1_0000 <= len ==> str_prefix(len).len() == 5 && str_prefix(len)[1] == len / 0x100_0000
            && str_prefix(len)[2] == len / 0x1_0000 % 0x100 && str_prefix(len)[3] == len / 0x100
            % 0x100 && str_prefix(len)[4] == len % 0x100,
        str_prefix(len)[0] != 0xd4,
{
}

/// A standard encoding is its header, then the content.
proof fn lemma_plain_index(content: Seq<u8>, k: int)
    requires
        content.len() <= u32::MAX,
        0 <= k < str_encoding(content).len(),
    ensures
        str_encoding(content).len() == str_prefix(content.len() as int).len() + content.len(),
        k < str_prefix(content.len() as int).len() ==> str_encoding(content)[k] == str_prefix(
            content.len() as int,
        )[k],
        k >= str_prefix(content.len() as int).len() ==> str_encoding(content)[k] == content[k
            - str_prefix(content.len() as int).len()],
{
}

/// The standard encoding of a string value ends as the value itself does:
/// from its second byte on, it is the tail of the value as it came. A shorter
/// header only drops leading zero bytes of the length.
#[verifier::rlimit(50)]
#[verifier::spinoff_prover]
proof fn lemma_plain_is_tail(bytes: Seq<u8>)
    requires
        bytes.len() > 0,
        marker_kind_of(bytes[0]).is_str(),
        str_content(bytes) is Some,
    ensures
        plain_is_tail(bytes),
{
    let content = str_content(bytes)->0;
    let len = content.len() as int;
    let plain = str_encoding(content);
    let prefix = str_prefix(len);
    let (header, announced) = str_header(bytes)->0;
    assert(announced == len);
    assert(content == bytes.subrange(header, header + len));
    match marker_kind_of(bytes[0]) {
        MarkerKind::Str16 => {
            lemma_two_bytes(bytes[1], bytes[2]);
        },
        MarkerKind::Str32 => {
            lemma_four_bytes(bytes[1], bytes[2], bytes[3], bytes[4]);
        },
        _ => {},
    }
    assert(0 <= len <= u32::MAX);
    lemma_str_prefix_bytes(len);
    lemma_plain_index(content, 0);
    let shift = header - prefix.len();
    assert(str_size(bytes) - plain.len() == shift);
    assert forall|k: int| 1 <= k < plain.len() implies plain[k] == bytes[k + shift] by {
        lemma_plain_index(content, k);
        if k >= prefix.len() {
            assert(content[k - prefix.len()] == bytes[header + (k - prefix.len())]);
        }
    }
}

/// Where a marker comes from. Every occurrence of the marker in the forward
/// transform of `bytes` was either written there for the reserved literal,
/// or `bytes` hold an occurrence of the marker themselves.
#[verifier::rlimit(50)]
#[verifier::spinoff_prover]
pub proof fn lemma_marker_origin(bytes: Seq<u8>, i: int)
    requires
        encode_spec(bytes) is Some,
        marker_at(encode_spec(bytes)->0, i),
    ensures
        written_for_unknown(bytes, i) || exists|j: int| marker_at(bytes, j),
    decreases bytes.len(),
{
    let encoded = encode_spec(bytes)->0;
    if bytes.len() == 0 {
        assert(encoded.len() == 0);
    } else {
        let (token, size) = first_token(bytes)->0;
        lemma_first_token_well_formed(bytes);
        let rest = bytes.skip(size);
        let written = encode_token(token);
        let encoded_rest = encode_spec(rest)->0;
        assert(encoded == written + encoded_rest);
        if i >= written.len() {
            let at = i - written.len();
            assert(marker_at(encoded_rest, at)) by {
                assert(encoded[i] == encoded_rest[at]);
                assert(encoded[i + 1] == encoded_rest[at + 1]);
                assert(encoded[i + 2] == encoded_rest[at + 2]);
            }
            lemma_marker_origin(rest, at);
            if !written_for_unknown(rest, at) {
                let j = choose|j: int| marker_at(rest, j);
                assert(marker_at(bytes, size + j)) by {
                    assert(bytes[size + j] == rest[j]);
                    assert(bytes[size + j + 1] == rest[j + 1]);
                    assert(bytes[size + j + 2] == rest[j + 2]);
                }
            }
        } else if token == Token::Str(unknown_bytes()) {
            assert(written == unknown_marker());
            assert(encoded[i] == written[i]);
            assert(i == 0);
        } else {
            // the occurrence begins in a token that was written as it is read
            assert(written == plain_token(token));
            let spill = if i + 3 > written.len() {
                i + 3 - written.len()
            } else {
                0
            };
            assert(0 <= spill <= 2);
            assert forall|k: int| 0 <= k < spill implies encoded_rest[k] == 0x00 by {
                assert(encoded_rest[k] == encoded[written.len() + k]);
            }
            lemma_leading_zeros(rest, spill);
            match token {
                Token::Raw(b) => {
                    assert(written.len() == 1);
                    assert(encoded[0] == b);
                    assert(bytes[0] == b);
                    assert(rest[0] == 0x00 && rest[1] == 0x00);
                    assert(bytes[1] == rest[0] && bytes[2] == rest[1]);
                    assert(marker_at(bytes, 0));
                },
                Token::Str(content) => {
                    lemma_plain_is_tail(bytes);
                    assert(plain_is_tail(bytes));
                    let shift = size - written.len();
                    assert(encoded[0] == written[0]);
                    assert(i >= 1);
                    assert forall|x: int| i <= x < i + 3 implies bytes[x + shift]
                        == #[trigger] encoded[x] by {
                        if x < written.len() {
                            assert(encoded[x] == written[x]);
                        } else {
                            let k = x - written.len();
                            assert(encoded[x] == encoded_rest[k]);
                            assert(rest[k] == 0x00);
                            assert(bytes[size + k] == rest[k]);
                        }
                    }
                    assert(bytes[i + shift] == encoded[i]);
                    assert(bytes[i + 1 + shift] == encoded[i + 1]);
                    assert(bytes[i + 2 + shift] == encoded[i + 2]);
                    assert(marker_at(bytes, i + shift));
                },
            }
        }
    }
}

/// Round trip, for an input that holds no marker: the reverse transform of
/// the forward transform holds the tokens of the input.
pub proof fn lemma_round_trip_without_marker(bytes: Seq<u8>)
    requires
        encode_spec(bytes) is Some,
        forall|j: int| !marker_at(bytes, j),
    ensures
        scan(decode_spec(encode_spec(bytes)->0)) == scan(bytes),
{
    assert forall|i: int| marker_at(encode_spec(bytes)->0, i) implies written_for_unknown(
        bytes,
        i,
    ) by {
        lemma_marker_origin(bytes, i);
    }
    lemma_round_trip(bytes);
}

} // verus!
