//! The part of the MessagePack wire format that the codec interprets: the
//! marker bytes of strings, of the one-byte fixed extension and of nil, and
//! the layout of a string value. The readers and writers are those of `rmp`.

use vstd::prelude::*;
use vstd::utf8::{decode_utf8, encode_utf8, valid_utf8};

verus! {

/// What the codec needs to know of a marker byte.
#[derive(Clone, Copy, Debug, PartialEq, Eq, Structural)]
pub enum MarkerKind {
    /// A string of at most 31 bytes, the length held in the marker.
    FixStr(u8),
    /// A string whose length follows in one byte.
    Str8,
    /// A string whose length follows in two bytes, big-endian.
    Str16,
    /// A string whose length follows in four bytes, big-endian.
    Str32,
    /// An extension value with one byte of data.
    FixExt1,
    /// The nil value.
    Null,
    /// Any other marker.
    Other,
}

impl MarkerKind {
    /// Whether the marker opens a string value.
    pub open spec fn is_str(self) -> bool {
        self is FixStr || self is Str8 || self is Str16 || self is Str32
    }
}

/// The kind of the marker that byte `b` stands for.
pub open spec fn marker_kind_of(b: u8) -> MarkerKind {
    if 0xa0 <= b <= 0xbf {
        MarkerKind::FixStr((b - 0xa0) as u8)
    } else if b == 0xc0 {
        MarkerKind::Null
    } else if b == 0xd4 {
        MarkerKind::FixExt1
    } else if b == 0xd9 {
        MarkerKind::Str8
    } else if b == 0xda {
        MarkerKind::Str16
    } else if b == 0xdb {
        MarkerKind::Str32
    } else {
        MarkerKind::Other
    }
}

/// The byte that a marker of the given kind is written as.
pub open spec fn marker_byte_of(kind: MarkerKind) -> u8
    recommends
        !(kind is Other),
{
    match kind {
        MarkerKind::FixStr(n) => (0xa0 + n % 32) as u8,
        MarkerKind::Str8 => 0xd9,
        MarkerKind::Str16 => 0xda,
        MarkerKind::Str32 => 0xdb,
        MarkerKind::FixExt1 => 0xd4,
        MarkerKind::Null => 0xc0,
        MarkerKind::Other => 0xc1,
    }
}

/// The header of the string value that `bytes` begins with: how many bytes
/// the header takes, and how many bytes of content it announces. `None`
/// where `bytes` does not begin with a complete string header.
pub open spec fn str_header(bytes: Seq<u8>) -> Option<(int, int)> {
    if bytes.len() == 0 {
        None
    } else {
        match marker_kind_of(bytes[0]) {
            MarkerKind::FixStr(n) => Some((1, n as int)),
            MarkerKind::Str8 => if bytes.len() >= 2 {
                Some((2, bytes[1] as int))
            } else {
                None
            },
            MarkerKind::Str16 => if bytes.len() >= 3 {
                Some((3, bytes[1] * 0x100 + bytes[2]))
            } else {
                None
            },
            MarkerKind::Str32 => if bytes.len() >= 5 {
                Some((5, bytes[1] * 0x100_0000 + bytes[2] * 0x1_0000 + bytes[3] * 0x100 + bytes[4]))
            } else {
                None
            },
            _ => None,
        }
    }
}

/// The content of the string value that `bytes` begins with: the bytes that
/// follow a complete header, all present and valid UTF-8.
pub open spec fn str_content(bytes: Seq<u8>) -> Option<Seq<u8>> {
    match str_header(bytes) {
        Some((header, len)) => if header + len <= bytes.len() && valid_utf8(
            bytes.subrange(header, header + len),
        ) {
            Some(bytes.subrange(header, header + len))
        } else {
            None
        },
        None => None,
    }
}

/// How many bytes the string value that `bytes` begins with takes, header
/// and content together; 0 where there is no complete header.
pub open spec fn str_size(bytes: Seq<u8>) -> int {
    match str_header(bytes) {
        Some((header, len)) => header + len,
        None => 0,
    }
}

/// What reading the string value at the start of `bytes` into a buffer of
/// `capacity` bytes gives: the text and the bytes that follow the value.
pub open spec fn str_read(bytes: Seq<u8>, capacity: int) -> Option<(Seq<char>, Seq<u8>)> {
    match str_content(bytes) {
        Some(content) => if content.len() <= capacity {
            Some((decode_utf8(content), bytes.skip(str_size(bytes))))
        } else {
            None
        },
        None => None,
    }
}

/// The shortest header for a string of `len` bytes.
pub open spec fn str_prefix(len: int) -> Seq<u8>
    recommends
        0 <= len <= u32::MAX,
{
    if len < 32 {
        seq![(0xa0 + len) as u8]
    } else if len < 0x100 {
        seq![0xd9u8, len as u8]
    } else if len < 0x1_0000 {
        seq![0xdau8, (len / 0x100) as u8, (len % 0x100) as u8]
    } else {
        seq![
            0xdbu8,
            (len / 0x100_0000) as u8,
            (len / 0x1_0000 % 0x100) as u8,
            (len / 0x100 % 0x100) as u8,
            (len % 0x100) as u8,
        ]
    }
}

/// The standard encoding of a string with the given content: the shortest
/// header, then the content.
pub open spec fn str_encoding(content: Seq<u8>) -> Seq<u8>
    recommends
        content.len() <= u32::MAX,
{
    str_prefix(content.len() as int) + content
}

/// Reads the marker at the start of `bytes` without consuming it.
///
/// Calls `rmp::decode::read_marker` on a cursor over `bytes`. It fails only
/// on an empty input; otherwise it maps the first byte to its marker, of
/// which the result keeps the kind.
#[verifier::external_body]
pub(crate) fn peek_marker(bytes: &[u8]) -> (kind: Option<MarkerKind>)
    ensures
        kind == if bytes@.len() == 0 {
            None
        } else {
            Some(marker_kind_of(bytes@[0]))
        },
{
    match rmp::decode::read_marker(&mut rmp::decode::Bytes::new(bytes)) {
        Ok(rmp::Marker::FixStr(n)) => Some(MarkerKind::FixStr(n)),
        Ok(rmp::Marker::Str8) => Some(MarkerKind::Str8),
        Ok(rmp::Marker::Str16) => Some(MarkerKind::Str16),
        Ok(rmp::Marker::Str32) => Some(MarkerKind::Str32),
        Ok(rmp::Marker::FixExt1) => Some(MarkerKind::FixExt1),
        Ok(rmp::Marker::Null) => Some(MarkerKind::Null),
        Ok(_) => Some(MarkerKind::Other),
        Err(_) => None,
    }
}

/// Reads the length that the string header at the start of `bytes` announces,
/// without consuming it.
///
/// Calls `rmp::decode::read_str_len` on a cursor over `bytes`. It fails where
/// the first byte is no string marker, or where the length bytes that the
/// marker asks for are not all there.
#[verifier::external_body]
pub(crate) fn peek_str_len(bytes: &[u8]) -> (len: Option<u32>)
    ensures
        (match len {
            Some(n) => str_header(bytes@) matches Some((_, announced)) && n == announced,
            None => str_header(bytes@) is None,
        }),
{
    match rmp::decode::read_str_len(&mut rmp::decode::Bytes::new(bytes)) {
        Ok(n) => Some(n),
        Err(_) => None,
    }
}

/// Reads the string value at the start of `bytes` into a buffer of
/// `capacity` bytes, and returns it with the bytes that follow it.
///
/// Calls `rmp::decode::read_str` on a cursor over `bytes`. It fails where the
/// header is not a complete string header, where the announced length
/// exceeds the buffer or the bytes that are left, or where the content is
/// not valid UTF-8.
#[verifier::external_body]
pub(crate) fn read_str(bytes: &[u8], capacity: usize) -> (r: Option<(String, &[u8])>)
    ensures
        (match r {
            Some((s, rest)) => str_read(bytes@, capacity as int) == Some((s@, rest@)),
            None => str_read(bytes@, capacity as int) is None,
        }),
{
    let mut cursor = rmp::decode::Bytes::new(bytes);
    let mut buf = vec![0u8; capacity];
    match rmp::decode::read_str(&mut cursor, &mut buf) {
        Ok(s) => Some((s.to_owned(), cursor.remaining_slice())),
        Err(_) => None,
    }
}

/// Appends the standard encoding of the string `s` to `out`.
///
/// Calls `rmp::encode::write_str`, which writes the shortest header for the
/// byte length of `s` and then its bytes. It truncates the length to 32
/// bits, so longer strings are left out.
#[verifier::external_body]
pub(crate) fn write_str(out: &mut Vec<u8>, s: &str)
    requires
        encode_utf8(s@).len() <= u32::MAX,
    ensures
        final(out)@ == old(out)@ + str_encoding(encode_utf8(s@)),
{
    let _ = rmp::encode::write_str(out, s);
}

/// The byte of a marker of the given kind.
///
/// Calls `rmp::Marker::to_u8` on the marker of that kind.
#[verifier::external_body]
pub(crate) fn marker_byte(kind: MarkerKind) -> (b: u8)
    requires
        !(kind is Other),
    ensures
        b == marker_byte_of(kind),
{
    match kind {
        MarkerKind::FixStr(n) => rmp::Marker::FixStr(n).to_u8(),
        MarkerKind::Str8 => rmp::Marker::Str8.to_u8(),
        MarkerKind::Str16 => rmp::Marker::Str16.to_u8(),
        MarkerKind::Str32 => rmp::Marker::Str32.to_u8(),
        MarkerKind::FixExt1 => rmp::Marker::FixExt1.to_u8(),
        MarkerKind::Null => rmp::Marker::Null.to_u8(),
        MarkerKind::Other => rmp::Marker::Reserved.to_u8(),
    }
}

} // verus!
