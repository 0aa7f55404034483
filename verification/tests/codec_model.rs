use terraform_provider_ubicloud::cty::{decode_unknown_string_values, encode_unknown_string_values};

const UNKNOWN: &[u8] = b"<unknown>";

/// A small generator of repeatable bytes.
struct Bytes(u64);

impl Bytes {
    fn next(&mut self) -> u8 {
        self.0 = self.0.wrapping_mul(6364136223846793005).wrapping_add(1442695040888963407);
        (self.0 >> 33) as u8
    }

    fn below(&mut self, bound: usize) -> usize {
        let wide = u32::from_le_bytes([self.next(), self.next(), self.next(), self.next()]);
        wide as usize % bound
    }
}

fn header(bytes: &[u8]) -> Option<(usize, usize)> {
    match bytes[0] {
        b @ 0xa0..=0xbf => Some((1, (b - 0xa0) as usize)),
        0xd9 => bytes.get(1).map(|n| (2, *n as usize)),
        0xda => {
            let n = bytes.get(1..3)?;
            Some((3, u16::from_be_bytes([n[0], n[1]]) as usize))
        }
        0xdb => {
            let n = bytes.get(1..5)?;
            Some((5, u32::from_be_bytes([n[0], n[1], n[2], n[3]]) as usize))
        }
        _ => None,
    }
}

fn standard(content: &[u8]) -> Vec<u8> {
    let len = content.len();
    let mut out = if len < 32 {
        vec![0xa0 + len as u8]
    } else if len < 256 {
        vec![0xd9, len as u8]
    } else if len < 65536 {
        vec![0xda, (len >> 8) as u8, len as u8]
    } else {
        vec![0xdb, (len >> 24) as u8, (len >> 16) as u8, (len >> 8) as u8, len as u8]
    };
    out.extend_from_slice(content);
    out
}

/// The forward transform, written down once more without the library.
fn forward(bytes: &[u8]) -> Option<Vec<u8>> {
    let mut out = Vec::new();
    let mut rest = bytes;
    while !rest.is_empty() {
        let b = rest[0];
        if (0xa0..=0xbf).contains(&b) || (0xd9..=0xdb).contains(&b) {
            let (head, len) = header(rest)?;
            let content = rest.get(head..head.checked_add(len)?)?;
            std::str::from_utf8(content).ok()?;
            if content == UNKNOWN {
                out.extend_from_slice(&[0xd4, 0x00, 0x00]);
            } else {
                out.extend_from_slice(&standard(content));
            }
            rest = &rest[head + len..];
        } else {
            out.push(b);
            rest = &rest[1..];
        }
    }
    Some(out)
}

/// The reverse transform, written down once more without the library.
fn reverse(bytes: &[u8]) -> Vec<u8> {
    let mut out = Vec::new();
    let mut rest = bytes;
    while !rest.is_empty() {
        if rest.starts_with(&[0xd4, 0x00, 0x00]) {
            out.extend_from_slice(&standard(UNKNOWN));
            rest = &rest[3..];
        } else {
            out.push(rest[0]);
            rest = &rest[1..];
        }
    }
    out
}

/// Bytes in which strings, the reserved literal and markers are frequent.
fn sample(source: &mut Bytes) -> Vec<u8> {
    let mut out = Vec::new();
    for _ in 0..source.below(8) {
        match source.below(8) {
            0 => out.extend_from_slice(&standard(UNKNOWN)),
            1 => out.extend_from_slice(&[0xd4, 0x00, 0x00]),
            2 => {
                let len = source.below(40);
                let text: Vec<u8> = (0..len).map(|_| b'a' + source.next() % 26).collect();
                out.extend_from_slice(&standard(&text));
            }
            3 => {
                // a header that is longer than it has to be
                out.extend_from_slice(&[0xda, 0x00, UNKNOWN.len() as u8]);
                out.extend_from_slice(UNKNOWN);
            }
            4 => out.extend_from_slice(&[0xd9, source.next() % 4, source.next(), source.next()]),
            5 => out.push([0xc0, 0xc2, 0xc3, 0x00, 0xd4, 0x81, 0x92][source.below(7)]),
            _ => out.push(source.next()),
        }
    }
    out
}

#[test]
fn every_single_byte_is_forwarded_unless_it_opens_a_string() {
    for b in 0..=255u8 {
        let opens_string = (0xa0..=0xbf).contains(&b) || (0xd9..=0xdb).contains(&b);
        let encoded = encode_unknown_string_values(vec![b]);
        if b == 0xa0 || !opens_string {
            assert_eq!(encoded, Ok(vec![b]));
        } else {
            assert!(encoded.is_err());
        }
        assert_eq!(decode_unknown_string_values(vec![b]), Ok(vec![b]));
    }
}

#[test]
fn every_marker_agrees_with_its_reader() {
    for b in 0..=255u8 {
        let opens_string = matches!(
            rmp::Marker::from_u8(b),
            rmp::Marker::FixStr(_) | rmp::Marker::Str8 | rmp::Marker::Str16 | rmp::Marker::Str32
        );
        // followed by zeros, a string marker announces an empty or a zero-filled string
        let input = vec![b, 0, 0, 0, 0];
        let encoded = encode_unknown_string_values(input.clone());
        assert_eq!(encoded.ok(), forward(&input));
        if !opens_string {
            assert_eq!(forward(&input), Some(input));
        }
    }
}

#[test]
fn the_forward_transform_agrees_with_its_description() {
    let mut source = Bytes(7);
    let mut failures = 0;
    let mut markers = 0;
    for _ in 0..4000 {
        let input = sample(&mut source);
        let expected = forward(&input);
        let encoded = encode_unknown_string_values(input).ok();
        if expected.is_none() {
            failures += 1;
        } else if expected.as_ref().unwrap().windows(3).any(|w| w == [0xd4, 0x00, 0x00]) {
            markers += 1;
        }
        assert_eq!(encoded, expected);
    }
    assert!(failures > 100);
    assert!(markers > 100);
}

#[test]
fn the_reverse_transform_agrees_with_its_description() {
    let mut source = Bytes(11);
    for _ in 0..4000 {
        let input = sample(&mut source);
        assert_eq!(decode_unknown_string_values(input.clone()), Ok(reverse(&input)));
    }
}

#[test]
fn the_transforms_agree_on_arbitrary_bytes() {
    let mut source = Bytes(13);
    for _ in 0..2000 {
        let len = source.below(24);
        let input: Vec<u8> = (0..len).map(|_| source.next()).collect();
        assert_eq!(encode_unknown_string_values(input.clone()).ok(), forward(&input));
        assert_eq!(decode_unknown_string_values(input.clone()), Ok(reverse(&input)));
    }
}

#[test]
fn round_trip_restores_every_stream_without_a_marker() {
    let mut source = Bytes(17);
    let mut checked = 0;
    for _ in 0..4000 {
        let input = sample(&mut source);
        if input.windows(3).any(|w| w == [0xd4, 0x00, 0x00]) {
            continue;
        }
        let Ok(encoded) = encode_unknown_string_values(input.clone()) else {
            continue;
        };
        let decoded = decode_unknown_string_values(encoded).unwrap();
        // the same strings and the same other bytes: the second pass changes nothing
        let again = encode_unknown_string_values(decoded.clone()).unwrap();
        assert_eq!(decode_unknown_string_values(again).unwrap(), decoded);
        // and what comes back is the input with the shortest headers
        let mut plain = Vec::new();
        let mut rest = &input[..];
        while !rest.is_empty() {
            match header(rest) {
                Some((head, len)) => {
                    plain.extend_from_slice(&standard(&rest[head..head + len]));
                    rest = &rest[head + len..];
                }
                None => {
                    plain.push(rest[0]);
                    rest = &rest[1..];
                }
            }
        }
        assert_eq!(decoded, plain);
        checked += 1;
    }
    assert!(checked > 500);
}

#[test]
fn strings_written_by_the_encoder_pass_unchanged() {
    let mut source = Bytes(19);
    for len in [0usize, 1, 31, 32, 33, 255, 256, 257, 4000, 65535, 65536, 70000] {
        let text: String = (0..len).map(|_| (b'a' + source.next() % 26) as char).collect();
        let mut written = Vec::new();
        rmp::encode::write_str(&mut written, &text).unwrap();
        assert_eq!(written, standard(text.as_bytes()));
        assert_eq!(encode_unknown_string_values(written.clone()), Ok(written.clone()));
        assert_eq!(decode_unknown_string_values(written.clone()), Ok(written));
    }
}
