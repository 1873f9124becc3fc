//! Byte-level codecs used by the handshake.
//!
//! The Basic credential is standard base64 of the credential token, the
//! software statement's payload segment is base64url without padding, and the
//! policy bundle may arrive zlib-compressed.  The two base64 codecs are
//! implemented and verified here against their mathematical definitions; only
//! the zlib inflation is delegated.

use vstd::prelude::*;

verus! {

/// The standard base64 alphabet, as the byte for a six-bit value.
pub open spec fn b64_char(v: int) -> u8 {
    if 0 <= v < 26 {
        (65 + v) as u8  // 'A'..='Z'
    } else if 26 <= v < 52 {
        (97 + (v - 26)) as u8  // 'a'..='z'
    } else if 52 <= v < 62 {
        (48 + (v - 52)) as u8  // '0'..='9'
    } else if v == 62 {
        43u8  // '+'
    } else {
        47u8  // '/'
    }
}

/// Standard base64, with `=` padding, of the suffix of `s` that starts at `i`.
pub open spec fn base64_from(s: Seq<u8>, i: int) -> Seq<u8>
    decreases s.len() - i,
{
    if i < 0 || i >= s.len() {
        Seq::empty()
    } else if s.len() - i == 1 {
        let b0 = s[i] as int;
        seq![b64_char(b0 / 4), b64_char((b0 % 4) * 16), 61u8, 61u8]
    } else if s.len() - i == 2 {
        let b0 = s[i] as int;
        let b1 = s[i + 1] as int;
        seq![b64_char(b0 / 4), b64_char((b0 % 4) * 16 + b1 / 16), b64_char((b1 % 16) * 4), 61u8]
    } else {
        let b0 = s[i] as int;
        let b1 = s[i + 1] as int;
        let b2 = s[i + 2] as int;
        seq![
            b64_char(b0 / 4),
            b64_char((b0 % 4) * 16 + b1 / 16),
            b64_char((b1 % 16) * 4 + b2 / 64),
            b64_char(b2 % 64),
        ] + base64_from(s, i + 3)
    }
}

/// Standard base64, with `=` padding, of a byte sequence.
pub open spec fn base64_encode(s: Seq<u8>) -> Seq<u8> {
    base64_from(s, 0)
}

/// The six-bit value of a base64url alphabet byte, or -1 for a byte outside
/// the alphabet.
pub open spec fn b64url_val(c: u8) -> int {
    if 65 <= c <= 90 {
        c - 65  // 'A'..='Z'
    } else if 97 <= c <= 122 {
        c - 97 + 26  // 'a'..='z'
    } else if 48 <= c <= 57 {
        c - 48 + 52  // '0'..='9'
    } else if c == 45 {
        62  // '-'
    } else if c == 95 {
        63  // '_'
    } else {
        -1
    }
}

/// Unpadded base64url decoding of the suffix of `s` that starts at `i`.
/// `None` for any byte outside the alphabet and for a trailing group of one.
pub open spec fn b64url_decode_from(s: Seq<u8>, i: int) -> Option<Seq<u8>>
    decreases s.len() - i,
{
    if i < 0 || i > s.len() {
        None
    } else if i == s.len() {
        Some(Seq::empty())
    } else if s.len() - i == 1 {
        None
    } else if s.len() - i == 2 {
        let v0 = b64url_val(s[i]);
        let v1 = b64url_val(s[i + 1]);
        if v0 >= 0 && v1 >= 0 {
            Some(seq![(v0 * 4 + v1 / 16) as u8])
        } else {
            None
        }
    } else if s.len() - i == 3 {
        let v0 = b64url_val(s[i]);
        let v1 = b64url_val(s[i + 1]);
        let v2 = b64url_val(s[i + 2]);
        if v0 >= 0 && v1 >= 0 && v2 >= 0 {
            Some(seq![(v0 * 4 + v1 / 16) as u8, ((v1 % 16) * 16 + v2 / 4) as u8])
        } else {
            None
        }
    } else {
        let v0 = b64url_val(s[i]);
        let v1 = b64url_val(s[i + 1]);
        let v2 = b64url_val(s[i + 2]);
        let v3 = b64url_val(s[i + 3]);
        if v0 >= 0 && v1 >= 0 && v2 >= 0 && v3 >= 0 {
            match b64url_decode_from(s, i + 4) {
                Some(rest) => Some(
                    seq![
                        (v0 * 4 + v1 / 16) as u8,
                        ((v1 % 16) * 16 + v2 / 4) as u8,
                        ((v2 % 4) * 64 + v3) as u8,
                    ] + rest,
                ),
                None => None,
            }
        } else {
            None
        }
    }
}

/// Unpadded base64url decoding of a byte sequence.
pub open spec fn b64url_decode(s: Seq<u8>) -> Option<Seq<u8>> {
    b64url_decode_from(s, 0)
}

/// The base64 alphabet byte for a six-bit value.
fn b64_char_exec(v: u8) -> (r: u8)
    requires
        v < 64,
    ensures
        r == b64_char(v as int),
{
    if v < 26 {
        65 + v
    } else if v < 52 {
        97 + (v - 26)
    } else if v < 62 {
        48 + (v - 52)
    } else if v == 62 {
        43
    } else {
        47
    }
}

/// Standard base64 encoding, with `=` padding.
pub fn base64_encode_bytes(s: &[u8]) -> (r: Vec<u8>)
    ensures
        r@ == base64_encode(s@),
{
    let len = s.len();
    let mut out: Vec<u8> = Vec::new();
    let mut i: usize = 0;
    while i < len && len - i >= 3
        invariant
            i <= len,
            s@.len() == len,
            out@ + base64_from(s@, i as int) == base64_from(s@, 0),
        decreases len - i,
    {
        let b0 = s[i];
        let b1 = s[i + 1];
        let b2 = s[i + 2];
        let ghost prev = out@;
        out.push(b64_char_exec(b0 / 4));
        out.push(b64_char_exec((b0 % 4) * 16 + b1 / 16));
        out.push(b64_char_exec((b1 % 16) * 4 + b2 / 64));
        out.push(b64_char_exec(b2 % 64));
        proof {
            assert(out@ + base64_from(s@, i + 3) =~= prev + base64_from(s@, i as int));
        }
        i += 3;
    }
    if len - i == 1 {
        let b0 = s[i];
        let ghost prev = out@;
        out.push(b64_char_exec(b0 / 4));
        out.push(b64_char_exec((b0 % 4) * 16));
        out.push(61);
        out.push(61);
        proof {
            assert(out@ =~= prev + base64_from(s@, i as int));
        }
    } else if len - i == 2 {
        let b0 = s[i];
        let b1 = s[i + 1];
        let ghost prev = out@;
        out.push(b64_char_exec(b0 / 4));
        out.push(b64_char_exec((b0 % 4) * 16 + b1 / 16));
        out.push(b64_char_exec((b1 % 16) * 4));
        out.push(61);
        proof {
            assert(out@ =~= prev + base64_from(s@, i as int));
        }
    } else {
        proof {
            assert(out@ =~= out@ + base64_from(s@, i as int));
        }
    }
    out
}

/// The six-bit value of a base64url alphabet byte; 255 marks a byte outside
/// the alphabet.
fn b64url_val_exec(c: u8) -> (r: u8)
    ensures
        b64url_val(c) >= 0 ==> r as int == b64url_val(c),
        b64url_val(c) < 0 ==> r == 255,
{
    if 65 <= c && c <= 90 {
        c - 65
    } else if 97 <= c && c <= 122 {
        c - 97 + 26
    } else if 48 <= c && c <= 57 {
        c - 48 + 52
    } else if c == 45 {
        62
    } else if c == 95 {
        63
    } else {
        255
    }
}

/// Unpadded base64url decoding.  Returns `None` exactly on malformed input:
/// a byte outside the alphabet, or a length of 1 modulo 4.
pub fn base64url_decode_bytes(s: &[u8]) -> (r: Option<Vec<u8>>)
    ensures
        match r {
            Some(v) => b64url_decode(s@) == Some(v@),
            None => b64url_decode(s@) is None,
        },
{
    let len = s.len();
    let mut out: Vec<u8> = Vec::new();
    let mut i: usize = 0;
    while i < len && len - i >= 4
        invariant
            i <= len,
            s@.len() == len,
            forall|rest: Seq<u8>|
                b64url_decode_from(s@, i as int) == Some(rest) ==> b64url_decode(s@) == Some(
                    out@ + rest,
                ),
            b64url_decode_from(s@, i as int) is None ==> b64url_decode(s@) is None,
        decreases len - i,
    {
        let v0 = b64url_val_exec(s[i]);
        let v1 = b64url_val_exec(s[i + 1]);
        let v2 = b64url_val_exec(s[i + 2]);
        let v3 = b64url_val_exec(s[i + 3]);
        if v0 == 255 || v1 == 255 || v2 == 255 || v3 == 255 {
            return None;
        }
        let ghost prev = out@;
        let ghost group = seq![
            (b64url_val(s@[i as int]) * 4 + b64url_val(s@[i + 1]) / 16) as u8,
            ((b64url_val(s@[i + 1]) % 16) * 16 + b64url_val(s@[i + 2]) / 4) as u8,
            ((b64url_val(s@[i + 2]) % 4) * 64 + b64url_val(s@[i + 3])) as u8,
        ];
        out.push(v0 * 4 + v1 / 16);
        out.push((v1 % 16) * 16 + v2 / 4);
        out.push((v2 % 4) * 64 + v3);
        proof {
            assert(out@ =~= prev + group);
            if b64url_decode_from(s@, i + 4) is Some {
                let rest = b64url_decode_from(s@, i + 4)->Some_0;
                assert(b64url_decode_from(s@, i as int) == Some(group + rest));
                assert(prev + (group + rest) =~= out@ + rest);
            }
        }
        i += 4;
    }
    if len == i {
        proof {
            assert(out@ + Seq::<u8>::empty() =~= out@);
        }
        Some(out)
    } else if len - i == 1 {
        None
    } else if len - i == 2 {
        let v0 = b64url_val_exec(s[i]);
        let v1 = b64url_val_exec(s[i + 1]);
        if v0 == 255 || v1 == 255 {
            return None;
        }
        let ghost prev = out@;
        out.push(v0 * 4 + v1 / 16);
        proof {
            assert(out@ =~= prev + seq![(v0 * 4 + v1 / 16) as u8]);
        }
        Some(out)
    } else {
        let v0 = b64url_val_exec(s[i]);
        let v1 = b64url_val_exec(s[i + 1]);
        let v2 = b64url_val_exec(s[i + 2]);
        if v0 == 255 || v1 == 255 || v2 == 255 {
            return None;
        }
        let ghost prev = out@;
        out.push(v0 * 4 + v1 / 16);
        out.push((v1 % 16) * 16 + v2 / 4);
        proof {
            assert(out@ =~= prev + seq![(v0 * 4 + v1 / 16) as u8, ((v1 % 16) * 16 + v2 / 4) as u8]);
        }
        Some(out)
    }
}

/// What inflating a zlib stream yields: a pure function of the compressed
/// bytes, `None` for a corrupt stream.
pub uninterp spec fn inflate_zlib_of(compressed: Seq<u8>) -> Option<Seq<u8>>;

/// Relies on `miniz_oxide::inflate::decompress_to_vec_zlib`: inflates a
/// zlib-compressed stream, rejecting corrupt input.
#[verifier::external_body]
pub(crate) fn inflate_zlib(compressed: &[u8]) -> (r: Option<Vec<u8>>)
    ensures
        match r {
            Some(v) => inflate_zlib_of(compressed@) == Some(v@),
            None => inflate_zlib_of(compressed@) is None,
        },
{
    miniz_oxide::inflate::decompress_to_vec_zlib(compressed).ok()
}

} // verus!
