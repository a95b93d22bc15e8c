//! Codec for the digest text the remote store advertises: standard base64
//! (RFC 4648 alphabet, padded, canonical) decoded to a big-endian `u64`.

use vstd::prelude::*;

verus! {

use vstd::string::StringSliceAdditionalSpecFns;

use crate::errors::ToU64Error;

/// The six-bit value of a byte of the standard base64 alphabet; 64 for a byte
/// outside the alphabet. The alphabet is `A`..`Z` (0..25), `a`..`z` (26..51),
/// `0`..`9` (52..61), `+` (62) and `/` (63); byte 61 below is the pad `=`.
pub open spec fn b64_val(b: u8) -> int {
    if 65 <= b && b <= 90 {
        b - 65
    } else if 97 <= b && b <= 122 {
        26 + (b - 97)
    } else if 48 <= b && b <= 57 {
        52 + (b - 48)
    } else if b == 43 {
        62
    } else if b == 47 {
        63
    } else {
        64
    }
}

/// True for the sixty-four bytes of the standard alphabet.
pub open spec fn is_b64_byte(b: u8) -> bool {
    b64_val(b) < 64
}

/// A well-formed standard base64 encoding: blocks of four bytes, padding only
/// at the end of the final block, and the unused bits before the padding zero.
pub open spec fn is_b64(s: Seq<u8>) -> bool
    decreases s.len(),
{
    if s.len() == 0 {
        true
    } else if s.len() < 4 {
        false
    } else if !is_b64_byte(s[0]) || !is_b64_byte(s[1]) {
        false
    } else if is_b64_byte(s[2]) && is_b64_byte(s[3]) {
        is_b64(s.skip(4))
    } else if is_b64_byte(s[2]) && s[3] == 61 {
        s.len() == 4 && b64_val(s[2]) % 4 == 0
    } else if s[2] == 61 && s[3] == 61 {
        s.len() == 4 && b64_val(s[1]) % 16 == 0
    } else {
        false
    }
}

/// The bytes one four-byte block denotes: three for a full block, two or one
/// when the block ends in padding.
pub open spec fn b64_block(s: Seq<u8>) -> Seq<u8> {
    let v0 = b64_val(s[0]);
    let v1 = b64_val(s[1]);
    let v2 = b64_val(s[2]);
    let v3 = b64_val(s[3]);
    if s[2] == 61 {
        seq![(v0 * 4 + v1 / 16) as u8]
    } else if s[3] == 61 {
        seq![(v0 * 4 + v1 / 16) as u8, ((v1 % 16) * 16 + v2 / 4) as u8]
    } else {
        seq![(v0 * 4 + v1 / 16) as u8, ((v1 % 16) * 16 + v2 / 4) as u8, ((v2 % 4) * 64 + v3) as u8]
    }
}

/// The bytes a well-formed base64 text denotes, block by block.
pub open spec fn b64_decoded(s: Seq<u8>) -> Seq<u8>
    decreases s.len(),
{
    if s.len() < 4 {
        Seq::empty()
    } else {
        b64_block(s.take(4)) + b64_decoded(s.skip(4))
    }
}

/// A well-formed encoding covers a whole number of four-byte blocks.
pub proof fn lemma_is_b64_len(s: Seq<u8>)
    ensures
        is_b64(s) ==> s.len() % 4 == 0,
    decreases s.len(),
{
    if s.len() >= 4 {
        lemma_is_b64_len(s.skip(4));
    }
}

/// The alphabet value of a byte; 64 when the byte is outside the alphabet.
fn b64_val_of(b: u8) -> (v: u8)
    ensures
        v as int == b64_val(b),
{
    if 65 <= b && b <= 90 {
        b - 65
    } else if 97 <= b && b <= 122 {
        26 + (b - 97)
    } else if 48 <= b && b <= 57 {
        52 + (b - 48)
    } else if b == 43 {
        62
    } else if b == 47 {
        63
    } else {
        64
    }
}

/// Decodes standard base64; `None` exactly when the input is not well formed.
pub fn b64_decode(s: &[u8]) -> (r: Option<Vec<u8>>)
    ensures
        match r {
            Some(v) => is_b64(s@) && v@ == b64_decoded(s@),
            None => !is_b64(s@),
        },
{
    let n = s.len();
    if n % 4 != 0 {
        proof {
            lemma_is_b64_len(s@);
        }
        return None;
    }
    let mut out: Vec<u8> = Vec::new();
    let mut i: usize = 0;
    proof {
        assert(s@.skip(0) =~= s@);
        assert(out@ + b64_decoded(s@) =~= b64_decoded(s@));
    }
    while i < n
        invariant
            s@.len() == n,
            n % 4 == 0,
            i % 4 == 0,
            i <= n,
            is_b64(s@) <==> is_b64(s@.skip(i as int)),
            is_b64(s@) ==> b64_decoded(s@) == out@ + b64_decoded(s@.skip(i as int)),
        decreases n - i,
    {
        let v0 = b64_val_of(s[i]);
        let v1 = b64_val_of(s[i + 1]);
        let b2 = s[i + 2];
        let b3 = s[i + 3];
        let v2 = b64_val_of(b2);
        let v3 = b64_val_of(b3);
        proof {
            assert(s@.skip(i as int).skip(4) =~= s@.skip(i + 4));
            assert(s@.skip(i as int).take(4) =~= seq![s@[i as int], s@[i + 1], s@[i + 2], s@[i + 3]]);
        }
        if v0 == 64 || v1 == 64 {
            return None;
        }
        if v2 < 64 && v3 < 64 {
            out.push(v0 * 4 + v1 / 16);
            out.push((v1 % 16) * 16 + v2 / 4);
            out.push((v2 % 4) * 64 + v3);
        } else if v2 < 64 && b3 == 61 {
            if i + 4 != n || v2 % 4 != 0 {
                return None;
            }
            out.push(v0 * 4 + v1 / 16);
            out.push((v1 % 16) * 16 + v2 / 4);
        } else if b2 == 61 && b3 == 61 {
            if i + 4 != n || v1 % 16 != 0 {
                return None;
            }
            out.push(v0 * 4 + v1 / 16);
        } else {
            return None;
        }
        i = i + 4;
    }
    proof {
        assert(s@.skip(n as int) =~= Seq::<u8>::empty());
    }
    Some(out)
}

/// The big-endian value of eight bytes.
pub open spec fn u64_be_val(b: Seq<u8>) -> int {
    b[0] * 0x100000000000000 + b[1] * 0x1000000000000 + b[2] * 0x10000000000 + b[3] * 0x100000000
        + b[4] * 0x1000000 + b[5] * 0x10000 + b[6] * 0x100 + b[7]
}

/// True when the text is well-formed base64 denoting exactly eight bytes.
pub open spec fn is_b64_u64(s: Seq<u8>) -> bool {
    is_b64(s) && b64_decoded(s).len() == 8
}

/// The digest such a text denotes.
pub open spec fn b64_u64(s: Seq<u8>) -> u64 {
    u64_be_val(b64_decoded(s)) as u64
}

/// The alphabet byte of a six-bit value.
pub open spec fn b64_byte_of(v: int) -> u8 {
    if v < 26 {
        (65 + v) as u8
    } else if v < 52 {
        (97 + (v - 26)) as u8
    } else if v < 62 {
        (48 + (v - 52)) as u8
    } else if v == 62 {
        43
    } else {
        47
    }
}

/// The base64 text that denotes a byte sequence: four alphabet bytes for each
/// three content bytes, the final group padded with `=` as needed.
pub open spec fn b64_encoded(b: Seq<u8>) -> Seq<u8>
    decreases b.len(),
{
    if b.len() == 0 {
        Seq::empty()
    } else if b.len() == 1 {
        let x = b[0] as int;
        seq![b64_byte_of(x / 4), b64_byte_of((x % 4) * 16), 61, 61]
    } else if b.len() == 2 {
        let x = b[0] as int;
        let y = b[1] as int;
        seq![b64_byte_of(x / 4), b64_byte_of((x % 4) * 16 + y / 16), b64_byte_of((y % 16) * 4), 61]
    } else {
        let x = b[0] as int;
        let y = b[1] as int;
        let z = b[2] as int;
        seq![
            b64_byte_of(x / 4),
            b64_byte_of((x % 4) * 16 + y / 16),
            b64_byte_of((y % 16) * 4 + z / 64),
            b64_byte_of(z % 64),
        ] + b64_encoded(b.skip(3))
    }
}

/// The alphabet maps each six-bit value to a distinct alphabet byte and back.
proof fn lemma_b64_byte_val(v: int)
    requires
        0 <= v < 64,
    ensures
        is_b64_byte(b64_byte_of(v)),
        b64_val(b64_byte_of(v)) == v,
{
}

/// Splitting three bytes into four six-bit values and reassembling them gives
/// the three bytes back.
proof fn lemma_pack_unpack(x: int, y: int, z: int)
    requires
        0 <= x < 256,
        0 <= y < 256,
        0 <= z < 256,
    ensures
        0 <= x / 4 < 64,
        0 <= (x % 4) * 16 + y / 16 < 64,
        0 <= (y % 16) * 4 + z / 64 < 64,
        0 <= z % 64 < 64,
        (x / 4) * 4 + ((x % 4) * 16 + y / 16) / 16 == x,
        (((x % 4) * 16 + y / 16) % 16) * 16 + ((y % 16) * 4 + z / 64) / 4 == y,
        (((y % 16) * 4 + z / 64) % 4) * 64 + z % 64 == z,
{
    assert((x / 4) * 4 + ((x % 4) * 16 + y / 16) / 16 == x) by (nonlinear_arith)
        requires
            0 <= x < 256 && 0 <= y < 256,
    ;
    assert((((x % 4) * 16 + y / 16) % 16) * 16 + ((y % 16) * 4 + z / 64) / 4 == y)
        by (nonlinear_arith)
        requires
            0 <= y < 256 && 0 <= z < 256,
    ;
    assert((((y % 16) * 4 + z / 64) % 4) * 64 + z % 64 == z) by (nonlinear_arith)
        requires
            0 <= y < 256 && 0 <= z < 256,
    ;
}

/// Encoding then decoding gives the original bytes back: the encoded text is
/// well formed, and denotes exactly the bytes it was made from.
pub proof fn lemma_b64_round_trip(b: Seq<u8>)
    ensures
        is_b64(b64_encoded(b)),
        b64_decoded(b64_encoded(b)) == b,
    decreases b.len(),
{
    let e = b64_encoded(b);
    if b.len() == 0 {
        assert(b64_decoded(e) =~= b);
    } else if b.len() == 1 {
        let x = b[0] as int;
        lemma_pack_unpack(x, 0, 0);
        lemma_b64_byte_val(x / 4);
        lemma_b64_byte_val((x % 4) * 16);
        assert(e.skip(4) =~= Seq::<u8>::empty());
        assert(e.take(4) =~= e);
        assert(b64_block(e) =~= b);
        assert(b64_decoded(e.skip(4)) =~= Seq::<u8>::empty());
        assert(b64_decoded(e) =~= b);
    } else if b.len() == 2 {
        let x = b[0] as int;
        let y = b[1] as int;
        lemma_pack_unpack(x, y, 0);
        lemma_b64_byte_val(x / 4);
        lemma_b64_byte_val((x % 4) * 16 + y / 16);
        lemma_b64_byte_val((y % 16) * 4);
        assert(e.skip(4) =~= Seq::<u8>::empty());
        assert(e.take(4) =~= e);
        assert(b64_block(e) =~= b);
        assert(b64_decoded(e.skip(4)) =~= Seq::<u8>::empty());
        assert(b64_decoded(e) =~= b);
    } else {
        let x = b[0] as int;
        let y = b[1] as int;
        let z = b[2] as int;
        lemma_pack_unpack(x, y, z);
        lemma_b64_byte_val(x / 4);
        lemma_b64_byte_val((x % 4) * 16 + y / 16);
        lemma_b64_byte_val((y % 16) * 4 + z / 64);
        lemma_b64_byte_val(z % 64);
        lemma_b64_round_trip(b.skip(3));
        assert(e.skip(4) =~= b64_encoded(b.skip(3)));
        assert(e.take(4) =~= seq![e[0], e[1], e[2], e[3]]);
        assert(b64_block(e.take(4)) =~= seq![b[0], b[1], b[2]]);
        assert(b64_decoded(e) =~= b);
    }
}

/// For an eight-byte buffer, encoding and then decoding yields the original
/// eight bytes, read back as the same big-endian `u64`.
pub proof fn lemma_eight_byte_round_trip(b: Seq<u8>)
    requires
        b.len() == 8,
    ensures
        is_b64_u64(b64_encoded(b)),
        b64_u64(b64_encoded(b)) == u64_be_val(b),
{
    lemma_b64_round_trip(b);
}

/// Encodes a byte buffer as standard base64 text.
pub fn b64_encode(bytes: &[u8]) -> (r: Vec<u8>)
    ensures
        r@ == b64_encoded(bytes@),
{
    let n = bytes.len();
    let mut out: Vec<u8> = Vec::new();
    let mut i: usize = 0;
    proof {
        assert(bytes@.skip(0) =~= bytes@);
        assert(out@ + b64_encoded(bytes@) =~= b64_encoded(bytes@));
    }
    while n - i >= 3
        invariant
            bytes@.len() == n,
            i <= n,
            b64_encoded(bytes@) == out@ + b64_encoded(bytes@.skip(i as int)),
        decreases n - i,
    {
        let x = bytes[i];
        let y = bytes[i + 1];
        let z = bytes[i + 2];
        proof {
            assert(bytes@.skip(i as int).skip(3) =~= bytes@.skip(i + 3));
            lemma_pack_unpack(x as int, y as int, z as int);
        }
        out.push(b64_byte_at(x / 4));
        out.push(b64_byte_at((x % 4) * 16 + y / 16));
        out.push(b64_byte_at((y % 16) * 4 + z / 64));
        out.push(b64_byte_at(z % 64));
        i = i + 3;
    }
    if n - i == 1 {
        let x = bytes[i];
        out.push(b64_byte_at(x / 4));
        out.push(b64_byte_at((x % 4) * 16));
        out.push(61);
        out.push(61);
    } else if n - i == 2 {
        let x = bytes[i];
        let y = bytes[i + 1];
        out.push(b64_byte_at(x / 4));
        out.push(b64_byte_at((x % 4) * 16 + y / 16));
        out.push(b64_byte_at((y % 16) * 4));
        out.push(61);
    }
    proof {
        assert(out@ =~= b64_encoded(bytes@));
    }
    out
}

/// The alphabet byte of a six-bit value.
fn b64_byte_at(v: u8) -> (r: u8)
    requires
        v < 64,
    ensures
        r == b64_byte_of(v as int),
{
    if v < 26 {
        65 + v
    } else if v < 52 {
        97 + (v - 26)
    } else if v < 62 {
        48 + (v - 52)
    } else if v == 62 {
        43
    } else {
        47
    }
}

/// Converts a base64 string to the big-endian `u64` its eight decoded bytes
/// spell. Rejects text that is not base64 (`DecodeError`) and text whose
/// decoded width is not eight bytes (`ConversionError`), never truncating.
pub fn to_u64(s: &str) -> (r: Result<u64, ToU64Error>)
    ensures
        is_b64_u64(s.spec_bytes()) ==> (r matches Ok(v) && v == b64_u64(s.spec_bytes())),
        !is_b64(s.spec_bytes()) ==> (r matches Err(e) && e is DecodeError),
        is_b64(s.spec_bytes()) && b64_decoded(s.spec_bytes()).len() != 8 ==> (r matches Err(
            e,
        ) && e is ConversionError),
{
    let bytes = s.as_bytes();
    match b64_decode(bytes) {
        None => Err(ToU64Error::DecodeError("invalid base64".to_owned())),
        Some(d) => {
            if d.len() != 8 {
                Err(ToU64Error::ConversionError("failed to convert to bytes".to_owned()))
            } else {
                let v: u64 = (d[0] as u64) * 0x100000000000000 + (d[1] as u64) * 0x1000000000000
                    + (d[2] as u64) * 0x10000000000 + (d[3] as u64) * 0x100000000 + (d[4] as u64)
                    * 0x1000000 + (d[5] as u64) * 0x10000 + (d[6] as u64) * 0x100 + (d[7] as u64);
                Ok(v)
            }
        },
    }
}

} // verus!
