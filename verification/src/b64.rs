//! Standard base64 decoding, verified.
//!
//! The transport wrapping of every image is standard-alphabet base64
//! (`A`-`Z`, `a`-`z`, `0`-`9`, `+`, `/`) with mandatory `=` padding and
//! canonical (zero) trailing bits. The decoder works on the string's UTF-8
//! bytes; any byte outside the alphabet, a length that is not a multiple of
//! four, misplaced padding or non-zero trailing bits is rejected.

use crate::error::prefixed_message;
use vstd::prelude::*;
use vstd::string::StringSliceAdditionalSpecFns;

verus! {

/// Value of one alphabet byte, or -1 when the byte is not in the standard
/// alphabet.
pub open spec fn b64_val(b: u8) -> int {
    if 65 <= b <= 90 {  // 'A'..'Z'
        b - 65
    } else if 97 <= b <= 122 {  // 'a'..'z'
        b - 71
    } else if 48 <= b <= 57 {  // '0'..'9'
        b + 4
    } else if b == 43 {  // '+'
        62
    } else if b == 47 {  // '/'
        63
    } else {
        -1
    }
}

/// The three bytes encoded by a full group of four alphabet values.
pub open spec fn b64_group(a: int, b: int, c: int, d: int) -> Seq<u8> {
    seq![
        (a * 4 + b / 16) as u8,
        ((b % 16) * 16 + c / 4) as u8,
        ((c % 4) * 64 + d) as u8,
    ]
}

/// What decoding a base64 byte string yields: the decoded bytes, or nothing
/// when the string is not valid padded standard base64. Groups of four are
/// decoded front to back; only the final group may carry one or two `=`
/// padding bytes, and the bits left dangling by padding must be zero.
pub open spec fn b64_decoded(s: Seq<u8>) -> Option<Seq<u8>>
    decreases s.len(),
{
    if s.len() == 0 {
        Some(Seq::empty())
    } else if s.len() < 4 {
        None
    } else {
        let a = b64_val(s[0]);
        let b = b64_val(s[1]);
        if a < 0 || b < 0 {
            None
        } else if s.len() == 4 {
            if s[3] == 61 {  // '='
                if s[2] == 61 {
                    if b % 16 == 0 {
                        Some(seq![(a * 4 + b / 16) as u8])
                    } else {
                        None
                    }
                } else {
                    let c = b64_val(s[2]);
                    if c >= 0 && c % 4 == 0 {
                        Some(
                            seq![(a * 4 + b / 16) as u8, ((b % 16) * 16 + c / 4) as u8],
                        )
                    } else {
                        None
                    }
                }
            } else {
                let c = b64_val(s[2]);
                let d = b64_val(s[3]);
                if c >= 0 && d >= 0 {
                    Some(b64_group(a, b, c, d))
                } else {
                    None
                }
            }
        } else {
            let c = b64_val(s[2]);
            let d = b64_val(s[3]);
            if c >= 0 && d >= 0 {
                match b64_decoded(s.skip(4)) {
                    Option::Some(rest) => Some(b64_group(a, b, c, d) + rest),
                    Option::None => None,
                }
            } else {
                None
            }
        }
    }
}

/// Value of one alphabet byte; -1 when the byte is not in the alphabet.
fn b64_byte_val(b: u8) -> (v: i8)
    ensures
        v as int == b64_val(b),
{
    if 65 <= b && b <= 90 {
        (b - 65) as i8
    } else if 97 <= b && b <= 122 {
        (b - 71) as i8
    } else if 48 <= b && b <= 57 {
        (b + 4) as i8
    } else if b == 43 {
        62
    } else if b == 47 {
        63
    } else {
        -1
    }
}

/// Decode a padded standard base64 string. A failure carries a message
/// starting with the stable prefix "Base64 decode error".
pub fn decode_base64(s: &str) -> (r: Result<Vec<u8>, String>)
    ensures
        r is Ok <==> b64_decoded(s.spec_bytes()) is Some,
        r matches Ok(v) ==> b64_decoded(s.spec_bytes()) == Some(v@),
        r matches Err(m) ==> "Base64 decode error"@.is_prefix_of(m@),
{
    let bytes = s.as_bytes();
    let n = bytes.len();
    let mut out: Vec<u8> = Vec::new();
    let mut i: usize = 0;
    proof {
        assert(bytes@.skip(0) =~= bytes@);
        if b64_decoded(bytes@) is Some {
            assert(Seq::<u8>::empty() + b64_decoded(bytes@).unwrap() =~= b64_decoded(
                bytes@,
            ).unwrap());
        }
    }
    while n - i > 4
        invariant
            bytes@ == s.spec_bytes(),
            n == bytes@.len(),
            i <= n,
            i % 4 == 0,
            b64_decoded(bytes@) == (match b64_decoded(bytes@.skip(i as int)) {
                Option::Some(rest) => Some(out@ + rest),
                Option::None => None::<Seq<u8>>,
            }),
        decreases n - i,
    {
        let a = b64_byte_val(bytes[i]);
        let b = b64_byte_val(bytes[i + 1]);
        let c = b64_byte_val(bytes[i + 2]);
        let d = b64_byte_val(bytes[i + 3]);
        proof {
            assert(bytes@.skip(i as int)[0] == bytes@[i as int]);
            assert(bytes@.skip(i as int)[1] == bytes@[i as int + 1]);
            assert(bytes@.skip(i as int)[2] == bytes@[i as int + 2]);
            assert(bytes@.skip(i as int)[3] == bytes@[i as int + 3]);
        }
        if a < 0 || b < 0 || c < 0 || d < 0 {
            return Err(prefixed_message("Base64 decode error", ": invalid byte in base64 data"));
        }
        let av = a as u32;
        let bv = b as u32;
        let cv = c as u32;
        let dv = d as u32;
        let ghost out0 = out@;
        out.push((av * 4 + bv / 16) as u8);
        out.push(((bv % 16) * 16 + cv / 4) as u8);
        out.push(((cv % 4) * 64 + dv) as u8);
        proof {
            assert(bytes@.skip(i as int).skip(4) =~= bytes@.skip(i as int + 4));
            let g = b64_group(a as int, b as int, c as int, d as int);
            assert(out@ =~= out0 + g);
            assert(b64_decoded(bytes@.skip(i as int)) == (match b64_decoded(
                bytes@.skip(i as int + 4),
            ) {
                Option::Some(rest) => Some(g + rest),
                Option::None => None::<Seq<u8>>,
            }));
            if b64_decoded(bytes@.skip(i as int + 4)) is Some {
                let rest = b64_decoded(bytes@.skip(i as int + 4)).unwrap();
                assert(out0 + (g + rest) =~= out@ + rest);
            }
        }
        i = i + 4;
    }
    // The remaining tail is the final (possibly padded) group, or nothing.
    if i == n {
        proof {
            assert(bytes@.skip(i as int) =~= Seq::<u8>::empty());
            assert(out@ + Seq::<u8>::empty() =~= out@);
        }
        return Ok(out);
    }
    if n - i != 4 {
        proof {
            assert(bytes@.skip(i as int).len() < 4);
        }
        return Err(prefixed_message("Base64 decode error", ": invalid base64 length"));
    }
    let a = b64_byte_val(bytes[i]);
    let b = b64_byte_val(bytes[i + 1]);
    proof {
        assert(bytes@.skip(i as int)[0] == bytes@[i as int]);
        assert(bytes@.skip(i as int)[1] == bytes@[i as int + 1]);
        assert(bytes@.skip(i as int)[2] == bytes@[i as int + 2]);
        assert(bytes@.skip(i as int)[3] == bytes@[i as int + 3]);
    }
    if a < 0 || b < 0 {
        return Err(prefixed_message("Base64 decode error", ": invalid byte in base64 data"));
    }
    let av = a as u32;
    let bv = b as u32;
    if bytes[i + 3] == 61 {
        if bytes[i + 2] == 61 {
            if bv % 16 != 0 {
                return Err(prefixed_message("Base64 decode error", ": non-canonical padding"));
            }
            let ghost out0 = out@;
            out.push((av * 4 + bv / 16) as u8);
            proof {
                let tail = seq![(av * 4 + bv / 16) as u8];
                assert(b64_decoded(bytes@.skip(i as int)) == Some(tail));
                assert(out@ =~= out0 + tail);
            }
            return Ok(out);
        }
        let c = b64_byte_val(bytes[i + 2]);
        if c < 0 {
            return Err(prefixed_message("Base64 decode error", ": invalid byte in base64 data"));
        }
        let cv = c as u32;
        if cv % 4 != 0 {
            return Err(prefixed_message("Base64 decode error", ": non-canonical padding"));
        }
        let ghost out0 = out@;
        out.push((av * 4 + bv / 16) as u8);
        out.push(((bv % 16) * 16 + cv / 4) as u8);
        proof {
            let tail = seq![(av * 4 + bv / 16) as u8, ((bv % 16) * 16 + cv / 4) as u8];
            assert(b64_decoded(bytes@.skip(i as int)) == Some(tail));
            assert(out@ =~= out0 + tail);
        }
        return Ok(out);
    }
    let c = b64_byte_val(bytes[i + 2]);
    let d = b64_byte_val(bytes[i + 3]);
    if c < 0 || d < 0 {
        return Err(prefixed_message("Base64 decode error", ": invalid byte in base64 data"));
    }
    let cv = c as u32;
    let dv = d as u32;
    let ghost out0 = out@;
    out.push((av * 4 + bv / 16) as u8);
    out.push(((bv % 16) * 16 + cv / 4) as u8);
    out.push(((cv % 4) * 64 + dv) as u8);
    proof {
        let tail = b64_group(a as int, b as int, c as int, d as int);
        assert(b64_decoded(bytes@.skip(i as int)) == Some(tail));
        assert(out@ =~= out0 + tail);
    }
    Ok(out)
}

} // verus!
