//! Hexadecimal text to bytes: every pair of hex digits becomes one byte.
//! An odd digit count or any non-digit character rejects the whole string.

use vstd::prelude::*;
use vstd::string::StrSliceExecFns;

verus! {

/// The value of one hexadecimal digit, either case, if it is one.
pub open spec fn spec_hex_val(c: char) -> Option<u8> {
    let v = c as u32;
    if 0x30 <= v && v <= 0x39 {
        Some((v - 0x30) as u8)
    } else if 0x61 <= v && v <= 0x66 {
        Some((v - 0x61 + 10) as u8)
    } else if 0x41 <= v && v <= 0x46 {
        Some((v - 0x41 + 10) as u8)
    } else {
        None
    }
}

/// The bytes encoded by the hex digits from position `i` to the end.
pub open spec fn spec_hex_decode_from(s: Seq<char>, i: int) -> Option<Seq<u8>>
    decreases s.len() - i,
{
    if i < 0 || i > s.len() {
        None
    } else if i == s.len() {
        Some(Seq::empty())
    } else if i + 2 > s.len() {
        None
    } else {
        match (spec_hex_val(s[i]), spec_hex_val(s[i + 1])) {
            (Some(h), Some(l)) => match spec_hex_decode_from(s, i + 2) {
                Some(rest) => Some(seq![(h * 16 + l) as u8] + rest),
                None => None,
            },
            _ => None,
        }
    }
}

/// The bytes encoded by a whole hex string, if it is one.
pub open spec fn spec_hex_decode(s: Seq<char>) -> Option<Seq<u8>> {
    spec_hex_decode_from(s, 0)
}

/// The value of one hexadecimal digit character.
pub fn hex_val(c: char) -> (r: Option<u8>)
    ensures
        r == spec_hex_val(c),
{
    let v = c as u32;
    if 0x30 <= v && v <= 0x39 {
        Some((v - 0x30) as u8)
    } else if 0x61 <= v && v <= 0x66 {
        Some((v - 0x61 + 10) as u8)
    } else if 0x41 <= v && v <= 0x46 {
        Some((v - 0x41 + 10) as u8)
    } else {
        None
    }
}

/// Decodes the hex digits from character position `i` to the end.
fn hex_decode_from(s: &str, i: usize) -> (r: Option<Vec<u8>>)
    requires
        i <= s@.len(),
    ensures
        match r {
            Some(v) => spec_hex_decode_from(s@, i as int) == Some(v@),
            None => spec_hex_decode_from(s@, i as int) is None,
        },
    decreases s@.len() - i,
{
    let n = s.unicode_len();
    if i == n {
        return Some(Vec::new());
    }
    if n - i < 2 {
        return None;
    }
    let h = match hex_val(s.get_char(i)) {
        Some(v) => v,
        None => {
            return None;
        },
    };
    let l = match hex_val(s.get_char(i + 1)) {
        Some(v) => v,
        None => {
            return None;
        },
    };
    let mut rest = match hex_decode_from(s, i + 2) {
        Some(v) => v,
        None => {
            return None;
        },
    };
    let ghost rest0 = rest@;
    rest.insert(0, h * 16 + l);
    proof {
        assert(rest@ =~= seq![(h * 16 + l) as u8] + rest0);
    }
    Some(rest)
}

/// Decodes a whole hex string into its bytes, exactly when every
/// character is a hex digit and their count is even.
pub fn hex_decode(s: &str) -> (r: Option<Vec<u8>>)
    ensures
        match r {
            Some(v) => spec_hex_decode(s@) == Some(v@),
            None => spec_hex_decode(s@) is None,
        },
{
    hex_decode_from(s, 0)
}

} // verus!
