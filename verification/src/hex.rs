//! Hex text decoded to bytes, both digit cases accepted.

use vstd::prelude::*;

verus! {

/// The value of a hex digit, or -1 for any other character.
pub open spec fn hex_digit_val(c: char) -> int {
    let n = c as int;
    if 48 <= n && n <= 57 {
        n - 48
    } else if 97 <= n && n <= 102 {
        n - 87
    } else if 65 <= n && n <= 70 {
        n - 55
    } else {
        -1
    }
}

/// Even length and hex digits throughout.
pub open spec fn valid_hex(s: Seq<char>) -> bool {
    &&& s.len() % 2 == 0
    &&& forall|i: int| 0 <= i < s.len() ==> hex_digit_val(#[trigger] s[i]) >= 0
}

/// The byte spelled at position `i`: two digits, high first.
pub open spec fn hex_byte(s: Seq<char>, i: int) -> int {
    16 * hex_digit_val(s[2 * i]) + hex_digit_val(s[2 * i + 1])
}

/// `b` is exactly the byte string that the hex text `s` spells.
pub open spec fn bytes_of_hex(s: Seq<char>, b: Seq<u8>) -> bool {
    &&& b.len() * 2 == s.len()
    &&& forall|i: int| 0 <= i < b.len() ==> (#[trigger] b[i]) as int == hex_byte(s, i)
}

fn hex_val(c: char) -> (r: Option<u8>)
    ensures
        r matches Some(x) ==> hex_digit_val(c) == x as int && x < 16,
        r is None ==> hex_digit_val(c) < 0,
{
    let n = c as u32;
    if 48 <= n && n <= 57 {
        Some((n - 48) as u8)
    } else if 97 <= n && n <= 102 {
        Some((n - 87) as u8)
    } else if 65 <= n && n <= 70 {
        Some((n - 55) as u8)
    } else {
        None
    }
}

/// Decode hex text: `Some` exactly on valid hex, and then precisely the
/// spelled bytes.
#[verifier::loop_isolation(false)]
pub fn hex_to_bytes(s: &str) -> (r: Option<Vec<u8>>)
    ensures
        r is Some <==> valid_hex(s@),
        r matches Some(b) ==> bytes_of_hex(s@, b@),
{
    let n = s.unicode_len();
    if n % 2 != 0 {
        return None;
    }
    let mut out: Vec<u8> = Vec::new();
    let mut i: usize = 0;
    while i < n
        invariant
            n == s@.len(),
            i <= n,
            i % 2 == 0,
            out@.len() * 2 == i,
            forall|j: int| 0 <= j < i ==> hex_digit_val(#[trigger] s@[j]) >= 0,
            forall|j: int| 0 <= j < out@.len() ==> (#[trigger] out@[j]) as int == hex_byte(s@, j),
        decreases n - i,
    {
        let hi = hex_val(s.get_char(i));
        let lo = hex_val(s.get_char(i + 1));
        match (hi, lo) {
            (Some(h), Some(l)) => {
                out.push(h * 16 + l);
            },
            _ => {
                return None;
            },
        }
        i += 2;
    }
    Some(out)
}

} // verus!
