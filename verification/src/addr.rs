//! Well-formedness of identities in the ledger's addressing scheme.
//!
//! An address is a bech32-style identifier: three to ninety characters,
//! starting with a lowercase letter, drawn from lowercase letters, digits
//! and hyphens. Addresses are validated syntactically, never resolved.

use vstd::prelude::*;

verus! {

/// A character an address may contain: a lowercase ASCII letter,
/// an ASCII digit, or a hyphen.
pub open spec fn addr_char(c: char) -> bool {
    ||| ('a' as u32) <= (c as u32) && (c as u32) <= ('z' as u32)
    ||| ('0' as u32) <= (c as u32) && (c as u32) <= ('9' as u32)
    ||| c == '-'
}

/// A well-formed address: 3 to 90 characters, the first a lowercase
/// letter, every character from the address alphabet.
pub open spec fn valid_addr(s: Seq<char>) -> bool {
    &&& 3 <= s.len() <= 90
    &&& ('a' as u32) <= (s[0] as u32) && (s[0] as u32) <= ('z' as u32)
    &&& forall|i: int| 0 <= i < s.len() ==> addr_char(#[trigger] s[i])
}

/// Decides whether `s` is a well-formed address.
pub fn validate_address(s: &str) -> (r: bool)
    ensures
        r == valid_addr(s@),
{
    let len = s.unicode_len();
    if len < 3 || len > 90 {
        return false;
    }
    let first = s.get_char(0);
    let f = first as u32;
    if !(97 <= f && f <= 122) {
        return false;
    }
    let mut i: usize = 0;
    while i < len
        invariant
            i <= len,
            len == s@.len(),
            3 <= len <= 90,
            forall|j: int| 0 <= j < i ==> addr_char(#[trigger] s@[j]),
        decreases len - i,
    {
        let c = s.get_char(i);
        let u = c as u32;
        if !((97 <= u && u <= 122) || (48 <= u && u <= 57) || u == 45) {
            return false;
        }
        i += 1;
    }
    true
}

} // verus!
