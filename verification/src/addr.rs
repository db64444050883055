//! Well-formedness of account identifiers.
//!
//! An account identifier is an opaque string-like address. The ledger itself
//! accepts any string as a key; operations that accept caller-supplied
//! identifiers reject malformed ones before any state mutation.

use vstd::prelude::*;

verus! {

/// Characters permitted in an account identifier: lower-case ASCII letters,
/// digits, `_`, `-` and `.`.
pub open spec fn valid_addr_char(c: char) -> bool {
    ||| 'a' <= c && c <= 'z'
    ||| '0' <= c && c <= '9'
    ||| c == '_'
    ||| c == '-'
    ||| c == '.'
}

/// A well-formed account identifier: between 3 and 64 characters, all drawn
/// from the permitted set.
pub open spec fn valid_addr(s: Seq<char>) -> bool {
    &&& 3 <= s.len() <= 64
    &&& forall|i: int| 0 <= i < s.len() ==> valid_addr_char(#[trigger] s[i])
}

/// Decides whether `s` is a well-formed account identifier.
pub fn check_addr(s: &String) -> (r: bool)
    ensures
        r == valid_addr(s@),
{
    let st: &str = s.as_str();
    let n: usize = st.unicode_len();
    if n < 3 || n > 64 {
        return false;
    }
    let mut i: usize = 0;
    while i < n
        invariant
            st@ == s@,
            n == st@.len(),
            3 <= n <= 64,
            i <= n,
            forall|j: int| 0 <= j < i ==> valid_addr_char(#[trigger] st@[j]),
        decreases n - i,
    {
        let c: char = st.get_char(i);
        let ok = (c >= 'a' && c <= 'z') || (c >= '0' && c <= '9') || c == '_' || c == '-'
            || c == '.';
        if !ok {
            proof {
                assert(!valid_addr_char(s@[i as int]));
            }
            return false;
        }
        i = i + 1;
    }
    true
}

} // verus!
