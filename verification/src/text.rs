//! Word splitting: the leading run of a string up to its first space.

use vstd::prelude::*;
use vstd::string::StringSliceAdditionalSpecFns;
use vstd::utf8::encode_utf8_valid_utf8;
use vstd::utf8::is_char_boundary_iff_not_is_continuation_byte;

verus! {

/// The longest prefix of `s` that holds no space byte: everything up to
/// the first space, or all of `s` when it has none.  The result is pinned
/// byte for byte: it is a prefix of `s`, it contains no space, and it is
/// either all of `s` or stops exactly at a space.
pub fn first_word(s: &str) -> (r: &str)
    ensures
        r.spec_bytes().len() <= s.spec_bytes().len(),
        r.spec_bytes() == s.spec_bytes().take(r.spec_bytes().len() as int),
        forall|j: int| 0 <= j < r.spec_bytes().len() ==> r.spec_bytes()[j] != 32,
        r.spec_bytes().len() < s.spec_bytes().len() ==> s.spec_bytes()[r.spec_bytes().len() as int]
            == 32,
{
    let bytes = s.as_bytes();
    let n = bytes.len();
    let mut i: usize = 0;
    while i < n
        invariant
            n == s.spec_bytes().len(),
            bytes@ == s.spec_bytes(),
            i <= n,
            forall|j: int| 0 <= j < i ==> s.spec_bytes()[j] != 32,
        decreases n - i,
    {
        if bytes[i] == 32 {
            proof {
                encode_utf8_valid_utf8(s@);
                is_char_boundary_iff_not_is_continuation_byte(s.spec_bytes(), i as int);
            }
            let (word, _rest) = s.split_at(i);
            proof {
                assert(word.spec_bytes() == s.spec_bytes().take(i as int));
            }
            return word;
        }
        i = i + 1;
    }
    proof {
        assert(s.spec_bytes() == s.spec_bytes().take(s.spec_bytes().len() as int));
    }
    s
}

} // verus!
