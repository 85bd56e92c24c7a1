//! Small verified helpers over string slices.

use vstd::prelude::*;
use vstd::string::StringSliceAdditionalSpecFns;

verus! {

broadcast use vstd::utf8::encode_utf8_decode_utf8;

/// Returns whether two string slices hold the same characters.
pub fn same_text(a: &str, b: &str) -> (r: bool)
    ensures
        r == (a@ == b@),
{
    let x = a.as_bytes();
    let y = b.as_bytes();
    let mut equal = x.len() == y.len();
    if equal {
        let mut i: usize = 0;
        while i < x.len()
            invariant
                x@ == a.spec_bytes(),
                y@ == b.spec_bytes(),
                x@.len() == y@.len(),
                i <= x@.len(),
                equal ==> forall|k: int| 0 <= k < i ==> x@[k] == y@[k],
                !equal ==> x@ != y@,
            decreases x@.len() - i,
        {
            if x[i] != y[i] {
                equal = false;
            }
            i = i + 1;
        }
        if equal {
            assert(x@ =~= y@);
        }
    }
    proof {
        if equal {
            assert(vstd::utf8::decode_utf8(a.spec_bytes()) == a@);
            assert(vstd::utf8::decode_utf8(b.spec_bytes()) == b@);
        }
    }
    equal
}

/// Returns whether `s` ends with the character `'/'`, read on its UTF-8
/// encoding: `'/'` is a single ASCII byte, so this is its last byte.
pub open spec fn ends_with_slash(s: &str) -> bool {
    s.spec_bytes().len() > 0 && s.spec_bytes().last() == 47u8
}

/// Returns whether `s` ends with `'/'`.
pub fn has_trailing_slash(s: &str) -> (r: bool)
    ensures
        r == ends_with_slash(s),
{
    let b = s.as_bytes();
    let n = b.len();
    n > 0 && b[n - 1] == 47u8
}

} // verus!
