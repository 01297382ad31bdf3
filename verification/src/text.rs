//! Small verified helpers for building and comparing strings.

use vstd::prelude::*;
use vstd::string::StrSliceExecFns;

verus! {

/// Relies on String::push: appends the given character to the end of the string.
#[verifier::external_body]
pub(crate) fn push_char(s: &mut String, c: char)
    ensures
        final(s)@ == old(s)@.push(c),
{
    s.push(c);
}

/// Appends every character of `tail` to `dst`, in order.
pub fn append_str(dst: &mut String, tail: &str)
    ensures
        final(dst)@ == old(dst)@ + tail@,
{
    let n = tail.unicode_len();
    let mut i: usize = 0;
    while i < n
        invariant
            n == tail@.len(),
            i <= n,
            dst@ == old(dst)@ + tail@.take(i as int),
        decreases n - i,
    {
        let c = tail.get_char(i);
        push_char(dst, c);
        proof {
            assert(old(dst)@ + tail@.take(i as int + 1) =~= (old(dst)@ + tail@.take(
                i as int,
            )).push(tail@[i as int]));
        }
        i = i + 1;
    }
    proof {
        assert(tail@.take(n as int) =~= tail@);
    }
}

/// Decides whether two string slices hold the same characters.
pub fn str_eq(a: &str, b: &str) -> (r: bool)
    ensures
        r == (a@ == b@),
{
    let alen = a.unicode_len();
    let blen = b.unicode_len();
    if alen != blen {
        return false;
    }
    let mut i: usize = 0;
    while i < alen
        invariant
            alen == a@.len(),
            alen == b@.len(),
            i <= alen,
            forall|j: int| 0 <= j < i ==> a@[j] == b@[j],
        decreases alen - i,
    {
        if a.get_char(i) != b.get_char(i) {
            return false;
        }
        i = i + 1;
    }
    proof {
        assert(a@ =~= b@);
    }
    true
}

} // verus!
