//! Reading the one payload detail the intermediary needs.
//!
//! The intermediary relays response bodies verbatim and interprets none of
//! them, with a single exception: a successful new-session response from a
//! remote end carries the session id that every later forwarded command
//! must be rewritten to.  That id is read here, from the first
//! `"sessionId":"..."` field of the body in its compact serialization.

use vstd::prelude::*;
use vstd::string::StrSliceExecFns;

verus! {

/// Whether `pat` occurs in `s` starting at position `i`.
pub open spec fn match_at(s: Seq<char>, pat: Seq<char>, i: int) -> bool {
    0 <= i && i + pat.len() <= s.len() && s.subrange(i, i + pat.len()) == pat
}

/// The first position at or after `from` where `pat` occurs in `s`.
pub open spec fn spec_find(s: Seq<char>, pat: Seq<char>, from: int) -> Option<int>
    decreases s.len() - from + 1,
{
    if from < 0 || from + pat.len() > s.len() {
        None
    } else if match_at(s, pat, from) {
        Some(from)
    } else {
        spec_find(s, pat, from + 1)
    }
}

/// Whether `pat` occurs in `s` at position `i`.
fn match_at_exec(s: &str, pat: &str, i: usize) -> (r: bool)
    requires
        i + pat@.len() <= s@.len(),
    ensures
        r == match_at(s@, pat@, i as int),
{
    let slen = s.unicode_len();
    let plen = pat.unicode_len();
    let mut j: usize = 0;
    while j < plen
        invariant
            slen == s@.len(),
            plen == pat@.len(),
            i + plen <= s@.len(),
            j <= plen,
            forall|k: int| 0 <= k < j ==> s@[i + k] == pat@[k],
        decreases plen - j,
    {
        if s.get_char(i + j) != pat.get_char(j) {
            proof {
                assert(s@.subrange(i as int, i + pat@.len())[j as int] != pat@[j as int]);
            }
            return false;
        }
        j = j + 1;
    }
    proof {
        assert(s@.subrange(i as int, i + pat@.len()) =~= pat@);
    }
    true
}

/// Finds the first occurrence of `pat` in `s` at or after `from`.
pub fn find_from(s: &str, pat: &str, from: usize) -> (r: Option<usize>)
    ensures
        match r {
            Some(i) => spec_find(s@, pat@, from as int) == Some(i as int) && from <= i && i
                + pat@.len() <= s@.len(),
            None => spec_find(s@, pat@, from as int) is None,
        },
{
    let slen = s.unicode_len();
    let plen = pat.unicode_len();
    if plen > slen || from > slen - plen {
        proof {
            assert(spec_find(s@, pat@, from as int) is None);
        }
        return None;
    }
    let last = slen - plen;
    let mut i: usize = from;
    while i <= last
        invariant
            slen == s@.len(),
            plen == pat@.len(),
            last == slen - plen,
            from <= i,
            i <= last + 1,
            spec_find(s@, pat@, from as int) == spec_find(s@, pat@, i as int),
        decreases last + 1 - i,
    {
        if match_at_exec(s, pat, i) {
            return Some(i);
        }
        proof {
            if pat@.len() == 0 {
                assert(s@.subrange(i as int, i as int) =~= pat@);
            }
        }
        i = i + 1;
    }
    None
}

/// What reading the downstream session id from a response body yields: the
/// text between the first `"sessionId":"` and the next quote after it.
pub open spec fn spec_session_id_of(s: Seq<char>) -> Option<Seq<char>> {
    let key = "\"sessionId\":\""@;
    match spec_find(s, key, 0) {
        None => None,
        Some(i) => {
            let start = i + key.len();
            match spec_find(s, "\""@, start) {
                None => None,
                Some(j) => Some(s.subrange(start, j)),
            }
        },
    }
}

/// Reads the downstream session id out of a new-session response body.
pub fn extract_session_id(body: &str) -> (r: Option<String>)
    ensures
        match r {
            Some(id) => spec_session_id_of(body@) == Some(id@),
            None => spec_session_id_of(body@) is None,
        },
{
    // The body's character count fits in usize, so every position the
    // searches below return does too.
    let body_len = body.unicode_len();
    proof {
        assert(body_len == body@.len());
    }
    let key = "\"sessionId\":\"";
    let i = match find_from(body, key, 0) {
        Some(i) => i,
        None => {
            return None;
        },
    };
    let start = i + key.unicode_len();
    let j = match find_from(body, "\"", start) {
        Some(j) => j,
        None => {
            return None;
        },
    };
    let id = body.substring_char(start, j);
    Some(id.to_owned())
}

} // verus!
