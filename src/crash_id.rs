//! Normalization of a crash identifier typed by a user: a bare identifier, or a
//! report URL whose last path segment is the identifier.
use vstd::prelude::*;
use vstd::string::*;

verus! {

/// Position of the last `/` in `s`, or -1 when there is none.
pub open spec fn last_slash(s: Seq<char>) -> int
    decreases s.len(),
{
    if s.len() == 0 {
        -1
    } else if s.last() == '/' {
        s.len() - 1
    } else {
        last_slash(s.drop_last())
    }
}

/// Whether `s` starts with `p`.
pub open spec fn starts_with(s: Seq<char>, p: Seq<char>) -> bool {
    p.len() <= s.len() && s.subrange(0, p.len() as int) == p
}

/// Whether `s` begins with an HTTP or HTTPS scheme.
pub open spec fn is_web_address(s: Seq<char>) -> bool {
    starts_with(s, "http://"@) || starts_with(s, "https://"@)
}

/// The identifier named by `s`: the text after its last `/` when `s` is a web
/// address, `s` itself otherwise.
pub open spec fn crash_id_of(s: Seq<char>) -> Seq<char> {
    if is_web_address(s) {
        s.subrange(last_slash(s) + 1, s.len() as int)
    } else {
        s
    }
}


pub(crate) fn has_prefix(s: &str, p: &str) -> (r: bool)
    ensures
        r == starts_with(s@, p@),
{
    let n = s.unicode_len();
    let m = p.unicode_len();
    if m > n {
        return false;
    }
    let mut i: usize = 0;
    while i < m
        invariant
            m == p@.len(),
            n == s@.len(),
            m <= n,
            i <= m,
            forall|k: int| 0 <= k < i ==> s@[k] == p@[k],
        decreases m - i,
    {
        if s.get_char(i) != p.get_char(i) {
            assert(s@.subrange(0, m as int)[i as int] != p@[i as int]);
            return false;
        }
        i = i + 1;
    }
    assert(s@.subrange(0, m as int) =~= p@);
    true
}

/// Extracts the crash identifier from `input`: for an `http://` or `https://`
/// address, the text after its last `/`; any other input unchanged.
pub fn extract_crash_id(input: &str) -> (r: &str)
    ensures
        r@ == crash_id_of(input@),
{
    if has_prefix(input, "http://") || has_prefix(input, "https://") {
        let n = input.unicode_len();
        let mut i: usize = n;
        assert(input@.subrange(0, n as int) =~= input@);
        while i > 0
            invariant
                n == input@.len(),
                i <= n,
                is_web_address(input@),
                last_slash(input@) == last_slash(input@.subrange(0, i as int)),
            decreases i,
        {
            if input.get_char(i - 1) == '/' {
                assert(input@.subrange(0, i as int).last() == '/');
                assert(last_slash(input@) == i - 1);
                return input.substring_char(i, n);
            }
            assert(input@.subrange(0, i as int).drop_last() =~= input@.subrange(0, i - 1));
            i = i - 1;
        }
        assert(input@.subrange(0, 0) =~= Seq::<char>::empty());
        input
    } else {
        input
    }
}

} // verus!
