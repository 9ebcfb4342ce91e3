//! Glob matching of keys against a pattern, with the remote tier's pattern
//! command semantics: `*` matches any run of characters, `?` matches any
//! single character, every other character matches itself, and the pattern
//! must cover the whole key.

use vstd::prelude::*;

verus! {

/// Whether pattern `p` matches the whole of `s`.
pub open spec fn glob_matches(p: Seq<char>, s: Seq<char>) -> bool
    decreases p.len() + s.len(),
{
    if p.len() == 0 {
        s.len() == 0
    } else if p[0] == '*' {
        glob_matches(p.skip(1), s) || (s.len() > 0 && glob_matches(p, s.skip(1)))
    } else {
        s.len() > 0 && (p[0] == '?' || p[0] == s[0]) && glob_matches(p.skip(1), s.skip(1))
    }
}

fn glob_match_from(p: &str, s: &str, plen: usize, slen: usize, i: usize, j: usize) -> (r: bool)
    requires
        plen == p@.len(),
        slen == s@.len(),
        i <= plen,
        j <= slen,
    ensures
        r == glob_matches(p@.skip(i as int), s@.skip(j as int)),
    decreases plen - i + slen - j,
{
    let ghost pp = p@.skip(i as int);
    let ghost ss = s@.skip(j as int);
    if i == plen {
        proof {
            assert(pp.len() == 0);
        }
        j == slen
    } else {
        let pc = p.get_char(i);
        proof {
            assert(pp[0] == pc);
            assert(pp.skip(1) =~= p@.skip(i + 1));
        }
        if pc == '*' {
            if glob_match_from(p, s, plen, slen, i + 1, j) {
                true
            } else if j < slen {
                proof {
                    assert(ss.skip(1) =~= s@.skip(j + 1));
                }
                glob_match_from(p, s, plen, slen, i, j + 1)
            } else {
                false
            }
        } else {
            if j == slen {
                proof {
                    assert(ss.len() == 0);
                }
                false
            } else {
                let sc = s.get_char(j);
                proof {
                    assert(ss[0] == sc);
                    assert(ss.skip(1) =~= s@.skip(j + 1));
                }
                if pc == '?' || pc == sc {
                    glob_match_from(p, s, plen, slen, i + 1, j + 1)
                } else {
                    false
                }
            }
        }
    }
}

/// Whether `pattern` matches the whole of `key`.
pub fn glob_match(pattern: &str, key: &str) -> (r: bool)
    ensures
        r == glob_matches(pattern@, key@),
{
    let plen = pattern.unicode_len();
    let slen = key.unicode_len();
    let r = glob_match_from(pattern, key, plen, slen, 0, 0);
    proof {
        assert(pattern@.skip(0) =~= pattern@);
        assert(key@.skip(0) =~= key@);
    }
    r
}

/// Law: the lone `*` pattern matches every key.
pub proof fn lemma_star_matches_all(s: Seq<char>)
    ensures
        glob_matches(seq!['*'], s),
    decreases s.len(),
{
    assert(seq!['*'].skip(1) =~= Seq::<char>::empty());
    if s.len() == 0 {
        assert(glob_matches(seq!['*'].skip(1), s));
    } else {
        lemma_star_matches_all(s.skip(1));
    }
}

} // verus!
