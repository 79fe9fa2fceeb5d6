//! Best-effort extraction of a changelog URL from an entry's free-text
//! summary: the text after the first `ChangeLog:` marker is split on double
//! quotes, and the segment after the first quote — up to the second quote, or
//! to the end if there is no second quote — is the URL. If the marker is
//! absent, or no quote follows it, there is no URL and no error: the result
//! falls back to "no changelog". The scheme depends on the exact upstream
//! formatting and is deliberately nothing more than a textual split.

use vstd::prelude::*;
use vstd::string::StringSliceAdditionalSpecFns;

verus! {

/// The literal marker that announces a changelog reference in a summary.
pub open spec fn changelog_marker() -> Seq<u8> {
    ("ChangeLog:").spec_bytes()
}

/// The double-quote byte that delimits the URL after the marker.
pub open spec fn quote_byte() -> u8 {
    34
}

/// `pat` occurs in `s` starting at position `i`.
pub open spec fn match_at(s: Seq<u8>, pat: Seq<u8>, i: int) -> bool {
    0 <= i && i + pat.len() <= s.len() && s.subrange(i, i + pat.len()) == pat
}

/// The position of the first occurrence of `pat` in `s`, if any.
pub open spec fn find_first(s: Seq<u8>, pat: Seq<u8>) -> Option<int>
    decreases s.len(),
{
    if match_at(s, pat, 0) {
        Some(0)
    } else if s.len() == 0 {
        None
    } else {
        match find_first(s.subrange(1, s.len() as int), pat) {
            Some(i) => Some(i + 1),
            None => None,
        }
    }
}

/// `find_first` returns the first occurrence: the position it returns matches,
/// every earlier position does not, and `None` means no position matches.
pub proof fn lemma_find_first_is_first(s: Seq<u8>, pat: Seq<u8>)
    ensures
        match find_first(s, pat) {
            Some(i) => match_at(s, pat, i) && (forall|j: int| 0 <= j < i ==> !match_at(s, pat, j)),
            None => forall|j: int| !match_at(s, pat, j),
        },
    decreases s.len(),
{
    if match_at(s, pat, 0) {
    } else if s.len() == 0 {
        assert forall|j: int| !match_at(s, pat, j) by {
            if 0 <= j && j + pat.len() <= s.len() {
                assert(j == 0 && pat.len() == 0);
            }
        }
    } else {
        let t = s.subrange(1, s.len() as int);
        lemma_find_first_is_first(t, pat);
        assert forall|j: int| 1 <= j && #[trigger] match_at(s, pat, j) implies match_at(
            t,
            pat,
            j - 1,
        ) by {
            assert(t.subrange(j - 1, j - 1 + pat.len()) =~= s.subrange(j, j + pat.len()));
        }
        assert forall|j: int| 0 <= j && #[trigger] match_at(t, pat, j) implies match_at(
            s,
            pat,
            j + 1,
        ) by {
            assert(s.subrange(j + 1, j + 1 + pat.len()) =~= t.subrange(j, j + pat.len()));
        }
        match find_first(t, pat) {
            Some(i) => {
                assert(match_at(s, pat, i + 1));
                assert forall|j: int| 0 <= j < i + 1 implies !match_at(s, pat, j) by {
                    if j >= 1 {
                        assert(!match_at(t, pat, j - 1));
                    }
                }
            },
            None => {
                assert forall|j: int| !match_at(s, pat, j) by {
                    if j >= 1 && match_at(s, pat, j) {
                        assert(match_at(t, pat, j - 1));
                    }
                }
            },
        }
    }
}

/// Finds the first occurrence of `pat` in `s` by scanning positions from the
/// left; the result is exactly what `find_first` names.
pub fn find_sub(s: &[u8], pat: &[u8]) -> (r: Option<usize>)
    ensures
        match r {
            Some(i) => find_first(s@, pat@) == Some(i as int),
            None => find_first(s@, pat@) is None,
        },
{
    proof {
        lemma_find_first_is_first(s@, pat@);
    }
    let n: usize = s.len();
    let plen: usize = pat.len();
    if plen > n {
        proof {
            assert forall|j: int| !match_at(s@, pat@, j) by {}
        }
        return None;
    }
    let end: usize = n - plen;
    let mut i: usize = 0;
    loop
        invariant
            0 <= i <= end + 1,
            n == s@.len(),
            plen == pat@.len(),
            plen <= n,
            end == n - plen,
            forall|j: int| 0 <= j < i ==> !match_at(s@, pat@, j),
        decreases end + 1 - i,
    {
        if i > end {
            proof {
                lemma_find_first_is_first(s@, pat@);
                assert forall|j: int| !match_at(s@, pat@, j) by {
                    if 0 <= j && j + pat@.len() <= s@.len() {
                        assert(j <= end);
                    }
                }
            }
            return None;
        }
        let mut j: usize = 0;
        let mut hit: bool = true;
        while j < plen
            invariant
                0 <= j <= plen,
                0 <= i <= end,
                n == s@.len(),
                plen == pat@.len(),
                plen <= n,
                end == n - plen,
                hit ==> forall|k: int| 0 <= k < j ==> s@[i + k] == pat@[k],
                !hit ==> exists|k: int| 0 <= k < plen && s@[i + k] != pat@[k],
            decreases plen - j,
        {
            if s[i + j] != pat[j] {
                assert(s@[i + j] != pat@[j as int]);
                hit = false;
                j = plen;
            } else {
                j = j + 1;
            }
        }
        if hit {
            assert(s@.subrange(i as int, i + pat@.len()) =~= pat@);
            assert(match_at(s@, pat@, i as int));
            proof {
                lemma_find_first_is_first(s@, pat@);
                match find_first(s@, pat@) {
                    Some(k) => {
                        if k < i {
                            assert(match_at(s@, pat@, k));
                        }
                        if k > i {
                            assert(!match_at(s@, pat@, i as int));
                        }
                    },
                    None => {
                        assert(!match_at(s@, pat@, i as int));
                    },
                }
            }
            return Some(i);
        } else {
            assert(!match_at(s@, pat@, i as int)) by {
                let k = choose|k: int| 0 <= k < plen && s@[i + k] != pat@[k];
                if match_at(s@, pat@, i as int) {
                    assert(s@.subrange(i as int, i + pat@.len())[k] == pat@[k]);
                }
            }
        }
        i = i + 1;
    }
}

/// The changelog URL named in `s`, if the marker and a quote after it are
/// there: the bytes between the first quote after the first `ChangeLog:`
/// marker and the next quote (or the end of the text).
pub open spec fn changelog_of(s: Seq<u8>) -> Option<Seq<u8>> {
    match find_first(s, changelog_marker()) {
        None => None,
        Some(m) => {
            let rest = s.subrange(m + changelog_marker().len(), s.len() as int);
            match find_first(rest, seq![quote_byte()]) {
                None => None,
                Some(q1) => {
                    let tail = rest.subrange(q1 + 1, rest.len() as int);
                    match find_first(tail, seq![quote_byte()]) {
                        None => Some(tail),
                        Some(q2) => Some(tail.subrange(0, q2)),
                    }
                },
            }
        },
    }
}

/// The view of an optional byte string.
pub open spec fn opt_bytes(o: Option<Vec<u8>>) -> Option<Seq<u8>> {
    match o {
        Some(v) => Some(v@),
        None => None,
    }
}

/// Extracts the changelog URL from a summary, or reports that there is none;
/// a missing marker or a missing quote is not an error.
pub fn extract_changelog(summary: &Vec<u8>) -> (r: Option<Vec<u8>>)
    ensures
        opt_bytes(r) == changelog_of(summary@),
{
    let s: &[u8] = summary.as_slice();
    let n: usize = s.len();
    let marker: &[u8] = ("ChangeLog:").as_bytes();
    let mlen: usize = marker.len();
    let mut quote: Vec<u8> = Vec::new();
    quote.push(34u8);
    assert(quote@ =~= seq![quote_byte()]);
    proof {
        lemma_find_first_is_first(s@, marker@);
    }
    let m = match find_sub(s, marker) {
        Some(m) => m,
        None => {
            return None;
        },
    };
    assert(match_at(s@, marker@, m as int));
    let rest: &[u8] = vstd::slice::slice_subrange(s, m + mlen, n);
    proof {
        lemma_find_first_is_first(rest@, quote@);
    }
    let q1 = match find_sub(rest, quote.as_slice()) {
        Some(q1) => q1,
        None => {
            return None;
        },
    };
    assert(match_at(rest@, quote@, q1 as int));
    let tail: &[u8] = vstd::slice::slice_subrange(rest, q1 + 1, rest.len());
    proof {
        lemma_find_first_is_first(tail@, quote@);
    }
    let url: Vec<u8> = match find_sub(tail, quote.as_slice()) {
        Some(q2) => {
            assert(match_at(tail@, quote@, q2 as int));
            vstd::slice::slice_to_vec(vstd::slice::slice_subrange(tail, 0, q2))
        },
        None => vstd::slice::slice_to_vec(tail),
    };
    Some(url)
}

} // verus!
