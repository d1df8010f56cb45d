//! Character-level string utilities: equality, substring search and
//! whitespace trimming, each with an exact specification over string views.

use vstd::prelude::*;

verus! {

/// Whether `n` occurs as a contiguous run of characters inside `h`.
pub open spec fn spec_contains(h: Seq<char>, n: Seq<char>) -> bool {
    exists|i: int|
        0 <= i && i + n.len() <= h.len() && #[trigger] h.subrange(i, i + n.len() as int) == n
}

/// The ASCII whitespace characters the trimmer removes.
pub open spec fn spec_is_ws(c: char) -> bool {
    c == ' ' || c == '\t' || c == '\n' || c == '\r'
}

/// `s` with its leading whitespace removed.
pub open spec fn spec_trim_front(s: Seq<char>) -> Seq<char>
    decreases s.len(),
{
    if s.len() > 0 && spec_is_ws(s[0]) {
        spec_trim_front(s.drop_first())
    } else {
        s
    }
}

/// `s` with its trailing whitespace removed.
pub open spec fn spec_trim_back(s: Seq<char>) -> Seq<char>
    decreases s.len(),
{
    if s.len() > 0 && spec_is_ws(s[s.len() - 1]) {
        spec_trim_back(s.drop_last())
    } else {
        s
    }
}

/// `s` with whitespace removed from both ends.
pub open spec fn spec_trim(s: Seq<char>) -> Seq<char> {
    spec_trim_back(spec_trim_front(s))
}

/// Character-by-character string equality.
pub fn str_eq(a: &str, b: &str) -> (r: bool)
    ensures
        r == (a@ == b@),
{
    let a_len: usize = a.unicode_len();
    let b_len: usize = b.unicode_len();
    if a_len != b_len {
        assert(a@ != b@) by {
            assert(a@.len() != b@.len());
        }
        return false;
    }
    let mut i: usize = 0;
    while i < a_len
        invariant
            a_len == a@.len(),
            b_len == b@.len(),
            a_len == b_len,
            0 <= i <= a_len,
            forall|k: int| 0 <= k < i ==> a@[k] == b@[k],
        decreases a_len - i,
    {
        if a.get_char(i) != b.get_char(i) {
            return false;
        }
        i = i + 1;
    }
    proof {
        assert(a@ =~= b@);
    }
    true
}

/// Whether `needle` occurs anywhere inside `hay`.
pub fn str_contains(hay: &str, needle: &str) -> (r: bool)
    ensures
        r == spec_contains(hay@, needle@),
{
    let h_len: usize = hay.unicode_len();
    let n_len: usize = needle.unicode_len();
    if n_len > h_len {
        return false;
    }
    let mut i: usize = 0;
    while i <= h_len - n_len
        invariant
            h_len == hay@.len(),
            n_len == needle@.len(),
            n_len <= h_len,
            0 <= i <= h_len - n_len + 1,
            forall|k: int|
                0 <= k < i ==> #[trigger] hay@.subrange(k, k + n_len as int) != needle@,
        decreases h_len - n_len - i + 1,
    {
        let mut j: usize = 0;
        while j < n_len && hay.get_char(i + j) == needle.get_char(j)
            invariant
                h_len == hay@.len(),
                n_len == needle@.len(),
                n_len <= h_len,
                0 <= i <= h_len - n_len,
                0 <= j <= n_len,
                forall|t: int| 0 <= t < j ==> hay@[i + t] == needle@[t],
            decreases n_len - j,
        {
            j = j + 1;
        }
        if j == n_len {
            proof {
                assert(hay@.subrange(i as int, i + n_len as int) =~= needle@);
            }
            return true;
        }
        proof {
            assert(hay@.subrange(i as int, i + n_len as int)[j as int] != needle@[j as int]);
        }
        i = i + 1;
    }
    proof {
        assert forall|k: int| 0 <= k && k + needle@.len() <= hay@.len() implies #[trigger] hay@.subrange(
            k,
            k + needle@.len() as int,
        ) != needle@ by {
            assert(k < i);
        }
    }
    false
}

/// How many leading whitespace characters `s` has.
spec fn spec_leading_ws(s: Seq<char>) -> int
    decreases s.len(),
{
    if s.len() > 0 && spec_is_ws(s[0]) {
        1 + spec_leading_ws(s.drop_first())
    } else {
        0
    }
}

proof fn lemma_trim_front_is_subrange(s: Seq<char>)
    ensures
        0 <= spec_leading_ws(s) <= s.len(),
        spec_trim_front(s) == s.subrange(spec_leading_ws(s), s.len() as int),
        forall|k: int| 0 <= k < spec_leading_ws(s) ==> spec_is_ws(s[k]),
        spec_leading_ws(s) < s.len() ==> !spec_is_ws(s[spec_leading_ws(s)]),
    decreases s.len(),
{
    if s.len() > 0 && spec_is_ws(s[0]) {
        lemma_trim_front_is_subrange(s.drop_first());
        assert forall|k: int| 0 <= k < spec_leading_ws(s) implies spec_is_ws(s[k]) by {
            if k > 0 {
                assert(spec_is_ws(s.drop_first()[k - 1]));
                assert(s.drop_first()[k - 1] == s[k]);
            }
        }
        assert(s.drop_first() =~= s.subrange(1, s.len() as int));
        assert(s.drop_first().subrange(
            spec_leading_ws(s.drop_first()),
            s.drop_first().len() as int,
        ) =~= s.subrange(spec_leading_ws(s), s.len() as int));
    } else {
        assert(spec_trim_front(s) =~= s.subrange(0, s.len() as int));
    }
}

/// How many trailing whitespace characters `s` has.
spec fn spec_trailing_ws(s: Seq<char>) -> int
    decreases s.len(),
{
    if s.len() > 0 && spec_is_ws(s[s.len() - 1]) {
        1 + spec_trailing_ws(s.drop_last())
    } else {
        0
    }
}

proof fn lemma_trim_back_is_subrange(s: Seq<char>)
    ensures
        0 <= spec_trailing_ws(s) <= s.len(),
        spec_trim_back(s) == s.subrange(0, s.len() - spec_trailing_ws(s)),
        forall|k: int| s.len() - spec_trailing_ws(s) <= k < s.len() ==> spec_is_ws(s[k]),
        spec_trailing_ws(s) < s.len() ==> !spec_is_ws(s[s.len() - spec_trailing_ws(s) - 1]),
    decreases s.len(),
{
    if s.len() > 0 && spec_is_ws(s[s.len() - 1]) {
        lemma_trim_back_is_subrange(s.drop_last());
        assert forall|k: int| s.len() - spec_trailing_ws(s) <= k < s.len() implies spec_is_ws(
            s[k],
        ) by {
            if k < s.len() - 1 {
                assert(spec_is_ws(s.drop_last()[k]));
                assert(s.drop_last()[k] == s[k]);
            }
        }
        assert(s.drop_last() =~= s.subrange(0, s.len() - 1));
        assert(s.drop_last().subrange(
            0,
            s.drop_last().len() - spec_trailing_ws(s.drop_last()),
        ) =~= s.subrange(0, s.len() - spec_trailing_ws(s)));
    } else {
        assert(spec_trim_back(s) =~= s.subrange(0, s.len() as int));
    }
}

/// Whether `c` is one of the whitespace characters the trimmer removes.
pub fn is_ws_char(c: char) -> (r: bool)
    ensures
        r == spec_is_ws(c),
{
    c == ' ' || c == '\t' || c == '\n' || c == '\r'
}

/// `s` without leading and trailing ASCII whitespace.
pub fn str_trim(s: &str) -> (r: String)
    ensures
        r@ == spec_trim(s@),
{
    let len: usize = s.unicode_len();
    let mut a: usize = 0;
    while a < len && is_ws_char(s.get_char(a))
        invariant
            len == s@.len(),
            0 <= a <= len,
            forall|k: int| 0 <= k < a ==> spec_is_ws(s@[k]),
        decreases len - a,
    {
        a = a + 1;
    }
    let mut b: usize = len;
    while b > a && is_ws_char(s.get_char(b - 1))
        invariant
            len == s@.len(),
            0 <= a <= b <= len,
            a < len ==> !spec_is_ws(s@[a as int]),
            forall|k: int| b <= k < len ==> spec_is_ws(s@[k]),
        decreases b,
    {
        b = b - 1;
    }
    let piece = s.substring_char(a, b);
    proof {
        lemma_trim_front_is_subrange(s@);
        let lead = spec_leading_ws(s@);
        assert(lead == a) by {
            if lead < a {
                assert(spec_is_ws(s@[lead]));
                assert(!spec_is_ws(s@[lead]));
            }
            if a < lead {
                assert(spec_is_ws(s@[a as int]));
            }
        }
        let front = spec_trim_front(s@);
        assert(front == s@.subrange(a as int, len as int));
        assert(front.len() == len - a);
        lemma_trim_back_is_subrange(front);
        let trail = spec_trailing_ws(front);
        // t is the absolute index in s where the trailing whitespace run of
        // `front` begins; show it coincides with where the scan stopped.
        let t = len - trail;
        assert(t == b) by {
            if t < b {
                // s[b-1] lies inside the trailing run, yet the scan stopped
                // at b because s[b-1] is not whitespace.
                assert(spec_is_ws(front[(b - 1 - a) as int]));
                assert(front[(b - 1 - a) as int] == s@[(b - 1) as int]);
            }
            if t > b {
                // s[t-1] is not whitespace by the lemma, yet it lies at or
                // after b, where everything is whitespace.
                assert(trail < front.len());
                assert(!spec_is_ws(front[(front.len() - trail - 1) as int]));
                assert(front[(front.len() - trail - 1) as int] == s@[(t - 1) as int]);
                assert(spec_is_ws(s@[(t - 1) as int]));
            }
        }
        assert(spec_trim(s@) == front.subrange(0, (b - a) as int));
        assert(front.subrange(0, (b - a) as int) =~= s@.subrange(a as int, b as int));
    }
    String::from_str(piece)
}

} // verus!
