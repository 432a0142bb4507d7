use vstd::prelude::*;

use crate::text::{chars_of, is_white_space, is_white_space_char, string_of};

verus! {

/// `'0'` to `'9'`.
pub open spec fn is_ascii_digit(c: char) -> bool {
    '0' <= c <= '9'
}

/// Length of the run of non-white-space characters that begins `s`.
pub open spec fn word_len(s: Seq<char>) -> nat
    decreases s.len(),
{
    if s.len() > 0 && !is_white_space(s[0]) {
        1 + word_len(s.drop_first())
    } else {
        0
    }
}

pub proof fn lemma_word_len_bound(s: Seq<char>)
    ensures
        word_len(s) <= s.len(),
    decreases s.len(),
{
    if s.len() > 0 && !is_white_space(s[0]) {
        lemma_word_len_bound(s.drop_first());
    }
}

/// The first white-space-separated word of `s` that begins with an ASCII digit.
pub open spec fn spec_version_word(s: Seq<char>) -> Option<Seq<char>>
    decreases s.len(),
{
    if s.len() == 0 {
        None
    } else if is_white_space(s[0]) {
        spec_version_word(s.drop_first())
    } else if is_ascii_digit(s[0]) {
        Some(s.take(word_len(s) as int))
    } else {
        proof {
            lemma_word_len_bound(s);
        }
        spec_version_word(s.skip(word_len(s) as int))
    }
}

proof fn lemma_word_has_no_white_space(s: Seq<char>)
    ensures
        forall|k: int| 0 <= k < word_len(s) ==> !is_white_space(#[trigger] s[k]),
    decreases s.len(),
{
    if s.len() > 0 && !is_white_space(s[0]) {
        lemma_word_has_no_white_space(s.drop_first());
        lemma_word_len_bound(s);
        assert forall|k: int| 0 <= k < word_len(s) implies !is_white_space(#[trigger] s[k]) by {
            if k > 0 {
                assert(s[k] == s.drop_first()[k - 1]);
            }
        }
    }
}

/// The version found is a non-empty word without white space that begins with an ASCII
/// digit.
pub proof fn lemma_version_word_shape(s: Seq<char>)
    ensures
        spec_version_word(s) matches Some(w) ==> {
            &&& w.len() > 0
            &&& is_ascii_digit(w[0])
            &&& forall|k: int| 0 <= k < w.len() ==> !is_white_space(#[trigger] w[k])
        },
    decreases s.len(),
{
    if s.len() == 0 {
    } else if is_white_space(s[0]) {
        lemma_version_word_shape(s.drop_first());
    } else if is_ascii_digit(s[0]) {
        lemma_word_len_bound(s);
        lemma_word_has_no_white_space(s);
        assert(word_len(s) >= 1);
    } else {
        lemma_word_len_bound(s);
        lemma_version_word_shape(s.skip(word_len(s) as int));
    }
}

/// A white-space-separated word of `s` begins at `q`.
pub open spec fn word_starts_at(s: Seq<char>, q: int) -> bool {
    &&& 0 <= q < s.len()
    &&& !is_white_space(s[q])
    &&& (q == 0 || is_white_space(s[q - 1]))
}

proof fn lemma_word_end(s: Seq<char>)
    ensures
        word_len(s) == s.len() || is_white_space(s[word_len(s) as int]),
    decreases s.len(),
{
    lemma_word_len_bound(s);
    if s.len() > 0 && !is_white_space(s[0]) {
        lemma_word_end(s.drop_first());
        lemma_word_len_bound(s.drop_first());
    }
}

/// The version is the first word of the text that begins with an ASCII digit: there is none
/// exactly when no word begins with a digit, and otherwise it is the whole word that begins at
/// the first word start holding a digit (no earlier word begins with one), up to the next white
/// space or the end of the text.
pub proof fn lemma_version_word_is_first_digit_word(s: Seq<char>)
    ensures
        spec_version_word(s) is None <==> (forall|q: int| #[trigger] word_starts_at(s, q)
            ==> !is_ascii_digit(s[q])),
        spec_version_word(s) matches Some(w) ==> exists|p: int|
            {
                &&& #[trigger] word_starts_at(s, p)
                &&& is_ascii_digit(s[p])
                &&& (forall|q: int| 0 <= q < p && #[trigger] word_starts_at(s, q)
                    ==> !is_ascii_digit(s[q]))
                &&& p + w.len() <= s.len()
                &&& w == s.subrange(p, p + w.len())
                &&& (p + w.len() == s.len() || is_white_space(s[p + w.len()]))
                &&& (forall|k: int| 0 <= k < w.len() ==> !is_white_space(#[trigger] w[k]))
            },
    decreases s.len(),
{
    if s.len() == 0 {
    } else if is_white_space(s[0]) {
        let t = s.drop_first();
        lemma_version_word_is_first_digit_word(t);
        assert forall|q: int| #[trigger] word_starts_at(s, q) implies q >= 1 && word_starts_at(
            t,
            q - 1,
        ) && s[q] == t[q - 1] by {}
        assert forall|q: int| #[trigger] word_starts_at(t, q) implies word_starts_at(s, q + 1)
            && s[q + 1] == t[q] by {}
        if spec_version_word(t) is None {
            assert forall|q: int| #[trigger] word_starts_at(s, q) implies !is_ascii_digit(s[q]) by {
                assert(word_starts_at(t, q - 1));
            }
        } else {
            let w = spec_version_word(t)->0;
            let p = choose|p: int|
                {
                    &&& #[trigger] word_starts_at(t, p)
                    &&& is_ascii_digit(t[p])
                    &&& (forall|q: int| 0 <= q < p && #[trigger] word_starts_at(t, q)
                        ==> !is_ascii_digit(t[q]))
                    &&& p + w.len() <= t.len()
                    &&& w == t.subrange(p, p + w.len())
                    &&& (p + w.len() == t.len() || is_white_space(t[p + w.len()]))
                    &&& (forall|k: int| 0 <= k < w.len() ==> !is_white_space(#[trigger] w[k]))
                };
            assert(word_starts_at(s, p + 1));
            assert forall|q: int| 0 <= q < p + 1 && #[trigger] word_starts_at(s, q) implies !is_ascii_digit(s[q]) by {
                assert(word_starts_at(t, q - 1));
            }
            assert(w =~= s.subrange(p + 1, p + 1 + w.len()));
        }
    } else if is_ascii_digit(s[0]) {
        lemma_word_len_bound(s);
        lemma_word_end(s);
        lemma_word_has_no_white_space(s);
        let w = s.take(word_len(s) as int);
        assert(word_starts_at(s, 0));
        assert(w =~= s.subrange(0, w.len() as int));
        assert forall|k: int| 0 <= k < w.len() implies !is_white_space(#[trigger] w[k]) by {
            assert(w[k] == s[k]);
        }
    } else {
        lemma_word_len_bound(s);
        lemma_word_end(s);
        lemma_word_has_no_white_space(s);
        let k = word_len(s) as int;
        let t = s.skip(k);
        lemma_version_word_is_first_digit_word(t);
        assert(k >= 1);
        assert forall|q: int| #[trigger] word_starts_at(s, q) && q != 0 implies q > k
            && word_starts_at(t, q - k) && s[q] == t[q - k] by {
            if q <= k {
                assert(!is_white_space(s[q - 1]));
            }
        }
        assert forall|q: int| #[trigger] word_starts_at(t, q) implies word_starts_at(s, q + k)
            && s[q + k] == t[q] && q > 0 by {
            if q == 0 {
                assert(t[0] == s[k]);
            }
        }
        if spec_version_word(t) is None {
            assert forall|q: int| #[trigger] word_starts_at(s, q) implies !is_ascii_digit(s[q]) by {
                if q != 0 {
                    assert(word_starts_at(t, q - k));
                }
            }
        } else {
            let w = spec_version_word(t)->0;
            let p = choose|p: int|
                {
                    &&& #[trigger] word_starts_at(t, p)
                    &&& is_ascii_digit(t[p])
                    &&& (forall|q: int| 0 <= q < p && #[trigger] word_starts_at(t, q)
                        ==> !is_ascii_digit(t[q]))
                    &&& p + w.len() <= t.len()
                    &&& w == t.subrange(p, p + w.len())
                    &&& (p + w.len() == t.len() || is_white_space(t[p + w.len()]))
                    &&& (forall|k: int| 0 <= k < w.len() ==> !is_white_space(#[trigger] w[k]))
                };
            assert(word_starts_at(s, p + k));
            assert forall|q: int| 0 <= q < p + k && #[trigger] word_starts_at(s, q) implies !is_ascii_digit(s[q]) by {
                if q != 0 {
                    assert(word_starts_at(t, q - k));
                }
            }
            assert(w =~= s.subrange(p + k, p + k + w.len()));
        }
    }
}

proof fn lemma_word_len(s: Seq<char>, m: int)
    requires
        0 <= m <= s.len(),
        forall|k: int| 0 <= k < m ==> !is_white_space(s[k]),
        m == s.len() || is_white_space(s[m]),
    ensures
        word_len(s) == m,
    decreases m,
{
    if m > 0 {
        lemma_word_len(s.drop_first(), m - 1);
    }
}

/// The version that `lldb --version` prints: in `lldb version 19.1.7` it is `19.1.7`, the
/// first white-space-separated word that begins with an ASCII digit.
pub fn version_from_output(text: &str) -> (r: Option<String>)
    ensures
        r matches Some(s) ==> spec_version_word(text@) == Some(s@),
        r is None ==> spec_version_word(text@) is None,
{
    let v = chars_of(text);
    let mut i: usize = 0;
    assert(v@.skip(0) =~= v@);
    loop
        invariant
            v@ == text@,
            i <= v@.len(),
            spec_version_word(text@) == spec_version_word(v@.skip(i as int)),
        decreases v@.len() - i,
    {
        if i == v.len() {
            return None;
        }
        let ghost rest = v@.skip(i as int);
        if is_white_space_char(v[i]) {
            assert(rest.drop_first() =~= v@.skip(i + 1));
            i = i + 1;
        } else {
            let mut j = i + 1;
            while j < v.len() && !is_white_space_char(v[j])
                invariant
                    i < j <= v@.len(),
                    forall|k: int| i <= k < j ==> !is_white_space(v@[k]),
                decreases v@.len() - j,
            {
                j = j + 1;
            }
            proof {
                lemma_word_len(rest, (j - i) as int);
            }
            if '0' <= v[i] && v[i] <= '9' {
                assert(rest.take((j - i) as int) =~= v@.subrange(i as int, j as int));
                return Some(string_of(&v, i, j));
            }
            assert(rest.skip((j - i) as int) =~= v@.skip(j as int));
            i = j;
        }
    }
}

} // verus!
