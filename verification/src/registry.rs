use vstd::prelude::*;

use crate::text::{
    chars_of, has_prefix_at, is_trimmed, lemma_trim_is_trimmed, string_of, trim, trim_bounds,
};

verus! {

/// Length of the first line of `s`: the characters before the first `'\n'`.
pub open spec fn line_len(s: Seq<char>) -> nat
    decreases s.len(),
{
    if s.len() == 0 || s[0] == '\n' {
        0
    } else {
        1 + line_len(s.drop_first())
    }
}

/// Whether four spaces start at `p` in `t`.
pub open spec fn is_gap_at(t: Seq<char>, p: int) -> bool {
    &&& 0 <= p
    &&& p + 4 <= t.len()
    &&& t[p] == ' '
    &&& t[p + 1] == ' '
    &&& t[p + 2] == ' '
    &&& t[p + 3] == ' '
}

/// The last position below `end` at which four spaces start in `t`.
pub open spec fn last_gap_below(t: Seq<char>, end: int) -> Option<int>
    decreases end,
{
    if end <= 0 {
        None
    } else if is_gap_at(t, end - 1) {
        Some(end - 1)
    } else {
        last_gap_below(t, end - 1)
    }
}

/// The install directory that one line of `reg query` output names, if any: the trimmed line
/// must begin with `InstallDir`, and the value is what follows the last run of four spaces,
/// trimmed, provided it is not empty.
pub open spec fn spec_reg_line_value(line: Seq<char>) -> Option<Seq<char>> {
    let t = trim(line);
    if t.len() >= "InstallDir"@.len() && t.take("InstallDir"@.len() as int) == "InstallDir"@ {
        match last_gap_below(t, t.len() as int) {
            Some(p) => {
                let path = trim(t.skip(p + 4));
                if path.len() > 0 {
                    Some(path)
                } else {
                    None
                }
            },
            None => None,
        }
    } else {
        None
    }
}

/// The value of the first line of `text` (lines end at `'\n'`) that names an install directory.
pub open spec fn spec_parse_reg_value(text: Seq<char>) -> Option<Seq<char>>
    decreases text.len(),
{
    let n = line_len(text);
    match spec_reg_line_value(text.take(n as int)) {
        Some(v) => Some(v),
        None => if n < text.len() {
            spec_parse_reg_value(text.skip(n + 1int))
        } else {
            None
        },
    }
}

proof fn lemma_line_len(s: Seq<char>, m: int)
    requires
        0 <= m <= s.len(),
        forall|k: int| 0 <= k < m ==> s[k] != '\n',
        m == s.len() || s[m] == '\n',
    ensures
        line_len(s) == m,
    decreases m,
{
    if m > 0 {
        lemma_line_len(s.drop_first(), m - 1);
    }
}

/// An install directory found in `reg query` output is never empty and has no white space at
/// either end.
pub proof fn lemma_reg_value_trimmed(text: Seq<char>)
    ensures
        spec_parse_reg_value(text) matches Some(p) ==> p.len() > 0 && is_trimmed(p),
    decreases text.len(),
{
    let n = line_len(text);
    let t = trim(text.take(n as int));
    match last_gap_below(t, t.len() as int) {
        Some(p) => lemma_trim_is_trimmed(t.skip(p + 4)),
        None => {},
    }
    if n < text.len() {
        lemma_reg_value_trimmed(text.skip(n + 1int));
    }
}

/// The last start, within `v[a..b]` and relative to `a`, of four spaces.
fn last_gap(v: &[char], a: usize, b: usize) -> (r: Option<usize>)
    requires
        a <= b <= v@.len(),
    ensures
        r matches Some(p) ==> last_gap_below(v@.subrange(a as int, b as int), (b - a) as int)
            == Some(p as int) && p + 4 <= b - a,
        r is None ==> last_gap_below(v@.subrange(a as int, b as int), (b - a) as int) is None,
{
    let ghost t = v@.subrange(a as int, b as int);
    let mut end = b - a;
    while end > 0
        invariant
            a <= b <= v@.len(),
            t == v@.subrange(a as int, b as int),
            end <= b - a,
            last_gap_below(t, (b - a) as int) == last_gap_below(t, end as int),
        decreases end,
    {
        let p = end - 1;
        if 4 <= b - a - p && v[a + p] == ' ' && v[a + p + 1] == ' ' && v[a + p + 2] == ' ' && v[a
            + p + 3] == ' ' {
            assert(is_gap_at(t, p as int));
            return Some(p);
        }
        assert(!is_gap_at(t, p as int));
        end = p;
    }
    None
}

/// The install directory named by the line `v[lo..hi]`, as `spec_reg_line_value` defines it.
fn reg_line_value(v: &[char], key: &[char], lo: usize, hi: usize) -> (r: Option<String>)
    requires
        lo <= hi <= v@.len(),
        key@ == "InstallDir"@,
    ensures
        r matches Some(s) ==> spec_reg_line_value(v@.subrange(lo as int, hi as int)) == Some(
            s@,
        ),
        r is None ==> spec_reg_line_value(v@.subrange(lo as int, hi as int)) is None,
{
    let ghost line = v@.subrange(lo as int, hi as int);
    let (a, b) = trim_bounds(v, lo, hi);
    let ghost t = v@.subrange(a as int, b as int);
    assert(t == trim(line));
    if !has_prefix_at(v, a, b, key) {
        assert(!(t.len() >= key@.len() && t.take(key@.len() as int) == key@)) by {
            if t.len() >= key@.len() && t.take(key@.len() as int) == key@ {
                assert(v@.subrange(a as int, a + key@.len()) =~= t.take(key@.len() as int));
            }
        }
        return None;
    }
    assert(t.take(key@.len() as int) =~= v@.subrange(a as int, a + key@.len()));
    match last_gap(v, a, b) {
        None => None,
        Some(p) => {
            let (c, d) = trim_bounds(v, a + p + 4, b);
            assert(t.skip(p + 4) =~= v@.subrange(a + p + 4, b as int));
            if c < d {
                Some(string_of(v, c, d))
            } else {
                None
            }
        },
    }
}

/// The install directory in the output of
/// `reg query HKLM\SOFTWARE\LLVM\LLVM /v InstallDir`.
///
/// A sample line is `    InstallDir    REG_SZ    C:\Program Files\LLVM`: the first line whose
/// trimmed text begins with `InstallDir` and has a non-empty value after its last run of four
/// spaces gives that value, trimmed.
pub fn parse_reg_value(text: &str) -> (r: Option<String>)
    ensures
        r matches Some(s) ==> spec_parse_reg_value(text@) == Some(s@),
        r is None ==> spec_parse_reg_value(text@) is None,
{
    let v = chars_of(text);
    let key = chars_of("InstallDir");
    let mut ls: usize = 0;
    assert(v@.skip(0) =~= v@);
    loop
        invariant
            v@ == text@,
            key@ == "InstallDir"@,
            ls <= v@.len(),
            spec_parse_reg_value(text@) == spec_parse_reg_value(v@.skip(ls as int)),
        decreases v@.len() - ls,
    {
        let mut e = ls;
        while e < v.len() && v[e] != '\n'
            invariant
                ls <= e <= v@.len(),
                forall|k: int| ls <= k < e ==> v@[k] != '\n',
            decreases v@.len() - e,
        {
            e = e + 1;
        }
        let ghost rest = v@.skip(ls as int);
        proof {
            lemma_line_len(rest, (e - ls) as int);
            assert(rest.take((e - ls) as int) =~= v@.subrange(ls as int, e as int));
        }
        match reg_line_value(&v, &key, ls, e) {
            Some(s) => {
                return Some(s);
            },
            None => {
                if e == v.len() {
                    return None;
                }
                assert(rest.skip((e - ls) + 1) =~= v@.skip(e + 1));
                ls = e + 1;
            },
        }
    }
}

} // verus!
