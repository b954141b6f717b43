//! Character-level helpers for instrument response lines: ASCII whitespace
//! trimming and splitting on commas, with sequence-level specifications.

use vstd::prelude::*;

verus! {

/// ASCII whitespace as instrument lines may carry it around a value.
pub open spec fn is_ws(c: char) -> bool {
    c == ' ' || c == '\t' || c == '\n' || c == '\r' || c == '\u{b}' || c == '\u{c}'
}

/// First index at or after `i` that does not hold whitespace.
pub open spec fn skip_ws(s: Seq<char>, i: int) -> int
    decreases s.len() - i when 0 <= i <= s.len()
{
    if i < s.len() && is_ws(s[i]) {
        skip_ws(s, i + 1)
    } else {
        i
    }
}

/// Last bound at or before `j` such that nothing just below it is whitespace.
pub open spec fn rskip_ws(s: Seq<char>, j: int) -> int
    decreases j when 0 <= j <= s.len()
{
    if j > 0 && is_ws(s[j - 1]) {
        rskip_ws(s, j - 1)
    } else {
        j
    }
}

/// The sequence with leading and trailing whitespace removed.
pub open spec fn trimmed(s: Seq<char>) -> Seq<char> {
    let lo = skip_ws(s, 0);
    let hi = rskip_ws(s, s.len() as int);
    if lo <= hi {
        s.subrange(lo, hi)
    } else {
        Seq::<char>::empty()
    }
}

pub proof fn lemma_skip_ws_bounds(s: Seq<char>, i: int)
    requires
        0 <= i <= s.len(),
    ensures
        i <= skip_ws(s, i) <= s.len(),
    decreases s.len() - i,
{
    if i < s.len() && is_ws(s[i]) {
        lemma_skip_ws_bounds(s, i + 1);
    }
}

pub proof fn lemma_rskip_ws_bounds(s: Seq<char>, j: int)
    requires
        0 <= j <= s.len(),
    ensures
        0 <= rskip_ws(s, j) <= j,
    decreases j,
{
    if j > 0 && is_ws(s[j - 1]) {
        lemma_rskip_ws_bounds(s, j - 1);
    }
}

/// First index at or after `i` that holds a comma, or the length if none does.
pub open spec fn find_comma(s: Seq<char>, i: int) -> int
    decreases s.len() - i when 0 <= i <= s.len()
{
    if i < s.len() && s[i] != ',' {
        find_comma(s, i + 1)
    } else {
        i
    }
}

/// The comma-separated fields of `s` from index `i` on, in order. A comma
/// at the very end yields a final empty field, as does an empty input.
pub open spec fn split_from(s: Seq<char>, i: int) -> Seq<Seq<char>>
    decreases s.len() - i when 0 <= i <= s.len()
{
    let j0 = find_comma(s, i);
    let j = if j0 < i {
        i
    } else if j0 > s.len() {
        s.len() as int
    } else {
        j0
    };
    if j == s.len() {
        seq![s.subrange(i, j)]
    } else {
        seq![s.subrange(i, j)] + split_from(s, j + 1)
    }
}

/// All comma-separated fields of `s`.
pub open spec fn split_commas(s: Seq<char>) -> Seq<Seq<char>> {
    split_from(s, 0)
}

/// Split on commas; each returned piece is one field, commas removed.
pub fn split(s: &str) -> (r: Vec<String>)
    ensures
        r.deep_view() == split_commas(s@),
{
    let n = s.unicode_len();
    let mut parts: Vec<String> = Vec::new();
    let mut i: usize = 0;
    loop
        invariant_except_break
            0 <= i <= n == s@.len(),
            split_commas(s@) =~= parts.deep_view() + split_from(s@, i as int),
        ensures
            split_commas(s@) =~= parts.deep_view(),
        decreases n - i,
    {
        let mut j: usize = i;
        while j < n && s.get_char(j) != ','
            invariant
                i <= j <= n == s@.len(),
                find_comma(s@, i as int) == find_comma(s@, j as int),
            decreases n - j,
        {
            j = j + 1;
        }
        let ghost old_parts = parts.deep_view();
        let piece = String::from_str(s.substring_char(i, j));
        parts.push(piece);
        proof {
            assert(find_comma(s@, i as int) == j as int);
            assert(parts.deep_view() =~= old_parts + seq![s@.subrange(i as int, j as int)]);
        }
        if j == n {
            proof {
                assert(split_from(s@, i as int) =~= seq![s@.subrange(i as int, j as int)]);
                assert(split_commas(s@) =~= parts.deep_view());
            }
            break;
        }
        proof {
            assert(split_from(s@, i as int) =~= seq![s@.subrange(i as int, j as int)]
                + split_from(s@, j as int + 1));
            assert(split_commas(s@) =~= parts.deep_view() + split_from(s@, j as int + 1));
        }
        i = j + 1;
    }
    parts
}

fn ws_exec(c: char) -> (r: bool)
    ensures
        r == is_ws(c),
{
    c == ' ' || c == '\t' || c == '\n' || c == '\r' || c == '\u{b}' || c == '\u{c}'
}

/// Remove leading and trailing ASCII whitespace.
pub fn trim(s: &str) -> (r: &str)
    ensures
        r@ == trimmed(s@),
{
    let n = s.unicode_len();
    let mut lo: usize = 0;
    while lo < n && ws_exec(s.get_char(lo))
        invariant
            0 <= lo <= n == s@.len(),
            skip_ws(s@, 0) == skip_ws(s@, lo as int),
        decreases n - lo,
    {
        lo = lo + 1;
    }
    proof {
        lemma_skip_ws_bounds(s@, lo as int);
    }
    let mut hi: usize = n;
    while hi > 0 && ws_exec(s.get_char(hi - 1))
        invariant
            0 <= hi <= n == s@.len(),
            rskip_ws(s@, n as int) == rskip_ws(s@, hi as int),
        decreases hi,
    {
        hi = hi - 1;
    }
    proof {
        lemma_rskip_ws_bounds(s@, hi as int);
    }
    if lo <= hi {
        let r = s.substring_char(lo, hi);
        proof {
            assert(r@ =~= trimmed(s@));
        }
        r
    } else {
        let r = "";
        proof {
            reveal_strlit("");
            assert(r@ =~= trimmed(s@));
        }
        r
    }
}

} // verus!
