//! Character-sequence utilities: substring search, equality, and conversions
//! between `&str`, `Vec<char>` and `String`.
//!
//! All response classification and message composition in this crate works on
//! sequences of characters, so these helpers carry exact contracts over
//! `Seq<char>` views.

use vstd::prelude::*;
use vstd::string::*;

verus! {

/// `needle` occurs as a contiguous subsequence of `hay` starting at `i`.
pub open spec fn matches_at(hay: Seq<char>, needle: Seq<char>, i: int) -> bool {
    0 <= i && i + needle.len() <= hay.len() && hay.subrange(i, i + needle.len()) == needle
}

/// `needle` occurs somewhere in `hay`.
pub open spec fn contains_seq(hay: Seq<char>, needle: Seq<char>) -> bool {
    exists|i: int| matches_at(hay, needle, i)
}

/// Collect the characters of a string slice into a vector.
pub fn chars_vec(s: &str) -> (v: Vec<char>)
    ensures
        v@ == s@,
{
    let n = s.unicode_len();
    let mut v: Vec<char> = Vec::new();
    let mut i: usize = 0;
    while i < n
        invariant
            n == s@.len(),
            i <= n,
            v@ == s@.subrange(0, i as int),
        decreases n - i,
    {
        v.push(s.get_char(i));
        i = i + 1;
        assert(v@ =~= s@.subrange(0, i as int));
    }
    assert(v@ =~= s@);
    v
}

/// Build a `String` whose characters are exactly those of `v`.
///
/// Relies on `String: FromIterator<char>`, which collects the characters in
/// order.
#[verifier::external_body]
pub fn string_from_chars(v: &Vec<char>) -> (s: String)
    ensures
        s@ == v@,
{
    v.iter().collect()
}

/// Character-for-character string equality.
pub fn str_eq(a: &str, b: &str) -> (r: bool)
    ensures
        r == (a@ == b@),
{
    let na = a.unicode_len();
    let nb = b.unicode_len();
    if na != nb {
        assert(a@ != b@);
        return false;
    }
    let mut i: usize = 0;
    while i < na
        invariant
            na == a@.len(),
            na == b@.len(),
            i <= na,
            forall|j: int| 0 <= j < i ==> a@[j] == b@[j],
        decreases na - i,
    {
        if a.get_char(i) != b.get_char(i) {
            assert(a@ != b@);
            return false;
        }
        i = i + 1;
    }
    assert(a@ =~= b@);
    true
}

/// Whether `needle` matches `hay` at position `i` (executable form).
fn check_match(hay: &Vec<char>, needle: &Vec<char>, i: usize) -> (r: bool)
    requires
        i + needle@.len() <= hay@.len(),
    ensures
        r == matches_at(hay@, needle@, i as int),
{
    let m = needle.len();
    let nh = hay.len();
    let mut j: usize = 0;
    while j < m
        invariant
            m == needle@.len(),
            nh == hay@.len(),
            i + m <= nh,
            j <= m,
            forall|k: int| 0 <= k < j ==> hay@[i + k] == needle@[k],
        decreases m - j,
    {
        if hay[i + j] != needle[j] {
            assert(hay@.subrange(i as int, i + m) != needle@) by {
                assert(hay@.subrange(i as int, i + m)[j as int] == hay@[i + j]);
            }
            return false;
        }
        j = j + 1;
    }
    assert(hay@.subrange(i as int, i + m) =~= needle@);
    true
}

/// Position of the first occurrence of `needle` in `hay`, if any.
pub fn find_sub(hay: &Vec<char>, needle: &Vec<char>) -> (r: Option<usize>)
    ensures
        match r {
            Some(i) => matches_at(hay@, needle@, i as int) && forall|k: int|
                0 <= k < i ==> !matches_at(hay@, needle@, k),
            None => !contains_seq(hay@, needle@),
        },
{
    let n = hay.len();
    let m = needle.len();
    if m > n {
        assert(!contains_seq(hay@, needle@));
        return None;
    }
    if m == 0 {
        assert(matches_at(hay@, needle@, 0)) by {
            assert(hay@.subrange(0, 0) =~= needle@);
        }
        return Some(0);
    }
    let mut i: usize = 0;
    while i <= n - m
        invariant
            n == hay@.len(),
            m == needle@.len(),
            0 < m <= n,
            i <= n - m + 1,
            forall|k: int| 0 <= k < i ==> !matches_at(hay@, needle@, k),
        decreases n - i,
    {
        if check_match(hay, needle, i) {
            return Some(i);
        }
        i = i + 1;
    }
    assert(forall|k: int| matches_at(hay@, needle@, k) ==> 0 <= k <= n - m);
    None
}

/// Whether `needle` occurs in `hay` (vector form).
pub fn contains_sub(hay: &Vec<char>, needle: &Vec<char>) -> (r: bool)
    ensures
        r == contains_seq(hay@, needle@),
{
    match find_sub(hay, needle) {
        Some(_) => true,
        None => false,
    }
}

/// Whether `needle` occurs in `hay` (string form).
pub fn str_contains(hay: &str, needle: &str) -> (r: bool)
    ensures
        r == contains_seq(hay@, needle@),
{
    let h = chars_vec(hay);
    let n = chars_vec(needle);
    contains_sub(&h, &n)
}

/// Append all characters of `src` to `dst`.
pub fn push_all(dst: &mut Vec<char>, src: &Vec<char>)
    ensures
        final(dst)@ == old(dst)@ + src@,
{
    let m = src.len();
    let mut k: usize = 0;
    while k < m
        invariant
            m == src@.len(),
            k <= m,
            dst@ == old(dst)@ + src@.subrange(0, k as int),
        decreases m - k,
    {
        dst.push(src[k]);
        k = k + 1;
        assert(dst@ =~= old(dst)@ + src@.subrange(0, k as int));
    }
    assert(dst@ =~= old(dst)@ + src@);
}

/// Every occurrence of `needle` in `hay`, scanning left to right without
/// overlap, replaced by `repl`.
pub open spec fn replace_seq(hay: Seq<char>, needle: Seq<char>, repl: Seq<char>) -> Seq<char>
    decreases hay.len(),
{
    if needle.len() == 0 || hay.len() < needle.len() {
        hay
    } else if hay.subrange(0, needle.len() as int) == needle {
        repl + replace_seq(hay.skip(needle.len() as int), needle, repl)
    } else {
        seq![hay[0]] + replace_seq(hay.skip(1), needle, repl)
    }
}

/// Replace every occurrence of `needle` in `hay` by `repl`, left to right,
/// without overlap.
pub fn replace_all(hay: &Vec<char>, needle: &Vec<char>, repl: &Vec<char>) -> (r: Vec<char>)
    requires
        needle@.len() > 0,
    ensures
        r@ == replace_seq(hay@, needle@, repl@),
{
    let n = hay.len();
    let m = needle.len();
    let mut out: Vec<char> = Vec::new();
    let mut i: usize = 0;
    proof {
        assert(hay@.skip(0) =~= hay@);
        assert(out@ + replace_seq(hay@, needle@, repl@) =~= replace_seq(hay@, needle@, repl@));
    }
    while i < n
        invariant
            n == hay@.len(),
            m == needle@.len(),
            0 < m,
            i <= n,
            replace_seq(hay@, needle@, repl@) == out@ + replace_seq(
                hay@.skip(i as int),
                needle@,
                repl@,
            ),
        decreases n - i,
    {
        let ghost pre = out@;
        let ghost suffix = hay@.skip(i as int);
        if m <= n - i && check_match(hay, needle, i) {
            push_all(&mut out, repl);
            proof {
                assert(suffix.subrange(0, m as int) =~= hay@.subrange(i as int, i + m));
                assert(suffix.subrange(0, m as int) == needle@);
                assert(replace_seq(suffix, needle@, repl@) == repl@ + replace_seq(
                    suffix.skip(m as int),
                    needle@,
                    repl@,
                ));
                assert(suffix.skip(m as int) =~= hay@.skip(i + m));
                assert(pre + replace_seq(suffix, needle@, repl@) =~= out@ + replace_seq(
                    hay@.skip(i + m),
                    needle@,
                    repl@,
                ));
            }
            i = i + m;
        } else {
            out.push(hay[i]);
            proof {
                if suffix.len() >= m {
                    assert(!matches_at(hay@, needle@, i as int));
                    assert(suffix.subrange(0, m as int) =~= hay@.subrange(i as int, i + m));
                    assert(suffix.subrange(0, m as int) != needle@);
                    assert(replace_seq(suffix, needle@, repl@) == seq![suffix[0]] + replace_seq(
                        suffix.skip(1),
                        needle@,
                        repl@,
                    ));
                } else {
                    assert(replace_seq(suffix, needle@, repl@) == suffix);
                    assert(replace_seq(suffix.skip(1), needle@, repl@) == suffix.skip(1));
                    assert(suffix =~= seq![suffix[0]] + suffix.skip(1));
                }
                assert(suffix.skip(1) =~= hay@.skip(i + 1));
                assert(suffix[0] == hay@[i as int]);
                assert(pre + replace_seq(suffix, needle@, repl@) =~= out@ + replace_seq(
                    hay@.skip(i + 1),
                    needle@,
                    repl@,
                ));
            }
            i = i + 1;
        }
    }
    proof {
        assert(hay@.skip(n as int) =~= Seq::<char>::empty());
        assert(replace_seq(hay@.skip(n as int), needle@, repl@) == hay@.skip(n as int));
        assert(out@ + hay@.skip(n as int) =~= out@);
    }
    out
}

/// The blank characters that message composition normalises: the space and
/// the newline that the templates may hold.
pub open spec fn is_blank(c: char) -> bool {
    c == ' ' || c == '\n'
}

/// Length of the maximal blank prefix of `s`.
pub open spec fn blank_prefix_len(s: Seq<char>) -> nat
    decreases s.len(),
{
    if s.len() > 0 && is_blank(s[0]) {
        (1 + blank_prefix_len(s.skip(1))) as nat
    } else {
        0
    }
}

pub proof fn lemma_blank_prefix_len_bounds(s: Seq<char>)
    ensures
        blank_prefix_len(s) <= s.len(),
    decreases s.len(),
{
    if s.len() > 0 && is_blank(s[0]) {
        lemma_blank_prefix_len_bounds(s.skip(1));
    }
}

/// Exactly the first `k` characters of `s` are blank.
pub proof fn lemma_blank_prefix_exact(s: Seq<char>, k: int)
    requires
        0 <= k <= s.len(),
        forall|t: int| 0 <= t < k ==> is_blank(s[t]),
        k == s.len() || !is_blank(s[k]),
    ensures
        blank_prefix_len(s) == k,
    decreases k,
{
    if k == 0 {
    } else {
        assert(is_blank(s[0]));
        assert forall|t: int| 0 <= t < k - 1 implies is_blank(s.skip(1)[t]) by {
            assert(s.skip(1)[t] == s[t + 1]);
        }
        if k - 1 < s.skip(1).len() {
            assert(s.skip(1)[k - 1] == s[k]);
        }
        lemma_blank_prefix_exact(s.skip(1), k - 1);
    }
}

/// The single character that stands for a run of blanks: a newline if the run
/// held one, else a space.
pub open spec fn run_char(run: Seq<char>) -> char {
    if run.contains('\n') {
        '\n'
    } else {
        ' '
    }
}

/// Each maximal run of blanks in `s` collapsed to one character; a run that
/// held a newline collapses to a newline, any other run to a space.
pub open spec fn collapse_blanks(s: Seq<char>) -> Seq<char>
    decreases s.len(),
    via collapse_blanks_decreases
{
    if s.len() == 0 {
        Seq::empty()
    } else if is_blank(s[0]) {
        seq![run_char(s.take(blank_prefix_len(s) as int))] + collapse_blanks(
            s.skip(blank_prefix_len(s) as int),
        )
    } else {
        seq![s[0]] + collapse_blanks(s.skip(1))
    }
}

#[via_fn]
proof fn collapse_blanks_decreases(s: Seq<char>) {
    lemma_blank_prefix_len_bounds(s);
}

/// Collapse each maximal run of blanks to a single character.
pub fn collapse_ws(v: &Vec<char>) -> (r: Vec<char>)
    ensures
        r@ == collapse_blanks(v@),
{
    let n = v.len();
    let mut out: Vec<char> = Vec::new();
    let mut i: usize = 0;
    proof {
        assert(v@.skip(0) =~= v@);
        assert(out@ + collapse_blanks(v@) =~= collapse_blanks(v@));
    }
    while i < n
        invariant
            n == v@.len(),
            i <= n,
            collapse_blanks(v@) == out@ + collapse_blanks(v@.skip(i as int)),
        decreases n - i,
    {
        let ghost pre = out@;
        let ghost suffix = v@.skip(i as int);
        let c = v[i];
        if c != ' ' && c != '\n' {
            out.push(c);
            proof {
                assert(suffix[0] == c);
                assert(!is_blank(suffix[0]));
                assert(collapse_blanks(suffix) == seq![c] + collapse_blanks(suffix.skip(1)));
                assert(suffix.skip(1) =~= v@.skip(i + 1));
                assert(pre + collapse_blanks(suffix) =~= out@ + collapse_blanks(v@.skip(i + 1)));
            }
            i = i + 1;
        } else {
            let mut j: usize = i + 1;
            let mut nl = c == '\n';
            proof {
                assert(v@.subrange(i as int, i + 1) =~= seq![c]);
                if nl {
                    assert(v@.subrange(i as int, i + 1)[0] == '\n');
                }
            }
            loop
                invariant_except_break
                    n == v@.len(),
                    i < j <= n,
                    forall|t: int| i <= t < j ==> is_blank(v@[t]),
                    nl == v@.subrange(i as int, j as int).contains('\n'),
                ensures
                    n == v@.len(),
                    i < j <= n,
                    forall|t: int| i <= t < j ==> is_blank(v@[t]),
                    nl == v@.subrange(i as int, j as int).contains('\n'),
                    j == n || !is_blank(v@[j as int]),
                decreases n - j,
            {
                if j == n {
                    break;
                }
                let d = v[j];
                if d != ' ' && d != '\n' {
                    break;
                }
                let ghost before = v@.subrange(i as int, j as int);
                if d == '\n' {
                    nl = true;
                }
                j = j + 1;
                proof {
                    let after = v@.subrange(i as int, j as int);
                    assert(after =~= before + seq![d]);
                    if d == '\n' {
                        assert(after[after.len() - 1] == '\n');
                        assert(after.contains('\n'));
                    } else {
                        if before.contains('\n') {
                            let t = choose|t: int| 0 <= t < before.len() && before[t] == '\n';
                            assert(after[t] == '\n');
                        }
                        if after.contains('\n') {
                            let t = choose|t: int| 0 <= t < after.len() && after[t] == '\n';
                            assert(t < before.len() || after[t] == d);
                            assert(t < before.len() ==> before[t] == '\n');
                        }
                        assert(after.contains('\n') == before.contains('\n'));
                    }
                }
            }
            proof {
                assert forall|t: int| 0 <= t < j - i implies is_blank(suffix[t]) by {
                    assert(suffix[t] == v@[i + t]);
                }
                if j - i < suffix.len() {
                    assert(suffix[j - i] == v@[j as int]);
                }
                lemma_blank_prefix_exact(suffix, j - i);
                assert(suffix.take(j - i) =~= v@.subrange(i as int, j as int));
            }
            out.push(if nl {
                '\n'
            } else {
                ' '
            });
            proof {
                assert(is_blank(suffix[0]));
                assert(collapse_blanks(suffix) == seq![run_char(suffix.take(j - i))]
                    + collapse_blanks(suffix.skip(j - i)));
                assert(run_char(suffix.take(j - i)) == (if nl {
                    '\n'
                } else {
                    ' '
                }));
                assert(suffix.skip(j - i) =~= v@.skip(j as int));
                assert(pre + collapse_blanks(suffix) =~= out@ + collapse_blanks(v@.skip(j as int)));
            }
            i = j;
        }
    }
    proof {
        assert(v@.skip(n as int) =~= Seq::<char>::empty());
        assert(out@ + collapse_blanks(v@.skip(n as int)) =~= out@);
    }
    out
}

/// Every newline replaced by a space, all other characters kept.
pub open spec fn flatten_newlines(s: Seq<char>) -> Seq<char> {
    s.map_values(
        |c: char|
            if c == '\n' {
                ' '
            } else {
                c
            },
    )
}

/// Replace every newline by a space.
pub fn flatten_nl(v: &Vec<char>) -> (r: Vec<char>)
    ensures
        r@ == flatten_newlines(v@),
{
    let n = v.len();
    let mut out: Vec<char> = Vec::new();
    let mut i: usize = 0;
    while i < n
        invariant
            n == v@.len(),
            i <= n,
            out@ == flatten_newlines(v@.subrange(0, i as int)),
        decreases n - i,
    {
        let c = v[i];
        if c == '\n' {
            out.push(' ');
        } else {
            out.push(c);
        }
        i = i + 1;
        assert(out@ =~= flatten_newlines(v@.subrange(0, i as int)));
    }
    assert(v@.subrange(0, n as int) =~= v@);
    out
}

/// `s` without its blank prefix.
pub open spec fn trim_start_seq(s: Seq<char>) -> Seq<char>
    decreases s.len(),
{
    if s.len() > 0 && is_blank(s[0]) {
        trim_start_seq(s.skip(1))
    } else {
        s
    }
}

/// `s` without its blank suffix.
pub open spec fn trim_end_seq(s: Seq<char>) -> Seq<char>
    decreases s.len(),
{
    if s.len() > 0 && is_blank(s[s.len() - 1]) {
        trim_end_seq(s.drop_last())
    } else {
        s
    }
}

/// `s` without leading and trailing blanks.
pub open spec fn trim_seq(s: Seq<char>) -> Seq<char> {
    trim_end_seq(trim_start_seq(s))
}

/// Drop leading and trailing blanks.
pub fn trim_ws(v: &Vec<char>) -> (r: Vec<char>)
    ensures
        r@ == trim_seq(v@),
{
    let n = v.len();
    let mut a: usize = 0;
    proof {
        assert(v@.skip(0) =~= v@);
    }
    while a < n && (v[a] == ' ' || v[a] == '\n')
        invariant
            n == v@.len(),
            a <= n,
            trim_start_seq(v@) == trim_start_seq(v@.skip(a as int)),
        decreases n - a,
    {
        let ghost s = v@.skip(a as int);
        proof {
            assert(s[0] == v@[a as int]);
            assert(s.skip(1) =~= v@.skip(a + 1));
        }
        a = a + 1;
    }
    proof {
        let s = v@.skip(a as int);
        if s.len() > 0 {
            assert(s[0] == v@[a as int]);
            assert(!is_blank(s[0]));
        }
        assert(trim_start_seq(s) == s);
    }
    let mut b: usize = n;
    while b > a && (v[b - 1] == ' ' || v[b - 1] == '\n')
        invariant
            n == v@.len(),
            a <= b <= n,
            trim_end_seq(v@.skip(a as int)) == trim_end_seq(v@.subrange(a as int, b as int)),
        decreases b,
    {
        let ghost s = v@.subrange(a as int, b as int);
        proof {
            assert(s[s.len() - 1] == v@[b - 1]);
            assert(is_blank(s[s.len() - 1]));
            assert(s.drop_last() =~= v@.subrange(a as int, b - 1));
        }
        b = b - 1;
    }
    proof {
        let s = v@.subrange(a as int, b as int);
        if s.len() > 0 {
            assert(s[s.len() - 1] == v@[b - 1]);
            assert(!is_blank(s[s.len() - 1]));
        }
        assert(trim_end_seq(s) == s);
        assert(v@.skip(a as int) =~= trim_start_seq(v@));
    }
    let mut out: Vec<char> = Vec::new();
    let mut k: usize = a;
    while k < b
        invariant
            n == v@.len(),
            a <= k <= b <= n,
            out@ == v@.subrange(a as int, k as int),
        decreases b - k,
    {
        out.push(v[k]);
        k = k + 1;
        assert(out@ =~= v@.subrange(a as int, k as int));
    }
    out
}

/// Positions `i` and `i + 1` both hold a blank.
pub open spec fn blank_pair_at(s: Seq<char>, i: int) -> bool {
    is_blank(s[i]) && is_blank(s[i + 1])
}

/// No two neighbouring characters are both blank.
pub open spec fn no_adjacent_blanks(s: Seq<char>) -> bool {
    forall|i: int| 0 <= i < s.len() - 1 ==> !(#[trigger] blank_pair_at(s, i))
}

/// `s` holds no newline.
pub open spec fn no_newline(s: Seq<char>) -> bool {
    forall|i: int| 0 <= i < s.len() ==> s[i] != '\n'
}

/// Collapsing leaves no two blanks next to each other.
pub proof fn lemma_collapse_no_adjacent(s: Seq<char>)
    ensures
        no_adjacent_blanks(collapse_blanks(s)),
    decreases s.len(),
{
    if s.len() == 0 {
    } else if is_blank(s[0]) {
        let k = blank_prefix_len(s) as int;
        lemma_blank_prefix_len_bounds(s);
        let rest = s.skip(k);
        lemma_collapse_no_adjacent(rest);
        let cr = collapse_blanks(rest);
        let c = collapse_blanks(s);
        assert(c == seq![run_char(s.take(k))] + cr);
        if rest.len() > 0 {
            assert(!is_blank(rest[0])) by {
                if is_blank(rest[0]) {
                    assert(rest[0] == s[k]);
                    assert forall|t: int| 0 <= t <= k implies is_blank(s[t]) by {
                        if t < k {
                            lemma_blank_prefix_all_blank(s, t);
                        }
                    }
                    lemma_blank_prefix_min(s, k);
                }
            }
            lemma_collapse_head_nonblank(rest);
        }
        assert forall|i: int| 0 <= i < c.len() - 1 implies !(#[trigger] blank_pair_at(c, i)) by {
            if i == 0 {
                assert(c[1] == cr[0]);
                assert(!is_blank(c[1]));
            } else {
                assert(!blank_pair_at(cr, i - 1));
                assert(c[i] == cr[i - 1]);
                assert(c[i + 1] == cr[i - 1 + 1]);
            }
        }
    } else {
        let rest = s.skip(1);
        lemma_collapse_no_adjacent(rest);
        let cr = collapse_blanks(rest);
        let c = collapse_blanks(s);
        assert(c == seq![s[0]] + cr);
        assert forall|i: int| 0 <= i < c.len() - 1 implies !(#[trigger] blank_pair_at(c, i)) by {
            if i == 0 {
                assert(c[0] == s[0]);
                assert(!is_blank(c[0]));
            } else {
                assert(!blank_pair_at(cr, i - 1));
                assert(c[i] == cr[i - 1]);
                assert(c[i + 1] == cr[i - 1 + 1]);
            }
        }
    }
}

/// Every position below the blank-prefix length holds a blank.
pub proof fn lemma_blank_prefix_all_blank(s: Seq<char>, t: int)
    requires
        0 <= t < blank_prefix_len(s),
    ensures
        is_blank(s[t]),
    decreases t,
{
    lemma_blank_prefix_len_bounds(s);
    if t > 0 {
        lemma_blank_prefix_all_blank(s.skip(1), t - 1);
        assert(s.skip(1)[t - 1] == s[t]);
    }
}

/// A blank run cannot end before a blank character: if everything up to `k`
/// is blank then the blank prefix reaches at least `k + 1`.
pub proof fn lemma_blank_prefix_min(s: Seq<char>, k: int)
    requires
        0 <= k < s.len(),
        forall|t: int| 0 <= t <= k ==> is_blank(s[t]),
    ensures
        blank_prefix_len(s) >= k + 1,
    decreases k,
{
    assert(is_blank(s[0]));
    if k > 0 {
        assert forall|t: int| 0 <= t <= k - 1 implies is_blank(s.skip(1)[t]) by {
            assert(s.skip(1)[t] == s[t + 1]);
        }
        lemma_blank_prefix_min(s.skip(1), k - 1);
    }
}

/// A collapsed sequence that starts with a non-blank keeps that head.
pub proof fn lemma_collapse_head_nonblank(s: Seq<char>)
    requires
        s.len() > 0,
        !is_blank(s[0]),
    ensures
        collapse_blanks(s).len() > 0,
        collapse_blanks(s)[0] == s[0],
{
    assert(collapse_blanks(s) == seq![s[0]] + collapse_blanks(s.skip(1)));
}

/// Collapsing a sequence with no adjacent blanks changes nothing.
pub proof fn lemma_collapse_identity(s: Seq<char>)
    requires
        no_adjacent_blanks(s),
    ensures
        collapse_blanks(s) == s,
    decreases s.len(),
{
    if s.len() == 0 {
        assert(collapse_blanks(s) =~= s);
    } else if is_blank(s[0]) {
        if s.len() == 1 {
            lemma_blank_prefix_exact(s, 1);
        } else {
            assert(!blank_pair_at(s, 0));
            assert(!is_blank(s[1]));
            lemma_blank_prefix_exact(s, 1);
        }
        assert(blank_prefix_len(s) == 1);
        let run = s.take(1);
        assert(run =~= seq![s[0]]);
        if s[0] == '\n' {
            assert(run[0] == '\n');
            assert(run.contains('\n'));
            assert(run_char(run) == '\n');
        } else {
            if run.contains('\n') {
                let t = choose|t: int| 0 <= t < run.len() && run[t] == '\n';
                assert(t == 0);
            }
            assert(run_char(run) == ' ');
        }
        assert(run_char(run) == s[0]);
        lemma_no_adjacent_skip(s, 1);
        lemma_collapse_identity(s.skip(1));
        assert(collapse_blanks(s) =~= s);
    } else {
        lemma_no_adjacent_skip(s, 1);
        lemma_collapse_identity(s.skip(1));
        assert(collapse_blanks(s) =~= s);
    }
}

/// Dropping a prefix preserves the absence of adjacent blanks.
pub proof fn lemma_no_adjacent_skip(s: Seq<char>, a: int)
    requires
        no_adjacent_blanks(s),
        0 <= a <= s.len(),
    ensures
        no_adjacent_blanks(s.skip(a)),
{
    let t = s.skip(a);
    assert forall|i: int| 0 <= i < t.len() - 1 implies !(#[trigger] blank_pair_at(t, i)) by {
        assert(!blank_pair_at(s, a + i));
        assert(t[i] == s[a + i]);
        assert(t[i + 1] == s[a + i + 1]);
    }
}

/// `trim_start_seq` yields the empty sequence or one with a non-blank head.
pub proof fn lemma_trim_start_head(s: Seq<char>)
    ensures
        trim_start_seq(s).len() > 0 ==> !is_blank(trim_start_seq(s)[0]),
    decreases s.len(),
{
    if s.len() > 0 && is_blank(s[0]) {
        lemma_trim_start_head(s.skip(1));
    }
}

/// `trim_end_seq` yields the empty sequence or one with a non-blank last.
pub proof fn lemma_trim_end_last(s: Seq<char>)
    ensures
        trim_end_seq(s).len() > 0 ==> !is_blank(trim_end_seq(s)[trim_end_seq(s).len() - 1]),
    decreases s.len(),
{
    if s.len() > 0 && is_blank(s[s.len() - 1]) {
        lemma_trim_end_last(s.drop_last());
    }
}

/// Trimming from the end keeps the head character.
pub proof fn lemma_trim_end_head(s: Seq<char>)
    ensures
        trim_end_seq(s).len() > 0 ==> trim_end_seq(s)[0] == s[0],
    decreases s.len(),
{
    if s.len() > 0 && is_blank(s[s.len() - 1]) {
        lemma_trim_end_head(s.drop_last());
        if trim_end_seq(s).len() > 0 {
            assert(s.drop_last()[0] == s[0]);
        }
    }
}

/// `trim_end_seq` yields a prefix of its input.
pub proof fn lemma_trim_end_prefix(s: Seq<char>)
    ensures
        trim_end_seq(s).len() <= s.len(),
        trim_end_seq(s) == s.take(trim_end_seq(s).len() as int),
    decreases s.len(),
{
    if s.len() > 0 && is_blank(s[s.len() - 1]) {
        lemma_trim_end_prefix(s.drop_last());
        assert(s.drop_last().take(trim_end_seq(s).len() as int) =~= s.take(
            trim_end_seq(s).len() as int,
        ));
    } else {
        assert(s.take(s.len() as int) =~= s);
    }
}

/// `trim_start_seq` yields a suffix of its input.
pub proof fn lemma_trim_start_suffix(s: Seq<char>)
    ensures
        trim_start_seq(s).len() <= s.len(),
        trim_start_seq(s) == s.skip(s.len() - trim_start_seq(s).len()),
    decreases s.len(),
{
    if s.len() > 0 && is_blank(s[0]) {
        lemma_trim_start_suffix(s.skip(1));
        assert(s.skip(1).skip(s.skip(1).len() - trim_start_seq(s).len()) =~= s.skip(
            s.len() - trim_start_seq(s).len(),
        ));
    } else {
        assert(s.skip(0) =~= s);
    }
}

/// Trimming an already trimmed sequence changes nothing.
pub proof fn lemma_trim_idempotent(s: Seq<char>)
    ensures
        trim_seq(trim_seq(s)) == trim_seq(s),
{
    let r = trim_seq(s);
    lemma_trim_start_head(s);
    lemma_trim_end_head(trim_start_seq(s));
    if r.len() > 0 {
        assert(!is_blank(r[0]));
    }
    assert(trim_start_seq(r) == r);
    lemma_trim_end_last(trim_start_seq(s));
    if r.len() > 0 {
        assert(!is_blank(r[r.len() - 1]));
    }
    assert(trim_end_seq(r) == r);
}

/// A contiguous part of a sequence with no adjacent blanks has none either.
pub proof fn lemma_no_adjacent_subrange(s: Seq<char>, a: int, b: int)
    requires
        no_adjacent_blanks(s),
        0 <= a <= b <= s.len(),
    ensures
        no_adjacent_blanks(s.subrange(a, b)),
{
    let t = s.subrange(a, b);
    assert forall|i: int| 0 <= i < t.len() - 1 implies !(#[trigger] blank_pair_at(t, i)) by {
        assert(!blank_pair_at(s, a + i));
        assert(t[i] == s[a + i]);
        assert(t[i + 1] == s[a + i + 1]);
    }
}

/// Trimming preserves the absence of adjacent blanks.
pub proof fn lemma_trim_no_adjacent(s: Seq<char>)
    requires
        no_adjacent_blanks(s),
    ensures
        no_adjacent_blanks(trim_seq(s)),
{
    lemma_trim_start_suffix(s);
    let ts = trim_start_seq(s);
    assert(ts =~= s.subrange(s.len() - ts.len(), s.len() as int));
    lemma_no_adjacent_subrange(s, s.len() - ts.len(), s.len() as int);
    lemma_trim_end_prefix(ts);
    let r = trim_end_seq(ts);
    assert(r =~= ts.subrange(0, r.len() as int));
    lemma_no_adjacent_subrange(ts, 0, r.len() as int);
}

/// Collapse-then-trim normalisation is idempotent.
pub proof fn lemma_normalize_idempotent(s: Seq<char>)
    ensures
        trim_seq(collapse_blanks(trim_seq(collapse_blanks(s)))) == trim_seq(collapse_blanks(s)),
{
    let r = trim_seq(collapse_blanks(s));
    lemma_collapse_no_adjacent(s);
    lemma_trim_no_adjacent(collapse_blanks(s));
    lemma_collapse_identity(r);
    lemma_trim_idempotent(collapse_blanks(s));
}

/// Collapsing introduces no newline.
pub proof fn lemma_collapse_no_newline(s: Seq<char>)
    requires
        no_newline(s),
    ensures
        no_newline(collapse_blanks(s)),
    decreases s.len(),
{
    if s.len() == 0 {
    } else if is_blank(s[0]) {
        let k = blank_prefix_len(s) as int;
        lemma_blank_prefix_len_bounds(s);
        let run = s.take(k);
        if run.contains('\n') {
            let t = choose|t: int| 0 <= t < run.len() && run[t] == '\n';
            assert(s[t] == '\n');
        }
        assert(run_char(run) == ' ');
        assert forall|i: int| 0 <= i < s.skip(k).len() implies s.skip(k)[i] != '\n' by {
            assert(s.skip(k)[i] == s[k + i]);
        }
        lemma_collapse_no_newline(s.skip(k));
        let c = collapse_blanks(s);
        assert forall|i: int| 0 <= i < c.len() implies c[i] != '\n' by {
            if i > 0 {
                assert(c[i] == collapse_blanks(s.skip(k))[i - 1]);
            }
        }
    } else {
        assert forall|i: int| 0 <= i < s.skip(1).len() implies s.skip(1)[i] != '\n' by {
            assert(s.skip(1)[i] == s[1 + i]);
        }
        lemma_collapse_no_newline(s.skip(1));
        let c = collapse_blanks(s);
        assert forall|i: int| 0 <= i < c.len() implies c[i] != '\n' by {
            if i > 0 {
                assert(c[i] == collapse_blanks(s.skip(1))[i - 1]);
            }
        }
    }
}

/// Trimming preserves the absence of newlines.
pub proof fn lemma_trim_no_newline(s: Seq<char>)
    requires
        no_newline(s),
    ensures
        no_newline(trim_seq(s)),
{
    lemma_trim_start_suffix(s);
    let ts = trim_start_seq(s);
    assert forall|i: int| 0 <= i < ts.len() implies ts[i] != '\n' by {
        assert(ts[i] == s[s.len() - ts.len() + i]);
    }
    lemma_trim_end_prefix(ts);
    let r = trim_end_seq(ts);
    assert forall|i: int| 0 <= i < r.len() implies r[i] != '\n' by {
        assert(r[i] == ts.take(r.len() as int)[i]);
    }
}

/// Flattening a sequence with no newline changes nothing; flattening always
/// removes every newline.
pub proof fn lemma_flatten_properties(s: Seq<char>)
    ensures
        no_newline(flatten_newlines(s)),
        no_newline(s) ==> flatten_newlines(s) == s,
{
    if no_newline(s) {
        assert(flatten_newlines(s) =~= s);
    }
}

/// The number of bytes the UTF-8 encoding of `c` takes.
pub open spec fn utf8_len_char(c: char) -> nat {
    if (c as u32) < 0x80 {
        1
    } else if (c as u32) < 0x800 {
        2
    } else if (c as u32) < 0x10000 {
        3
    } else {
        4
    }
}

/// The longest prefix of `s` whose UTF-8 encoding fits in `budget` bytes.
pub open spec fn utf8_take(s: Seq<char>, budget: int) -> Seq<char>
    decreases s.len(),
{
    if s.len() == 0 || utf8_len_char(s[0]) > budget {
        Seq::empty()
    } else {
        seq![s[0]] + utf8_take(s.skip(1), budget - utf8_len_char(s[0]))
    }
}

fn utf8_len_exec(c: char) -> (l: usize)
    ensures
        l == utf8_len_char(c),
{
    let u = c as u32;
    if u < 0x80 {
        1
    } else if u < 0x800 {
        2
    } else if u < 0x10000 {
        3
    } else {
        4
    }
}

/// The longest prefix of `v` whose UTF-8 encoding fits in `max` bytes.
pub fn truncate_utf8(v: &Vec<char>, max: usize) -> (r: Vec<char>)
    ensures
        r@ == utf8_take(v@, max as int),
{
    let n = v.len();
    let mut out: Vec<char> = Vec::new();
    let mut used: usize = 0;
    let mut i: usize = 0;
    proof {
        assert(v@.skip(0) =~= v@);
        assert(out@ + utf8_take(v@, max as int) =~= utf8_take(v@, max as int));
    }
    while i < n
        invariant
            n == v@.len(),
            i <= n,
            used <= max,
            utf8_take(v@, max as int) == out@ + utf8_take(v@.skip(i as int), max - used),
        decreases n - i,
    {
        let ghost pre = out@;
        let ghost suffix = v@.skip(i as int);
        let c = v[i];
        let l = utf8_len_exec(c);
        if l > max - used {
            proof {
                assert(suffix[0] == c);
                assert(utf8_take(suffix, max - used) =~= Seq::<char>::empty());
                assert(pre + utf8_take(suffix, max - used) =~= pre);
            }
            return out;
        }
        out.push(c);
        used = used + l;
        proof {
            assert(suffix[0] == c);
            assert(utf8_take(suffix, max - (used - l)) == seq![c] + utf8_take(
                suffix.skip(1),
                max - used,
            ));
            assert(suffix.skip(1) =~= v@.skip(i + 1));
            assert(pre + utf8_take(suffix, max - (used - l)) =~= out@ + utf8_take(
                v@.skip(i + 1),
                max - used,
            ));
        }
        i = i + 1;
    }
    proof {
        assert(v@.skip(n as int) =~= Seq::<char>::empty());
        assert(utf8_take(v@.skip(n as int), max - used) =~= Seq::<char>::empty());
        assert(out@ + utf8_take(v@.skip(n as int), max - used) =~= out@);
    }
    out
}

/// No occurrence of `needle` anywhere leaves `hay` unchanged.
pub proof fn lemma_replace_absent(hay: Seq<char>, needle: Seq<char>, repl: Seq<char>)
    requires
        !contains_seq(hay, needle),
    ensures
        replace_seq(hay, needle, repl) == hay,
    decreases hay.len(),
{
    if needle.len() == 0 || hay.len() < needle.len() {
    } else {
        assert(!matches_at(hay, needle, 0));
        assert(hay.subrange(0, needle.len() as int) != needle);
        assert forall|i: int| !matches_at(hay.skip(1), needle, i) by {
            if matches_at(hay.skip(1), needle, i) {
                assert(hay.skip(1).subrange(i, i + needle.len()) =~= hay.subrange(
                    i + 1,
                    i + 1 + needle.len(),
                ));
                assert(matches_at(hay, needle, i + 1));
            }
        }
        lemma_replace_absent(hay.skip(1), needle, repl);
        assert(replace_seq(hay, needle, repl) =~= hay);
    }
}

} // verus!
