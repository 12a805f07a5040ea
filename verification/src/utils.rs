use vstd::prelude::*;

use crate::text::{chars_of, lowercase};

verus! {

/// Whether the pattern `p` from position `i` on matches the text `t` from
/// position `j` on. A `*` in the pattern stands for any run of characters,
/// the empty one included; every other character stands for itself.
pub open spec fn matches_from(p: Seq<char>, t: Seq<char>, i: int, j: int) -> bool
    decreases p.len() - i, t.len() - j,
{
    if i >= p.len() {
        j >= t.len()
    } else if p[i] == '*' {
        matches_from(p, t, i + 1, j) || (j < t.len() && matches_from(p, t, i, j + 1))
    } else {
        j < t.len() && p[i] == t[j] && matches_from(p, t, i + 1, j + 1)
    }
}

/// Whether the pattern `p` matches the whole text `t`.
pub open spec fn wildcard_matches(p: Seq<char>, t: Seq<char>) -> bool {
    matches_from(p, t, 0, 0)
}

/// The number of characters other than `*` in `p` from position `i` on.
spec fn literals_from(p: Seq<char>, i: int) -> nat
    decreases p.len() - i,
{
    if i >= p.len() {
        0
    } else if p[i] == '*' {
        literals_from(p, i + 1)
    } else {
        1 + literals_from(p, i + 1)
    }
}

/// `p[a..a+n]` holds no `*` and equals `t[b..b+n]`.
spec fn literal_run(p: Seq<char>, t: Seq<char>, a: int, b: int, n: int) -> bool {
    &&& 0 <= a && 0 <= b && 0 <= n
    &&& a + n <= p.len()
    &&& b + n <= t.len()
    &&& forall|k: int| 0 <= k < n ==> #[trigger] p[a + k] != '*' && p[a + k] == t[b + k]
}

/// Some position from `s` on is one at which `p[i..]` matches the rest of `t`.
spec fn matches_later(p: Seq<char>, t: Seq<char>, i: int, s: int) -> bool {
    exists|k: int| s <= k <= t.len() && #[trigger] matches_from(p, t, i, k)
}

proof fn lemma_star(p: Seq<char>, t: Seq<char>, i: int, j: int)
    requires
        0 <= i < p.len(),
        0 <= j <= t.len(),
        p[i] == '*',
    ensures
        matches_from(p, t, i, j) <==> matches_later(p, t, i + 1, j),
    decreases t.len() - j,
{
    let behind = i + 1;
    if j < t.len() {
        lemma_star(p, t, i, j + 1);
        if matches_from(p, t, i, j) {
            if matches_from(p, t, i + 1, j) {
                assert(j <= j <= t.len() && matches_from(p, t, i + 1, j));
            } else {
                let k = choose|k: int| j + 1 <= k <= t.len() && #[trigger] matches_from(p, t, behind, k);
                assert(j <= k <= t.len() && #[trigger] matches_from(p, t, behind, k));
            }
        }
        if matches_later(p, t, i + 1, j) {
            let k = choose|k: int| j <= k <= t.len() && #[trigger] matches_from(p, t, behind, k);
            if k > j {
                assert(j + 1 <= k <= t.len() && #[trigger] matches_from(p, t, behind, k));
            }
        }
    } else {
        if matches_later(p, t, i + 1, j) {
            let k = choose|k: int| j <= k <= t.len() && #[trigger] matches_from(p, t, behind, k);
            assert(k == j);
        }
        if matches_from(p, t, i, j) {
            assert(j <= j <= t.len() && matches_from(p, t, i + 1, j));
        }
    }
}

/// A run of literal characters that agrees with the text can be skipped.
proof fn lemma_run_matches(p: Seq<char>, t: Seq<char>, a: int, b: int, n: int)
    requires
        literal_run(p, t, a, b, n),
    ensures
        matches_from(p, t, a, b) <==> matches_from(p, t, a + n, b + n),
    decreases n,
{
    if n > 0 {
        assert(p[a + 0] != '*' && p[a + 0] == t[b + 0]);
        assert(literal_run(p, t, a + 1, b + 1, n - 1)) by {
            assert forall|k: int| 0 <= k < n - 1 implies #[trigger] p[a + 1 + k] != '*' && p[a + 1
                + k] == t[b + 1 + k] by {
                assert(p[a + (k + 1)] != '*' && p[a + (k + 1)] == t[b + (k + 1)]);
            }
        }
        lemma_run_matches(p, t, a + 1, b + 1, n - 1);
    }
}

/// A pattern that starts with `n` literal characters matches only where the
/// text has these `n` characters, and then goes on behind them.
proof fn lemma_run_forces(p: Seq<char>, t: Seq<char>, a: int, s: int, n: int)
    requires
        0 <= a,
        0 <= n,
        a + n <= p.len(),
        0 <= s <= t.len(),
        forall|k: int| 0 <= k < n ==> #[trigger] p[a + k] != '*',
        matches_from(p, t, a, s),
    ensures
        s + n <= t.len(),
        matches_from(p, t, a + n, s + n),
    decreases n,
{
    if n > 0 {
        assert(p[a + 0] != '*');
        assert forall|k: int| 0 <= k < n - 1 implies #[trigger] p[a + 1 + k] != '*' by {
            assert(p[a + (k + 1)] != '*');
        }
        lemma_run_forces(p, t, a + 1, s + 1, n - 1);
    }
}

/// A match needs a character of the text for each literal of the pattern.
proof fn lemma_literals_fit(p: Seq<char>, t: Seq<char>, i: int, j: int)
    requires
        0 <= i <= p.len(),
        0 <= j <= t.len(),
        matches_from(p, t, i, j),
    ensures
        literals_from(p, i) <= t.len() - j,
    decreases p.len() - i, t.len() - j,
{
    if i < p.len() {
        if p[i] == '*' {
            if matches_from(p, t, i + 1, j) {
                lemma_literals_fit(p, t, i + 1, j);
            } else {
                lemma_literals_fit(p, t, i, j + 1);
            }
        } else {
            lemma_literals_fit(p, t, i + 1, j + 1);
        }
    }
}

proof fn lemma_literals_of_run(p: Seq<char>, a: int, n: int)
    requires
        0 <= a,
        0 <= n,
        a + n <= p.len(),
        forall|k: int| 0 <= k < n ==> #[trigger] p[a + k] != '*',
    ensures
        literals_from(p, a) == n + literals_from(p, a + n),
    decreases n,
{
    if n > 0 {
        assert(p[a + 0] != '*');
        assert forall|k: int| 0 <= k < n - 1 implies #[trigger] p[a + 1 + k] != '*' by {
            assert(p[a + (k + 1)] != '*');
        }
        lemma_literals_of_run(p, a + 1, n - 1);
    }
}

/// At the end of the text only a pattern without literals matches.
proof fn lemma_no_match_at_end(p: Seq<char>, t: Seq<char>, i: int)
    requires
        0 <= i <= p.len(),
        !matches_from(p, t, i, t.len() as int),
    ensures
        literals_from(p, i) >= 1,
    decreases p.len() - i,
{
    if i < p.len() && p[i] == '*' {
        lemma_no_match_at_end(p, t, i + 1);
    }
}

/// Where the current run starts in the pattern: behind the last `*` seen, or at the start.
spec fn run_start(star_pi: usize) -> int {
    if star_pi == usize::MAX {
        0
    } else {
        star_pi + 1
    }
}

/// Where the current run starts in the text.
spec fn run_origin(star_pi: usize, star_ti: int) -> int {
    if star_pi == usize::MAX {
        0
    } else {
        star_ti
    }
}

/// What the scan knows at each step: the pattern matches the text exactly if
/// the pattern from the start of the current run on matches the text from
/// the origin of the run on, or, behind a `*`, from some later position on;
/// and the run so far agrees with the text.
spec fn scan_inv(p: Seq<char>, t: Seq<char>, pi: int, ti: int, star_pi: usize, star_ti: int) -> bool {
    let a = run_start(star_pi);
    let b = run_origin(star_pi, star_ti);
    &&& a <= pi <= p.len()
    &&& b <= ti <= t.len()
    &&& pi - a == ti - b
    &&& literal_run(p, t, a, b, pi - a)
    &&& p.len() <= usize::MAX
    &&& star_pi != usize::MAX ==> star_pi < p.len() && p[star_pi as int] == '*'
    &&& wildcard_matches(p, t) <==> (if star_pi == usize::MAX {
        matches_from(p, t, 0, 0)
    } else {
        matches_later(p, t, a, b)
    })
}

proof fn lemma_scan_star(p: Seq<char>, t: Seq<char>, pi: usize, ti: int, star_pi: usize, star_ti: int)
    requires
        scan_inv(p, t, pi as int, ti, star_pi, star_ti),
        pi < p.len(),
        p[pi as int] == '*',
    ensures
        scan_inv(p, t, pi + 1, ti, pi, ti),
{
    let a = run_start(star_pi);
    let b = run_origin(star_pi, star_ti);
    let n = pi - a;
    lemma_star(p, t, pi as int, ti);
    lemma_run_matches(p, t, a, b, n);
    if star_pi != usize::MAX {
        if matches_later(p, t, a, b) {
            let s = choose|s: int| b <= s <= t.len() && #[trigger] matches_from(p, t, a, s);
            lemma_run_forces(p, t, a, s, n);
            lemma_star(p, t, pi as int, s + n);
            let behind = pi + 1;
            let k = choose|k: int| s + n <= k <= t.len() && #[trigger] matches_from(p, t, behind, k);
            assert(ti <= k <= t.len() && matches_from(p, t, behind, k));
        }
        if matches_later(p, t, pi + 1, ti) {
            assert(b <= b <= t.len() && matches_from(p, t, a, b));
        }
    }
    assert(literal_run(p, t, pi + 1, ti, 0));
}

proof fn lemma_scan_mismatch(p: Seq<char>, t: Seq<char>, pi: int, ti: int, star_pi: usize, star_ti: int)
    requires
        scan_inv(p, t, pi, ti, star_pi, star_ti),
        ti < t.len(),
        !(pi < p.len() && p[pi] == '*'),
        !(pi < p.len() && p[pi] == t[ti]),
    ensures
        !matches_from(p, t, run_start(star_pi), run_origin(star_pi, star_ti)),
        star_pi == usize::MAX ==> !wildcard_matches(p, t),
        star_pi != usize::MAX ==> scan_inv(p, t, star_pi + 1, star_ti + 1, star_pi, star_ti + 1),
{
    let a = run_start(star_pi);
    let b = run_origin(star_pi, star_ti);
    lemma_run_matches(p, t, a, b, pi - a);
    assert(!matches_from(p, t, pi, ti));
    if star_pi != usize::MAX {
        if matches_later(p, t, a, b) {
            let s = choose|s: int| b <= s <= t.len() && #[trigger] matches_from(p, t, a, s);
            assert(b + 1 <= s <= t.len() && matches_from(p, t, a, s));
        }
        if matches_later(p, t, a, b + 1) {
            let s = choose|s: int| b + 1 <= s <= t.len() && #[trigger] matches_from(p, t, a, s);
            assert(b <= s <= t.len() && matches_from(p, t, a, s));
        }
        assert(literal_run(p, t, a, b + 1, 0));
    }
}

proof fn lemma_scan_end(p: Seq<char>, t: Seq<char>, pi: int, star_pi: usize, star_ti: int)
    requires
        scan_inv(p, t, pi, t.len() as int, star_pi, star_ti),
    ensures
        wildcard_matches(p, t) <==> matches_from(p, t, pi, t.len() as int),
{
    let a = run_start(star_pi);
    let b = run_origin(star_pi, star_ti);
    let n = pi - a;
    lemma_run_matches(p, t, a, b, n);
    if star_pi != usize::MAX {
        if matches_from(p, t, pi, t.len() as int) {
            assert(b <= b <= t.len() && matches_from(p, t, a, b));
        }
        if matches_later(p, t, a, b) && !matches_from(p, t, pi, t.len() as int) {
            let s = choose|s: int| b <= s <= t.len() && #[trigger] matches_from(p, t, a, s);
            lemma_literals_fit(p, t, a, s);
            lemma_literals_of_run(p, a, n);
            lemma_no_match_at_end(p, t, pi);
        }
    }
}

/// Whether `pattern` matches the whole of `text`, character by character as
/// given. A `*` in the pattern matches any run of characters.
pub fn wildcard_match_chars(pattern: &[char], text: &[char]) -> (b: bool)
    ensures
        b == wildcard_matches(pattern@, text@),
{
    let mut pi: usize = 0;
    let mut ti: usize = 0;
    let mut star_pi: usize = usize::MAX;
    let mut star_ti: usize = 0;
    let pattern_len = pattern.len();
    proof {
        assert(pattern@.len() == pattern_len);
        assert(literal_run(pattern@, text@, 0, 0, 0));
        assert(run_start(star_pi) == 0 && run_origin(star_pi, star_ti as int) == 0);
    }
    while ti < text.len()
        invariant
            scan_inv(pattern@, text@, pi as int, ti as int, star_pi, star_ti as int),
        decreases
                text.len() - run_origin(star_pi, star_ti as int),
                pattern.len() - run_start(star_pi),
                text.len() - ti,
    {
        if pi < pattern.len() && pattern[pi] == '*' {
            proof {
                lemma_scan_star(pattern@, text@, pi, ti as int, star_pi, star_ti as int);
            }
            star_pi = pi;
            star_ti = ti;
            pi += 1;
        } else if pi < pattern.len() && pattern[pi] == text[ti] {
            proof {
                let a = run_start(star_pi);
                let b = run_origin(star_pi, star_ti as int);
                assert(literal_run(pattern@, text@, a, b, pi + 1 - a)) by {
                    assert forall|k: int| 0 <= k < pi + 1 - a implies #[trigger] pattern@[a + k]
                        != '*' && pattern@[a + k] == text@[b + k] by {
                        if k == pi - a {
                            assert(a + k == pi && b + k == ti);
                        }
                    }
                }
            }
            pi += 1;
            ti += 1;
        } else if star_pi != usize::MAX {
            proof {
                lemma_scan_mismatch(pattern@, text@, pi as int, ti as int, star_pi, star_ti as int);
            }
            pi = star_pi + 1;
            star_ti += 1;
            ti = star_ti;
        } else {
            proof {
                lemma_scan_mismatch(pattern@, text@, pi as int, ti as int, star_pi, star_ti as int);
            }
            return false;
        }
    }
    proof {
        lemma_scan_end(pattern@, text@, pi as int, star_pi, star_ti as int);
    }
    while pi < pattern.len() && pattern[pi] == '*'
        invariant
            pi <= pattern.len(),
            ti == text.len(),
            wildcard_matches(pattern@, text@) <==> matches_from(
                pattern@,
                text@,
                pi as int,
                text@.len() as int,
            ),
        decreases pattern.len() - pi,
    {
        pi += 1;
    }
    pi == pattern.len()
}

/// Whether the URL pattern `pattern` matches `text`. A `*` matches any run
/// of characters, `:`, `/` and `?` included; letter case does not count: both
/// are compared in their lowercase forms.
pub fn wildcard_match(pattern: &str, text: &str) -> (b: bool)
    ensures
        b == wildcard_matches(lowercase(pattern@), lowercase(text@)),
{
    let pattern = pattern.to_lowercase();
    let text = text.to_lowercase();
    let pattern_chars = chars_of(pattern.as_str());
    let text_chars = chars_of(text.as_str());
    wildcard_match_chars(pattern_chars.as_slice(), text_chars.as_slice())
}

} // verus!
