use vstd::prelude::*;

verus! {

/// The views of a sequence of strings.
pub open spec fn strings_view(s: Seq<String>) -> Seq<Seq<char>> {
    s.map_values(|x: String| x@)
}

/// `a`, a dash and `b`: the `"{}-{}"` naming that the operators use.
pub fn join_dash(a: &String, b: &String) -> (r: String)
    ensures
        r@ == a@ + seq!['-'] + b@,
{
    let mut s = a.clone();
    s.append("-");
    s.append(b.as_str());
    proof {
        reveal_strlit("-");
    }
    s
}

/// Whether `c` has the Unicode `White_Space` property: the result of
/// `char::is_whitespace`, which depends on `c` alone.
pub uninterp spec fn white_space(c: char) -> bool;

/// `char::is_whitespace`: its contract claims only that the result is the
/// `White_Space` property of `c`, which it names without listing it.
#[verifier::external_body]
fn char_is_whitespace(c: char) -> (r: bool)
    ensures
        r == white_space(c),
{
    c.is_whitespace()
}

/// `s` without its leading white space.
pub open spec fn skip_white(s: Seq<char>) -> Seq<char>
    decreases s.len(),
{
    if s.len() > 0 && white_space(s[0]) {
        skip_white(s.drop_first())
    } else {
        s
    }
}

/// `s` without its trailing white space.
pub open spec fn drop_white(s: Seq<char>) -> Seq<char>
    decreases s.len(),
{
    if s.len() > 0 && white_space(s.last()) {
        drop_white(s.drop_last())
    } else {
        s
    }
}

/// `s` without its leading and trailing white space.
pub open spec fn trimmed(s: Seq<char>) -> Seq<char> {
    drop_white(skip_white(s))
}

/// `s` with its leading and trailing white space removed, as `str::trim` does.
pub fn trim(s: &str) -> (r: String)
    ensures
        r@ == trimmed(s@),
{
    let n = s.unicode_len();
    let mut i: usize = 0;
    assert(s@.subrange(0, n as int) =~= s@);
    while i < n && char_is_whitespace(s.get_char(i))
        invariant
            n == s@.len(),
            i <= n,
            skip_white(s@) == skip_white(s@.subrange(i as int, n as int)),
        decreases n - i,
    {
        assert(s@.subrange(i as int, n as int).drop_first() =~= s@.subrange(i + 1, n as int));
        i = i + 1;
    }
    assert(skip_white(s@) == s@.subrange(i as int, n as int)) by {
        if i < n {
            assert(s@.subrange(i as int, n as int)[0] == s@[i as int]);
        }
    }
    let mut j: usize = n;
    while j > i && char_is_whitespace(s.get_char(j - 1))
        invariant
            n == s@.len(),
            i <= j <= n,
            drop_white(s@.subrange(i as int, n as int)) == drop_white(s@.subrange(i as int, j as int)),
        decreases j - i,
    {
        assert(s@.subrange(i as int, j as int).drop_last() =~= s@.subrange(i as int, j - 1));
        j = j - 1;
    }
    assert(drop_white(s@.subrange(i as int, j as int)) == s@.subrange(i as int, j as int)) by {
        if j > i {
            assert(s@.subrange(i as int, j as int).last() == s@[j - 1]);
        }
    }
    String::from_str(s.substring_char(i, j))
}

/// `s` with every leading occurrence of `p` removed, one after another, as
/// `str::trim_start_matches` does; `s` itself where `p` is empty.
pub open spec fn strip_all(s: Seq<char>, p: Seq<char>) -> Seq<char>
    decreases s.len(),
{
    if p.len() > 0 && p.len() <= s.len() && s.subrange(0, p.len() as int) == p {
        strip_all(s.subrange(p.len() as int, s.len() as int), p)
    } else {
        s
    }
}

/// Whether `p` occurs in `s` at position `at`.
fn occurs_at(s: &str, n: usize, at: usize, p: &str, m: usize) -> (r: bool)
    requires
        n == s@.len(),
        m == p@.len(),
        at + m <= n,
    ensures
        r == (s@.subrange(at as int, at + m) == p@),
{
    let mut k: usize = 0;
    while k < m
        invariant
            n == s@.len(),
            m == p@.len(),
            at + m <= n,
            k <= m,
            forall|l: int| 0 <= l < k ==> s@[at + l] == p@[l],
        decreases m - k,
    {
        if s.get_char(at + k) != p.get_char(k) {
            assert(s@.subrange(at as int, at + m)[k as int] != p@[k as int]);
            return false;
        }
        k = k + 1;
    }
    assert(s@.subrange(at as int, at + m) =~= p@);
    true
}

/// `s` with every leading occurrence of `p` removed (`str::trim_start_matches`).
pub fn trim_start_matches(s: &str, p: &str) -> (r: String)
    ensures
        r@ == strip_all(s@, p@),
{
    let n = s.unicode_len();
    let m = p.unicode_len();
    if m == 0 {
        return String::from_str(s);
    }
    let mut start: usize = 0;
    assert(s@.subrange(0, n as int) =~= s@);
    while start <= n && m <= n - start && occurs_at(s, n, start, p, m)
        invariant
            n == s@.len(),
            m == p@.len(),
            m > 0,
            start <= n,
            strip_all(s@, p@) == strip_all(s@.subrange(start as int, n as int), p@),
        decreases n - start,
    {
        let ghost rest = s@.subrange(start as int, n as int);
        assert(rest.subrange(0, m as int) =~= s@.subrange(start as int, start + m));
        assert(rest.subrange(m as int, rest.len() as int) =~= s@.subrange(start + m, n as int));
        start = start + m;
    }
    proof {
        let rest = s@.subrange(start as int, n as int);
        if m <= n - start {
            assert(rest.subrange(0, m as int) =~= s@.subrange(start as int, start + m));
        }
    }
    String::from_str(s.substring_char(start, n))
}

/// Whether `p` occurs somewhere in `s`.
pub open spec fn contains_text(s: Seq<char>, p: Seq<char>) -> bool {
    exists|i: int| 0 <= i && i + p.len() <= s.len() && #[trigger] s.subrange(i, i + p.len()) == p
}

/// Whether `p` occurs somewhere in `s` (`str::contains` with a string pattern).
pub fn contains(s: &str, p: &str) -> (r: bool)
    ensures
        r == contains_text(s@, p@),
{
    let n = s.unicode_len();
    let m = p.unicode_len();
    if m > n {
        return false;
    }
    if m == 0 {
        let ghost i: int = 0;
        assert(s@.subrange(i, i + p@.len()) =~= p@);
        return true;
    }
    let mut at: usize = 0;
    while at <= n - m
        invariant
            n == s@.len(),
            m == p@.len(),
            0 < m <= n,
            at <= n - m + 1,
            forall|i: int| 0 <= i < at ==> #[trigger] s@.subrange(i, i + m) != p@,
        decreases n - m + 1 - at,
    {
        if occurs_at(s, n, at, p, m) {
            return true;
        }
        at = at + 1;
    }
    false
}

proof fn lemma_skip_white(s: Seq<char>)
    ensures
        skip_white(s).len() <= s.len(),
        skip_white(s) == s.subrange(s.len() - skip_white(s).len(), s.len() as int),
        skip_white(s).len() > 0 ==> !white_space(skip_white(s)[0]),
    decreases s.len(),
{
    if s.len() > 0 && white_space(s[0]) {
        lemma_skip_white(s.drop_first());
        let t = skip_white(s.drop_first());
        assert(s.drop_first().subrange(s.drop_first().len() - t.len(), s.drop_first().len() as int) =~= s.subrange(s.len() - t.len(), s.len() as int));
    } else {
        assert(s.subrange(0, s.len() as int) =~= s);
    }
}

proof fn lemma_drop_white(s: Seq<char>)
    ensures
        drop_white(s).len() <= s.len(),
        drop_white(s) == s.subrange(0, drop_white(s).len() as int),
        drop_white(s).len() > 0 ==> !white_space(drop_white(s).last()),
        s.len() > 0 && !white_space(s[0]) ==> drop_white(s).len() > 0,
    decreases s.len(),
{
    if s.len() > 0 && white_space(s.last()) {
        lemma_drop_white(s.drop_last());
        let t = drop_white(s.drop_last());
        assert(s.drop_last().subrange(0, t.len() as int) =~= s.subrange(0, t.len() as int));
        if s.len() > 0 && !white_space(s[0]) {
            assert(s.len() > 1);
            assert(s.drop_last()[0] == s[0]);
        }
    } else {
        assert(s.subrange(0, s.len() as int) =~= s);
    }
}

/// Trimming twice is trimming once: what `trim` returns has no leading or
/// trailing white space left.
pub proof fn law_trim_idempotent(s: Seq<char>)
    ensures
        trimmed(trimmed(s)) == trimmed(s),
        trimmed(s).len() > 0 ==> !white_space(trimmed(s)[0]) && !white_space(trimmed(s).last()),
{
    let a = skip_white(s);
    lemma_skip_white(s);
    lemma_drop_white(a);
    let t = drop_white(a);
    if t.len() > 0 {
        assert(t[0] == a[0]);
        assert(skip_white(t) == t);
        lemma_drop_white(t);
        assert(drop_white(t) == t);
    } else {
        assert(skip_white(t) == t);
        assert(drop_white(t) == t);
    }
}

/// What `trim_start_matches` leaves is a suffix of the text that does not
/// start with the (non-empty) pattern.
pub proof fn law_strip_all(s: Seq<char>, p: Seq<char>)
    requires
        p.len() > 0,
    ensures
        !(p.len() <= strip_all(s, p).len() && strip_all(s, p).subrange(0, p.len() as int) == p),
        strip_all(s, p).len() <= s.len(),
        strip_all(s, p) == s.subrange(s.len() - strip_all(s, p).len(), s.len() as int),
    decreases s.len(),
{
    if p.len() <= s.len() && s.subrange(0, p.len() as int) == p {
        let rest = s.subrange(p.len() as int, s.len() as int);
        law_strip_all(rest, p);
        let t = strip_all(rest, p);
        assert(rest.subrange(rest.len() - t.len(), rest.len() as int) =~= s.subrange(s.len() - t.len(), s.len() as int));
    } else {
        assert(s.subrange(0, s.len() as int) =~= s);
    }
}

} // verus!
