use vstd::prelude::*;

verus! {

/// `s` begins with `p`.
pub open spec fn has_prefix(s: Seq<char>, p: Seq<char>) -> bool {
    p.len() <= s.len() && s.subrange(0, p.len() as int) == p
}

/// `t` occurs somewhere in `s` as a contiguous piece.
pub open spec fn has_infix(s: Seq<char>, t: Seq<char>) -> bool {
    exists|i: int| 0 <= i && i + t.len() <= s.len() && #[trigger] s.subrange(i, i + t.len()) == t
}

/// What `str::trim_start_matches(p)` leaves of `s`: every leading copy of a
/// non-empty `p` is removed.
pub open spec fn strip_leading(s: Seq<char>, p: Seq<char>) -> Seq<char>
    decreases s.len(),
{
    if p.len() > 0 && has_prefix(s, p) {
        strip_leading(s.subrange(p.len() as int, s.len() as int), p)
    } else {
        s
    }
}

/// Lexicographic order on character sequences, the order of `String`'s `Ord`.
pub open spec fn chars_less(a: Seq<char>, b: Seq<char>) -> bool
    decreases a.len(),
{
    if a.len() == 0 {
        b.len() > 0
    } else if b.len() == 0 {
        false
    } else if a[0] != b[0] {
        (a[0] as u32) < (b[0] as u32)
    } else {
        chars_less(a.drop_first(), b.drop_first())
    }
}

/// No text is below itself.
pub proof fn lemma_chars_less_irreflexive(a: Seq<char>)
    ensures
        !chars_less(a, a),
    decreases a.len(),
{
    if a.len() > 0 {
        lemma_chars_less_irreflexive(a.drop_first());
    }
}

/// The order of `chars_less` is transitive.
pub proof fn lemma_chars_less_transitive(a: Seq<char>, b: Seq<char>, c: Seq<char>)
    requires
        chars_less(a, b),
        chars_less(b, c),
    ensures
        chars_less(a, c),
    decreases a.len(),
{
    if a.len() > 0 && a[0] == b[0] && b[0] == c[0] {
        lemma_chars_less_transitive(a.drop_first(), b.drop_first(), c.drop_first());
    }
}

/// Appends one character to a string (`String::push`).
#[verifier::external_body]
pub(crate) fn push_char(s: &mut String, c: char)
    ensures
        final(s)@ == old(s)@.push(c),
{
    s.push(c)
}

/// The characters of a string slice, one per element.
pub fn chars_of(s: &str) -> (r: Vec<char>)
    ensures
        r@ == s@,
{
    let n = s.unicode_len();
    let mut r: Vec<char> = Vec::new();
    let mut i: usize = 0;
    while i < n
        invariant
            n == s@.len(),
            i <= n,
            r@ == s@.subrange(0, i as int),
        decreases n - i,
    {
        let c = s.get_char(i);
        r.push(c);
        i = i + 1;
    }
    r
}

/// The string made of `cs[from..]`.
pub fn string_from_chars(cs: &Vec<char>, from: usize) -> (r: String)
    requires
        from <= cs.len(),
    ensures
        r@ == cs@.subrange(from as int, cs.len() as int),
{
    let mut r = String::new();
    let mut i: usize = from;
    while i < cs.len()
        invariant
            from <= i <= cs.len(),
            r@ == cs@.subrange(from as int, i as int),
        decreases cs.len() - i,
    {
        push_char(&mut r, cs[i]);
        i = i + 1;
    }
    r
}

/// Whether `p` occurs in `s` at position `at`.
fn matches_at(s: &Vec<char>, p: &Vec<char>, at: usize) -> (r: bool)
    requires
        at <= s.len(),
    ensures
        r == (at + p.len() <= s.len() && s@.subrange(at as int, at + p.len()) == p@),
{
    if p.len() > s.len() - at {
        return false;
    }
    let mut k: usize = 0;
    while k < p.len()
        invariant
            at + p.len() <= s.len(),
            k <= p.len(),
            forall|j: int| 0 <= j < k ==> s@[at + j] == p@[j],
        decreases p.len() - k,
    {
        if s[at + k] != p[k] {
            assert(s@.subrange(at as int, at + p.len())[k as int] != p@[k as int]);
            return false;
        }
        k = k + 1;
    }
    assert(s@.subrange(at as int, at + p.len()) =~= p@);
    true
}

/// `s` begins with `p` (`str::starts_with`).
pub fn starts_with(s: &str, p: &str) -> (r: bool)
    ensures
        r == has_prefix(s@, p@),
{
    let sc = chars_of(s);
    let pc = chars_of(p);
    matches_at(&sc, &pc, 0)
}

proof fn lemma_strip_leading_step(s: Seq<char>, p: Seq<char>, i: int)
    requires
        p.len() > 0,
        0 <= i <= s.len(),
        has_prefix(s.subrange(i, s.len() as int), p),
    ensures
        strip_leading(s.subrange(i, s.len() as int), p) == strip_leading(
            s.subrange(i + p.len(), s.len() as int),
            p,
        ),
{
    let rest = s.subrange(i, s.len() as int);
    assert(rest.subrange(p.len() as int, rest.len() as int) =~= s.subrange(
        i + p.len(),
        s.len() as int,
    ));
}

/// What `s.trim_start_matches(p)` returns: `s` without its leading copies of `p`.
pub fn trim_leading(s: &str, p: &str) -> (r: String)
    ensures
        r@ == strip_leading(s@, p@),
{
    let sc = chars_of(s);
    let pc = chars_of(p);
    if pc.len() == 0 {
        assert(sc@.subrange(0, sc@.len() as int) =~= sc@);
        return string_from_chars(&sc, 0);
    }
    let mut i: usize = 0;
    assert(sc@.subrange(0, sc@.len() as int) =~= sc@);
    while matches_at(&sc, &pc, i)
        invariant
            i <= sc.len(),
            pc.len() > 0,
            sc@ == s@,
            pc@ == p@,
            strip_leading(s@, p@) == strip_leading(sc@.subrange(i as int, sc@.len() as int), p@),
        decreases sc.len() - i,
    {
        proof {
            let rest = sc@.subrange(i as int, sc@.len() as int);
            assert(rest.subrange(0, pc@.len() as int) =~= sc@.subrange(i as int, i + pc@.len()));
            lemma_strip_leading_step(sc@, p@, i as int);
        }
        i = i + pc.len();
    }
    proof {
        let rest = sc@.subrange(i as int, sc@.len() as int);
        if has_prefix(rest, p@) {
            assert(rest.subrange(0, pc@.len() as int) =~= sc@.subrange(i as int, i + pc@.len()));
        }
    }
    string_from_chars(&sc, i)
}

/// `t` occurs in `s` (`str::contains` with a string pattern).
pub fn contains_text(s: &str, t: &str) -> (r: bool)
    ensures
        r == has_infix(s@, t@),
{
    let sc = chars_of(s);
    let tc = chars_of(t);
    let mut i: usize = 0;
    while i < sc.len()
        invariant
            i <= sc.len(),
            sc@ == s@,
            tc@ == t@,
            forall|j: int|
                0 <= j < i && j + t@.len() <= s@.len() ==> #[trigger] s@.subrange(j, j + t@.len())
                    != t@,
        decreases sc.len() - i,
    {
        if matches_at(&sc, &tc, i) {
            return true;
        }
        i = i + 1;
    }
    if matches_at(&sc, &tc, i) {
        return true;
    }
    proof {
        assert forall|j: int|
            0 <= j && j + t@.len() <= s@.len() implies #[trigger] s@.subrange(j, j + t@.len())
            != t@ by {
            assert(j <= i);
        }
    }
    false
}

/// Lexicographic comparison of two character vectors, from position `from` on.
fn chars_less_from(a: &Vec<char>, b: &Vec<char>, from: usize) -> (r: bool)
    requires
        from <= a.len(),
        from <= b.len(),
    ensures
        r == chars_less(
            a@.subrange(from as int, a.len() as int),
            b@.subrange(from as int, b.len() as int),
        ),
    decreases a.len() - from,
{
    let ghost sa = a@.subrange(from as int, a.len() as int);
    let ghost sb = b@.subrange(from as int, b.len() as int);
    if from == a.len() {
        return from < b.len();
    }
    if from == b.len() {
        return false;
    }
    if a[from] != b[from] {
        return (a[from] as u32) < (b[from] as u32);
    }
    assert(sa.drop_first() =~= a@.subrange(from + 1, a.len() as int));
    assert(sb.drop_first() =~= b@.subrange(from + 1, b.len() as int));
    chars_less_from(a, b, from + 1)
}

/// `a < b` in the order of `String`.
pub fn chars_vec_less(a: &Vec<char>, b: &Vec<char>) -> (r: bool)
    ensures
        r == chars_less(a@, b@),
{
    assert(a@.subrange(0, a.len() as int) =~= a@);
    assert(b@.subrange(0, b.len() as int) =~= b@);
    chars_less_from(a, b, 0)
}

/// Builds a `String` from a literal.
pub fn text(s: &str) -> (r: String)
    ensures
        r@ == s@,
{
    String::from_str(s)
}

} // verus!
