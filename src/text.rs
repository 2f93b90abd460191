use vstd::prelude::*;

verus! {

/// The lowercase form of a text, as Rust's `str::to_lowercase` gives it.
pub uninterp spec fn lower_of(s: Seq<char>) -> Seq<char>;

/// `c` is an ASCII character.
pub open spec fn is_ascii_char(c: char) -> bool {
    (c as int) < 128
}

/// Every character is ASCII.
pub open spec fn all_ascii(s: Seq<char>) -> bool {
    forall|i: int| 0 <= i < s.len() ==> #[trigger] is_ascii_char(s[i])
}

/// `d` is the ASCII lowercase form of `c`: 'A'..='Z' move to 'a'..='z',
/// every other character stays.
pub open spec fn lowers_char(c: char, d: char) -> bool {
    if 'A' <= c && c <= 'Z' {
        d as int == c as int + 32
    } else {
        d == c
    }
}

/// `t` is `s` with each ASCII capital replaced by its small letter.
pub open spec fn lowers_ascii(s: Seq<char>, t: Seq<char>) -> bool {
    &&& s.len() == t.len()
    &&& forall|i: int| 0 <= i < s.len() ==> lowers_char(#[trigger] s[i], t[i])
}

/// Relies on `str::to_lowercase`: its result depends on the characters alone,
/// and the Unicode lowercase mapping it applies sends 'A'..='Z' to 'a'..='z'
/// and leaves every other ASCII character as it is.
#[verifier::external_body]
pub(crate) fn lowercase(s: &str) -> (r: String)
    ensures
        r@ == lower_of(s@),
        all_ascii(s@) ==> lowers_ascii(s@, r@),
{
    s.to_lowercase()
}

/// `pattern` stands in `s` from position `k` on.
pub open spec fn occurs_at(s: Seq<char>, pattern: Seq<char>, k: int) -> bool {
    &&& 0 <= k
    &&& k + pattern.len() <= s.len()
    &&& s.subrange(k, k + pattern.len()) == pattern
}

/// `pattern` stands somewhere in `s`.
pub open spec fn contains(s: Seq<char>, pattern: Seq<char>) -> bool {
    exists|k: int| occurs_at(s, pattern, k)
}

/// `c` equals `p`, or is the ASCII capital of `p`.
pub open spec fn same_letter_ignoring_case(c: char, p: char) -> bool {
    c == p || ('A' <= c && c <= 'Z' && c as int + 32 == p as int)
}

/// `pattern` stands in `s` from position `k` on, ASCII capitals in `s`
/// matching their small letters.
pub open spec fn occurs_at_ignoring_case(s: Seq<char>, pattern: Seq<char>, k: int) -> bool {
    &&& 0 <= k
    &&& k + pattern.len() <= s.len()
    &&& forall|j: int|
        0 <= j < pattern.len() ==> same_letter_ignoring_case(#[trigger] s[k + j], pattern[j])
}

/// `pattern` stands somewhere in `s`, ASCII capitals in `s` matching their
/// small letters.
pub open spec fn contains_ignoring_case(s: Seq<char>, pattern: Seq<char>) -> bool {
    exists|k: int| occurs_at_ignoring_case(s, pattern, k)
}

/// Every character is one of 'a'..='z'.
pub open spec fn small_letters(p: Seq<char>) -> bool {
    forall|i: int| 0 <= i < p.len() ==> 'a' <= #[trigger] p[i] && p[i] <= 'z'
}

/// For a pattern of small letters, a search in the ASCII lowercase form of a
/// text finds what a search in the text that ignores ASCII case finds.
pub proof fn lemma_lowered_search(s: Seq<char>, t: Seq<char>, pattern: Seq<char>)
    requires
        lowers_ascii(s, t),
        small_letters(pattern),
    ensures
        contains(t, pattern) == contains_ignoring_case(s, pattern),
{
    assert forall|k: int| occurs_at(t, pattern, k) == occurs_at_ignoring_case(s, pattern, k) by {
        if 0 <= k && k + pattern.len() <= s.len() {
            assert forall|j: int| 0 <= j < pattern.len() implies (t[k + j] == pattern[j]
                <==> same_letter_ignoring_case(#[trigger] s[k + j], pattern[j])) by {
                let (c, d, q) = (s[k + j], t[k + j], pattern[j]);
                assert(lowers_char(c, d));
                assert('a' <= q && q <= 'z');
                assert(('A' <= c && c <= 'Z') == (65 <= c as int && c as int <= 90));
                assert(97 <= q as int && q as int <= 122);
                assert((d == q) == (d as int == q as int));
                assert((c == q) == (c as int == q as int));
            }
            if occurs_at(t, pattern, k) {
                assert forall|j: int| 0 <= j < pattern.len() implies same_letter_ignoring_case(
                    #[trigger] s[k + j],
                    pattern[j],
                ) by {
                    assert(t.subrange(k, k + pattern.len())[j] == t[k + j]);
                }
            }
            if occurs_at_ignoring_case(s, pattern, k) {
                assert forall|j: int| 0 <= j < pattern.len() implies #[trigger] t.subrange(
                    k,
                    k + pattern.len(),
                )[j] == pattern[j] by {
                    assert(same_letter_ignoring_case(s[k + j], pattern[j]));
                }
                assert(t.subrange(k, k + pattern.len()) =~= pattern);
            }
        }
    }
    if contains(t, pattern) {
        let k = choose|k: int| occurs_at(t, pattern, k);
        assert(occurs_at_ignoring_case(s, pattern, k));
    }
    if contains_ignoring_case(s, pattern) {
        let k = choose|k: int| occurs_at_ignoring_case(s, pattern, k);
        assert(occurs_at(t, pattern, k));
    }
}

/// Whether `pattern` occurs in `s` at position `k`.
fn occurs_at_exec(s: &str, n: usize, pattern: &str, m: usize, k: usize) -> (r: bool)
    requires
        n == s@.len(),
        m == pattern@.len(),
        k + m <= n,
    ensures
        r == occurs_at(s@, pattern@, k as int),
{
    let mut j: usize = 0;
    while j < m
        invariant
            n == s@.len(),
            m == pattern@.len(),
            k + m <= n,
            j <= m,
            s@.subrange(k as int, k + j) == pattern@.subrange(0, j as int),
        decreases m - j,
    {
        if s.get_char(k + j) != pattern.get_char(j) {
            assert(s@.subrange(k as int, k + m)[j as int] != pattern@[j as int]);
            return false;
        }
        assert(s@.subrange(k as int, k + j + 1) =~= s@.subrange(k as int, k + j).push(
            s@[k + j],
        ));
        assert(pattern@.subrange(0, j + 1) =~= pattern@.subrange(0, j as int).push(
            pattern@[j as int],
        ));
        j = j + 1;
    }
    assert(pattern@ =~= pattern@.subrange(0, m as int));
    true
}

/// Whether `pattern` occurs anywhere in `s`.
pub fn contains_text(s: &str, pattern: &str) -> (r: bool)
    ensures
        r == contains(s@, pattern@),
{
    let n = s.unicode_len();
    let m = pattern.unicode_len();
    if m > n {
        return false;
    }
    if m == 0 {
        assert(s@.subrange(0, 0) =~= pattern@);
        assert(occurs_at(s@, pattern@, 0));
        return true;
    }
    let mut k: usize = 0;
    while k <= n - m
        invariant
            n == s@.len(),
            m == pattern@.len(),
            1 <= m <= n,
            k <= n - m + 1,
            forall|q: int| 0 <= q < k ==> !occurs_at(s@, pattern@, q),
        decreases n - m + 1 - k,
    {
        if occurs_at_exec(s, n, pattern, m, k) {
            return true;
        }
        k = k + 1;
    }
    false
}

} // verus!
