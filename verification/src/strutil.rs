//! String utilities: character search, trimming, suffix tests and
//! concatenation, each specified over the `Seq<char>` view.

use vstd::prelude::*;

verus! {

// ---------- occurrences of a character ----------

/// Does `c` occur somewhere in `s`?
pub open spec fn has_char(s: Seq<char>, c: char) -> bool {
    exists|i: int| 0 <= i < s.len() && s[i] == c
}

/// Index of the first occurrence of `c` in `s` (meaningful when `has_char`).
pub open spec fn first_ix(s: Seq<char>, c: char) -> int
    decreases s.len(),
{
    if s.len() == 0 {
        0
    } else if s[0] == c {
        0
    } else {
        1 + first_ix(s.skip(1), c)
    }
}

/// Index of the last occurrence of `c` in `s` (meaningful when `has_char`).
pub open spec fn last_ix(s: Seq<char>, c: char) -> int
    decreases s.len(),
{
    if s.len() == 0 {
        0
    } else if s[s.len() - 1] == c {
        s.len() - 1
    } else {
        last_ix(s.drop_last(), c)
    }
}

pub proof fn lemma_first_ix(s: Seq<char>, c: char)
    requires
        has_char(s, c),
    ensures
        0 <= first_ix(s, c) < s.len(),
        s[first_ix(s, c)] == c,
        forall|j: int| 0 <= j < first_ix(s, c) ==> s[j] != c,
    decreases s.len(),
{
    if s.len() == 0 {
    } else if s[0] == c {
    } else {
        let i = choose|i: int| 0 <= i < s.len() && s[i] == c;
        assert(s.skip(1)[i - 1] == c);
        lemma_first_ix(s.skip(1), c);
        assert forall|j: int| 0 <= j < first_ix(s, c) implies s[j] != c by {
            if j > 0 {
                assert(s.skip(1)[j - 1] != c);
            }
        }
        assert(s[first_ix(s, c)] == s.skip(1)[first_ix(s.skip(1), c)]);
    }
}

pub proof fn lemma_first_ix_min(s: Seq<char>, c: char, i: int)
    requires
        0 <= i < s.len(),
        s[i] == c,
        forall|j: int| 0 <= j < i ==> s[j] != c,
    ensures
        first_ix(s, c) == i,
    decreases s.len(),
{
    if s[0] == c {
    } else {
        assert(s.skip(1)[i - 1] == c);
        assert forall|j: int| 0 <= j < i - 1 implies s.skip(1)[j] != c by {
            assert(s.skip(1)[j] == s[j + 1]);
        }
        lemma_first_ix_min(s.skip(1), c, i - 1);
    }
}

pub proof fn lemma_last_ix(s: Seq<char>, c: char)
    requires
        has_char(s, c),
    ensures
        0 <= last_ix(s, c) < s.len(),
        s[last_ix(s, c)] == c,
        forall|j: int| last_ix(s, c) < j < s.len() ==> s[j] != c,
    decreases s.len(),
{
    if s.len() == 0 {
    } else if s[s.len() - 1] == c {
    } else {
        let i = choose|i: int| 0 <= i < s.len() && s[i] == c;
        assert(s.drop_last()[i] == c);
        lemma_last_ix(s.drop_last(), c);
        assert forall|j: int| last_ix(s, c) < j < s.len() implies s[j] != c by {
            if j < s.len() - 1 {
                assert(s.drop_last()[j] != c);
            }
        }
        assert(s[last_ix(s, c)] == s.drop_last()[last_ix(s.drop_last(), c)]);
    }
}

pub proof fn lemma_last_ix_max(s: Seq<char>, c: char, i: int)
    requires
        0 <= i < s.len(),
        s[i] == c,
        forall|j: int| i < j < s.len() ==> s[j] != c,
    ensures
        last_ix(s, c) == i,
    decreases s.len(),
{
    if s[s.len() - 1] == c {
    } else {
        assert(s.drop_last()[i] == c);
        lemma_last_ix_max(s.drop_last(), c, i);
    }
}

// ---------- splitting at the first occurrence ----------

/// Everything before the first occurrence of `c`, or all of `s` when `c` is
/// absent.
pub open spec fn head_of(s: Seq<char>, c: char) -> Seq<char> {
    if has_char(s, c) {
        s.take(first_ix(s, c))
    } else {
        s
    }
}

/// Everything after the first occurrence of `c`; empty when `c` is absent.
pub open spec fn tail_of(s: Seq<char>, c: char) -> Seq<char> {
    if has_char(s, c) {
        s.skip(first_ix(s, c) + 1)
    } else {
        Seq::empty()
    }
}

// ---------- whitespace and trimming ----------

/// The characters Rust's `char::is_whitespace` recognizes.
pub open spec fn is_space(c: char) -> bool {
    c == ' ' || c == '\t' || c == '\n' || c == '\u{0B}' || c == '\u{0C}' || c == '\r'
        || c == '\u{85}' || c == '\u{A0}' || c == '\u{1680}' || c == '\u{2000}' || c == '\u{2001}'
        || c == '\u{2002}' || c == '\u{2003}' || c == '\u{2004}' || c == '\u{2005}'
        || c == '\u{2006}' || c == '\u{2007}' || c == '\u{2008}' || c == '\u{2009}'
        || c == '\u{200A}' || c == '\u{2028}' || c == '\u{2029}' || c == '\u{202F}'
        || c == '\u{205F}' || c == '\u{3000}'
}

/// Whether `c` counts as whitespace for trimming.
pub fn is_space_c(c: char) -> (r: bool)
    ensures
        r == is_space(c),
{
    c == ' ' || c == '\t' || c == '\n' || c == '\u{0B}' || c == '\u{0C}' || c == '\r'
        || c == '\u{85}' || c == '\u{A0}' || c == '\u{1680}' || c == '\u{2000}' || c == '\u{2001}'
        || c == '\u{2002}' || c == '\u{2003}' || c == '\u{2004}' || c == '\u{2005}'
        || c == '\u{2006}' || c == '\u{2007}' || c == '\u{2008}' || c == '\u{2009}'
        || c == '\u{200A}' || c == '\u{2028}' || c == '\u{2029}' || c == '\u{202F}'
        || c == '\u{205F}' || c == '\u{3000}'
}

/// `s` with leading whitespace removed.
pub open spec fn trim_start_of(s: Seq<char>) -> Seq<char>
    decreases s.len(),
{
    if s.len() == 0 {
        s
    } else if is_space(s[0]) {
        trim_start_of(s.skip(1))
    } else {
        s
    }
}

/// `s` with trailing whitespace removed.
pub open spec fn trim_end_of(s: Seq<char>) -> Seq<char>
    decreases s.len(),
{
    if s.len() == 0 {
        s
    } else if is_space(s[s.len() - 1]) {
        trim_end_of(s.drop_last())
    } else {
        s
    }
}

/// `s` with whitespace removed at both ends.
pub open spec fn trim_of(s: Seq<char>) -> Seq<char> {
    trim_end_of(trim_start_of(s))
}

pub proof fn lemma_trim_start_skip(s: Seq<char>, k: int)
    requires
        0 <= k <= s.len(),
        forall|j: int| 0 <= j < k ==> is_space(s[j]),
        k < s.len() ==> !is_space(s[k]),
    ensures
        trim_start_of(s) == s.skip(k),
    decreases k,
{
    if k == 0 {
        assert(s.skip(0) =~= s);
    } else {
        assert forall|j: int| 0 <= j < k - 1 implies is_space(s.skip(1)[j]) by {
            assert(s.skip(1)[j] == s[j + 1]);
        }
        lemma_trim_start_skip(s.skip(1), k - 1);
        assert(s.skip(1).skip(k - 1) =~= s.skip(k));
    }
}

pub proof fn lemma_trim_end_take(s: Seq<char>, k: int)
    requires
        0 <= k <= s.len(),
        forall|j: int| k <= j < s.len() ==> is_space(s[j]),
        k > 0 ==> !is_space(s[k - 1]),
    ensures
        trim_end_of(s) == s.take(k),
    decreases s.len(),
{
    if k == s.len() {
        if s.len() == 0 {
            assert(s.take(0) =~= s);
        } else {
            assert(s.take(k) =~= s);
        }
    } else {
        lemma_trim_end_take(s.drop_last(), k);
        assert(s.drop_last().take(k) =~= s.take(k));
    }
}

/// Index of the first non-whitespace character, or the length when all of
/// `s` is whitespace.
fn first_non_space(s: &str) -> (r: usize)
    ensures
        0 <= r <= s@.len(),
        forall|j: int| 0 <= j < r ==> is_space(s@[j]),
        r < s@.len() ==> !is_space(s@[r as int]),
{
    let n = s.unicode_len();
    let mut a: usize = 0;
    while a < n
        invariant
            n == s@.len(),
            0 <= a <= n,
            forall|j: int| 0 <= j < a ==> is_space(s@[j]),
        decreases n - a,
    {
        if !is_space_c(s.get_char(a)) {
            return a;
        }
        a = a + 1;
    }
    n
}

/// One past the index of the last non-whitespace character, or zero when all
/// of `s` is whitespace.
fn last_non_space(s: &str) -> (r: usize)
    ensures
        0 <= r <= s@.len(),
        forall|j: int| r <= j < s@.len() ==> is_space(s@[j]),
        r > 0 ==> !is_space(s@[r - 1]),
{
    let n = s.unicode_len();
    let mut b: usize = n;
    while b > 0
        invariant
            n == s@.len(),
            0 <= b <= n,
            forall|j: int| b <= j < n ==> is_space(s@[j]),
        decreases b,
    {
        if !is_space_c(s.get_char(b - 1)) {
            return b;
        }
        b = b - 1;
    }
    0
}

/// `s` without leading whitespace.
pub fn str_trim_start(s: &str) -> (r: String)
    ensures
        r@ == trim_start_of(s@),
{
    let a = first_non_space(s);
    let n = s.unicode_len();
    proof {
        lemma_trim_start_skip(s@, a as int);
        assert(s@.subrange(a as int, n as int) =~= s@.skip(a as int));
    }
    String::from_str(s.substring_char(a, n))
}

/// `s` without trailing whitespace.
pub fn str_trim_end(s: &str) -> (r: String)
    ensures
        r@ == trim_end_of(s@),
{
    let k = last_non_space(s);
    proof {
        lemma_trim_end_take(s@, k as int);
        assert(s@.subrange(0, k as int) =~= s@.take(k as int));
    }
    String::from_str(s.substring_char(0, k))
}

/// `s` without whitespace at either end.
pub fn str_trim(s: &str) -> (r: String)
    ensures
        r@ == trim_of(s@),
{
    let n = s.unicode_len();
    let a = first_non_space(s);
    let k = last_non_space(s);
    if k <= a {
        // only possible when every character is whitespace
        proof {
            if a < n {
                assert(is_space(s@[a as int]));
            }
            lemma_trim_start_skip(s@, n as int);
            assert(s@.skip(n as int) =~= Seq::<char>::empty());
            assert(trim_of(s@) =~= Seq::<char>::empty());
        }
        return String::new();
    }
    proof {
        lemma_trim_start_skip(s@, a as int);
        let t = s@.skip(a as int);
        assert forall|j: int| (k - a) <= j < t.len() implies is_space(t[j]) by {
            assert(t[j] == s@[a + j]);
        }
        assert(t[(k - a) - 1] == s@[k - 1]);
        lemma_trim_end_take(t, k - a);
        assert(t.take(k - a) =~= s@.subrange(a as int, k as int));
    }
    String::from_str(s.substring_char(a, k))
}

// ---------- executable search ----------

/// Index of the first occurrence of `c` in `s`, if any.
pub fn find_char(s: &str, c: char) -> (r: Option<usize>)
    ensures
        match r {
            Some(i) => has_char(s@, c) && i as int == first_ix(s@, c),
            None => !has_char(s@, c),
        },
{
    let n = s.unicode_len();
    let mut i: usize = 0;
    while i < n
        invariant
            n == s@.len(),
            0 <= i <= n,
            forall|j: int| 0 <= j < i ==> s@[j] != c,
        decreases n - i,
    {
        if s.get_char(i) == c {
            proof {
                lemma_first_ix_min(s@, c, i as int);
            }
            return Some(i);
        }
        i = i + 1;
    }
    None
}

/// Index of the last occurrence of `c` in `s`, if any.
pub fn rfind_char(s: &str, c: char) -> (r: Option<usize>)
    ensures
        match r {
            Some(i) => has_char(s@, c) && i as int == last_ix(s@, c),
            None => !has_char(s@, c),
        },
{
    let n = s.unicode_len();
    let mut i: usize = n;
    while i > 0
        invariant
            n == s@.len(),
            0 <= i <= n,
            forall|j: int| i <= j < n ==> s@[j] != c,
        decreases i,
    {
        i = i - 1;
        if s.get_char(i) == c {
            proof {
                lemma_last_ix_max(s@, c, i as int);
            }
            return Some(i);
        }
    }
    None
}

// ---------- executable comparison and concatenation ----------

/// Character-wise string equality.
pub fn str_eq(a: &str, b: &str) -> (r: bool)
    ensures
        r == (a@ == b@),
{
    let n = a.unicode_len();
    if n != b.unicode_len() {
        return false;
    }
    let mut i: usize = 0;
    while i < n
        invariant
            n == a@.len(),
            n == b@.len(),
            0 <= i <= n,
            forall|j: int| 0 <= j < i ==> a@[j] == b@[j],
        decreases n - i,
    {
        if a.get_char(i) != b.get_char(i) {
            return false;
        }
        i = i + 1;
    }
    proof {
        assert(a@ =~= b@);
    }
    true
}

/// Does `s` end with `suffix`, character-wise?
pub open spec fn ends_with(s: Seq<char>, suffix: Seq<char>) -> bool {
    suffix.len() <= s.len() && s.skip(s.len() - suffix.len()) == suffix
}

/// Suffix test on strings.
pub fn str_ends_with(s: &str, suffix: &str) -> (r: bool)
    ensures
        r == ends_with(s@, suffix@),
{
    let n = s.unicode_len();
    let m = suffix.unicode_len();
    if m > n {
        return false;
    }
    let mut j: usize = 0;
    while j < m
        invariant
            n == s@.len(),
            m == suffix@.len(),
            m <= n,
            0 <= j <= m,
            forall|t: int| 0 <= t < j ==> s@[n - m + t] == suffix@[t],
        decreases m - j,
    {
        if s.get_char(n - m + j) != suffix.get_char(j) {
            proof {
                if ends_with(s@, suffix@) {
                    assert(s@.skip(n - m) =~= suffix@);
                    assert(s@.skip(n - m)[j as int] == s@[n - m + j]);
                }
            }
            return false;
        }
        j = j + 1;
    }
    proof {
        assert(s@.skip(n - m) =~= suffix@);
    }
    true
}

/// Concatenation of two string slices.
pub fn concat_str(a: &str, b: &str) -> (r: String)
    ensures
        r@ == a@ + b@,
{
    let s = String::from_str(a);
    s.concat(b)
}

/// Concatenation of three string slices.
pub fn concat3(a: &str, b: &str, c: &str) -> (r: String)
    ensures
        r@ == a@ + b@ + c@,
{
    let s = String::from_str(a);
    s.concat(b).concat(c)
}

/// `a` and `b` joined by a single path separator.
pub fn join_path(a: &str, b: &str) -> (r: String)
    ensures
        r@ == a@ + seq!['/'] + b@,
{
    proof {
        reveal_strlit("/");
        assert(("/")@ =~= seq!['/']);
    }
    let s = String::from_str(a);
    s.concat("/").concat(b)
}

/// The substring of `s` before the first occurrence of `c`, and the
/// substring after it when `c` occurs.
pub fn split_first(s: &str, c: char) -> (r: (String, Option<String>))
    ensures
        r.0@ == head_of(s@, c),
        match r.1 {
            Some(t) => has_char(s@, c) && t@ == tail_of(s@, c),
            None => !has_char(s@, c),
        },
{
    let n = s.unicode_len();
    match find_char(s, c) {
        Some(i) => {
            proof {
                lemma_first_ix(s@, c);
            }
            let head = String::from_str(s.substring_char(0, i));
            let tail = String::from_str(s.substring_char(i + 1, n));
            proof {
                assert(s@.subrange(0, i as int) =~= s@.take(i as int));
                assert(s@.subrange(i + 1, n as int) =~= s@.skip(i + 1));
            }
            (head, Some(tail))
        },
        None => (String::from_str(s), None),
    }
}

} // verus!
