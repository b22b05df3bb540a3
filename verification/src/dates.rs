//! Date normalization: a dot-separated `day.month.year` token becomes a
//! compact calendar-date token with the segments in reversed order and the
//! dots removed (`"05.03.2024"` becomes `"20240305"`).
//!
//! No numeric validation is performed: any dot-delimited string normalizes
//! syntactically, even if it is not a real calendar date.

use vstd::prelude::*;

verus! {

/// Index of the first `'.'` in `s`, or `s.len()` if none occurs.
pub open spec fn find_dot(s: Seq<char>) -> nat
    decreases s.len(),
{
    if s.len() == 0 {
        0
    } else if s[0] == '.' {
        0
    } else {
        find_dot(s.subrange(1, s.len() as int)) + 1
    }
}

/// `find_dot(s)` is the unique position `i` such that no dot occurs before
/// `i` and either `i` is the end of `s` or a dot stands at `i`.
pub proof fn lemma_find_dot_at(s: Seq<char>, i: int)
    requires
        0 <= i <= s.len(),
        forall|j: int| 0 <= j < i ==> s[j] != '.',
        i < s.len() ==> s[i] == '.',
    ensures
        find_dot(s) == i,
    decreases s.len(),
{
    if i == 0 {
        if s.len() > 0 {
            assert(s[0] == '.');
        }
    } else {
        assert(s[0] != '.');
        let t = s.subrange(1, s.len() as int);
        assert forall|j: int| 0 <= j < i - 1 implies t[j] != '.' by {
            assert(t[j] == s[j + 1]);
        }
        if i - 1 < t.len() {
            assert(t[i - 1] == s[i]);
        }
        lemma_find_dot_at(t, i - 1);
    }
}

/// The token with its dot-separated segments in reversed order and the dots
/// removed: the segment after the first dot group comes first.
pub open spec fn normalize_date_spec(s: Seq<char>) -> Seq<char>
    decreases s.len(),
{
    let d = find_dot(s) as int;
    if d >= s.len() {
        s
    } else {
        normalize_date_spec(s.subrange(d + 1, s.len() as int)) + s.subrange(0, d)
    }
}

fn find_dot_index(s: &str) -> (i: usize)
    ensures
        i == find_dot(s@),
        i <= s@.len(),
{
    let n = s.unicode_len();
    let mut i: usize = 0;
    while i < n
        invariant
            n == s@.len(),
            0 <= i <= n,
            forall|j: int| 0 <= j < i ==> s@[j] != '.',
        decreases n - i,
    {
        if s.get_char(i) == '.' {
            proof {
                lemma_find_dot_at(s@, i as int);
            }
            return i;
        }
        i += 1;
    }
    proof {
        lemma_find_dot_at(s@, i as int);
    }
    i
}

/// Splits `s` on dots, reverses the segment sequence, and concatenates the
/// segments with no separator.
pub fn normalize_date(s: &str) -> (r: String)
    ensures
        r@ == normalize_date_spec(s@),
    decreases s@.len(),
{
    let n = s.unicode_len();
    let i = find_dot_index(s);
    if i == n {
        String::from_str(s)
    } else {
        let head = s.substring_char(0, i);
        let rest = s.substring_char(i + 1, n);
        let mut r = normalize_date(rest);
        r.append(head);
        r
    }
}

/// Converts a dot-separated date token into its compact normalized form.
pub fn create_timestamp(date: String) -> (r: String)
    ensures
        r@ == normalize_date_spec(date@),
{
    normalize_date(date.as_str())
}

/// A date token of the shape `DD.MM.YYYY`: ten characters with dots exactly
/// at positions 2 and 5.
pub open spec fn is_day_month_year(s: Seq<char>) -> bool {
    &&& s.len() == 10
    &&& s[2] == '.'
    &&& s[5] == '.'
    &&& forall|j: int| 0 <= j < 10 && j != 2 && j != 5 ==> s[j] != '.'
}

/// On a `DD.MM.YYYY` token, normalization yields year, month, day
/// concatenated in that order.
pub proof fn lemma_normalize_day_month_year(s: Seq<char>)
    requires
        is_day_month_year(s),
    ensures
        normalize_date_spec(s) == s.subrange(6, 10) + s.subrange(3, 5) + s.subrange(0, 2),
{
    lemma_find_dot_at(s, 2);
    let t = s.subrange(3, 10);
    assert(t[0] == s[3]);
    assert(t[1] == s[4]);
    assert(t[2] == s[5]);
    lemma_find_dot_at(t, 2);
    let u = t.subrange(3, 7);
    assert(u =~= s.subrange(6, 10));
    assert forall|j: int| 0 <= j < 4 implies u[j] != '.' by {
        assert(u[j] == s[j + 6]);
    }
    lemma_find_dot_at(u, 4);
    assert(normalize_date_spec(u) == u);
    assert(t.subrange(0, 2) =~= s.subrange(3, 5));
    assert(normalize_date_spec(t) == u + s.subrange(3, 5));
    assert(normalize_date_spec(s) == (u + s.subrange(3, 5)) + s.subrange(0, 2));
}

/// Normalization is injective on `DD.MM.YYYY` tokens: distinct well-formed
/// tokens keep distinct normalized forms.
pub proof fn lemma_normalize_injective(s1: Seq<char>, s2: Seq<char>)
    requires
        is_day_month_year(s1),
        is_day_month_year(s2),
        normalize_date_spec(s1) == normalize_date_spec(s2),
    ensures
        s1 == s2,
{
    lemma_normalize_day_month_year(s1);
    lemma_normalize_day_month_year(s2);
    let n1 = normalize_date_spec(s1);
    let n2 = normalize_date_spec(s2);
    assert forall|j: int| 0 <= j < 10 implies s1[j] == s2[j] by {
        if j < 2 {
            assert(n1[6 + j] == s1[j]);
            assert(n2[6 + j] == s2[j]);
        } else if j == 2 || j == 5 {
            assert(s1[j] == '.');
            assert(s2[j] == '.');
        } else if j < 5 {
            assert(n1[j + 1] == s1[j]);
            assert(n2[j + 1] == s2[j]);
        } else {
            assert(n1[j - 6] == s1[j]);
            assert(n2[j - 6] == s2[j]);
        }
    }
    assert(s1 =~= s2);
}

} // verus!
