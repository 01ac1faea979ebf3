use vstd::prelude::*;

verus! {

/// `c` is one of the ASCII digits `0`..`9`.
pub open spec fn is_ascii_digit(c: char) -> bool {
    '0' <= c && c <= '9'
}

/// `s` has the form `<digits>.<digits>`: one dot with at least one ASCII digit
/// on each side and nothing else.
pub open spec fn is_version_text(s: Seq<char>) -> bool {
    exists|k: int|
        0 < k < s.len() - 1 && s[k] == '.' && forall|i: int|
            0 <= i < s.len() && i != k ==> #[trigger] is_ascii_digit(s[i])
}

/// The pattern that a version text must match.
pub open spec fn version_pattern() -> Seq<char> {
    "^[0-9]+\\.[0-9]+$"@
}

/// Calls `regex::Regex::new` on `pattern`, which must be the version pattern,
/// and `Regex::is_match` on `s`. The contract states the documented meaning
/// of that pattern in the `regex` crate: `[0-9]` is the class of the ASCII
/// digits, `\.` a literal dot, and `^`/`$` anchor at the start and end of the
/// whole text. The pattern is valid, so the `unwrap` does not panic.
#[verifier::external_body]
fn regex_is_match(pattern: &str, s: &str) -> (r: bool)
    requires
        pattern@ == version_pattern(),
    ensures
        r == is_version_text(s@),
{
    regex::Regex::new(pattern).unwrap().is_match(s)
}

/// Whether `s` matches the pattern `^[0-9]+\.[0-9]+$`.
pub fn version_pattern_matches(s: &str) -> (r: bool)
    ensures
        r == is_version_text(s@),
{
    regex_is_match("^[0-9]+\\.[0-9]+$", s)
}

/// Index of the first occurrence of `c` in `s`, or the length of `s` when
/// `c` does not occur.
pub open spec fn index_of(s: Seq<char>, c: char) -> nat
    decreases s.len(),
{
    if s.len() == 0 {
        0
    } else if s[0] == c {
        0
    } else {
        1 + index_of(s.drop_first(), c)
    }
}

/// The text before the first dot.
pub open spec fn major_part(s: Seq<char>) -> Seq<char> {
    s.take(index_of(s, '.') as int)
}

/// The text after the first dot.
pub open spec fn minor_part(s: Seq<char>) -> Seq<char> {
    s.skip(index_of(s, '.') as int + 1)
}

proof fn lemma_index_of(s: Seq<char>, c: char, i: int)
    requires
        0 <= i <= s.len(),
        forall|j: int| 0 <= j < i ==> s[j] != c,
    ensures
        i == s.len() ==> index_of(s, c) == s.len(),
        i < s.len() && s[i] == c ==> index_of(s, c) == i,
    decreases i,
{
    if i > 0 {
        lemma_index_of(s.drop_first(), c, i - 1);
    }
}

/// Finds the first occurrence of `c` in `s`.
pub fn find_char(s: &str, c: char) -> (r: usize)
    ensures
        r == index_of(s@, c),
        r <= s@.len(),
        r < s@.len() ==> s@[r as int] == c,
        forall|j: int| 0 <= j < r ==> s@[j] != c,
{
    let n = s.unicode_len();
    let mut i: usize = 0;
    while i < n
        invariant
            n == s@.len(),
            i <= n,
            forall|j: int| 0 <= j < i ==> s@[j] != c,
        decreases n - i,
    {
        if s.get_char(i) == c {
            proof {
                lemma_index_of(s@, c, i as int);
            }
            return i;
        }
        i = i + 1;
    }
    proof {
        lemma_index_of(s@, c, i as int);
    }
    n
}

/// The value of an ASCII digit.
pub open spec fn digit_value(c: char) -> int {
    c as int - '0' as int
}

/// The number that the decimal digits `s` spell (`0` for no digits).
pub open spec fn decimal_value(s: Seq<char>) -> int
    decreases s.len(),
{
    if s.len() == 0 {
        0
    } else {
        10 * decimal_value(s.drop_last()) + digit_value(s.last())
    }
}

/// `s` written with leading zeros to the length `n`.
pub open spec fn zero_padded(s: Seq<char>, n: nat) -> Seq<char> {
    Seq::new(n, |i: int| if i < n - s.len() { '0' } else { s[i - (n - s.len())] })
}

proof fn lemma_zeros_value(n: nat)
    ensures
        decimal_value(Seq::new(n, |i: int| '0')) == 0,
    decreases n,
{
    if n > 0 {
        lemma_zeros_value((n - 1) as nat);
        assert(Seq::new(n, |i: int| '0').drop_last() =~= Seq::new((n - 1) as nat, |i: int| '0'));
    }
}

proof fn lemma_padded_value(s: Seq<char>, n: nat)
    requires
        s.len() <= n,
    ensures
        decimal_value(zero_padded(s, n)) == decimal_value(s),
    decreases s.len(),
{
    if s.len() == 0 {
        lemma_zeros_value(n);
        assert(zero_padded(s, n) =~= Seq::new(n, |i: int| '0'));
    } else {
        lemma_padded_value(s.drop_last(), (n - 1) as nat);
        assert(zero_padded(s, n).drop_last() =~= zero_padded(s.drop_last(), (n - 1) as nat));
    }
}

/// `-1`, `0` or `1` as `a` is less than, equal to or greater than `b`.
pub open spec fn sign_of(a: int, b: int) -> i8 {
    if a < b {
        -1i8
    } else if a == b {
        0i8
    } else {
        1i8
    }
}

/// Compares the numbers that two strings of ASCII digits spell: `-1`, `0` or
/// `1` as the first is less than, equal to or greater than the second. Leading
/// zeros do not count, and the strings may have any length.
pub fn decimal_order(a: &str, b: &str) -> (r: i8)
    requires
        forall|i: int| 0 <= i < a@.len() ==> is_ascii_digit(#[trigger] a@[i]),
        forall|i: int| 0 <= i < b@.len() ==> is_ascii_digit(#[trigger] b@[i]),
    ensures
        r == sign_of(decimal_value(a@), decimal_value(b@)),
{
    let la = a.unicode_len();
    let lb = b.unicode_len();
    let n = if la < lb { lb } else { la };
    let ghost pa = zero_padded(a@, n as nat);
    let ghost pb = zero_padded(b@, n as nat);
    let mut r: i8 = 0;
    let mut i: usize = 0;
    proof {
        assert(pa.take(0) =~= Seq::<char>::empty());
        assert(pb.take(0) =~= Seq::<char>::empty());
    }
    while i < n
        invariant
            la == a@.len(),
            lb == b@.len(),
            la <= n,
            lb <= n,
            i <= n,
            pa == zero_padded(a@, n as nat),
            pb == zero_padded(b@, n as nat),
            forall|k: int| 0 <= k < a@.len() ==> is_ascii_digit(#[trigger] a@[k]),
            forall|k: int| 0 <= k < b@.len() ==> is_ascii_digit(#[trigger] b@[k]),
            r == sign_of(decimal_value(pa.take(i as int)), decimal_value(pb.take(i as int))),
        decreases n - i,
    {
        let x: u32 = if i < n - la {
            0
        } else {
            let c = a.get_char(i - (n - la));
            (c as u32) - 48
        };
        let y: u32 = if i < n - lb {
            0
        } else {
            let c = b.get_char(i - (n - lb));
            (c as u32) - 48
        };
        proof {
            assert(pa.take(i + 1).drop_last() =~= pa.take(i as int));
            assert(pb.take(i + 1).drop_last() =~= pb.take(i as int));
            assert(digit_value(pa[i as int]) == x);
            assert(digit_value(pb[i as int]) == y);
            assert(0 <= x <= 9 && 0 <= y <= 9);
        }
        if r == 0 {
            if x < y {
                r = -1;
            } else if x > y {
                r = 1;
            }
        }
        i = i + 1;
    }
    proof {
        assert(pa.take(n as int) =~= pa);
        assert(pb.take(n as int) =~= pb);
        lemma_padded_value(a@, n as nat);
        lemma_padded_value(b@, n as nat);
    }
    r
}

} // verus!
