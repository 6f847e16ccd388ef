//! Character-level helpers shared by the string-valued parameters:
//! whitespace trimming and the character-class checks of the policies.

use vstd::prelude::*;

verus! {

/// The Unicode `White_Space` code points — the set `str::trim` removes.
pub open spec fn is_space_char(c: char) -> bool {
    let u = c as u32;
    (9 <= u && u <= 13) || u == 32 || u == 0x85 || u == 0xA0 || u == 0x1680 || (0x2000 <= u
        && u <= 0x200A) || u == 0x2028 || u == 0x2029 || u == 0x202F || u == 0x205F || u == 0x3000
}

pub fn is_space(c: char) -> (r: bool)
    ensures
        r == is_space_char(c),
{
    let u = c as u32;
    (9 <= u && u <= 13) || u == 32 || u == 0x85 || u == 0xA0 || u == 0x1680 || (0x2000 <= u
        && u <= 0x200A) || u == 0x2028 || u == 0x2029 || u == 0x202F || u == 0x205F || u == 0x3000
}

/// What remains of `s` once every leading white-space character is gone.
pub open spec fn trim_start_spec(s: Seq<char>) -> Seq<char>
    decreases s.len(),
{
    if s.len() > 0 && is_space_char(s[0]) {
        trim_start_spec(s.subrange(1, s.len() as int))
    } else {
        s
    }
}

/// What remains of `s` once every trailing white-space character is gone.
pub open spec fn trim_end_spec(s: Seq<char>) -> Seq<char>
    decreases s.len(),
{
    if s.len() > 0 && is_space_char(s[s.len() - 1]) {
        trim_end_spec(s.subrange(0, s.len() - 1))
    } else {
        s
    }
}

/// What remains of `s` once surrounding white space is gone.
pub open spec fn trim_spec(s: Seq<char>) -> Seq<char> {
    trim_end_spec(trim_start_spec(s))
}

proof fn lemma_trim_start_at(s: Seq<char>, a: int)
    requires
        0 <= a <= s.len(),
        forall|j: int| 0 <= j < a ==> is_space_char(s[j]),
        a == s.len() || !is_space_char(s[a]),
    ensures
        trim_start_spec(s) == s.subrange(a, s.len() as int),
    decreases a,
{
    if a == 0 {
        assert(s.subrange(0, s.len() as int) =~= s);
    } else {
        let t = s.subrange(1, s.len() as int);
        lemma_trim_start_at(t, a - 1);
        assert(t.subrange(a - 1, t.len() as int) =~= s.subrange(a, s.len() as int));
    }
}

proof fn lemma_trim_end_at(s: Seq<char>, b: int)
    requires
        0 <= b <= s.len(),
        forall|j: int| b <= j < s.len() ==> is_space_char(s[j]),
        b == 0 || !is_space_char(s[b - 1]),
    ensures
        trim_end_spec(s) == s.subrange(0, b),
    decreases s.len() - b,
{
    if b == s.len() {
        assert(s.subrange(0, s.len() as int) =~= s);
    } else {
        let t = s.subrange(0, s.len() - 1);
        lemma_trim_end_at(t, b);
        assert(t.subrange(0, b) =~= s.subrange(0, b));
    }
}

/// Copies `s` without its surrounding white space, exactly as `trim_spec`
/// describes.
pub fn trim_str(s: &str) -> (t: String)
    ensures
        t@ == trim_spec(s@),
{
    let n = s.unicode_len();
    let mut a: usize = 0;
    while a < n && is_space(s.get_char(a))
        invariant
            0 <= a <= n,
            n == s@.len(),
            forall|j: int| 0 <= j < a ==> is_space_char(s@[j]),
        decreases n - a,
    {
        a = a + 1;
    }
    let mut b: usize = n;
    while b > a && is_space(s.get_char(b - 1))
        invariant
            a <= b <= n,
            n == s@.len(),
            forall|j: int| b <= j < n ==> is_space_char(s@[j]),
        decreases b - a,
    {
        b = b - 1;
    }
    let t = s.substring_char(a, b);
    proof {
        lemma_trim_start_at(s@, a as int);
        let u = s@.subrange(a as int, s@.len() as int);
        lemma_trim_end_at(u, b - a);
        assert(u.subrange(0, b - a) =~= s@.subrange(a as int, b as int));
    }
    String::from_str(t)
}

/// An ASCII decimal digit.
pub open spec fn is_digit_char(c: char) -> bool {
    48 <= (c as u32) <= 57
}

/// Every character of `s` is an ASCII decimal digit.
pub open spec fn all_digit_chars(s: Seq<char>) -> bool {
    forall|i: int| 0 <= i < s.len() ==> is_digit_char(#[trigger] s[i])
}

/// Checks that every character of `s` is an ASCII decimal digit.
pub fn check_all_digits(s: &str) -> (r: bool)
    ensures
        r == all_digit_chars(s@),
{
    let n = s.unicode_len();
    let mut i: usize = 0;
    while i < n
        invariant
            0 <= i <= n,
            n == s@.len(),
            forall|j: int| 0 <= j < i ==> is_digit_char(#[trigger] s@[j]),
        decreases n - i,
    {
        let c = s.get_char(i);
        let u = c as u32;
        if !(48 <= u && u <= 57) {
            assert(!is_digit_char(s@[i as int]));
            return false;
        }
        i = i + 1;
    }
    true
}

/// A lower-case ASCII letter or an ASCII decimal digit.
pub open spec fn is_lower_alnum_char(c: char) -> bool {
    (97 <= (c as u32) <= 122) || (48 <= (c as u32) <= 57)
}

/// A separator allowed inside an account id.
pub open spec fn is_account_sep_char(c: char) -> bool {
    c == '-' || c == '_' || c == '.'
}

/// A NEAR-style account id: non-empty, only lower-case alphanumerics and
/// the separators `-`, `_`, `.`, where every separator stands strictly
/// between two alphanumerics. This is the language of the pattern
/// `^(([a-z\d]+[-_])*[a-z\d]+\.)*([a-z\d]+[-_])*[a-z\d]+$`.
pub open spec fn valid_account_id(s: Seq<char>) -> bool {
    &&& s.len() > 0
    &&& forall|i: int|
        0 <= i < s.len() ==> (is_lower_alnum_char(#[trigger] s[i]) || is_account_sep_char(s[i]))
    &&& forall|i: int|
        0 <= i < s.len() && is_account_sep_char(#[trigger] s[i]) ==> 0 < i < s.len() - 1
            && is_lower_alnum_char(s[i - 1]) && is_lower_alnum_char(s[i + 1])
}

fn is_lower_alnum(c: char) -> (r: bool)
    ensures
        r == is_lower_alnum_char(c),
{
    let u = c as u32;
    (97 <= u && u <= 122) || (48 <= u && u <= 57)
}

fn is_account_sep(c: char) -> (r: bool)
    ensures
        r == is_account_sep_char(c),
{
    c == '-' || c == '_' || c == '.'
}

/// Checks that `s` is a NEAR-style account id as `valid_account_id`
/// describes.
pub fn check_account_id(s: &str) -> (r: bool)
    ensures
        r == valid_account_id(s@),
{
    let n = s.unicode_len();
    if n == 0 {
        return false;
    }
    let mut i: usize = 0;
    while i < n
        invariant
            0 <= i <= n,
            n == s@.len(),
            forall|j: int|
                0 <= j < i ==> (is_lower_alnum_char(#[trigger] s@[j]) || is_account_sep_char(
                    s@[j],
                )),
            forall|j: int|
                0 <= j < i && is_account_sep_char(#[trigger] s@[j]) ==> 0 < j < n - 1
                    && is_lower_alnum_char(s@[j - 1]) && is_lower_alnum_char(s@[j + 1]),
        decreases n - i,
    {
        let c = s.get_char(i);
        if is_account_sep(c) {
            if i == 0 || i == n - 1 {
                return false;
            }
            if !is_lower_alnum(s.get_char(i - 1)) || !is_lower_alnum(s.get_char(i + 1)) {
                return false;
            }
        } else if !is_lower_alnum(c) {
            assert(!(is_lower_alnum_char(s@[i as int]) || is_account_sep_char(s@[i as int])));
            return false;
        }
        i = i + 1;
    }
    true
}

/// The position of the first occurrence of `c` in `s`, if any.
pub open spec fn find_char_spec(s: Seq<char>, c: char) -> Option<int>
    decreases s.len(),
{
    if s.len() == 0 {
        None
    } else if s[0] == c {
        Some(0int)
    } else {
        match find_char_spec(s.drop_first(), c) {
            None => None,
            Some(i) => Some(i + 1),
        }
    }
}

proof fn lemma_find_char_at(s: Seq<char>, c: char, i: int)
    requires
        0 <= i <= s.len(),
        forall|j: int| 0 <= j < i ==> s[j] != c,
        i == s.len() || s[i] == c,
    ensures
        find_char_spec(s, c) == if i == s.len() {
            None::<int>
        } else {
            Some(i)
        },
    decreases i,
{
    if i == 0 {
    } else {
        lemma_find_char_at(s.drop_first(), c, i - 1);
    }
}

/// Finds the first occurrence of `c` in `s`, as `find_char_spec`
/// describes.
pub fn find_char(s: &str, c: char) -> (r: Option<usize>)
    ensures
        match r {
            None => find_char_spec(s@, c) is None,
            Some(i) => find_char_spec(s@, c) == Some(i as int) && i < s@.len(),
        },
{
    let n = s.unicode_len();
    let mut i: usize = 0;
    while i < n
        invariant
            0 <= i <= n,
            n == s@.len(),
            forall|j: int| 0 <= j < i ==> s@[j] != c,
        decreases n - i,
    {
        if s.get_char(i) == c {
            proof {
                lemma_find_char_at(s@, c, i as int);
            }
            return Some(i);
        }
        i = i + 1;
    }
    proof {
        lemma_find_char_at(s@, c, n as int);
    }
    None
}

} // verus!
