//! Tracking-number formats.
use vstd::prelude::*;

verus! {

pub open spec fn is_ascii_digit(c: char) -> bool {
    '0' <= c && c <= '9'
}

pub open spec fn is_ascii_letter(c: char) -> bool {
    ('a' <= c && c <= 'z') || ('A' <= c && c <= 'Z')
}

/// What position `k` of an international postal item holds: letters in the
/// first two and last two places, digits between them.
pub open spec fn postal_slot(c: char, k: int) -> bool {
    if 2 <= k < 11 {
        is_ascii_digit(c)
    } else {
        is_ascii_letter(c)
    }
}

/// Two ASCII letters, nine ASCII digits and two ASCII letters: an
/// international postal item.
pub open spec fn postal_item_format(s: Seq<char>) -> bool {
    s.len() == 13 && forall|k: int| 0 <= k < 13 ==> postal_slot(#[trigger] s[k], k)
}

/// `LP` and fourteen ASCII digits.
pub open spec fn lp_format(s: Seq<char>) -> bool {
    s.len() == 16 && s[0] == 'L' && s[1] == 'P' && forall|k: int|
        2 <= k < 16 ==> is_ascii_digit(#[trigger] s[k])
}

/// Every character of `s` is an ASCII digit.
pub open spec fn all_digits(s: Seq<char>) -> bool {
    forall|i: int| 0 <= i < s.len() ==> is_ascii_digit(#[trigger] s[i])
}

/// `s` is `len` ASCII digits.
pub open spec fn numeric(s: Seq<char>, len: nat) -> bool {
    s.len() == len && all_digits(s)
}

/// Whether `s` is exactly `len` ASCII digits.
pub fn is_numeric(s: &str, len: usize) -> (r: bool)
    ensures
        r == numeric(s@, len as nat),
{
    let n = s.unicode_len();
    if n != len {
        return false;
    }
    let mut i: usize = 0;
    while i < n
        invariant
            n == s@.len(),
            i <= n,
            forall|k: int| 0 <= k < i ==> is_ascii_digit(#[trigger] s@[k]),
        decreases n - i,
    {
        let c = s.get_char(i);
        if !('0' <= c && c <= '9') {
            return false;
        }
        i = i + 1;
    }
    true
}

/// Whether `s` is an international postal item number.
pub fn is_postal_item(s: &str) -> (r: bool)
    ensures
        r == postal_item_format(s@),
{
    let n = s.unicode_len();
    if n != 13 {
        return false;
    }
    let mut i: usize = 0;
    while i < 13
        invariant
            n == s@.len(),
            n == 13,
            i <= 13,
            forall|k: int| 0 <= k < i ==> postal_slot(#[trigger] s@[k], k),
        decreases 13 - i,
    {
        let c = s.get_char(i);
        let fits = if 2 <= i && i < 11 {
            '0' <= c && c <= '9'
        } else {
            ('a' <= c && c <= 'z') || ('A' <= c && c <= 'Z')
        };
        if !fits {
            assert(!postal_slot(s@[i as int], i as int));
            return false;
        }
        i = i + 1;
    }
    true
}

/// Whether `s` is `LP` followed by fourteen ASCII digits.
pub fn is_lp_number(s: &str) -> (r: bool)
    ensures
        r == lp_format(s@),
{
    let n = s.unicode_len();
    if n != 16 {
        return false;
    }
    if s.get_char(0) != 'L' || s.get_char(1) != 'P' {
        return false;
    }
    let mut i: usize = 2;
    while i < 16
        invariant
            n == s@.len(),
            n == 16,
            2 <= i <= 16,
            forall|k: int| 2 <= k < i ==> is_ascii_digit(#[trigger] s@[k]),
        decreases 16 - i,
    {
        let c = s.get_char(i);
        if !('0' <= c && c <= '9') {
            return false;
        }
        i = i + 1;
    }
    true
}

} // verus!
