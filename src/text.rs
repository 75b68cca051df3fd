//! Verified text helpers: equality, substring tests, decimal rendering.

use vstd::prelude::*;

verus! {

/// The character of a decimal digit.
pub open spec fn digit_char(d: nat) -> char {
    if d == 0 { '0' }
    else if d == 1 { '1' }
    else if d == 2 { '2' }
    else if d == 3 { '3' }
    else if d == 4 { '4' }
    else if d == 5 { '5' }
    else if d == 6 { '6' }
    else if d == 7 { '7' }
    else if d == 8 { '8' }
    else { '9' }
}

/// The shortest decimal rendering of a natural number.
pub open spec fn decimal(n: nat) -> Seq<char>
    decreases n,
{
    if n < 10 {
        seq![digit_char(n)]
    } else {
        decimal(n / 10).push(digit_char(n % 10))
    }
}

/// The decimal rendering of `n`, left-padded with zeros to at least `width` characters.
pub open spec fn zero_padded(n: nat, width: nat) -> Seq<char> {
    let d = decimal(n);
    if d.len() >= width {
        d
    } else {
        Seq::new((width - d.len()) as nat, |i: int| '0') + d
    }
}

/// `needle` occurs in `hay` starting at position `i`.
pub open spec fn occurs_at(hay: Seq<char>, needle: Seq<char>, i: int) -> bool {
    0 <= i && i + needle.len() <= hay.len() && hay.subrange(i, i + needle.len()) == needle
}

/// `needle` occurs somewhere in `hay`.
pub open spec fn contains_text(hay: Seq<char>, needle: Seq<char>) -> bool {
    exists|i: int| occurs_at(hay, needle, i)
}

/// `hay` begins with `prefix`.
pub open spec fn starts_with_text(hay: Seq<char>, prefix: Seq<char>) -> bool {
    occurs_at(hay, prefix, 0)
}

/// The one-character string of a decimal digit.
fn digit_str(d: u64) -> (r: &'static str)
    requires
        d < 10,
    ensures
        r@ == seq![digit_char(d as nat)],
{
    proof {
        reveal_strlit("0");
        reveal_strlit("1");
        reveal_strlit("2");
        reveal_strlit("3");
        reveal_strlit("4");
        reveal_strlit("5");
        reveal_strlit("6");
        reveal_strlit("7");
        reveal_strlit("8");
        reveal_strlit("9");
    }
    if d == 0 {
        "0"
    } else if d == 1 {
        "1"
    } else if d == 2 {
        "2"
    } else if d == 3 {
        "3"
    } else if d == 4 {
        "4"
    } else if d == 5 {
        "5"
    } else if d == 6 {
        "6"
    } else if d == 7 {
        "7"
    } else if d == 8 {
        "8"
    } else {
        "9"
    }
}

/// Renders `n` in decimal.
pub fn decimal_string(n: u64) -> (r: String)
    ensures
        r@ == decimal(n as nat),
    decreases n,
{
    if n < 10 {
        String::from_str(digit_str(n))
    } else {
        let mut s = decimal_string(n / 10);
        s.append(digit_str(n % 10));
        s
    }
}

/// Renders `n` in decimal, left-padded with zeros to at least `width` characters.
pub fn zero_padded_string(n: u64, width: usize) -> (r: String)
    ensures
        r@ == zero_padded(n as nat, width as nat),
{
    let d = decimal_string(n);
    let len = d.as_str().unicode_len();
    if len >= width {
        return d;
    }
    let mut out = String::new();
    let mut i: usize = 0;
    proof {
        reveal_strlit("0");
    }
    assert("0"@ =~= seq!['0']);
    while i < width - len
        invariant
            i <= width - len,
            len == d@.len(),
            "0"@ == seq!['0'],
            out@ == Seq::new(i as nat, |k: int| '0'),
        decreases width - len - i,
    {
        out.append("0");
        i = i + 1;
        assert(out@ =~= Seq::new(i as nat, |k: int| '0'));
    }
    out.append(d.as_str());
    out
}

/// Whether two strings hold the same characters.
pub fn same_text(a: &str, b: &str) -> (r: bool)
    ensures
        r == (a@ == b@),
{
    let n = a.unicode_len();
    if n != b.unicode_len() {
        return false;
    }
    let mut i: usize = 0;
    while i < n
        invariant
            n == a@.len(),
            n == b@.len(),
            i <= n,
            forall|k: int| 0 <= k < i ==> a@[k] == b@[k],
        decreases n - i,
    {
        if a.get_char(i) != b.get_char(i) {
            return false;
        }
        i = i + 1;
    }
    assert(a@ =~= b@);
    true
}

/// Whether `needle` occurs in `hay` at character position `at`.
fn occurs_at_pos(hay: &str, needle: &str, at: usize, hay_len: usize, needle_len: usize) -> (r: bool)
    requires
        hay_len == hay@.len(),
        needle_len == needle@.len(),
        at + needle_len <= hay_len,
    ensures
        r == occurs_at(hay@, needle@, at as int),
{
    let mut k: usize = 0;
    while k < needle_len
        invariant
            hay_len == hay@.len(),
            needle_len == needle@.len(),
            at + needle_len <= hay_len,
            k <= needle_len,
            forall|m: int| 0 <= m < k ==> hay@[at + m] == needle@[m],
        decreases needle_len - k,
    {
        if hay.get_char(at + k) != needle.get_char(k) {
            assert(hay@.subrange(at as int, at + needle_len)[k as int] != needle@[k as int]);
            return false;
        }
        k = k + 1;
    }
    assert(hay@.subrange(at as int, at + needle_len) =~= needle@);
    true
}

/// Whether `needle` occurs somewhere in `hay`.
pub fn contains_str(hay: &str, needle: &str) -> (r: bool)
    ensures
        r == contains_text(hay@, needle@),
{
    let h = hay.unicode_len();
    let n = needle.unicode_len();
    if n > h {
        assert forall|i: int| !occurs_at(hay@, needle@, i) by {}
        return false;
    }
    if n == 0 {
        assert(hay@.subrange(0, 0) =~= needle@);
        assert(occurs_at(hay@, needle@, 0));
        return true;
    }
    let mut i: usize = 0;
    while i <= h - n
        invariant
            h == hay@.len(),
            n == needle@.len(),
            1 <= n <= h,
            i <= h - n + 1,
            forall|k: int| 0 <= k < i ==> !occurs_at(hay@, needle@, k),
        decreases h - n + 1 - i,
    {
        if occurs_at_pos(hay, needle, i, h, n) {
            return true;
        }
        i = i + 1;
    }
    assert forall|k: int| !occurs_at(hay@, needle@, k) by {
        if 0 <= k && k + n <= h {
            assert(k < i);
        }
    }
    false
}

/// Whether `hay` begins with `prefix`.
pub fn starts_with_str(hay: &str, prefix: &str) -> (r: bool)
    ensures
        r == starts_with_text(hay@, prefix@),
{
    let h = hay.unicode_len();
    let n = prefix.unicode_len();
    if n > h {
        return false;
    }
    occurs_at_pos(hay, prefix, 0, h, n)
}

} // verus!
