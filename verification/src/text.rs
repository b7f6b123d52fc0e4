//! Character and string helpers shared by the rest of the library.

use vstd::prelude::*;
use vstd::string::*;
use vstd::utf8::*;

verus! {

/// The ASCII lower-case form of a character: `A`..=`Z` become `a`..=`z`,
/// every other character is unchanged.
pub open spec fn ascii_lower(c: char) -> char {
    if 'A' <= c && c <= 'Z' {
        ((c as u32) + 32) as char
    } else {
        c
    }
}

/// The ASCII lower-case form of a character sequence.
pub open spec fn ascii_lower_seq(s: Seq<char>) -> Seq<char> {
    s.map_values(|c: char| ascii_lower(c))
}

/// `pat` occurs in `hay` as a contiguous run, starting at position `i`.
pub open spec fn occurs_at<T>(hay: Seq<T>, pat: Seq<T>, i: int) -> bool {
    0 <= i && i + pat.len() <= hay.len() && hay.subrange(i, i + pat.len()) == pat
}

/// `pat` occurs somewhere in `hay` as a contiguous run.
pub open spec fn contains_run<T>(hay: Seq<T>, pat: Seq<T>) -> bool {
    exists|i: int| occurs_at(hay, pat, i)
}

/// The characters of a string slice, in order.
pub fn chars_of(s: &str) -> (v: Vec<char>)
    ensures
        v@ == s@,
{
    let n = s.unicode_len();
    let mut v: Vec<char> = Vec::new();
    let mut i: usize = 0;
    while i < n
        invariant
            n == s@.len(),
            i <= n,
            v@ == s@.subrange(0, i as int),
        decreases n - i,
    {
        v.push(s.get_char(i));
        i += 1;
    }
    v
}

/// The ASCII lower-case form of one character.
pub fn ascii_lower_char(c: char) -> (r: char)
    ensures
        r == ascii_lower(c),
{
    if 'A' <= c && c <= 'Z' {
        let b: u8 = c as u8;
        assert(b == c as u32);
        ((b + 32) as char)
    } else {
        c
    }
}

/// The ASCII lower-case form of a character sequence.
pub fn ascii_lower_chars(v: &Vec<char>) -> (r: Vec<char>)
    ensures
        r@ == ascii_lower_seq(v@),
{
    let mut r: Vec<char> = Vec::new();
    let mut i: usize = 0;
    while i < v.len()
        invariant
            i <= v@.len(),
            r@ == ascii_lower_seq(v@.subrange(0, i as int)),
        decreases v@.len() - i,
    {
        r.push(ascii_lower_char(v[i]));
        proof {
            assert(v@.subrange(0, i + 1) == v@.subrange(0, i as int).push(v@[i as int]));
        }
        i += 1;
        assert(r@ == ascii_lower_seq(v@.subrange(0, i as int)));
    }
    assert(v@.subrange(0, v@.len() as int) == v@);
    r
}

/// Whether `pat` occurs in `hay` at position `start`.
fn matches_at(hay: &Vec<char>, pat: &Vec<char>, start: usize) -> (r: bool)
    requires
        start + pat@.len() <= hay@.len(),
    ensures
        r == occurs_at(hay@, pat@, start as int),
{
    let hay_len = hay.len();
    let mut j: usize = 0;
    while j < pat.len()
        invariant
            hay_len == hay@.len(),
            start + pat@.len() <= hay@.len(),
            j <= pat@.len(),
            forall|k: int| 0 <= k < j ==> hay@[start + k] == pat@[k],
        decreases pat@.len() - j,
    {
        assert(start + j < hay@.len());
        if hay[start + j] != pat[j] {
            assert(hay@.subrange(start as int, start + pat@.len())[j as int] != pat@[j as int]);
            return false;
        }
        j += 1;
    }
    assert(hay@.subrange(start as int, start + pat@.len()) =~= pat@);
    true
}

/// Whether `pat` occurs in `hay` as a contiguous run.
pub fn contains_chars(hay: &Vec<char>, pat: &Vec<char>) -> (r: bool)
    ensures
        r == contains_run(hay@, pat@),
{
    if pat.len() > hay.len() {
        assert forall|i: int| !occurs_at(hay@, pat@, i) by {}
        return false;
    }
    let last = hay.len() - pat.len();
    let mut i: usize = 0;
    loop
        invariant
            last == hay@.len() - pat@.len(),
            pat@.len() <= hay@.len(),
            i <= last,
            forall|k: int| 0 <= k < i ==> !occurs_at(hay@, pat@, k),
        decreases last - i,
    {
        if matches_at(hay, pat, i) {
            return true;
        }
        if i == last {
            assert forall|k: int| !occurs_at(hay@, pat@, k) by {
                if 0 <= k && k < i {
                }
            }
            return false;
        }
        i += 1;
    }
}


/// The decimal digit character for `d` (which is below ten).
pub open spec fn digit_char(d: nat) -> char {
    ((('0' as u32) as nat) + d) as char
}

/// The decimal representation of `n`, most significant digit first, without
/// leading zeros (zero itself is written `0`).
pub open spec fn decimal(n: nat) -> Seq<char>
    decreases n,
{
    if n < 10 {
        seq![digit_char(n)]
    } else {
        decimal(n / 10).push(digit_char(n % 10))
    }
}

/// The one-character string holding the decimal digit `d`.
fn digit_str(d: u8) -> (s: &'static str)
    requires
        d < 10,
    ensures
        s@ == seq![digit_char(d as nat)],
{
    proof {
        reveal_strlit("0");
        reveal_strlit("1");
        reveal_strlit("2");
        reveal_strlit("3");
        reveal_strlit("4");
        reveal_strlit("5");
        reveal_strlit("6");
        reveal_strlit("7");
        reveal_strlit("8");
        reveal_strlit("9");
    }
    match d {
        0 => "0",
        1 => "1",
        2 => "2",
        3 => "3",
        4 => "4",
        5 => "5",
        6 => "6",
        7 => "7",
        8 => "8",
        _ => "9",
    }
}

/// The decimal representation of a byte-sized number, as `to_string` writes it.
pub fn decimal_string(n: u8) -> (s: String)
    ensures
        s@ == decimal(n as nat),
{
    let mut s = String::new();
    if n >= 100 {
        s.append(digit_str(n / 100));
    }
    if n >= 10 {
        s.append(digit_str((n / 10) % 10));
    }
    s.append(digit_str(n % 10));
    proof {
        let m = n as nat;
        if m >= 100 {
            assert(decimal(m / 100) == seq![digit_char(m / 100)]);
            assert(decimal(m / 10) == decimal(m / 100).push(digit_char((m / 10) % 10)));
        } else if m >= 10 {
            assert(decimal(m / 10) == seq![digit_char(m / 10)]);
        }
    }
    s
}

/// Appends the UTF-8 bytes of `s` to `bytes`.
pub fn push_str_bytes(bytes: &mut Vec<u8>, s: &str)
    ensures
        final(bytes)@ == old(bytes)@ + encode_utf8(s@),
{
    let raw = s.as_bytes();
    let mut i: usize = 0;
    while i < raw.len()
        invariant
            raw@ == encode_utf8(s@),
            i <= raw@.len(),
            bytes@ == old(bytes)@ + raw@.subrange(0, i as int),
        decreases raw@.len() - i,
    {
        bytes.push(raw[i]);
        proof {
            assert(raw@.subrange(0, i + 1) == raw@.subrange(0, i as int).push(raw@[i as int]));
        }
        i += 1;
    }
    assert(raw@.subrange(0, raw@.len() as int) == raw@);
}

} // verus!
