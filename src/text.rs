//! Text helpers: comparing, joining and reading decimal numbers.

use vstd::prelude::*;
use vstd::string::*;

verus! {

/// The characters of each string, in order.
pub open spec fn texts_view(v: Seq<String>) -> Seq<Seq<char>> {
    v.map_values(|s: String| s@)
}

/// The parts written one after another, with an underscore between neighbours.
pub open spec fn joined(parts: Seq<Seq<char>>) -> Seq<char>
    decreases parts.len(),
{
    if parts.len() == 0 {
        Seq::empty()
    } else if parts.len() == 1 {
        parts[0]
    } else {
        joined(parts.drop_last()) + seq!['_'] + parts.last()
    }
}

pub open spec fn is_decimal_digit(c: char) -> bool {
    '0' <= c && c <= '9'
}

/// A non-empty run of decimal digits.
pub open spec fn all_digits(s: Seq<char>) -> bool {
    s.len() > 0 && forall|i: int| 0 <= i < s.len() ==> is_decimal_digit(#[trigger] s[i])
}

/// The number that a run of decimal digits denotes.
pub open spec fn digits_value(s: Seq<char>) -> int
    decreases s.len(),
{
    if s.len() == 0 {
        0
    } else {
        digits_value(s.drop_last()) * 10 + (s.last() as int - '0' as int)
    }
}

/// The text without a leading `+`, if it has one.
pub open spec fn without_plus(s: Seq<char>) -> Seq<char> {
    if s.len() > 0 && s[0] == '+' {
        s.drop_first()
    } else {
        s
    }
}

/// An unsigned decimal number: an optional `+`, then digits, within `u32`.
pub open spec fn parsed_u32(s: Seq<char>) -> Option<u32> {
    let d = without_plus(s);
    if all_digits(d) && digits_value(d) <= u32::MAX {
        Some(digits_value(d) as u32)
    } else {
        None
    }
}

/// A signed decimal number: an optional `+` or `-`, then digits, within `i32`.
pub open spec fn parsed_i32(s: Seq<char>) -> Option<i32> {
    if s.len() > 0 && s[0] == '-' {
        let d = s.drop_first();
        if all_digits(d) && -digits_value(d) >= i32::MIN {
            Some((-digits_value(d)) as i32)
        } else {
            None
        }
    } else {
        let d = without_plus(s);
        if all_digits(d) && digits_value(d) <= i32::MAX {
            Some(digits_value(d) as i32)
        } else {
            None
        }
    }
}

/// A run of digits is worth at least as much as any of its prefixes.
proof fn digits_value_grows(t: Seq<char>, k: int)
    requires
        0 <= k <= t.len(),
        forall|i: int| 0 <= i < t.len() ==> is_decimal_digit(#[trigger] t[i]),
    ensures
        digits_value(t.subrange(0, k)) <= digits_value(t),
        digits_value(t) >= 0,
    decreases t.len(),
{
    if t.len() > 0 {
        digits_value_grows(t.drop_last(), if k == t.len() { k - 1 } else { k });
        if k == t.len() {
            assert(t.subrange(0, k) =~= t);
        } else {
            assert(t.drop_last().subrange(0, k) =~= t.subrange(0, k));
        }
    } else {
        assert(t.subrange(0, k) =~= t);
    }
}

/// The value of the digits of `s` from `start` on, when all of them are
/// digits, there is at least one, and the value is at most `limit`.
fn read_digits(s: &str, start: usize, limit: u64) -> (r: Option<u64>)
    requires
        start <= s@.len(),
        limit <= u32::MAX + 1,
    ensures
        r is Some <==> (all_digits(s@.subrange(start as int, s@.len() as int)) && digits_value(
            s@.subrange(start as int, s@.len() as int),
        ) <= limit),
        r matches Some(v) ==> v <= limit && v as int == digits_value(
            s@.subrange(start as int, s@.len() as int),
        ),
{
    let n = s.unicode_len();
    let ghost d = s@.subrange(start as int, n as int);
    if start >= n {
        return None;
    }
    let mut i: usize = start;
    let mut v: u64 = 0;
    while i < n
        invariant
            n == s@.len(),
            start <= i <= n,
            d == s@.subrange(start as int, n as int),
            limit <= u32::MAX + 1,
            v <= limit,
            v as int == digits_value(d.subrange(0, i - start)),
            forall|k: int| 0 <= k < i - start ==> is_decimal_digit(#[trigger] d[k]),
        decreases n - i,
    {
        let c = s.get_char(i);
        assert(d[i - start] == c);
        if !('0' <= c && c <= '9') {
            assert(!is_decimal_digit(d[i - start]));
            return None;
        }
        assert(d.subrange(0, i - start + 1).drop_last() =~= d.subrange(0, i - start));
        let next: u64 = v * 10 + ((c as u32) - ('0' as u32)) as u64;
        if next > limit {
            proof {
                if all_digits(d) {
                    digits_value_grows(d, i - start + 1);
                }
            }
            return None;
        }
        v = next;
        i = i + 1;
    }
    assert(d.subrange(0, n - start) =~= d);
    Some(v)
}

/// Reads an unsigned decimal number: an optional `+`, then digits.
pub fn read_u32(s: &str) -> (r: Option<u32>)
    ensures
        r == parsed_u32(s@),
{
    let n = s.unicode_len();
    let start: usize = if n > 0 && s.get_char(0) == '+' {
        1
    } else {
        0
    };
    assert(without_plus(s@) =~= s@.subrange(start as int, n as int));
    match read_digits(s, start, 0xffff_ffff) {
        Some(v) => Some(v as u32),
        None => None,
    }
}

/// Reads a signed decimal number: an optional `+` or `-`, then digits.
pub fn read_i32(s: &str) -> (r: Option<i32>)
    ensures
        r == parsed_i32(s@),
{
    let n = s.unicode_len();
    if n > 0 && s.get_char(0) == '-' {
        assert(s@.drop_first() =~= s@.subrange(1, n as int));
        match read_digits(s, 1, 0x8000_0000) {
            Some(v) => Some((0 - (v as i64)) as i32),
            None => None,
        }
    } else {
        let start: usize = if n > 0 && s.get_char(0) == '+' {
            1
        } else {
            0
        };
        assert(without_plus(s@) =~= s@.subrange(start as int, n as int));
        match read_digits(s, start, 0x7fff_ffff) {
            Some(v) => Some(v as i32),
            None => None,
        }
    }
}

/// Whether two texts hold the same characters.
pub fn same_text(a: &str, b: &str) -> (r: bool)
    ensures
        r == (a@ == b@),
{
    let x = a.to_owned();
    let y = b.to_owned();
    x == y
}

/// The strings joined with an underscore between neighbours.
pub fn join_with_underscore(parts: &Vec<String>) -> (r: String)
    ensures
        r@ == joined(texts_view(parts@)),
{
    let mut out = String::new();
    let mut i: usize = 0;
    while i < parts.len()
        invariant
            i <= parts.len(),
            out@ == joined(texts_view(parts@.subrange(0, i as int))),
        decreases parts.len() - i,
    {
        let ghost before = parts@.subrange(0, i as int);
        let ghost after = parts@.subrange(0, i as int + 1);
        assert(after.drop_last() == before);
        assert(texts_view(after).drop_last() == texts_view(before));
        if i > 0 {
            out.append("_");
            proof {
                reveal_strlit("_");
            }
        } else {
            assert(texts_view(after) == seq![parts@[0]@]);
        }
        out.append(parts[i].as_str());
        i = i + 1;
    }
    assert(parts@.subrange(0, parts@.len() as int) == parts@);
    out
}

} // verus!
