//! Building blocks for fixed-width text: padding, decimal numerals, joining
//! and prefix tests, each with its meaning as a sequence of characters.

use vstd::prelude::*;
use vstd::string::*;

verus! {

/// A run of `n` blanks.
pub open spec fn blanks(n: nat) -> Seq<char> {
    Seq::new(n, |i: int| ' ')
}

/// `s` followed by as many blanks as it takes to reach `width` characters;
/// `s` itself where it is already that long.
pub open spec fn left_justified(s: Seq<char>, width: nat) -> Seq<char> {
    if s.len() >= width {
        s
    } else {
        s + blanks((width - s.len()) as nat)
    }
}

/// `s` preceded by as many blanks as it takes to reach `width` characters;
/// `s` itself where it is already that long.
pub open spec fn right_justified(s: Seq<char>, width: nat) -> Seq<char> {
    if s.len() >= width {
        s
    } else {
        blanks((width - s.len()) as nat) + s
    }
}

/// Appends `n` blanks to `buf`.
pub fn push_blanks(buf: &mut String, n: usize)
    ensures
        final(buf)@ == old(buf)@ + blanks(n as nat),
{
    let mut i: usize = 0;
    while i < n
        invariant
            i <= n,
            buf@ == old(buf)@ + blanks(i as nat),
        decreases n - i,
    {
        proof {
            reveal_strlit(" ");
        }
        buf.append(" ");
        i += 1;
    }
}

/// Appends `s` to `buf`, left-justified in a field of `width` characters.
pub fn push_left_justified(buf: &mut String, s: &str, width: usize)
    ensures
        final(buf)@ == old(buf)@ + left_justified(s@, width as nat),
{
    let n: usize = s.unicode_len();
    buf.append(s);
    if n < width {
        push_blanks(buf, width - n);
    }
}

/// Appends `s` to `buf`, right-justified in a field of `width` characters.
pub fn push_right_justified(buf: &mut String, s: &str, width: usize)
    ensures
        final(buf)@ == old(buf)@ + right_justified(s@, width as nat),
{
    let n: usize = s.unicode_len();
    if n < width {
        push_blanks(buf, width - n);
    }
    buf.append(s);
}

/// The character that writes the digit `d`.
pub open spec fn digit(d: nat) -> char
    recommends
        d < 10,
{
    "0123456789"@[d as int]
}

/// The decimal numeral of `n`: no sign, no leading zero, `"0"` for zero.
pub open spec fn decimal(n: nat) -> Seq<char>
    decreases n,
{
    if n < 10 {
        seq![digit(n)]
    } else {
        decimal(n / 10).push(digit(n % 10))
    }
}

/// The one-character text of the digit `d`.
pub fn digit_text(d: usize) -> (s: &'static str)
    requires
        d < 10,
    ensures
        s@ == seq![digit(d as nat)],
{
    let digits: &'static str = "0123456789";
    proof {
        reveal_strlit("0123456789");
    }
    digits.substring_char(d, d + 1)
}

/// Appends the decimal numeral of `n` to `buf`.
pub fn push_decimal(buf: &mut String, n: usize)
    ensures
        final(buf)@ == old(buf)@ + decimal(n as nat),
    decreases n,
{
    if n >= 10 {
        push_decimal(buf, n / 10);
    }
    buf.append(digit_text(n % 10));
}

/// The decimal numeral of `n` as a string of its own.
pub fn decimal_text(n: usize) -> (s: String)
    ensures
        s@ == decimal(n as nat),
{
    let mut s = String::new();
    push_decimal(&mut s, n);
    s
}

/// The parts written one after another with `sep` between neighbours:
/// nothing for no parts, and no separator before the first or after the last.
pub open spec fn joined(parts: Seq<Seq<char>>, sep: Seq<char>) -> Seq<char>
    decreases parts.len(),
{
    if parts.len() == 0 {
        Seq::empty()
    } else if parts.len() == 1 {
        parts[0]
    } else {
        joined(parts.drop_last(), sep) + sep + parts.last()
    }
}

/// Appends the parts to `buf`, with `sep` between neighbours.
pub fn push_joined(buf: &mut String, parts: &Vec<String>, sep: &str)
    ensures
        final(buf)@ == old(buf)@ + joined(parts.deep_view(), sep@),
{
    let ghost all = parts.deep_view();
    let mut k: usize = 0;
    while k < parts.len()
        invariant
            k <= parts.len(),
            all == parts.deep_view(),
            buf@ == old(buf)@ + joined(all.take(k as int), sep@),
        decreases parts.len() - k,
    {
        proof {
            let after = all.take(k + 1);
            assert(after.drop_last() == all.take(k as int));
        }
        if k > 0 {
            buf.append(sep);
        }
        buf.append(parts[k].as_str());
        k += 1;
    }
    assert(all.take(k as int) == all);
}

/// The parts joined by `sep`, as a string of its own.
pub fn join(parts: &Vec<String>, sep: &str) -> (s: String)
    ensures
        s@ == joined(parts.deep_view(), sep@),
{
    let mut s = String::new();
    push_joined(&mut s, parts, sep);
    s
}

/// Whether `s` begins with `prefix`, character for character.
pub fn starts_with(s: &str, prefix: &str) -> (b: bool)
    ensures
        b == prefix@.is_prefix_of(s@),
{
    let n: usize = prefix.unicode_len();
    let m: usize = s.unicode_len();
    if n > m {
        return false;
    }
    let mut i: usize = 0;
    while i < n
        invariant
            i <= n <= m,
            n == prefix@.len(),
            m == s@.len(),
            forall|j: int| 0 <= j < i ==> s@[j] == prefix@[j],
        decreases n - i,
    {
        if s.get_char(i) != prefix.get_char(i) {
            return false;
        }
        i += 1;
    }
    true
}

} // verus!
