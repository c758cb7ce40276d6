//! Text that ends up on the wire or in error messages.
//!
//! Numbers are rendered here, rather than by the formatting machinery of the
//! standard library, so that every message has an exact meaning.

use vstd::prelude::*;
use vstd::string::{StrSliceExecFns, StringExecFns};

verus! {

/// The digit of value `d`, lowercase, for `d < 16`.
pub open spec fn digit(d: nat) -> char {
    if d < 10 {
        (48 + d) as char
    } else {
        (87 + d) as char
    }
}

/// `n` in base ten, without leading zeros.
pub open spec fn decimal(n: nat) -> Seq<char>
    decreases n,
{
    if n < 10 {
        seq![digit(n)]
    } else {
        decimal(n / 10).push(digit(n % 10))
    }
}

/// The lowest `width` hexadecimal digits of `n`, most significant first.
pub open spec fn hex(n: nat, width: nat) -> Seq<char>
    decreases width,
{
    if width == 0 {
        Seq::empty()
    } else {
        hex(n / 16, (width - 1) as nat).push(digit(n % 16))
    }
}

/// A key fingerprint as eight lowercase hexadecimal characters.
pub open spec fn fingerprint(n: u32) -> Seq<char> {
    hex(n as nat, 8)
}

/// The value of an optional text.
pub open spec fn optional(s: Option<String>) -> Option<Seq<char>> {
    match s {
        Some(s) => Some(s@),
        None => None,
    }
}

/// The items of `parts` with `separator` between neighbours.
pub open spec fn joined(parts: Seq<Seq<char>>, separator: Seq<char>) -> Seq<char>
    decreases parts.len(),
{
    if parts.len() == 0 {
        Seq::empty()
    } else if parts.len() == 1 {
        parts[0]
    } else {
        joined(parts.drop_last(), separator) + separator + parts.last()
    }
}

/// Whether `c` has the Unicode property White_Space.
pub open spec fn white_space(c: char) -> bool {
    let code = c as u32;
    ||| 0x09 <= code <= 0x0d
    ||| code == 0x20
    ||| code == 0x85
    ||| code == 0xa0
    ||| code == 0x1680
    ||| 0x2000 <= code <= 0x200a
    ||| code == 0x2028
    ||| code == 0x2029
    ||| code == 0x202f
    ||| code == 0x205f
    ||| code == 0x3000
}

/// `s` without its leading white space.
pub open spec fn trimmed_start(s: Seq<char>) -> Seq<char>
    decreases s.len(),
{
    if s.len() > 0 && white_space(s[0]) {
        trimmed_start(s.drop_first())
    } else {
        s
    }
}

/// `s` without its trailing white space.
pub open spec fn trimmed_end(s: Seq<char>) -> Seq<char>
    decreases s.len(),
{
    if s.len() > 0 && white_space(s.last()) {
        trimmed_end(s.drop_last())
    } else {
        s
    }
}

/// `s` without white space at either end.
pub open spec fn trimmed(s: Seq<char>) -> Seq<char> {
    trimmed_end(trimmed_start(s))
}

/// `char::is_whitespace`, which answers by the Unicode property White_Space.
pub assume_specification[ char::is_whitespace ](c: char) -> (r: bool)
    ensures
        r == white_space(c),
;

/// The digit of value `d` as text.
fn digit_text(d: u8) -> (r: &'static str)
    requires
        d < 16,
    ensures
        r@ == seq![digit(d as nat)],
{
    proof {
        reveal_strlit("0");
        reveal_strlit("1");
        reveal_strlit("2");
        reveal_strlit("3");
        reveal_strlit("4");
        reveal_strlit("5");
        reveal_strlit("6");
        reveal_strlit("7");
        reveal_strlit("8");
        reveal_strlit("9");
        reveal_strlit("a");
        reveal_strlit("b");
        reveal_strlit("c");
        reveal_strlit("d");
        reveal_strlit("e");
        reveal_strlit("f");
    }
    match d {
        0 => "0",
        1 => "1",
        2 => "2",
        3 => "3",
        4 => "4",
        5 => "5",
        6 => "6",
        7 => "7",
        8 => "8",
        9 => "9",
        10 => "a",
        11 => "b",
        12 => "c",
        13 => "d",
        14 => "e",
        _ => "f",
    }
}

/// Appends `n` in base ten.
pub fn push_decimal(out: &mut String, n: u64)
    ensures
        final(out)@ == old(out)@ + decimal(n as nat),
    decreases n,
{
    if n >= 10 {
        push_decimal(out, n / 10);
    }
    out.append(digit_text((n % 10) as u8));
}

/// Appends the lowest `width` hexadecimal digits of `n`.
fn push_hex(out: &mut String, n: u32, width: u8)
    ensures
        final(out)@ == old(out)@ + hex(n as nat, width as nat),
    decreases width,
{
    if width > 0 {
        push_hex(out, n / 16, width - 1);
        out.append(digit_text((n % 16) as u8));
    }
}

/// A key fingerprint as eight lowercase hexadecimal characters.
pub fn fingerprint_text(n: u32) -> (r: String)
    ensures
        r@ == fingerprint(n),
{
    let mut out = String::new();
    push_hex(&mut out, n, 8);
    out
}

/// `a` followed by `b`.
pub fn concat(a: &str, b: &str) -> (r: String)
    ensures
        r@ == a@ + b@,
{
    let mut out = a.to_owned();
    out.append(b);
    out
}

/// Whether the two texts are the same.
pub fn same(a: &str, b: &str) -> (r: bool)
    ensures
        r == (a@ == b@),
{
    a.to_owned() == b.to_owned()
}

/// Whether `text` begins with `prefix`.
pub fn starts_with(text: &str, prefix: &str) -> (r: bool)
    ensures
        r == prefix@.is_prefix_of(text@),
{
    let n: usize = prefix.unicode_len();
    if text.unicode_len() < n {
        return false;
    }
    same(text.substring_char(0, n), prefix)
}

/// `text` without white space at either end.
pub fn trim(text: &str) -> (r: &str)
    ensures
        r@ == trimmed(text@),
{
    let len: usize = text.unicode_len();
    let mut from: usize = 0;
    assert(text@.skip(0) =~= text@);
    while from < len && text.get_char(from).is_whitespace()
        invariant
            from <= len == text@.len(),
            trimmed_start(text@.skip(from as int)) == trimmed_start(text@),
        decreases len - from,
    {
        assert(text@.skip(from as int).drop_first() =~= text@.skip(from + 1));
        from += 1;
    }
    assert(trimmed_start(text@) == text@.skip(from as int));
    let mut to: usize = len;
    while to > from && text.get_char(to - 1).is_whitespace()
        invariant
            from <= to <= len == text@.len(),
            trimmed_end(text@.subrange(from as int, to as int)) == trimmed_end(
                text@.skip(from as int),
            ),
        decreases to,
    {
        assert(text@.subrange(from as int, to as int).drop_last() =~= text@.subrange(
            from as int,
            to - 1,
        ));
        to -= 1;
    }
    text.substring_char(from, to)
}

/// Whether text `a` comes before text `b` in the order of their characters.
pub open spec fn before(a: Seq<char>, b: Seq<char>) -> bool {
    exists|i: int|
        0 <= i < a.len() && i < b.len() && a.take(i) == b.take(i) && #[trigger] a[i] < b[i]
}

/// A fingerprint reads as eight lowercase hexadecimal characters.
pub proof fn fingerprint_characters(n: u32)
    ensures
        fingerprint(n).len() == 8,
        forall|i: int|
            0 <= i < 8 ==> {
                let c = #[trigger] fingerprint(n)[i];
                '0' <= c <= '9' || 'a' <= c <= 'f'
            },
{
    hex_characters(n as nat, 8);
}

/// Fingerprints are told apart, and put in order, by their texts as they are by
/// their numbers.
pub proof fn fingerprint_order(m: u32, n: u32)
    ensures
        fingerprint(m) == fingerprint(n) <==> m == n,
        before(fingerprint(m), fingerprint(n)) <==> m < n,
{
    assert(0x1_0000_0000 == sixteen_to(8)) by {
        reveal_with_fuel(sixteen_to, 9);
    }
    hex_characters(m as nat, 8);
    hex_characters(n as nat, 8);
    if m < n {
        hex_order(m as nat, n as nat, 8);
        not_both_before(fingerprint(m), fingerprint(n));
    } else if n < m {
        hex_order(n as nat, m as nat, 8);
        not_both_before(fingerprint(n), fingerprint(m));
    } else {
        assert(!before(fingerprint(m), fingerprint(n)));
    }
}

spec fn sixteen_to(width: nat) -> nat
    decreases width,
{
    if width == 0 {
        1
    } else {
        16 * sixteen_to((width - 1) as nat)
    }
}

proof fn hex_characters(n: nat, width: nat)
    ensures
        hex(n, width).len() == width,
        forall|i: int|
            0 <= i < width ==> {
                let c = #[trigger] hex(n, width)[i];
                '0' <= c <= '9' || 'a' <= c <= 'f'
            },
    decreases width,
{
    if width > 0 {
        hex_characters(n / 16, (width - 1) as nat);
    }
}

proof fn hex_order(m: nat, n: nat, width: nat)
    requires
        m < n < sixteen_to(width),
    ensures
        before(hex(m, width), hex(n, width)),
    decreases width,
{
    let (a, b) = (hex(m, width), hex(n, width));
    hex_characters(m, width);
    hex_characters(n, width);
    if width > 0 {
        let shorter = (width - 1) as nat;
        hex_characters(m / 16, shorter);
        hex_characters(n / 16, shorter);
        if m / 16 < n / 16 {
            hex_order(m / 16, n / 16, shorter);
            let (c, d) = (hex(m / 16, shorter), hex(n / 16, shorter));
            let i = choose|i: int|
                0 <= i < c.len() && i < d.len() && c.take(i) == d.take(i) && #[trigger] c[i] < d[i];
            assert(a.take(i) =~= c.take(i));
            assert(b.take(i) =~= d.take(i));
            assert(a[i] < b[i]);
        } else {
            assert(m / 16 == n / 16);
            assert(a.take(shorter as int) =~= hex(m / 16, shorter));
            assert(b.take(shorter as int) =~= hex(n / 16, shorter));
            assert(a[shorter as int] < b[shorter as int]);
        }
    }
}

proof fn not_both_before(a: Seq<char>, b: Seq<char>)
    requires
        before(a, b),
    ensures
        a != b,
        !before(b, a),
{
    let i = choose|i: int|
        0 <= i < a.len() && i < b.len() && a.take(i) == b.take(i) && #[trigger] a[i] < b[i];
    if before(b, a) {
        let j = choose|j: int|
            0 <= j < b.len() && j < a.len() && b.take(j) == a.take(j) && #[trigger] b[j] < a[j];
        if i < j {
            assert(b.take(j)[i] == a.take(j)[i]);
        } else if j < i {
            assert(a.take(i)[j] == b.take(i)[j]);
        }
    }
}

} // verus!
