//! Laws about numbers and white space in text.

use vstd::prelude::*;

use crate::text;

verus! {

/// The value of a character as a digit.
pub open spec fn digit_value(c: char) -> int {
    if '0' <= c <= '9' {
        c as int - 48
    } else {
        c as int - 87
    }
}

/// The value of a numeral in base `base`.
pub open spec fn numeral_value(s: Seq<char>, base: int) -> int
    decreases s.len(),
{
    if s.len() == 0 {
        0
    } else {
        numeral_value(s.drop_last(), base) * base + digit_value(s.last())
    }
}

/// The decimal text of a number reads as that number, consists of decimal
/// digits, and has no leading zero.
pub proof fn decimal_reads_back(n: nat)
    ensures
        numeral_value(text::decimal(n), 10) == n,
        text::decimal(n).len() > 0,
        forall|i: int|
            0 <= i < text::decimal(n).len() ==> '0' <= #[trigger] text::decimal(n)[i] <= '9',
        n > 0 ==> text::decimal(n)[0] != '0',
        n == 0 ==> text::decimal(n).len() == 1,
    decreases n,
{
    let s = text::decimal(n);
    if n < 10 {
        assert(s.drop_last() =~= Seq::empty());
        assert(numeral_value(s.drop_last(), 10) == 0);
    } else {
        decimal_reads_back(n / 10);
        assert(s.drop_last() =~= text::decimal(n / 10));
        assert(s[0] == text::decimal(n / 10)[0]);
    }
}

/// Sixteen to the power `width`.
spec fn sixteens(width: nat) -> nat
    decreases width,
{
    if width == 0 {
        1
    } else {
        16 * sixteens((width - 1) as nat)
    }
}

proof fn hex_reads_back(n: nat, width: nat)
    requires
        n < sixteens(width),
    ensures
        numeral_value(text::hex(n, width), 16) == n,
        text::hex(n, width).len() == width,
    decreases width,
{
    if width > 0 {
        hex_reads_back(n / 16, (width - 1) as nat);
        assert(text::hex(n, width).drop_last() =~= text::hex(n / 16, (width - 1) as nat));
    }
}

/// The text of a fingerprint has eight characters and reads, in base sixteen, as
/// the fingerprint, all 32 bits of it.
pub proof fn fingerprint_reads_back(n: u32)
    ensures
        text::fingerprint(n).len() == 8,
        numeral_value(text::fingerprint(n), 16) == n,
{
    assert(sixteens(8) == 0x1_0000_0000) by {
        reveal_with_fuel(sixteens, 9);
    }
    hex_reads_back(n as nat, 8);
}

/// A trimmed text is what is left of the text between its first and its last
/// character that is no white space.
pub proof fn trimmed_is_the_middle(s: Seq<char>)
    ensures
        exists|i: int, j: int|
            0 <= i <= j <= s.len() && text::trimmed(s) == #[trigger] s.subrange(i, j) && (forall|
                k: int,
            |
                (0 <= k < i || j <= k < s.len()) ==> text::white_space(#[trigger] s[k])) && (i < j
                ==> !text::white_space(s[i]) && !text::white_space(s[j - 1])),
{
    let i = start_trimmed(s);
    let rest = s.skip(i);
    let m = end_trimmed(rest);
    let j = i + m;
    assert(rest.take(m) =~= s.subrange(i, j));
    assert forall|k: int| 0 <= k < i || j <= k < s.len() implies text::white_space(
        #[trigger] s[k],
    ) by {
        if k >= j {
            assert(rest[k - i] == s[k]);
        }
    }
    if i < j {
        assert(rest[0] == s[i]);
        assert(rest[m - 1] == s[j - 1]);
    }
}

proof fn start_trimmed(s: Seq<char>) -> (i: int)
    ensures
        0 <= i <= s.len(),
        text::trimmed_start(s) == s.skip(i),
        forall|k: int| 0 <= k < i ==> text::white_space(#[trigger] s[k]),
        i < s.len() ==> !text::white_space(s[i]),
    decreases s.len(),
{
    if s.len() > 0 && text::white_space(s[0]) {
        let rest = s.drop_first();
        let i = start_trimmed(rest);
        assert(rest.skip(i) =~= s.skip(i + 1));
        assert forall|k: int| 0 <= k < i + 1 implies text::white_space(#[trigger] s[k]) by {
            if k > 0 {
                assert(rest[k - 1] == s[k]);
            }
        }
        i + 1
    } else {
        assert(s.skip(0) =~= s);
        0
    }
}

proof fn end_trimmed(s: Seq<char>) -> (j: int)
    ensures
        0 <= j <= s.len(),
        text::trimmed_end(s) == s.take(j),
        forall|k: int| j <= k < s.len() ==> text::white_space(#[trigger] s[k]),
        j > 0 ==> !text::white_space(s[j - 1]),
    decreases s.len(),
{
    if s.len() > 0 && text::white_space(s.last()) {
        let rest = s.drop_last();
        let j = end_trimmed(rest);
        assert(rest.take(j) =~= s.take(j));
        assert forall|k: int| j <= k < s.len() implies text::white_space(#[trigger] s[k]) by {
            if k < s.len() - 1 {
                assert(rest[k] == s[k]);
            }
        }
        j
    } else {
        assert(s.take(s.len() as int) =~= s);
        s.len() as int
    }
}

/// Joining no texts gives nothing, joining one gives that text, and joining more
/// is joining some, the separator, and joining the rest.
pub proof fn joined_in_parts(a: Seq<Seq<char>>, b: Seq<Seq<char>>, one: Seq<char>, separator: Seq<
    char,
>)
    requires
        a.len() > 0,
        b.len() > 0,
    ensures
        text::joined(Seq::empty(), separator) == Seq::<char>::empty(),
        text::joined(seq![one], separator) == one,
        text::joined(a + b, separator) == text::joined(a, separator) + separator + text::joined(
            b,
            separator,
        ),
    decreases b.len(),
{
    assert((a + b).drop_last() =~= a + b.drop_last());
    if b.len() > 1 {
        joined_in_parts(a, b.drop_last(), one, separator);
        assert(text::joined(a + b, separator) =~= text::joined(a, separator) + separator
            + text::joined(b, separator));
    } else {
        assert(a + b.drop_last() =~= a);
    }
}

} // verus!
