//! Laws about firmware versions.

use vstd::prelude::*;

use crate::laws::numerals;
use crate::text;
use crate::types;

verus! {

/// Numbers with dots between them, such as `1.0.34`.
pub open spec fn dotted(numbers: Seq<nat>) -> Seq<char>
    decreases numbers.len(),
{
    if numbers.len() == 0 {
        Seq::empty()
    } else if numbers.len() == 1 {
        text::decimal(numbers[0])
    } else {
        dotted(numbers.drop_last()) + seq!['.'] + text::decimal(numbers.last())
    }
}

/// The number at position `k`, zero past the end. Numbers of more than 64 bits
/// count as the largest of 64 bits.
pub open spec fn part(numbers: Seq<nat>, k: int) -> nat {
    if 0 <= k < numbers.len() {
        if numbers[k] > 0xffff_ffff_ffff_ffff {
            0xffff_ffff_ffff_ffff
        } else {
            numbers[k]
        }
    } else {
        0
    }
}

/// Whether the first position at which two versions differ is `k`, and the first
/// version has the smaller number there.
pub open spec fn falls_short_at(a: Seq<nat>, b: Seq<nat>, k: int) -> bool {
    &&& 0 <= k
    &&& part(a, k) < part(b, k)
    &&& forall|j: int| 0 <= j < k ==> #[trigger] part(a, j) == part(b, j)
}

/// The nearest number that a version holds.
spec fn clamped(n: nat) -> u64 {
    if n > u64::MAX {
        u64::MAX
    } else {
        n as u64
    }
}

proof fn decimal_consumed(s: Seq<char>, i: int, n: nat, done: Seq<u64>)
    requires
        0 <= i,
        i + text::decimal(n).len() <= s.len(),
        s.subrange(i, i + text::decimal(n).len()) == text::decimal(n),
    ensures
        types::version_tail(s, i, done, 0) == types::version_tail(
            s,
            i + text::decimal(n).len(),
            done,
            clamped(n),
        ),
    decreases n,
{
    let d = text::decimal(n);
    numerals::decimal_reads_back(n);
    if n < 10 {
        assert(s[i] == d[0]);
        assert(types::with_digit(0, s[i]) == clamped(n));
    } else {
        let e = text::decimal(n / 10);
        assert(s.subrange(i, i + e.len()) =~= e) by {
            assert forall|k: int| 0 <= k < e.len() implies s[i + k] == e[k] by {
                assert(s.subrange(i, i + d.len())[k] == d[k]);
            }
        }
        decimal_consumed(s, i, n / 10, done);
        let at = i + e.len();
        assert(s[at] == s.subrange(i, i + d.len())[e.len() as int]);
        assert(s[at] == text::digit(n % 10));
        assert(types::with_digit(clamped(n / 10), s[at]) == clamped(n));
    }
}

spec fn clamped_all(numbers: Seq<nat>) -> Seq<u64> {
    numbers.map_values(|n: nat| clamped(n))
}

proof fn dotted_consumed(s: Seq<char>, numbers: Seq<nat>)
    requires
        numbers.len() > 0,
        dotted(numbers).is_prefix_of(s),
    ensures
        types::version_tail(s, 0, Seq::empty(), 0) == types::version_tail(
            s,
            dotted(numbers).len() as int,
            clamped_all(numbers.drop_last()),
            clamped(numbers.last()),
        ),
    decreases numbers.len(),
{
    let whole = dotted(numbers);
    if numbers.len() == 1 {
        assert(s.subrange(0, whole.len() as int) =~= whole);
        decimal_consumed(s, 0, numbers[0], Seq::empty());
        assert(clamped_all(numbers.drop_last()) =~= Seq::empty());
    } else {
        let rest = numbers.drop_last();
        let p = dotted(rest).len() as int;
        let d = text::decimal(numbers.last());
        assert(whole.take(p) =~= dotted(rest));
        assert(s.take(whole.len() as int) =~= whole);
        assert(dotted(rest) =~= s.take(p)) by {
            assert forall|k: int| 0 <= k < p implies s[k] == dotted(rest)[k] by {
                assert(whole[k] == s[k]);
            }
        }
        dotted_consumed(s, rest);
        assert(whole[p] == '.');
        assert(s[p] == '.');
        assert(clamped_all(rest.drop_last()).push(clamped(rest.last())) =~= clamped_all(rest));
        assert(s.subrange(p + 1, p + 1 + d.len()) =~= d) by {
            assert forall|k: int| 0 <= k < d.len() implies s[p + 1 + k] == d[k] by {
                assert(whole[p + 1 + k] == s[p + 1 + k]);
            }
        }
        decimal_consumed(s, p + 1, numbers.last(), clamped_all(rest));
    }
}

/// A version that begins with numbers and dots is read as those numbers.
proof fn numbers_are_read(numbers: Seq<nat>, suffix: Seq<char>)
    requires
        numbers.len() > 0,
        suffix.len() > 0 ==> suffix[0] != '.' && !('0' <= suffix[0] <= '9'),
    ensures
        types::version_numbers(dotted(numbers) + suffix) == clamped_all(numbers),
{
    let s = dotted(numbers) + suffix;
    assert(dotted(numbers) =~= s.take(dotted(numbers).len() as int));
    dotted_consumed(s, numbers);
    assert(clamped_all(numbers.drop_last()).push(clamped(numbers.last())) =~= clamped_all(
        numbers,
    ));
}

spec fn short_from(a: Seq<u64>, b: Seq<u64>, i: int, k: int) -> bool {
    &&& i <= k
    &&& types::version_part(a, k) < types::version_part(b, k)
    &&& forall|j: int|
        i <= j < k ==> #[trigger] types::version_part(a, j) == types::version_part(b, j)
}

proof fn order_from(a: Seq<u64>, b: Seq<u64>, i: int)
    requires
        0 <= i,
    ensures
        types::not_before(a, b, i) <==> !(exists|k: int| short_from(a, b, i, k)),
    decreases types::longer(a.len(), b.len()) - i,
{
    if i >= a.len() && i >= b.len() {
    } else if types::version_part(a, i) != types::version_part(b, i) {
        if types::version_part(a, i) < types::version_part(b, i) {
            assert(short_from(a, b, i, i));
        } else {
            assert forall|k: int| !short_from(a, b, i, k) by {
                if k > i && short_from(a, b, i, k) {
                    assert(types::version_part(a, i) == types::version_part(b, i));
                }
            }
        }
    } else {
        let next = i + 1;
        order_from(a, b, next);
        if exists|k: int| short_from(a, b, i, k) {
            let k = choose|k: int| short_from(a, b, i, k);
            assert(short_from(a, b, next, k));
        }
        if exists|k: int| short_from(a, b, next, k) {
            let k = choose|k: int| short_from(a, b, next, k);
            assert(short_from(a, b, i, k));
        }
    }
}

/// Versions are ordered by the first number in which they differ, where a number
/// that is missing counts as zero, and what follows the numbers does not matter.
pub proof fn versions_are_ordered_by_their_numbers(
    a: Seq<nat>,
    a_suffix: Seq<char>,
    b: Seq<nat>,
    b_suffix: Seq<char>,
)
    requires
        a.len() > 0,
        b.len() > 0,
        a_suffix.len() > 0 ==> a_suffix[0] != '.' && !('0' <= a_suffix[0] <= '9'),
        b_suffix.len() > 0 ==> b_suffix[0] != '.' && !('0' <= b_suffix[0] <= '9'),
    ensures
        types::at_least(dotted(a) + a_suffix, dotted(b) + b_suffix) <==> !(exists|k: int|
            falls_short_at(a, b, k)),
{
    numbers_are_read(a, a_suffix);
    numbers_are_read(b, b_suffix);
    let (x, y) = (clamped_all(a), clamped_all(b));
    assert forall|k: int|
        #![trigger types::version_part(x, k)]
        #![trigger part(a, k)]
        types::version_part(x, k) == part(a, k) by {}
    assert forall|k: int|
        #![trigger types::version_part(y, k)]
        #![trigger part(b, k)]
        types::version_part(y, k) == part(b, k) by {}
    order_from(x, y, 0);
    if exists|k: int| short_from(x, y, 0, k) {
        let k = choose|k: int| short_from(x, y, 0, k);
        assert forall|j: int| 0 <= j < k implies #[trigger] part(a, j) == part(b, j) by {
            assert(types::version_part(x, j) == types::version_part(y, j));
        }
        assert(falls_short_at(a, b, k));
    }
    if exists|k: int| falls_short_at(a, b, k) {
        let k = choose|k: int| falls_short_at(a, b, k);
        assert forall|j: int| 0 <= j < k implies #[trigger] types::version_part(x, j)
            == types::version_part(y, j) by {
            assert(part(a, j) == part(b, j));
        }
        assert(short_from(x, y, 0, k));
    }
}

} // verus!
