//! Building text: decimal numerals and comma-separated lists.

use vstd::prelude::*;

verus! {

/// The ten decimal digits, in order.
pub const DIGITS: &'static str = "0123456789";

/// The decimal numeral of `n`, without leading zeros.
pub open spec fn decimal(n: nat) -> Seq<char>
    decreases n,
{
    if n < 10 {
        seq![DIGITS@[n as int]]
    } else {
        decimal(n / 10).push(DIGITS@[(n % 10) as int])
    }
}

/// `n` in thousandths as a decimal number with exactly three fraction
/// digits: `1050` reads `1.050`.
pub open spec fn fixed3(n: nat) -> Seq<char> {
    decimal(n / 1000) + "."@ + seq![
        DIGITS@[((n / 100) % 10) as int],
        DIGITS@[((n / 10) % 10) as int],
        DIGITS@[(n % 10) as int],
    ]
}

/// The items joined with a comma between each two.
pub open spec fn join(items: Seq<Seq<char>>) -> Seq<char>
    decreases items.len(),
{
    if items.len() == 0 {
        Seq::empty()
    } else if items.len() == 1 {
        items[0]
    } else {
        join(items.drop_last()) + ","@ + items.last()
    }
}

/// The number that a run of decimal digits writes.
pub open spec fn decimal_value(t: Seq<char>) -> int
    decreases t.len(),
{
    if t.len() == 0 {
        0
    } else {
        decimal_value(t.drop_last()) * 10 + (t.last() as u32 - 48)
    }
}

/// The number, in thousandths, that `i.ddd` writes: its integer digits
/// before the point and its three fraction digits after it.
pub open spec fn fixed3_value(t: Seq<char>) -> int {
    decimal_value(t.take(t.len() - 4)) * 1000 + decimal_value(t.subrange(t.len() - 3, t.len() as int))
}

proof fn lemma_digit(k: int)
    requires
        0 <= k < 10,
    ensures
        DIGITS@[k] as u32 - 48 == k,
{
    reveal_strlit("0123456789");
}

/// A decimal numeral reads back as the number it was made from.
pub proof fn decimal_reads_back(n: nat)
    ensures
        decimal_value(decimal(n)) == n,
    decreases n,
{
    lemma_digit((n % 10) as int);
    assert(decimal_value(Seq::<char>::empty()) == 0);
    if n < 10 {
        assert(decimal(n).drop_last() =~= Seq::<char>::empty());
        assert(decimal(n).last() == DIGITS@[n as int]);
        assert(decimal_value(decimal(n)) == decimal_value(decimal(n).drop_last()) * 10 + (
        DIGITS@[n as int] as u32 - 48));
    } else {
        decimal_reads_back(n / 10);
        assert(decimal(n).drop_last() =~= decimal(n / 10));
        assert(decimal(n).last() == DIGITS@[(n % 10) as int]);
        assert(decimal_value(decimal(n)) == decimal_value(decimal(n / 10)) * 10 + (
        DIGITS@[(n % 10) as int] as u32 - 48));
        assert((n / 10) * 10 + n % 10 == n) by (nonlinear_arith);
    }
}

/// A number in thousandths written with three fraction digits reads back as
/// that number.
pub proof fn fixed3_reads_back(n: nat)
    ensures
        fixed3_value(fixed3(n)) == n,
{
    let t = fixed3(n);
    let a = ((n / 100) % 10) as int;
    let b = ((n / 10) % 10) as int;
    let c = (n % 10) as int;
    reveal_strlit(".");
    assert(t.take(t.len() - 4) =~= decimal(n / 1000));
    decimal_reads_back(n / 1000);
    let f = t.subrange(t.len() - 3, t.len() as int);
    assert(f =~= seq![DIGITS@[a], DIGITS@[b], DIGITS@[c]]);
    lemma_digit(a);
    lemma_digit(b);
    lemma_digit(c);
    assert(f.drop_last() =~= seq![DIGITS@[a], DIGITS@[b]]);
    assert(f.drop_last().drop_last() =~= seq![DIGITS@[a]]);
    assert(f.drop_last().drop_last().drop_last() =~= Seq::<char>::empty());
    assert(decimal_value(Seq::<char>::empty()) == 0);
    assert(decimal_value(f.drop_last().drop_last()) == decimal_value(
        f.drop_last().drop_last().drop_last(),
    ) * 10 + (DIGITS@[a] as u32 - 48));
    assert(decimal_value(f.drop_last().drop_last()) == a);
    assert(decimal_value(f.drop_last()) == a * 10 + b);
    assert(decimal_value(f) == (a * 10 + b) * 10 + c);
    assert((n / 1000) * 1000 + a * 100 + b * 10 + c == n) by (nonlinear_arith)
        requires
            a == (n / 100) % 10,
            b == (n / 10) % 10,
            c == n % 10,
    ;
}

/// Appends the digit `d` to `out`.
fn append_digit(out: &mut String, d: u64)
    requires
        d < 10,
    ensures
        final(out)@ == old(out)@.push(DIGITS@[d as int]),
{
    proof {
        reveal_strlit("0123456789");
    }
    assert(DIGITS.is_ascii());
    let s = DIGITS.substring_ascii(d as usize, d as usize + 1);
    assert(s@ =~= seq![DIGITS@[d as int]]);
    out.append(s);
}

/// Appends the decimal numeral of `n` to `out`.
pub fn append_decimal(out: &mut String, n: u64)
    ensures
        final(out)@ == old(out)@ + decimal(n as nat),
    decreases n,
{
    if n < 10 {
        append_digit(out, n);
        assert(old(out)@.push(DIGITS@[n as int]) =~= old(out)@ + decimal(n as nat));
    } else {
        append_decimal(out, n / 10);
        append_digit(out, n % 10);
        assert(final(out)@ =~= old(out)@ + decimal(n as nat));
    }
}

/// Appends `n`, in thousandths, with three fraction digits.
pub fn append_fixed3(out: &mut String, n: u32)
    ensures
        final(out)@ == old(out)@ + fixed3(n as nat),
{
    let m = n as u64;
    append_decimal(out, m / 1000);
    proof {
        reveal_strlit(".");
    }
    out.append(".");
    append_digit(out, (m / 100) % 10);
    append_digit(out, (m / 10) % 10);
    append_digit(out, m % 10);
    assert(final(out)@ =~= old(out)@ + fixed3(n as nat));
}

/// Appends `item` to a comma-separated list held at the end of `out`.
pub fn append_item(
    out: &mut String,
    Ghost(prefix): Ghost<Seq<char>>,
    Ghost(items): Ghost<Seq<Seq<char>>>,
    first: bool,
    item: &str,
)
    requires
        old(out)@ == prefix + join(items),
        first == (items.len() == 0),
    ensures
        final(out)@ == prefix + join(items.push(item@)),
{
    let ghost grown = items.push(item@);
    assert(grown.drop_last() =~= items);
    if first {
        out.append(item);
        assert(join(grown) == item@);
        assert(final(out)@ =~= prefix + join(grown));
    } else {
        proof {
            reveal_strlit(",");
        }
        out.append(",");
        out.append(item);
        assert(final(out)@ =~= prefix + join(grown));
    }
}

} // verus!
