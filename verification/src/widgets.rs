//! Display formatting of gold-piece amounts.
use vstd::prelude::*;

use crate::text::{
    all_digits, dec, decimal, digit_char, digit_value, digits_value, is_digit, parse_i64_spec, push_char,
    unsigned_digits,
};

verus! {

/// `d` with a `,` between every group of three digits, counted from the right.
pub open spec fn group_thousands(d: Seq<char>) -> Seq<char>
    decreases d.len(),
{
    if d.len() <= 3 {
        d
    } else {
        group_thousands(d.subrange(0, d.len() - 3)) + seq![','] + d.subrange(d.len() - 3, d.len() as int)
    }
}

/// The magnitude of an `i64`, as `i64::unsigned_abs` gives it.
pub open spec fn magnitude(amount: i64) -> nat {
    if amount < 0 { (0 - amount) as nat } else { amount as nat }
}

/// `amount` with thousands separators, e.g. -1234567 -> "-1,234,567".
pub open spec fn format_gp_spec(amount: i64) -> Seq<char> {
    let grouped = group_thousands(dec(magnitude(amount)));
    if amount < 0 { seq!['-'] + grouped } else { grouped }
}

/// `s` with every `,` removed.
pub open spec fn strip_commas(s: Seq<char>) -> Seq<char>
    decreases s.len(),
{
    if s.len() == 0 {
        s
    } else if s.last() == ',' {
        strip_commas(s.drop_last())
    } else {
        strip_commas(s.drop_last()).push(s.last())
    }
}

/// Appends `group_thousands(d[..k])` to `out`.
fn push_grouped(out: &mut String, d: &str, k: usize)
    requires
        k <= d@.len(),
    ensures
        final(out)@ == old(out)@ + group_thousands(d@.subrange(0, k as int)),
    decreases k,
{
    let ghost pre = d@.subrange(0, k as int);
    if k <= 3 {
        let ghost start = out@;
        let mut i: usize = 0;
        while i < k
            invariant
                i <= k <= 3,
                k <= d@.len(),
                out@ == start + d@.subrange(0, i as int),
            decreases k - i,
        {
            push_char(out, d.get_char(i));
            assert(d@.subrange(0, i + 1) =~= d@.subrange(0, i as int).push(d@[i as int]));
            i = i + 1;
        }
    } else {
        push_grouped(out, d, k - 3);
        assert(pre.subrange(0, pre.len() - 3) =~= d@.subrange(0, k - 3));
        let ghost mid = out@;
        push_char(out, ',');
        push_char(out, d.get_char(k - 3));
        push_char(out, d.get_char(k - 2));
        push_char(out, d.get_char(k - 1));
        assert(pre.subrange(pre.len() - 3, pre.len() as int) =~= seq![
            d@[k - 3],
            d@[k - 2],
            d@[k - 1],
        ]);
        assert(out@ =~= mid + seq![','] + pre.subrange(pre.len() - 3, pre.len() as int));
    }
}

/// Formats a signed amount with thousands separators, e.g.
/// -1234567 -> "-1,234,567".
pub fn format_gp(amount: i64) -> (r: String)
    ensures
        r@ == format_gp_spec(amount),
{
    let neg = amount < 0;
    let mag: u64 = if neg { (0 - (amount as i128)) as u64 } else { amount as u64 };
    let digits = decimal(mag);
    let mut out = String::new();
    if neg {
        push_char(&mut out, '-');
    }
    let ghost start = out@;
    let n = digits.as_str().unicode_len();
    push_grouped(&mut out, digits.as_str(), n);
    assert(digits@.subrange(0, n as int) =~= digits@);
    out
}

proof fn lemma_strip_concat(a: Seq<char>, b: Seq<char>)
    ensures
        strip_commas(a + b) == strip_commas(a) + strip_commas(b),
    decreases b.len(),
{
    if b.len() == 0 {
        assert(a + b =~= a);
        assert(strip_commas(a) + strip_commas(b) =~= strip_commas(a));
    } else {
        assert((a + b).drop_last() =~= a + b.drop_last());
        lemma_strip_concat(a, b.drop_last());
        if b.last() == ',' {
        } else {
            assert(strip_commas(a) + strip_commas(b.drop_last()).push(b.last()) =~= (strip_commas(a)
                + strip_commas(b.drop_last())).push(b.last()));
        }
    }
}

proof fn lemma_strip_digits(d: Seq<char>)
    requires
        forall|i: int| 0 <= i < d.len() ==> is_digit(#[trigger] d[i]),
    ensures
        strip_commas(d) == d,
    decreases d.len(),
{
    if d.len() > 0 {
        assert(d[d.len() - 1] == d.last());
        lemma_strip_digits(d.drop_last());
        assert(d.drop_last().push(d.last()) =~= d);
    }
}

proof fn lemma_strip_grouped(d: Seq<char>)
    ensures
        strip_commas(group_thousands(d)) == strip_commas(d),
    decreases d.len(),
{
    if d.len() > 3 {
        let head = d.subrange(0, d.len() - 3);
        let tail = d.subrange(d.len() - 3, d.len() as int);
        lemma_strip_grouped(head);
        lemma_strip_concat(group_thousands(head) + seq![','], tail);
        lemma_strip_concat(group_thousands(head), seq![',']);
        assert(seq![','].drop_last() =~= Seq::<char>::empty());
        assert(seq![','].last() == ',');
        assert(strip_commas(Seq::<char>::empty()) == Seq::<char>::empty());
        assert(strip_commas(seq![',']) =~= Seq::<char>::empty());
        assert(head + tail =~= d);
        lemma_strip_concat(head, tail);
    }
}

proof fn lemma_dec_digits(n: nat)
    ensures
        forall|i: int| 0 <= i < dec(n).len() ==> is_digit(#[trigger] dec(n)[i]),
    decreases n,
{
    if n >= 10 {
        lemma_dec_digits(n / 10);
        let m = (n % 10) as int;
        assert(is_digit(digit_char(m)));
        assert forall|i: int| 0 <= i < dec(n).len() implies is_digit(#[trigger] dec(n)[i]) by {
            if i < dec(n / 10).len() {
                assert(dec(n)[i] == dec(n / 10)[i]);
            }
        }
    } else {
        assert(is_digit(digit_char(n as int)));
    }
}

/// Removing the separators from a formatted amount gives back the plain
/// decimal digits of its magnitude, after the sign.
pub proof fn law_format_gp_digits(amount: i64)
    ensures
        strip_commas(format_gp_spec(amount)) == (if amount < 0 {
            seq!['-'] + dec(magnitude(amount))
        } else {
            dec(magnitude(amount))
        }),
{
    let d = dec(magnitude(amount));
    lemma_dec_digits(magnitude(amount));
    lemma_strip_grouped(d);
    lemma_strip_digits(d);
    if amount < 0 {
        lemma_strip_concat(seq!['-'], group_thousands(d));
        assert(seq!['-'].drop_last() =~= Seq::<char>::empty());
        assert(seq!['-'].last() == '-');
        assert(strip_commas(Seq::<char>::empty()) == Seq::<char>::empty());
        assert(Seq::<char>::empty().push('-') =~= seq!['-']);
        assert(strip_commas(seq!['-']) =~= seq!['-']);
    }
}

/// Amounts below one thousand in magnitude carry no separator.
pub proof fn law_format_gp_small(amount: i64)
    requires
        -1000 < amount < 1000,
    ensures
        group_thousands(dec(magnitude(amount))) == dec(magnitude(amount)),
{
    let m = magnitude(amount);
    assert(m < 1000);
    if m >= 100 {
        assert(m / 10 >= 10 && m / 10 / 10 < 10);
        assert(dec(m / 10 / 10).len() == 1);
        assert(dec(m / 10).len() == 2);
        assert(dec(m).len() == 3);
    } else if m >= 10 {
        assert(m / 10 < 10);
        assert(dec(m / 10).len() == 1);
        assert(dec(m).len() == 2);
    } else {
        assert(dec(m).len() == 1);
    }
}

/// `g` is a run of digits split by `,` into groups: the first of one to three
/// digits, each later one of exactly three (a `,` stands exactly where the
/// number of characters from it to the end is a multiple of four).
pub open spec fn grouped_digits(g: Seq<char>) -> bool {
    &&& g.len() % 4 != 0
    &&& forall|i: int| 0 <= i < g.len() ==> ((#[trigger] g[i] == ',') <==> (g.len() - i) % 4 == 0)
    &&& forall|i: int| 0 <= i < g.len() && #[trigger] g[i] != ',' ==> is_digit(g[i])
}

proof fn lemma_digit_value(d: int)
    requires
        0 <= d < 10,
    ensures
        digit_value(digit_char(d)) == d,
        is_digit(digit_char(d)),
{
}

proof fn lemma_dec_value(n: nat)
    ensures
        digits_value(dec(n)) == n,
        dec(n).len() > 0,
    decreases n,
{
    lemma_digit_value((n % 10) as int);
    let d = dec(n);
    if n >= 10 {
        lemma_dec_value(n / 10);
        assert(d.drop_last() =~= dec(n / 10));
        assert(d.last() == digit_char((n % 10) as int));
        assert(digits_value(d) == digits_value(dec(n / 10)) * 10 + digit_value(d.last()));
        assert((n / 10) * 10 + n % 10 == n);
    } else {
        assert(d.drop_last() =~= Seq::<char>::empty());
        assert(d.last() == digit_char(n as int));
        assert(digits_value(d) == digits_value(d.drop_last()) * 10 + digit_value(d.last()));
    }
}

proof fn lemma_grouped(d: Seq<char>)
    requires
        d.len() > 0,
        all_digits(d),
    ensures
        grouped_digits(group_thousands(d)),
    decreases d.len(),
{
    let g = group_thousands(d);
    if d.len() <= 3 {
        assert forall|i: int| 0 <= i < g.len() implies ((#[trigger] g[i] == ',') <==> (g.len() - i) % 4
            == 0) by {
            assert(is_digit(d[i]));
        }
    } else {
        let head = d.subrange(0, d.len() - 3);
        let tail = d.subrange(d.len() - 3, d.len() as int);
        assert forall|i: int| 0 <= i < head.len() implies is_digit(#[trigger] head[i]) by {
            assert(head[i] == d[i]);
        }
        lemma_grouped(head);
        let h = group_thousands(head);
        assert(g == h + seq![','] + tail);
        assert forall|i: int| 0 <= i < g.len() implies ((#[trigger] g[i] == ',') <==> (g.len() - i) % 4
            == 0) by {
            if i < h.len() {
                assert(g[i] == h[i]);
                assert((g.len() - i) % 4 == (h.len() - i) % 4);
            } else if i > h.len() {
                assert(g[i] == tail[i - h.len() - 1]);
                assert(is_digit(d[d.len() - 3 + (i - h.len() - 1)]));
            }
        }
        assert forall|i: int| 0 <= i < g.len() && #[trigger] g[i] != ',' implies is_digit(g[i]) by {
            if i < h.len() {
                assert(g[i] == h[i]);
            } else if i > h.len() {
                assert(g[i] == tail[i - h.len() - 1]);
                assert(is_digit(d[d.len() - 3 + (i - h.len() - 1)]));
            }
        }
    }
}

/// A formatted amount starts with `-` exactly when the amount is negative;
/// after the sign its digits are grouped by `,` into a first group of one to
/// three digits and later groups of exactly three; and with the separators
/// removed it parses back (`str::parse::<i64>`) to the amount.
pub proof fn law_format_gp_shape(amount: i64)
    ensures
        format_gp_spec(amount).len() > 0,
        (format_gp_spec(amount)[0] == '-') == (amount < 0),
        grouped_digits(
            if amount < 0 { format_gp_spec(amount).drop_first() } else { format_gp_spec(amount) },
        ),
        parse_i64_spec(strip_commas(format_gp_spec(amount))) == Some(amount),
{
    let m = magnitude(amount);
    let d = dec(m);
    lemma_dec_value(m);
    lemma_dec_digits(m);
    assert(all_digits(d));
    lemma_grouped(d);
    let g = group_thousands(d);
    law_format_gp_digits(amount);
    if amount < 0 {
        assert((seq!['-'] + g).drop_first() =~= g);
        let t = seq!['-'] + d;
        assert(t.drop_first() =~= d);
        assert(t[0] == '-');
    } else {
        assert(g[0] != ',' && is_digit(g[0])) by {
            assert((g.len() - 0) % 4 != 0);
        }
        assert(d[0] != '+' && is_digit(d[0]));
        assert(unsigned_digits(d) == Some(d));
    }
}

/// How an amount is coloured: a gain, a loss, or neither.
#[derive(Debug, Clone, Copy, PartialEq, Eq, Structural)]
pub enum AmountTone {
    Gain,
    Loss,
    Neutral,
}

/// The tone of an amount: positive amounts are gains, negative ones losses.
pub fn amount_tone(amount: i64) -> (r: AmountTone)
    ensures
        r == (if amount > 0 {
            AmountTone::Gain
        } else if amount < 0 {
            AmountTone::Loss
        } else {
            AmountTone::Neutral
        }),
{
    if amount > 0 {
        AmountTone::Gain
    } else if amount < 0 {
        AmountTone::Loss
    } else {
        AmountTone::Neutral
    }
}

/// An amount as shown in a label, e.g. "-1,234 gp".
pub fn gp_text(amount: i64) -> (r: String)
    ensures
        r@ == format_gp_spec(amount) + " gp"@,
{
    let mut s = format_gp(amount);
    s.append(" gp");
    s
}

} // verus!
