//! Big-endian byte values and base-36 numerals.
use vstd::prelude::*;

use crate::text::digit_char;

verus! {

/// 36 to the power `k`.
pub open spec fn pow36(k: nat) -> nat
    decreases k,
{
    if k == 0 {
        1
    } else {
        36 * pow36((k - 1) as nat)
    }
}

/// 256 to the power `k`.
pub open spec fn pow256(k: nat) -> nat
    decreases k,
{
    if k == 0 {
        1
    } else {
        256 * pow256((k - 1) as nat)
    }
}

/// The value of bytes read as a big-endian number.
pub open spec fn be_value(b: Seq<u8>) -> nat
    decreases b.len(),
{
    if b.len() == 0 {
        0
    } else {
        be_value(b.drop_last()) * 256 + b.last() as nat
    }
}

/// The big-endian bytes of a positive number, without leading zeros.
pub open spec fn be_digits(n: nat) -> Seq<u8>
    decreases n,
{
    if n == 0 {
        seq![]
    } else {
        be_digits(n / 256).push((n % 256) as u8)
    }
}

/// The minimal big-endian bytes of a number ([0] for zero).
pub open spec fn be_bytes(n: nat) -> Seq<u8> {
    if n == 0 {
        seq![0u8]
    } else {
        be_digits(n)
    }
}

/// The value of a base-36 digit, either case.
pub open spec fn digit36(c: char) -> Option<nat> {
    if '0' <= c <= '9' {
        Some((c as nat - '0' as nat) as nat)
    } else if 'a' <= c <= 'z' {
        Some((c as nat - 'a' as nat + 10) as nat)
    } else if 'A' <= c <= 'Z' {
        Some((c as nat - 'A' as nat + 10) as nat)
    } else {
        None
    }
}

/// The value of base-36 digits, `_` skipped; `None` on any other character.
pub open spec fn radix36_value(cs: Seq<char>) -> Option<nat>
    decreases cs.len(),
{
    if cs.len() == 0 {
        Some(0)
    } else {
        match radix36_value(cs.drop_last()) {
            None => None,
            Some(v) => if cs.last() == '_' {
                Some(v)
            } else {
                match digit36(cs.last()) {
                    Some(d) => Some(v * 36 + d),
                    None => None,
                }
            },
        }
    }
}

/// The value of a base-36 numeral as `BigUint::from_str_radix` reads it.
pub open spec fn radix36_parse(cs: Seq<char>) -> Option<nat> {
    let t = if cs.len() > 0 && cs[0] == '+' && !(cs.len() > 1 && cs[1] == '+') {
        cs.drop_first()
    } else {
        cs
    };
    if t.len() == 0 {
        None
    } else if t[0] == '_' {
        None
    } else {
        radix36_value(t)
    }
}

/// The lowercase base-36 digits of a positive number, no leading zeros.
pub open spec fn radix36_digits(n: nat) -> Seq<char>
    decreases n,
{
    if n == 0 {
        seq![]
    } else {
        radix36_digits(n / 36).push(digit_char(n % 36))
    }
}

/// The base-36 numeral of a number ("0" for zero).
pub open spec fn radix36_text(n: nat) -> Seq<char> {
    if n == 0 {
        seq!['0']
    } else {
        radix36_digits(n)
    }
}

/// `k` zero digits.
pub open spec fn zero_chars(k: nat) -> Seq<char> {
    Seq::new(k, |i: int| '0')
}

/// The ten-character text of a pairing secret of value `n`: its numeral
/// padded with leading zeros, or cut to its last ten digits.
pub open spec fn base36_text(n: nat) -> Seq<char> {
    let d = radix36_text(n);
    if d.len() < 10 {
        zero_chars((10 - d.len()) as nat) + d
    } else {
        d.subrange(d.len() - 10, d.len() as int)
    }
}

//-- Lemmas ------------------------------------------------------------------

/// A lowercase base-36 digit.
pub open spec fn is_lower36(c: char) -> bool {
    ('0' <= c <= '9') || ('a' <= c <= 'z')
}

/// Whether every character is a lowercase base-36 digit.
pub open spec fn all_lower36(cs: Seq<char>) -> bool {
    forall|i: int| 0 <= i < cs.len() ==> is_lower36(#[trigger] cs[i])
}

/// The digit character of a value reads back to the value.
pub proof fn lemma_digit_char(d: nat)
    requires
        d < 36,
    ensures
        is_lower36(digit_char(d)),
        digit36(digit_char(d)) == Some(d),
{
    if d < 10 {
        assert(((48 + d) as u32) as char as int == 48 + d);
    } else {
        assert(((97 + d - 10) as u32) as char as int == 97 + d - 10);
    }
}

/// The digits of a number are lowercase base-36 digits.
pub proof fn lemma_radix36_digits_lower(n: nat)
    ensures
        all_lower36(radix36_digits(n)),
    decreases n,
{
    if n > 0 {
        lemma_radix36_digits_lower(n / 36);
        lemma_digit_char(n % 36);
        let d = radix36_digits(n);
        assert forall|i: int| 0 <= i < d.len() implies is_lower36(#[trigger] d[i]) by {
            if i < d.len() - 1 {
                assert(d[i] == radix36_digits(n / 36)[i]);
            }
        }
    }
}

/// Lowercase digits read to a value.
pub proof fn lemma_radix36_value_lower(cs: Seq<char>)
    requires
        all_lower36(cs),
    ensures
        radix36_value(cs) is Some,
    decreases cs.len(),
{
    if cs.len() > 0 {
        let p = cs.drop_last();
        assert(all_lower36(p)) by {
            assert forall|i: int| 0 <= i < p.len() implies is_lower36(#[trigger] p[i]) by {
                assert(p[i] == cs[i]);
            }
        }
        lemma_radix36_value_lower(p);
        assert(is_lower36(cs[cs.len() - 1]));
    }
}

/// Zero digits read to zero.
pub proof fn lemma_radix36_value_zeros(k: nat)
    ensures
        radix36_value(zero_chars(k)) == Some(0nat),
    decreases k,
{
    if k > 0 {
        lemma_radix36_value_zeros((k - 1) as nat);
        assert(zero_chars(k).drop_last() =~= zero_chars((k - 1) as nat));
        lemma_digit_char(0);
    }
}

/// Leading zero digits do not change the value.
pub proof fn lemma_radix36_value_leading_zeros(k: nat, d: Seq<char>)
    ensures
        radix36_value(zero_chars(k) + d) == radix36_value(d),
    decreases d.len(),
{
    if d.len() == 0 {
        assert(zero_chars(k) + d =~= zero_chars(k));
        lemma_radix36_value_zeros(k);
    } else {
        lemma_radix36_value_leading_zeros(k, d.drop_last());
        assert((zero_chars(k) + d).drop_last() =~= zero_chars(k) + d.drop_last());
        assert((zero_chars(k) + d).last() == d.last());
    }
}

/// The digits of a number read back to the number.
pub proof fn lemma_radix36_digits_value(n: nat)
    ensures
        radix36_value(radix36_digits(n)) == Some(n),
    decreases n,
{
    if n > 0 {
        lemma_radix36_digits_value(n / 36);
        lemma_digit_char(n % 36);
        assert(radix36_digits(n).drop_last() =~= radix36_digits(n / 36));
    }
}

/// A number below 36^k has at most k digits.
pub proof fn lemma_radix36_digits_len(n: nat, k: nat)
    requires
        n < pow36(k),
    ensures
        radix36_digits(n).len() <= k,
    decreases k,
{
    if n > 0 {
        assert(k > 0);
        assert(n / 36 < pow36((k - 1) as nat));
        lemma_radix36_digits_len(n / 36, (k - 1) as nat);
    }
}

/// The ten-character text of a number below 36^10 parses back to it.
pub proof fn lemma_base36_text_parse(n: nat)
    requires
        n < pow36(10),
    ensures
        radix36_parse(base36_text(n)) == Some(n),
{
    lemma_base36_text_valid(n);
    let d = radix36_text(n);
    let t = base36_text(n);
    if n == 0 {
        assert(seq!['0'].drop_last() =~= Seq::<char>::empty());
        lemma_digit_char(0);
        assert(radix36_value(seq!['0']) == Some(0nat));
    } else {
        lemma_radix36_digits_len(n, 10);
        lemma_radix36_digits_value(n);
    }
    if d.len() < 10 {
        lemma_radix36_value_leading_zeros((10 - d.len()) as nat, d);
    } else {
        assert(t =~= d);
    }
    assert(is_lower36(t[0]));
}

/// The ten-character text of any number: ten lowercase digits, which parse.
pub proof fn lemma_base36_text_valid(n: nat)
    ensures
        base36_text(n).len() == 10,
        all_lower36(base36_text(n)),
        vstd::utf8::is_ascii_chars(base36_text(n)),
        vstd::utf8::encode_utf8(base36_text(n)).len() == 10,
        radix36_parse(base36_text(n)) is Some,
{
    let d = radix36_text(n);
    if n == 0 {
        assert(all_lower36(d));
    } else {
        lemma_radix36_digits_lower(n);
    }
    let t = base36_text(n);
    if d.len() < 10 {
        let z = zero_chars((10 - d.len()) as nat);
        assert forall|i: int| 0 <= i < t.len() implies is_lower36(#[trigger] t[i]) by {
            if i < z.len() {
                assert(t[i] == z[i]);
            } else {
                assert(t[i] == d[i - z.len()]);
            }
        }
    } else {
        assert forall|i: int| 0 <= i < t.len() implies is_lower36(#[trigger] t[i]) by {
            assert(t[i] == d[i + d.len() - 10]);
        }
    }
    assert(vstd::utf8::is_ascii_chars(t)) by {
        assert forall|i: int| 0 <= i < t.len() implies '\0' <= #[trigger] t[i] <= '\u{7f}' by {
            assert(is_lower36(t[i]));
        }
    }
    vstd::utf8::is_ascii_chars_encode_utf8(t);
    lemma_radix36_value_lower(t);
    assert(is_lower36(t[0]));
}

/// Lowercase digits of the same length and value are the same digits.
pub proof fn lemma_radix36_value_injective(a: Seq<char>, b: Seq<char>)
    requires
        a.len() == b.len(),
        all_lower36(a),
        all_lower36(b),
        radix36_value(a) == radix36_value(b),
    ensures
        a == b,
    decreases a.len(),
{
    if a.len() > 0 {
        let pa = a.drop_last();
        let pb = b.drop_last();
        assert(all_lower36(pa)) by {
            assert forall|i: int| 0 <= i < pa.len() implies is_lower36(#[trigger] pa[i]) by {
                assert(pa[i] == a[i]);
            }
        }
        assert(all_lower36(pb)) by {
            assert forall|i: int| 0 <= i < pb.len() implies is_lower36(#[trigger] pb[i]) by {
                assert(pb[i] == b[i]);
            }
        }
        lemma_radix36_value_lower(pa);
        lemma_radix36_value_lower(pb);
        let x = a.last();
        let y = b.last();
        assert(is_lower36(a[a.len() - 1]));
        assert(is_lower36(b[b.len() - 1]));
        let va = radix36_value(pa)->0;
        let vb = radix36_value(pb)->0;
        let dx = digit36(x)->0;
        let dy = digit36(y)->0;
        assert(dx < 36 && dy < 36);
        assert(va * 36 + dx == vb * 36 + dy);
        assert(va == vb && dx == dy) by (nonlinear_arith)
            requires
                va * 36 + dx == vb * 36 + dy,
                dx < 36,
                dy < 36,
                va >= 0,
                vb >= 0,
        ;
        assert(x as nat == y as nat);
        lemma_radix36_value_injective(pa, pb);
        assert(a =~= pa.push(x));
        assert(b =~= pb.push(y));
    }
}

/// Ten lowercase base-36 digits are the ten-character text of their value.
pub proof fn lemma_base36_text_of_digits(cs: Seq<char>)
    requires
        cs.len() == 10,
        all_lower36(cs),
    ensures
        radix36_value(cs) is Some,
        radix36_value(cs)->0 < pow36(10),
        base36_text(radix36_value(cs)->0) == cs,
{
    lemma_radix36_value_lower(cs);
    lemma_radix36_value_bound(cs);
    let n = radix36_value(cs)->0;
    let t = base36_text(n);
    lemma_base36_text_valid(n);
    lemma_base36_text_parse(n);
    assert(is_lower36(t[0]));
    assert(radix36_value(t) == Some(n));
    lemma_radix36_value_injective(t, cs);
}

/// A numeral of `k` characters is below 36^k.
pub proof fn lemma_radix36_value_bound(cs: Seq<char>)
    requires
        radix36_value(cs) is Some,
    ensures
        radix36_value(cs)->0 < pow36(cs.len()),
    decreases cs.len(),
{
    if cs.len() > 0 {
        lemma_radix36_value_bound(cs.drop_last());
        assert(pow36(cs.len()) == 36 * pow36((cs.len() - 1) as nat));
    }
}

/// Powers of 36 grow.
pub proof fn lemma_pow36_monotone(a: nat, b: nat)
    requires
        a <= b,
    ensures
        pow36(a) <= pow36(b),
    decreases b,
{
    if a < b {
        lemma_pow36_monotone(a, (b - 1) as nat);
    }
}

/// A parsed numeral of `k` characters is below 36^k.
pub proof fn lemma_radix36_parse_bound(cs: Seq<char>)
    requires
        radix36_parse(cs) is Some,
    ensures
        radix36_parse(cs)->0 < pow36(cs.len()),
{
    let t = if cs.len() > 0 && cs[0] == '+' && !(cs.len() > 1 && cs[1] == '+') {
        cs.drop_first()
    } else {
        cs
    };
    lemma_radix36_value_bound(t);
    lemma_pow36_monotone(t.len(), cs.len());
}

/// Ten base-36 digits fit in seven bytes.
pub proof fn lemma_pow36_10_below_pow256_7()
    ensures
        pow36(10) < pow256(7),
        pow36(10) == 3656158440062976,
{
    reveal_with_fuel(pow36, 11);
    reveal_with_fuel(pow256, 8);
}

/// A number below 256^k has at most k big-endian digits.
pub proof fn lemma_be_digits_len(n: nat, k: nat)
    requires
        n < pow256(k),
    ensures
        be_digits(n).len() <= k,
    decreases k,
{
    if n > 0 {
        assert(k > 0);
        assert(n / 256 < pow256((k - 1) as nat));
        lemma_be_digits_len(n / 256, (k - 1) as nat);
    }
}

/// The big-endian digits of a number read back to the number.
pub proof fn lemma_be_digits_value(n: nat)
    ensures
        be_value(be_digits(n)) == n,
    decreases n,
{
    if n > 0 {
        lemma_be_digits_value(n / 256);
        assert(be_digits(n).drop_last() =~= be_digits(n / 256));
    }
}

/// The minimal bytes of a number read back to the number.
pub proof fn lemma_be_bytes_value(n: nat)
    ensures
        be_value(be_bytes(n)) == n,
{
    if n == 0 {
        assert(seq![0u8].drop_last() =~= Seq::<u8>::empty());
        assert(be_value(Seq::<u8>::empty()) == 0);
        assert(seq![0u8].last() == 0);
    } else {
        lemma_be_digits_value(n);
    }
}

/// Leading zero bytes do not change the value.
pub proof fn lemma_be_value_leading_zeros(z: Seq<u8>, b: Seq<u8>)
    requires
        forall|i: int| 0 <= i < z.len() ==> z[i] == 0,
    ensures
        be_value(z + b) == be_value(b),
    decreases z.len() + b.len(),
{
    if b.len() > 0 {
        lemma_be_value_leading_zeros(z, b.drop_last());
        assert((z + b).drop_last() =~= z + b.drop_last());
    } else if z.len() > 0 {
        lemma_be_value_leading_zeros(z.drop_last(), b);
        assert((z + b).drop_last() =~= z.drop_last() + b);
        assert(z + b =~= z);
    }
}

/// Two byte strings of one length with one value are equal.
pub proof fn lemma_be_value_injective(a: Seq<u8>, b: Seq<u8>)
    requires
        a.len() == b.len(),
        be_value(a) == be_value(b),
    ensures
        a == b,
    decreases a.len(),
{
    if a.len() > 0 {
        let pa = be_value(a.drop_last());
        let pb = be_value(b.drop_last());
        assert(pa * 256 + a.last() == pb * 256 + b.last());
        assert(a.last() == b.last() && pa == pb) by (nonlinear_arith)
            requires
                pa * 256 + a.last() == pb * 256 + b.last(),
                0 <= a.last() < 256,
                0 <= b.last() < 256,
                pa >= 0,
                pb >= 0,
        ;
        lemma_be_value_injective(a.drop_last(), b.drop_last());
        assert(a =~= a.drop_last().push(a.last()));
        assert(b =~= b.drop_last().push(b.last()));
    } else {
        assert(a =~= b);
    }
}

} // verus!
