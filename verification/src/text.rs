//! Decimal text of integers, and small string helpers.
use vstd::prelude::*;

verus! {

/// Whether `c` is an ASCII decimal digit.
pub open spec fn is_decimal_digit(c: char) -> bool {
    '0' <= c <= '9'
}

/// The value of a decimal digit.
pub open spec fn decimal_digit_value(c: char) -> int {
    c as int - '0' as int
}

/// The character of a digit value below 36 (lowercase letters above 9).
pub open spec fn digit_char(d: nat) -> char {
    if d < 10 {
        ((48 + d) as u32) as char
    } else {
        ((97 + d - 10) as u32) as char
    }
}

/// The value of a string of decimal digits, most significant first.
pub open spec fn decimal_value(cs: Seq<char>) -> int
    decreases cs.len(),
{
    if cs.len() == 0 {
        0
    } else {
        decimal_value(cs.drop_last()) * 10 + decimal_digit_value(cs.last())
    }
}

/// Whether every character is a decimal digit.
pub open spec fn all_decimal_digits(cs: Seq<char>) -> bool {
    forall|i: int| 0 <= i < cs.len() ==> is_decimal_digit(#[trigger] cs[i])
}

/// What `str::parse::<i32>` gives: an optional `+` or `-` sign followed by
/// at least one decimal digit, with the value in range.
pub open spec fn parse_i32_text(cs: Seq<char>) -> Option<i32> {
    if cs.len() == 0 {
        None
    } else if (cs[0] == '+' || cs[0] == '-') && cs.len() == 1 {
        None
    } else {
        let signed = cs[0] == '+' || cs[0] == '-';
        let ds = if signed {
            cs.drop_first()
        } else {
            cs
        };
        let v = if cs[0] == '-' {
            -decimal_value(ds)
        } else {
            decimal_value(ds)
        };
        if !all_decimal_digits(ds) {
            None
        } else if i32::MIN <= v <= i32::MAX {
            Some(v as i32)
        } else {
            None
        }
    }
}

/// The decimal digits of `n`, without leading zeros ("0" for zero).
pub open spec fn decimal_digits(n: nat) -> Seq<char>
    decreases n,
{
    if n < 10 {
        seq![digit_char(n)]
    } else {
        decimal_digits(n / 10).push(digit_char(n % 10))
    }
}

/// The decimal text of an integer, with a `-` for negative values.
pub open spec fn int_text(n: int) -> Seq<char> {
    if n < 0 {
        seq!['-'] + decimal_digits((-n) as nat)
    } else {
        decimal_digits(n as nat)
    }
}

/// The decimal digits of a number are digits and read back to it.
pub proof fn lemma_decimal_digits(n: nat)
    ensures
        decimal_digits(n).len() >= 1,
        all_decimal_digits(decimal_digits(n)),
        decimal_value(decimal_digits(n)) == n,
    decreases n,
{
    let d = decimal_digits(n);
    if n < 10 {
        assert(digit_char(n) as int == 48 + n);
        assert(d.drop_last() =~= Seq::<char>::empty());
        assert(decimal_value(Seq::<char>::empty()) == 0);
    } else {
        lemma_decimal_digits(n / 10);
        assert(digit_char(n % 10) as int == 48 + n % 10);
        assert(d.drop_last() =~= decimal_digits(n / 10));
        assert forall|i: int| 0 <= i < d.len() implies is_decimal_digit(#[trigger] d[i]) by {
            if i < d.len() - 1 {
                assert(d[i] == decimal_digits(n / 10)[i]);
            }
        }
    }
}

/// The decimal text of a value of `i32` that is not negative parses back.
pub proof fn lemma_parse_decimal_text(n: i32)
    requires
        n >= 0,
    ensures
        parse_i32_text(int_text(n as int)) == Some(n),
{
    lemma_decimal_digits(n as nat);
    let d = decimal_digits(n as nat);
    assert(is_decimal_digit(d[0]));
}

/// A UTF-8 encoding has at least one byte per character.
pub proof fn lemma_utf8_len(cs: Seq<char>)
    ensures
        vstd::utf8::encode_utf8(cs).len() >= cs.len(),
    decreases cs.len(),
{
    if cs.len() > 0 {
        lemma_utf8_len(cs.drop_first());
        assert(vstd::utf8::encode_scalar(cs[0] as u32).len() >= 1);
    }
}

/// `String::push`: the string with one more character at its end.
#[verifier::external_body]
pub fn push_char(s: &mut String, c: char)
    ensures
        final(s)@ == old(s)@.push(c),
{
    s.push(c);
}

/// The character of a digit value below 36.
pub fn digit_to_char(d: u8) -> (c: char)
    requires
        d < 36,
    ensures
        c == digit_char(d as nat),
{
    if d < 10 {
        ((48u8 + d) as char)
    } else {
        ((87u8 + d) as char)
    }
}

/// The decimal digits of `m`.
pub fn decimal_string(m: u64) -> (s: String)
    ensures
        s@ == decimal_digits(m as nat),
    decreases m,
{
    if m < 10 {
        let mut s = String::new();
        push_char(&mut s, digit_to_char(m as u8));
        s
    } else {
        let mut s = decimal_string(m / 10);
        push_char(&mut s, digit_to_char((m % 10) as u8));
        s
    }
}

/// The decimal text of `n`.
pub fn int_to_text(n: i64) -> (s: String)
    ensures
        s@ == int_text(n as int),
{
    if n < 0 {
        let magnitude: u64 = if n == i64::MIN {
            9223372036854775808u64
        } else {
            (-n) as u64
        };
        let mut s = String::new();
        push_char(&mut s, '-');
        let digits = decimal_string(magnitude);
        s.append(digits.as_str());
        s
    } else {
        decimal_string(n as u64)
    }
}

/// `str::parse::<i32>`: the value of an optionally signed decimal numeral.
pub fn parse_i32(s: &str) -> (r: Option<i32>)
    ensures
        r == parse_i32_text(s@),
{
    let len = s.unicode_len();
    if len == 0 {
        return None;
    }
    let first = s.get_char(0);
    let signed = first == '+' || first == '-';
    if signed && len == 1 {
        return None;
    }
    let start: usize = if signed {
        1
    } else {
        0
    };
    let ghost cs = s@;
    let ghost ds = if signed {
        cs.drop_first()
    } else {
        cs
    };
    let cap: i64 = 2147483649;
    let mut acc: i64 = 0;
    let mut i: usize = start;
    proof {
        assert(ds.take(0) =~= Seq::<char>::empty());
    }
    while i < len
        invariant
            cs == s@,
            len == cs.len(),
            len > 0,
            first == cs[0],
            signed == (first == '+' || first == '-'),
            !(signed && len == 1),
            start <= i <= len,
            start == (if signed { 1int } else { 0int }),
            ds == cs.subrange(start as int, cs.len() as int),
            all_decimal_digits(ds.take(i - start)),
            acc == (if decimal_value(ds.take(i - start)) < cap {
                decimal_value(ds.take(i - start))
            } else {
                cap as int
            }),
            0 <= acc <= cap,
            cap == 2147483649,
        decreases len - i,
    {
        let c = s.get_char(i);
        if !('0' <= c && c <= '9') {
            proof {
                assert(ds[i - start] == c);
                assert(!is_decimal_digit(ds[i - start]));
                assert(!all_decimal_digits(ds));
                if signed {
                    assert(cs.drop_first() =~= ds);
                } else {
                    assert(cs =~= ds);
                }
            }
            return None;
        }
        let d = (c as u32 - 48) as i64;
        let ghost k = (i - start) as int;
        proof {
            assert(ds.take(k + 1).drop_last() =~= ds.take(k));
            assert(ds.take(k + 1).last() == c);
            assert(decimal_digit_value(c) == d);
            assert forall|j: int| 0 <= j < k + 1 implies is_decimal_digit(
                #[trigger] ds.take(k + 1)[j],
            ) by {
                if j < k {
                    assert(ds.take(k + 1)[j] == ds.take(k)[j]);
                }
            }
        }
        let next = acc * 10 + d;
        acc = if next < cap {
            next
        } else {
            cap
        };
        i = i + 1;
    }
    proof {
        assert(ds.take(len - start) =~= ds);
    }
    if acc == cap {
        return None;
    }
    let v: i64 = if first == '-' {
        -acc
    } else {
        acc
    };
    if v < -2147483648 || v > 2147483647 {
        return None;
    }
    Some(v as i32)
}


/// Whether `c` is white space (`char::is_whitespace`: the Unicode
/// White_Space characters).
pub open spec fn is_white(c: char) -> bool {
    ||| c == ' '
    ||| ('\u{9}' <= c <= '\u{d}')
    ||| c == '\u{85}'
    ||| c == '\u{a0}'
    ||| c == '\u{1680}'
    ||| ('\u{2000}' <= c <= '\u{200a}')
    ||| c == '\u{2028}'
    ||| c == '\u{2029}'
    ||| c == '\u{202f}'
    ||| c == '\u{205f}'
    ||| c == '\u{3000}'
}

/// The number of white-space characters at the start of `cs`.
pub open spec fn leading_white(cs: Seq<char>) -> nat
    decreases cs.len(),
{
    if cs.len() > 0 && is_white(cs[0]) {
        1 + leading_white(cs.drop_first())
    } else {
        0
    }
}

/// The number of white-space characters at the end of `cs`.
pub open spec fn trailing_white(cs: Seq<char>) -> nat
    decreases cs.len(),
{
    if cs.len() > 0 && is_white(cs.last()) {
        1 + trailing_white(cs.drop_last())
    } else {
        0
    }
}

/// `str::trim`: the text without leading and trailing white space.
pub open spec fn trimmed(cs: Seq<char>) -> Seq<char> {
    let a = leading_white(cs);
    if a == cs.len() {
        seq![]
    } else {
        cs.subrange(a as int, cs.len() - trailing_white(cs))
    }
}

/// Whether `c` is white space.
pub fn is_white_char(c: char) -> (r: bool)
    ensures
        r == is_white(c),
{
    c == ' ' || ('\u{9}' <= c && c <= '\u{d}') || c == '\u{85}' || c == '\u{a0}' || c
        == '\u{1680}' || ('\u{2000}' <= c && c <= '\u{200a}') || c == '\u{2028}' || c
        == '\u{2029}' || c == '\u{202f}' || c == '\u{205f}' || c == '\u{3000}'
}

/// Leading white space runs up to the first other character.
proof fn lemma_leading_white(cs: Seq<char>, k: int)
    requires
        0 <= k <= cs.len(),
        forall|j: int| 0 <= j < k ==> is_white(cs[j]),
    ensures
        k < cs.len() && !is_white(cs[k]) ==> leading_white(cs) == k,
        k == cs.len() ==> leading_white(cs) == k,
    decreases k,
{
    if k > 0 {
        assert forall|j: int| 0 <= j < k - 1 implies is_white(cs.drop_first()[j]) by {
            assert(cs.drop_first()[j] == cs[j + 1]);
        }
        lemma_leading_white(cs.drop_first(), k - 1);
        if k < cs.len() {
            assert(cs.drop_first()[k - 1] == cs[k]);
        }
    }
}

/// Trailing white space runs back to the last other character.
proof fn lemma_trailing_white(cs: Seq<char>, k: int)
    requires
        0 <= k <= cs.len(),
        forall|j: int| cs.len() - k <= j < cs.len() ==> is_white(cs[j]),
    ensures
        k < cs.len() && !is_white(cs[cs.len() - 1 - k]) ==> trailing_white(cs) == k,
        k == cs.len() ==> trailing_white(cs) == k,
    decreases k,
{
    if k > 0 {
        let p = cs.drop_last();
        assert forall|j: int| p.len() - (k - 1) <= j < p.len() implies is_white(p[j]) by {
            assert(p[j] == cs[j]);
        }
        lemma_trailing_white(p, k - 1);
        if k < cs.len() {
            assert(p[p.len() - 1 - (k - 1)] == cs[cs.len() - 1 - k]);
        }
    }
}

/// `str::trim`.
pub fn trim_text(s: &str) -> (r: &str)
    ensures
        r@ == trimmed(s@),
{
    let len = s.unicode_len();
    let mut a: usize = 0;
    while a < len && is_white_char(s.get_char(a))
        invariant
            len == s@.len(),
            a <= len,
            forall|j: int| 0 <= j < a ==> is_white(s@[j]),
        decreases len - a,
    {
        a = a + 1;
    }
    proof {
        lemma_leading_white(s@, a as int);
    }
    if a == len {
        return s.substring_char(len, len);
    }
    let mut b: usize = 0;
    while b < len - a && is_white_char(s.get_char(len - 1 - b))
        invariant
            len == s@.len(),
            a < len,
            b <= len - a,
            forall|j: int| len - b <= j < len ==> is_white(s@[j]),
            !is_white(s@[a as int]),
        decreases len - a - b,
    {
        b = b + 1;
    }
    proof {
        if b == len - a {
            assert(is_white(s@[a as int]));
        }
        lemma_trailing_white(s@, b as int);
    }
    s.substring_char(a, len - b)
}

/// Whether `cs` ends with `suffix`.
pub open spec fn ends_with(cs: Seq<char>, suffix: Seq<char>) -> bool {
    suffix.len() <= cs.len() && cs.subrange(cs.len() - suffix.len(), cs.len() as int) == suffix
}

/// Whether `cs` starts with `prefix`.
pub open spec fn starts_with(cs: Seq<char>, prefix: Seq<char>) -> bool {
    prefix.len() <= cs.len() && cs.take(prefix.len() as int) == prefix
}

/// Whether the text at `start` matches `part`.
fn matches_at(s: &str, start: usize, part: &str) -> (r: bool)
    requires
        start + part@.len() <= s@.len(),
    ensures
        r == (s@.subrange(start as int, start + part@.len()) == part@),
{
    let n = part.unicode_len();
    let total = s.unicode_len();
    let mut i: usize = 0;
    while i < n
        invariant
            n == part@.len(),
            total == s@.len(),
            start + n <= s@.len(),
            i <= n,
            forall|j: int| 0 <= j < i ==> s@[start + j] == part@[j],
        decreases n - i,
    {
        if s.get_char(start + i) != part.get_char(i) {
            assert(s@.subrange(start as int, start + n)[i as int] != part@[i as int]);
            return false;
        }
        i = i + 1;
    }
    assert(s@.subrange(start as int, start + n) =~= part@);
    true
}

/// `str::strip_suffix`.
pub fn strip_suffix_text<'a>(s: &'a str, suffix: &str) -> (r: Option<&'a str>)
    ensures
        ends_with(s@, suffix@) ==> (r matches Some(t) && t@ == s@.take(s@.len() - suffix@.len())),
        !ends_with(s@, suffix@) ==> r is None,
{
    let len = s.unicode_len();
    let n = suffix.unicode_len();
    if n > len {
        return None;
    }
    if !matches_at(s, len - n, suffix) {
        return None;
    }
    let t = s.substring_char(0, len - n);
    assert(t@ =~= s@.take(s@.len() - suffix@.len()));
    Some(t)
}

/// `str::starts_with`.
pub fn starts_with_text(s: &str, prefix: &str) -> (r: bool)
    ensures
        r == starts_with(s@, prefix@),
{
    let len = s.unicode_len();
    let n = prefix.unicode_len();
    if n > len {
        return false;
    }
    let r = matches_at(s, 0, prefix);
    assert(s@.subrange(0, n as int) =~= s@.take(n as int));
    r
}

/// Text equality.
pub fn text_eq(a: &str, b: &str) -> (r: bool)
    ensures
        r == (a@ == b@),
{
    let n = a.unicode_len();
    if n != b.unicode_len() {
        return false;
    }
    let r = matches_at(a, 0, b);
    assert(a@.subrange(0, n as int) =~= a@);
    r
}

/// `String::from_utf8`: the text whose UTF-8 encoding the bytes are, if
/// they are valid UTF-8.
#[verifier::external_body]
pub fn utf8_text(bytes: Vec<u8>) -> (r: Option<String>)
    ensures
        r is Some <==> vstd::utf8::valid_utf8(bytes@),
        r matches Some(s) ==> vstd::utf8::encode_utf8(s@) == bytes@,
{
    String::from_utf8(bytes).ok()
}

/// A string of a text.
pub fn owned(s: &str) -> (r: String)
    ensures
        r@ == s@,
{
    String::from_str(s)
}

/// The concatenation of two texts.
pub fn concat_text(a: &str, b: &str) -> (r: String)
    ensures
        r@ == a@ + b@,
{
    let mut r = String::from_str(a);
    r.append(b);
    r
}

/// The uppercase hexadecimal digit of a value below 16.
pub open spec fn hex_digit_upper(d: u8) -> char {
    if d < 10 {
        (48 + d) as char
    } else {
        (55 + d) as char
    }
}

/// The bytes that URL encoding leaves as they are: ASCII letters and
/// digits, `-`, `_`, `.` and `~`.
pub open spec fn is_url_unreserved(b: u8) -> bool {
    (97 <= b && b <= 122) || (65 <= b && b <= 90) || (48 <= b && b <= 57) || b == 45 || b == 95
        || b == 46 || b == 126
}

/// Percent-encoding of bytes: each unreserved byte as its character, each
/// other byte as `%` and two uppercase hexadecimal digits.
pub open spec fn percent_encode(bytes: Seq<u8>) -> Seq<char>
    decreases bytes.len(),
{
    if bytes.len() == 0 {
        Seq::empty()
    } else {
        let b = bytes[0];
        let head = if is_url_unreserved(b) {
            seq![b as char]
        } else {
            seq!['%', hex_digit_upper(b / 16), hex_digit_upper(b % 16)]
        };
        head + percent_encode(bytes.drop_first())
    }
}

/// The URL encoding of a text: the percent-encoding of its UTF-8 bytes.
pub open spec fn url_encoded(s: Seq<char>) -> Seq<char> {
    percent_encode(vstd::utf8::encode_utf8(s))
}

/// `urlencoding::encode(s)`, owned: percent-encodes every UTF-8 byte of
/// `s` except ASCII letters and digits and `-`, `_`, `.`, `~`, with
/// uppercase hexadecimal digits.
#[verifier::external_body]
pub fn url_encode(s: &str) -> (r: String)
    ensures
        r@ == url_encoded(s@),
{
    urlencoding::encode(s).into_owned()
}

/// The index of the first `c` in `cs`.
pub open spec fn index_of(cs: Seq<char>, c: char) -> Option<int>
    decreases cs.len(),
{
    if cs.len() == 0 {
        None
    } else if cs[0] == c {
        Some(0)
    } else {
        match index_of(cs.drop_first(), c) {
            Some(i) => Some(i + 1),
            None => None,
        }
    }
}

/// `index_of` finds the first occurrence.
proof fn lemma_index_of(cs: Seq<char>, c: char, k: int)
    requires
        0 <= k <= cs.len(),
        forall|j: int| 0 <= j < k ==> cs[j] != c,
    ensures
        k < cs.len() && cs[k] == c ==> index_of(cs, c) == Some(k),
        k == cs.len() ==> index_of(cs, c) is None,
    decreases k,
{
    if k > 0 {
        assert forall|j: int| 0 <= j < k - 1 implies cs.drop_first()[j] != c by {
            assert(cs.drop_first()[j] == cs[j + 1]);
        }
        lemma_index_of(cs.drop_first(), c, k - 1);
        if k < cs.len() {
            assert(cs.drop_first()[k - 1] == cs[k]);
        }
    }
}

/// `str::find` of a character, counted in characters.
pub fn find_char(s: &str, c: char) -> (r: Option<usize>)
    ensures
        match r {
            Some(p) => index_of(s@, c) == Some(p as int) && p < s@.len(),
            None => index_of(s@, c) is None,
        },
{
    let len = s.unicode_len();
    let mut i: usize = 0;
    while i < len
        invariant
            len == s@.len(),
            i <= len,
            forall|j: int| 0 <= j < i ==> s@[j] != c,
        decreases len - i,
    {
        if s.get_char(i) == c {
            proof {
                lemma_index_of(s@, c, i as int);
            }
            return Some(i);
        }
        i = i + 1;
    }
    proof {
        lemma_index_of(s@, c, i as int);
    }
    None
}

/// What `str::parse::<u16>` gives: an optional `+` followed by at least one
/// decimal digit, with the value in range.
pub open spec fn parse_u16_text(cs: Seq<char>) -> Option<u16> {
    if cs.len() == 0 {
        None
    } else if cs[0] == '+' && cs.len() == 1 {
        None
    } else {
        let ds = if cs[0] == '+' {
            cs.drop_first()
        } else {
            cs
        };
        if !all_decimal_digits(ds) {
            None
        } else if decimal_value(ds) <= u16::MAX {
            Some(decimal_value(ds) as u16)
        } else {
            None
        }
    }
}

/// `str::parse::<u16>`.
pub fn parse_u16(s: &str) -> (r: Option<u16>)
    ensures
        r == parse_u16_text(s@),
{
    let len = s.unicode_len();
    if len == 0 {
        return None;
    }
    let first = s.get_char(0);
    let signed = first == '+';
    if signed && len == 1 {
        return None;
    }
    let start: usize = if signed {
        1
    } else {
        0
    };
    let ghost cs = s@;
    let ghost ds = if signed {
        cs.drop_first()
    } else {
        cs
    };
    let cap: u32 = 65536;
    let mut acc: u32 = 0;
    let mut i: usize = start;
    proof {
        assert(ds.take(0) =~= Seq::<char>::empty());
    }
    while i < len
        invariant
            cs == s@,
            len == cs.len(),
            len > 0,
            first == cs[0],
            signed == (first == '+'),
            !(signed && len == 1),
            start <= i <= len,
            start == (if signed { 1int } else { 0int }),
            ds == cs.subrange(start as int, cs.len() as int),
            all_decimal_digits(ds.take(i - start)),
            acc == (if decimal_value(ds.take(i - start)) < cap {
                decimal_value(ds.take(i - start))
            } else {
                cap as int
            }),
            0 <= acc <= cap,
            cap == 65536,
        decreases len - i,
    {
        let c = s.get_char(i);
        if !('0' <= c && c <= '9') {
            proof {
                assert(ds[i - start] == c);
                assert(!is_decimal_digit(ds[i - start]));
                assert(!all_decimal_digits(ds));
                if signed {
                    assert(cs.drop_first() =~= ds);
                } else {
                    assert(cs =~= ds);
                }
            }
            return None;
        }
        let d = (c as u32 - 48) as u32;
        let ghost k = (i - start) as int;
        proof {
            assert(ds.take(k + 1).drop_last() =~= ds.take(k));
            assert(ds.take(k + 1).last() == c);
            assert(decimal_digit_value(c) == d);
            assert forall|j: int| 0 <= j < k + 1 implies is_decimal_digit(
                #[trigger] ds.take(k + 1)[j],
            ) by {
                if j < k {
                    assert(ds.take(k + 1)[j] == ds.take(k)[j]);
                }
            }
        }
        let next = acc * 10 + d;
        acc = if next < cap {
            next
        } else {
            cap
        };
        i = i + 1;
    }
    proof {
        assert(ds.take(len - start) =~= ds);
        if signed {
            assert(cs.drop_first() =~= ds);
        } else {
            assert(cs =~= ds);
        }
    }
    if acc >= cap {
        return None;
    }
    Some(acc as u16)
}
} // verus!
