//! Small verified text helpers: decimal rendering and parsing of integers,
//! string equality, and joining of list-valued fields.

use vstd::prelude::*;

verus! {

/// Whether `c` is an ASCII decimal digit.
pub open spec fn is_digit_char(c: char) -> bool {
    48 <= (c as u32) && (c as u32) <= 57
}

/// The numeric value of an ASCII decimal digit.
pub open spec fn digit_val(c: char) -> nat {
    ((c as u32) - 48) as nat
}

/// The ASCII digit character for a value below ten.
pub open spec fn char_of_digit(d: nat) -> char {
    if d == 0 {
        '0'
    } else if d == 1 {
        '1'
    } else if d == 2 {
        '2'
    } else if d == 3 {
        '3'
    } else if d == 4 {
        '4'
    } else if d == 5 {
        '5'
    } else if d == 6 {
        '6'
    } else if d == 7 {
        '7'
    } else if d == 8 {
        '8'
    } else {
        '9'
    }
}

/// The decimal rendering of a natural number, most significant digit first.
pub open spec fn dec_digits(n: nat) -> Seq<char>
    decreases n,
{
    if n < 10 {
        seq![char_of_digit(n)]
    } else {
        dec_digits(n / 10).push(char_of_digit(n % 10))
    }
}

/// The decimal rendering of a signed integer: a minus sign for negatives,
/// then the digits of the magnitude.
pub open spec fn dec_digits_signed(n: int) -> Seq<char> {
    if n >= 0 {
        dec_digits(n as nat)
    } else {
        seq!['-'] + dec_digits((-n) as nat)
    }
}

/// Whether every character of `s` is an ASCII decimal digit.
pub open spec fn all_digits(s: Seq<char>) -> bool {
    forall|i: int| 0 <= i < s.len() ==> is_digit_char(#[trigger] s[i])
}

/// The numeric value of a digit string, by Horner's rule.
pub open spec fn dec_val(s: Seq<char>) -> nat
    decreases s.len(),
{
    if s.len() == 0 {
        0
    } else {
        dec_val(s.drop_last()) * 10 + digit_val(s.last())
    }
}

/// What parsing an unsigned decimal string yields: the value of a nonempty
/// all-digit string when it fits in a `u64`, nothing otherwise.
pub open spec fn spec_parse_u64(s: Seq<char>) -> Option<u64> {
    if s.len() > 0 && all_digits(s) && dec_val(s) <= u64::MAX {
        Some(dec_val(s) as u64)
    } else {
        None
    }
}

/// What parsing a signed decimal string yields: an optional leading minus
/// sign, then a nonempty all-digit magnitude, when the value fits in an
/// `i64`.
pub open spec fn spec_parse_i64(s: Seq<char>) -> Option<i64> {
    if s.len() > 0 && s[0] == '-' {
        let mag = s.subrange(1, s.len() as int);
        if mag.len() > 0 && all_digits(mag) && dec_val(mag) <= 9223372036854775808 {
            Some((-(dec_val(mag) as int)) as i64)
        } else {
            None
        }
    } else if s.len() > 0 && all_digits(s) && dec_val(s) <= i64::MAX {
        Some(dec_val(s) as i64)
    } else {
        None
    }
}

/// A single-character string for each decimal digit.
fn digit_to_str(d: u64) -> (r: &'static str)
    requires
        d < 10,
    ensures
        r@ =~= seq![char_of_digit(d as nat)],
{
    proof {
        reveal_strlit("0");
        reveal_strlit("1");
        reveal_strlit("2");
        reveal_strlit("3");
        reveal_strlit("4");
        reveal_strlit("5");
        reveal_strlit("6");
        reveal_strlit("7");
        reveal_strlit("8");
        reveal_strlit("9");
    }
    if d == 0 {
        "0"
    } else if d == 1 {
        "1"
    } else if d == 2 {
        "2"
    } else if d == 3 {
        "3"
    } else if d == 4 {
        "4"
    } else if d == 5 {
        "5"
    } else if d == 6 {
        "6"
    } else if d == 7 {
        "7"
    } else if d == 8 {
        "8"
    } else {
        "9"
    }
}

/// Renders `n` in decimal.
pub fn u64_to_string(n: u64) -> (r: String)
    ensures
        r@ == dec_digits(n as nat),
    decreases n,
{
    if n < 10 {
        String::from_str(digit_to_str(n))
    } else {
        let mut s = u64_to_string(n / 10);
        s.append(digit_to_str(n % 10));
        proof {
            assert(s@ =~= dec_digits((n / 10) as nat).push(char_of_digit((n % 10) as nat)));
        }
        s
    }
}

/// Renders `n` in decimal, with a minus sign when negative.
pub fn i64_to_string(n: i64) -> (r: String)
    ensures
        r@ == dec_digits_signed(n as int),
{
    if n >= 0 {
        u64_to_string(n as u64)
    } else {
        let mag: u64 = ((-(n + 1)) as u64) + 1;
        assert(mag as int == -(n as int));
        let mut s = String::from_str("-");
        s.append(u64_to_string(mag).as_str());
        proof {
            reveal_strlit("-");
            assert(s@ =~= seq!['-'] + dec_digits((-(n as int)) as nat));
        }
        s
    }
}

/// The value of a digit string never falls when more digits follow.
proof fn lemma_dec_val_prefix(s: Seq<char>, i: int)
    requires
        0 <= i <= s.len(),
    ensures
        dec_val(s) >= dec_val(s.take(i)),
    decreases s.len() - i,
{
    if i == s.len() {
        assert(s.take(i) =~= s);
    } else {
        assert(s.take(i + 1).drop_last() =~= s.take(i));
        assert(dec_val(s.take(i + 1)) == dec_val(s.take(i)) * 10 + digit_val(s.take(i + 1).last()));
        lemma_dec_val_prefix(s, i + 1);
    }
}

/// Parses a nonempty all-digit string as a `u64`; yields nothing on any
/// other input or on overflow.
pub fn parse_u64(s: &str) -> (r: Option<u64>)
    ensures
        r == spec_parse_u64(s@),
{
    let n = s.unicode_len();
    if n == 0 {
        return None;
    }
    let mut acc: u64 = 0;
    let mut i: usize = 0;
    while i < n
        invariant
            0 < n == s@.len(),
            0 <= i <= n,
            all_digits(s@.take(i as int)),
            acc == dec_val(s@.take(i as int)),
            dec_val(s@.take(i as int)) <= u64::MAX,
        decreases n - i,
    {
        let c = s.get_char(i);
        let cv = c as u32;
        if !(48 <= cv && cv <= 57) {
            assert(!is_digit_char(s@[i as int]));
            return None;
        }
        let d: u64 = (cv - 48) as u64;
        proof {
            assert(s@.take(i + 1).drop_last() =~= s@.take(i as int));
            assert(s@.take(i + 1).last() == s@[i as int]);
        }
        if acc > (u64::MAX - d) / 10 {
            proof {
                assert(dec_val(s@.take(i + 1)) == acc * 10 + d);
                assert(acc * 10 + d > u64::MAX) by {
                    assert(acc >= (u64::MAX - d) / 10 + 1);
                    assert(((u64::MAX - d) / 10 + 1) * 10 == ((u64::MAX - d) / 10) * 10 + 10);
                    vstd::arithmetic::div_mod::lemma_fundamental_div_mod((u64::MAX - d) as int, 10);
                    assert(acc * 10 >= ((u64::MAX - d) / 10 + 1) * 10) by (nonlinear_arith)
                        requires
                            acc >= (u64::MAX - d) / 10 + 1,
                    ;
                }
                lemma_dec_val_prefix(s@, i + 1);
            }
            return None;
        }
        acc = acc * 10 + d;
        i = i + 1;
    }
    proof {
        assert(s@.take(n as int) =~= s@);
    }
    Some(acc)
}

/// Parses a decimal string with an optional leading minus sign as an `i64`.
pub fn parse_i64(s: &str) -> (r: Option<i64>)
    ensures
        r == spec_parse_i64(s@),
{
    let n = s.unicode_len();
    if n == 0 {
        return None;
    }
    if s.get_char(0) == '-' {
        let mag = s.substring_char(1, n);
        proof {
            assert(mag@ =~= s@.subrange(1, s@.len() as int));
        }
        match parse_u64(mag) {
            Some(v) => {
                if v <= 9223372036854775807u64 {
                    Some(-(v as i64))
                } else if v == 9223372036854775808u64 {
                    Some(i64::MIN)
                } else {
                    None
                }
            },
            None => {
                proof {
                    if mag@.len() > 0 && all_digits(mag@) && dec_val(mag@)
                        <= 9223372036854775808 {
                        assert(dec_val(mag@) <= u64::MAX);
                    }
                }
                None
            },
        }
    } else {
        match parse_u64(s) {
            Some(v) => {
                if v <= i64::MAX as u64 {
                    Some(v as i64)
                } else {
                    None
                }
            },
            None => None,
        }
    }
}

/// Digit strings rendered from a number parse back to that number.
pub proof fn lemma_dec_digits_roundtrip(n: nat)
    ensures
        all_digits(dec_digits(n)),
        dec_val(dec_digits(n)) == n,
        dec_digits(n).len() >= 1,
    decreases n,
{
    if n < 10 {
        assert(dec_digits(n) =~= seq![char_of_digit(n)]);
        assert(digit_val(char_of_digit(n)) == n);
        assert(dec_val(dec_digits(n)) == dec_val(dec_digits(n).drop_last()) * 10 + n);
        assert(dec_digits(n).drop_last() =~= Seq::<char>::empty());
    } else {
        lemma_dec_digits_roundtrip(n / 10);
        let s = dec_digits(n / 10).push(char_of_digit(n % 10));
        assert(s.drop_last() =~= dec_digits(n / 10));
        assert(s.last() == char_of_digit(n % 10));
        assert(digit_val(char_of_digit(n % 10)) == n % 10);
        vstd::arithmetic::div_mod::lemma_fundamental_div_mod(n as int, 10);
        assert(all_digits(s)) by {
            assert(forall|i: int|
                0 <= i < s.len() - 1 ==> #[trigger] s[i] == dec_digits(n / 10)[i]);
        }
    }
}

/// A signed decimal rendering parses back to the number it came from.
pub proof fn lemma_i64_digits_roundtrip(n: i64)
    ensures
        spec_parse_i64(dec_digits_signed(n as int)) == Some(n),
{
    if n >= 0 {
        lemma_dec_digits_roundtrip(n as nat);
        let s = dec_digits(n as nat);
        assert(is_digit_char(s[0]));
        assert(s[0] != '-');
    } else {
        let mag = (-(n as int)) as nat;
        lemma_dec_digits_roundtrip(mag);
        let s = dec_digits_signed(n as int);
        assert(s[0] == '-');
        assert(s.subrange(1, s.len() as int) =~= dec_digits(mag));
        assert(dec_val(dec_digits(mag)) == mag);
        assert(mag <= 9223372036854775808);
    }
}

/// Tests two string slices for equality of their character sequences.
pub fn str_eq(a: &str, b: &str) -> (r: bool)
    ensures
        r == (a@ == b@),
{
    let x: String = a.to_owned();
    let y: String = b.to_owned();
    x == y
}

/// The comma-joined form of a list of values: the items' characters in
/// order, one comma between neighbours, nothing else.
pub open spec fn spec_join_comma(items: Seq<Seq<char>>) -> Seq<char>
    decreases items.len(),
{
    if items.len() == 0 {
        Seq::empty()
    } else if items.len() == 1 {
        items[0]
    } else {
        spec_join_comma(items.drop_last()) + seq![','] + items.last()
    }
}

/// Joins list-valued field items with single commas: no spaces, and the
/// comma itself is not encoded.
pub fn join_comma(items: &Vec<String>) -> (r: String)
    ensures
        r@ == spec_join_comma(items.deep_view()),
{
    let mut out = String::new();
    let mut i: usize = 0;
    while i < items.len()
        invariant
            0 <= i <= items@.len(),
            items.deep_view().len() == items@.len(),
            out@ == spec_join_comma(items.deep_view().take(i as int)),
        decreases items@.len() - i,
    {
        if i > 0 {
            out.append(",");
        }
        out.append(items[i].as_str());
        proof {
            reveal_strlit(",");
            let dv = items.deep_view();
            assert(dv.take(i + 1).drop_last() =~= dv.take(i as int));
            assert(dv.take(i + 1).last() == dv[i as int]);
            assert(dv[i as int] == items@[i as int]@);
            if i == 0 {
                assert(spec_join_comma(dv.take(0)) =~= Seq::<char>::empty());
                assert(out@ =~= dv.take(1)[0]);
                assert(dv.take(1).len() == 1);
            }
        }
        i = i + 1;
    }
    proof {
        assert(items.deep_view().take(items@.len() as int) =~= items.deep_view());
    }
    out
}

/// The space-joined form of a list of values, as the account search
/// field is sent.
pub open spec fn spec_join_space(items: Seq<Seq<char>>) -> Seq<char>
    decreases items.len(),
{
    if items.len() == 0 {
        Seq::empty()
    } else if items.len() == 1 {
        items[0]
    } else {
        spec_join_space(items.drop_last()) + seq![' '] + items.last()
    }
}

/// Joins list items with single spaces.
pub fn join_space(items: &Vec<String>) -> (r: String)
    ensures
        r@ == spec_join_space(items.deep_view()),
{
    let mut out = String::new();
    let mut i: usize = 0;
    while i < items.len()
        invariant
            0 <= i <= items@.len(),
            items.deep_view().len() == items@.len(),
            out@ == spec_join_space(items.deep_view().take(i as int)),
        decreases items@.len() - i,
    {
        if i > 0 {
            out.append(" ");
        }
        out.append(items[i].as_str());
        proof {
            reveal_strlit(" ");
            let dv = items.deep_view();
            assert(dv.take(i + 1).drop_last() =~= dv.take(i as int));
            assert(dv.take(i + 1).last() == dv[i as int]);
            assert(dv[i as int] == items@[i as int]@);
            if i == 0 {
                assert(spec_join_space(dv.take(0)) =~= Seq::<char>::empty());
                assert(out@ =~= dv.take(1)[0]);
                assert(dv.take(1).len() == 1);
            }
        }
        i = i + 1;
    }
    proof {
        assert(items.deep_view().take(items@.len() as int) =~= items.deep_view());
    }
    out
}

/// Two comma-joined items are exactly the first, one comma, the second:
/// no spaces and no encoding of the comma.
pub proof fn lemma_join_comma_pair(a: Seq<char>, b: Seq<char>)
    ensures
        spec_join_comma(seq![a, b]) == a + seq![','] + b,
{
    assert(seq![a, b].drop_last() =~= seq![a]);
    assert(spec_join_comma(seq![a]) == a);
    assert(seq![a, b][1] == b);
}

/// The digit count of a small number: one digit below ten, two below a
/// hundred, three below a thousand, with the leading digits those of the
/// quotient.
pub proof fn lemma_dec_digits_len_small(n: nat)
    requires
        n < 1000,
    ensures
        n < 10 ==> dec_digits(n).len() == 1,
        10 <= n < 100 ==> dec_digits(n).len() == 2,
        100 <= n < 1000 ==> dec_digits(n).len() == 3,
        n >= 10 ==> dec_digits(n).drop_last() == dec_digits(n / 10),
    decreases n,
{
    if n >= 10 {
        assert(dec_digits(n) == dec_digits(n / 10).push(char_of_digit(n % 10)));
        assert(dec_digits(n).drop_last() =~= dec_digits(n / 10));
        lemma_dec_digits_len_small(n / 10);
    }
}

} // verus!
