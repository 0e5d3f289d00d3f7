//! Numerals: decimal and hexadecimal renderings of integers, and the reading
//! of unsigned decimal numerals.
use vstd::prelude::*;
use vstd::string::*;

verus! {

/// The character that stands for the digit value `d`, below sixteen.
pub open spec fn digit_char(d: int) -> char {
    if d < 10 {
        ('0' as u32 + d) as char
    } else {
        ('a' as u32 + (d - 10)) as char
    }
}

/// The numeral of `n` in the given base, without leading zeros.
pub open spec fn radix_text(n: nat, base: nat) -> Seq<char>
    decreases n,
{
    if base < 2 || n < base {
        seq![digit_char(n as int)]
    } else {
        proof {
            assert(n / base < n) by (nonlinear_arith)
                requires
                    n >= base,
                    base >= 2,
            ;
        }
        radix_text(n / base, base).push(digit_char((n % base) as int))
    }
}

/// The decimal numeral of `n`.
pub open spec fn decimal_text(n: nat) -> Seq<char> {
    radix_text(n, 10)
}

/// The decimal numeral of `i`, with a leading minus sign where it is negative.
pub open spec fn signed_text(i: int) -> Seq<char> {
    if i < 0 {
        seq!['-'] + decimal_text((-i) as nat)
    } else {
        decimal_text(i as nat)
    }
}

/// The low `width` hexadecimal digits of `n`, leading zeros kept.
pub open spec fn hex_fixed(n: nat, width: nat) -> Seq<char>
    decreases width,
{
    if width == 0 {
        Seq::empty()
    } else {
        hex_fixed(n / 16, (width - 1) as nat).push(digit_char((n % 16) as int))
    }
}

/// A hexadecimal rendering of fixed width has that width.
pub proof fn hex_fixed_len(n: nat, width: nat)
    ensures
        hex_fixed(n, width).len() == width,
    decreases width,
{
    if width > 0 {
        hex_fixed_len(n / 16, (width - 1) as nat);
    }
}

/// Sixteen to the power of `width`.
pub open spec fn hex_limit(width: nat) -> nat
    decreases width,
{
    if width == 0 {
        1
    } else {
        16 * hex_limit((width - 1) as nat)
    }
}

proof fn hex_fixed_injective_below(a: nat, b: nat, width: nat)
    requires
        a < hex_limit(width),
        b < hex_limit(width),
        hex_fixed(a, width) == hex_fixed(b, width),
    ensures
        a == b,
    decreases width,
{
    if width > 0 {
        let rest = (width - 1) as nat;
        let x = hex_fixed(a, width);
        let y = hex_fixed(b, width);
        assert(x.drop_last() =~= hex_fixed(a / 16, rest));
        assert(y.drop_last() =~= hex_fixed(b / 16, rest));
        assert(x.last() == digit_char((a % 16) as int));
        assert(y.last() == digit_char((b % 16) as int));
        hex_fixed_injective_below(a / 16, b / 16, rest);
    }
}

/// Two 64-bit numbers with the same sixteen hexadecimal digits are the same.
pub proof fn hex_fixed_injective(a: nat, b: nat, width: nat)
    requires
        width == 16,
        a <= u64::MAX,
        b <= u64::MAX,
        hex_fixed(a, width) == hex_fixed(b, width),
    ensures
        a == b,
{
    reveal_with_fuel(hex_limit, 17);
    assert(hex_limit(16) == 0x1_0000_0000_0000_0000);
    hex_fixed_injective_below(a, b, width);
}

fn digit(d: u64) -> (c: char)
    requires
        d < 16,
    ensures
        c == digit_char(d as int),
{
    let b: u8 = d as u8;
    if b < 10 {
        (48 + b) as char
    } else {
        (87 + b) as char
    }
}

/// Appends the numeral of `n` in the given base.
pub fn push_radix(out: &mut String, n: u64, base: u64)
    requires
        2 <= base <= 16,
    ensures
        final(out)@ == old(out)@ + radix_text(n as nat, base as nat),
    decreases n,
{
    if n >= base {
        proof {
            assert(n / base < n) by (nonlinear_arith)
                requires
                    n >= base,
                    base >= 2,
            ;
        }
        push_radix(out, n / base, base);
    } else {
        proof {
            vstd::arithmetic::div_mod::lemma_small_mod(n as nat, base as nat);
        }
    }
    out.push(digit(n % base));
    assert(out@ =~= old(out)@ + radix_text(n as nat, base as nat));
}

/// Appends the decimal numeral of `n`.
pub fn push_decimal(out: &mut String, n: u64)
    ensures
        final(out)@ == old(out)@ + decimal_text(n as nat),
{
    push_radix(out, n, 10);
}

/// Appends the decimal numeral of `i`.
pub fn push_signed(out: &mut String, i: i64)
    ensures
        final(out)@ == old(out)@ + signed_text(i as int),
{
    if i < 0 {
        out.push('-');
        let m: u64 = (-(i as i128)) as u64;
        push_radix(out, m, 10);
        assert(out@ =~= old(out)@ + signed_text(i as int));
    } else {
        push_radix(out, i as u64, 10);
    }
}

/// Appends the low `width` hexadecimal digits of `n`.
pub fn push_hex_fixed(out: &mut String, n: u64, width: usize)
    ensures
        final(out)@ == old(out)@ + hex_fixed(n as nat, width as nat),
    decreases width,
{
    if width > 0 {
        push_hex_fixed(out, n / 16, width - 1);
        out.push(digit(n % 16));
    }
    assert(out@ =~= old(out)@ + hex_fixed(n as nat, width as nat));
}

/// Whether `c` is one of the ten ASCII digits.
pub open spec fn is_digit(c: char) -> bool {
    '0' <= c <= '9'
}

/// The value of a sequence of decimal digits.
pub open spec fn digits_value(s: Seq<char>) -> nat
    decreases s.len(),
{
    if s.len() == 0 {
        0
    } else {
        digits_value(s.drop_last()) * 10 + (s.last() as u32 - '0' as u32) as nat
    }
}

/// The digits of an unsigned numeral: what follows an optional plus sign.
pub open spec fn after_plus(s: Seq<char>) -> Seq<char> {
    if s.len() > 0 && s[0] == '+' {
        s.skip(1)
    } else {
        s
    }
}

/// The value of an unsigned decimal numeral that fits in 32 bits: an optional
/// plus sign and then one or more digits, and nothing else.
pub open spec fn parsed_u32(s: Seq<char>) -> Option<u32> {
    let digits = after_plus(s);
    if digits.len() > 0 && (forall|i: int| 0 <= i < digits.len() ==> is_digit(#[trigger] digits[i]))
        && digits_value(digits) <= u32::MAX {
        Some(digits_value(digits) as u32)
    } else {
        None
    }
}

/// A decimal numeral is made of one or more digits, and they have the value
/// that it was made from.
pub proof fn decimal_reads_back(n: nat)
    ensures
        decimal_text(n).len() > 0,
        forall|i: int| 0 <= i < decimal_text(n).len() ==> is_digit(#[trigger] decimal_text(n)[i]),
        digits_value(decimal_text(n)) == n,
    decreases n,
{
    if n < 10 {
        assert(decimal_text(n).drop_last() =~= Seq::empty());
        assert(digits_value(Seq::empty()) == 0);
    } else {
        decimal_reads_back(n / 10);
        assert(decimal_text(n).drop_last() =~= decimal_text(n / 10));
    }
}

/// Reads an unsigned decimal numeral.
pub fn parse_u32(chars: &[char]) -> (r: Option<u32>)
    ensures
        r == parsed_u32(chars@),
{
    let start: usize = if chars.len() > 0 && chars[0] == '+' {
        1
    } else {
        0
    };
    let ghost digits = after_plus(chars@);
    assert(digits =~= chars@.skip(start as int));
    if chars.len() == start {
        return None;
    }
    let mut value: u64 = 0;
    let mut fits: bool = true;
    let mut i: usize = start;
    assert(digits.take(0) =~= Seq::empty());
    while i < chars.len()
        invariant
            start <= i <= chars@.len(),
            start <= 1,
            digits == after_plus(chars@),
            digits == chars@.skip(start as int),
            forall|k: int| 0 <= k < i - start ==> is_digit(#[trigger] digits[k]),
            fits ==> value == digits_value(digits.take(i - start)) && value <= u32::MAX,
            !fits ==> digits_value(digits.take(i - start)) > u32::MAX,
        decreases chars@.len() - i,
    {
        let c = chars[i];
        assert(digits[i - start] == c);
        if c < '0' || c > '9' {
            assert(!is_digit(digits[i - start]));
            return None;
        }
        assert(digits.take(i - start + 1).drop_last() =~= digits.take(i - start));
        assert(digits.take(i - start + 1).last() == c);
        if fits {
            value = value * 10 + (c as u32 - '0' as u32) as u64;
            if value > u32::MAX as u64 {
                fits = false;
            }
        }
        i += 1;
    }
    assert(digits.take(i - start) =~= digits);
    if fits {
        Some(value as u32)
    } else {
        None
    }
}

/// The digits of a numeral, by their value.
pub open spec fn digits() -> Seq<char> {
    seq!['0', '1', '2', '3', '4', '5', '6', '7', '8', '9', 'a', 'b', 'c', 'd', 'e', 'f']
}

/// A numeral is written digit by digit: a number below the base is its digit,
/// and any other is what is left without its last digit, and then that digit.
pub proof fn numerals_are_written_digit_by_digit(n: nat, d: nat, base: nat)
    requires
        2 <= base <= 16,
        d < base,
    ensures
        radix_text(d, base) == seq![digits()[d as int]],
        n > 0 ==> radix_text(n * base + d, base) == radix_text(n, base).push(digits()[d as int]),
{
    assert(digit_char(d as int) == digits()[d as int]);
    if n > 0 {
        assert(n * base + d >= base) by (nonlinear_arith)
            requires
                n > 0,
                base >= 2,
        ;
        vstd::arithmetic::div_mod::lemma_fundamental_div_mod_converse(
            (n * base + d) as int,
            base as int,
            n as int,
            d as int,
        );
        assert((n * base + d) / base == n && (n * base + d) % base == d);
    }
}

/// The numeral of a negative number is that of its opposite with a minus sign
/// before it, and no other has a sign.
pub proof fn negative_numerals_have_a_sign(i: int)
    ensures
        i >= 0 ==> signed_text(i) == decimal_text(i as nat),
        i < 0 ==> signed_text(i) == seq!['-'] + decimal_text((-i) as nat),
{
}

/// The hexadecimal digits of fixed width are those of the number, the last one
/// behind the others, with zeros before them.
pub proof fn fixed_digits_are_written_digit_by_digit(n: nat, d: nat, width: nat)
    requires
        d < 16,
        width > 0,
    ensures
        hex_fixed(n * 16 + d, width) == hex_fixed(n, (width - 1) as nat).push(digits()[d as int]),
        hex_fixed(0, width) == hex_fixed(0, (width - 1) as nat).push('0'),
{
    assert(digit_char(d as int) == digits()[d as int]);
    assert((n * 16 + d) / 16 == n && (n * 16 + d) % 16 == d);
}

/// A number of 32 bits is read from its decimal numeral, with or without a plus
/// sign.
pub proof fn numerals_are_read_back(n: u32)
    ensures
        parsed_u32(decimal_text(n as nat)) == Some(n),
        parsed_u32(seq!['+'] + decimal_text(n as nat)) == Some(n),
{
    let text = decimal_text(n as nat);
    let signed = seq!['+'] + text;
    decimal_reads_back(n as nat);
    assert(is_digit(text[0]));
    assert(after_plus(text) == text);
    assert(signed.skip(1) =~= text);
}

/// A text is read as a number only where it is digits behind an optional plus
/// sign, and then as the number whose digits they are: one more digit makes it
/// ten times as large, and that digit larger. A number beyond 32 bits is not
/// read.
pub proof fn only_digits_are_read(s: Seq<char>, c: char)
    ensures
        parsed_u32(Seq::empty()) is None,
        parsed_u32(seq!['+']) is None,
        s.len() > 0 && parsed_u32(s.push(c)) is Some ==> '0' <= c <= '9',
        s.len() > 0 && s != seq!['+'] ==> (parsed_u32(s) matches Some(n) ==> {
            if '0' <= c <= '9' && 10 * n + (c as u32 - '0' as u32) <= u32::MAX {
                parsed_u32(s.push(c)) == Some((10 * n + (c as u32 - '0' as u32)) as u32)
            } else {
                parsed_u32(s.push(c)) is None
            }
        }),
        s.len() == 1 && '0' <= s[0] <= '9' ==> parsed_u32(s) == Some(
            (s[0] as u32 - '0' as u32) as u32,
        ),
{
    assert(seq!['+'].skip(1) =~= Seq::empty());
    let longer = s.push(c);
    if s.len() > 0 {
        if s[0] == '+' {
            assert(longer.skip(1) =~= s.skip(1).push(c));
        }
        let digits = after_plus(s);
        assert(after_plus(longer) =~= digits.push(c));
        assert(digits.push(c).drop_last() =~= digits);
        assert(digits.push(c)[digits.len() as int] == c);
        if parsed_u32(s) is Some {
            assert forall|i: int| 0 <= i < digits.push(c).len() implies (is_digit(
                #[trigger] digits.push(c)[i],
            ) || i == digits.len()) by {
                if i < digits.len() {
                    assert(is_digit(digits[i]));
                }
            }
        }
    }
    if s.len() == 1 && '0' <= s[0] <= '9' {
        assert(s.drop_last() =~= Seq::empty());
        assert(digits_value(s.drop_last()) == 0);
        assert(after_plus(s) == s);
    }
}

/// A number is appended to a text as its numeral, and the text before it stays.
pub proof fn numbers_are_appended_as_numerals(out: &mut String, n: u64)
    requires
        call_ensures(push_decimal, (out, n), ()),
    ensures
        final(out)@ == old(out)@ + decimal_text(n as nat),
{
}

} // verus!
