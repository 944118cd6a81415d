use vstd::prelude::*;

verus! {

/// The character of digit `d` in bases up to 16, lower case for 10 to 15.
pub open spec fn digit_char(d: nat) -> char {
    if d == 0 { '0' }
    else if d == 1 { '1' }
    else if d == 2 { '2' }
    else if d == 3 { '3' }
    else if d == 4 { '4' }
    else if d == 5 { '5' }
    else if d == 6 { '6' }
    else if d == 7 { '7' }
    else if d == 8 { '8' }
    else if d == 9 { '9' }
    else if d == 10 { 'a' }
    else if d == 11 { 'b' }
    else if d == 12 { 'c' }
    else if d == 13 { 'd' }
    else if d == 14 { 'e' }
    else { 'f' }
}

/// The digits of `n` written in base `radix`, most significant first, without
/// leading zeros (zero itself is the single digit `0`).
pub open spec fn radix_digits(n: nat, radix: nat) -> Seq<char>
    decreases n,
{
    if radix < 2 {
        Seq::empty()
    } else if n < radix {
        seq![digit_char(n)]
    } else {
        proof {
            assert(n / radix < n) by (nonlinear_arith)
                requires
                    n >= radix,
                    radix >= 2,
            ;
        }
        radix_digits(n / radix, radix).push(digit_char(n % radix))
    }
}

/// How `{}` prints an unsigned integer.
pub open spec fn decimal(n: nat) -> Seq<char> {
    radix_digits(n, 10)
}

/// How `{}` prints a signed integer: a minus sign before the digits of the
/// magnitude when the value is negative.
pub open spec fn signed_decimal(n: int) -> Seq<char> {
    if n < 0 {
        seq!['-'] + decimal((-n) as nat)
    } else {
        decimal(n as nat)
    }
}

/// How `{:#x}` prints an unsigned integer: `0x` and the lower-case hex digits.
pub open spec fn prefixed_lower_hex(n: nat) -> Seq<char> {
    seq!['0', 'x'] + radix_digits(n, 16)
}

/// The value of a digit character, read independently of how digits are
/// written: `0`..`9` are 0 to 9 and `a`..`f` are 10 to 15; any other
/// character is no digit (-1).
pub open spec fn digit_value(c: char) -> int {
    let v = c as int;
    if 48 <= v <= 57 {
        v - 48
    } else if 97 <= v <= 102 {
        v - 87
    } else {
        -1
    }
}

/// The number that a string of digits stands for in base `radix`, most
/// significant digit first.
pub open spec fn digits_value(s: Seq<char>, radix: int) -> int
    decreases s.len(),
{
    if s.len() == 0 {
        0
    } else {
        digits_value(s.drop_last(), radix) * radix + digit_value(s.last())
    }
}

/// Only decimal digits (and at least one).
pub open spec fn all_decimal_digits(s: Seq<char>) -> bool {
    s.len() >= 1 && forall|i: int| 0 <= i < s.len() ==> 0 <= #[trigger] digit_value(s[i]) < 10
}

/// Only hex digits (and at least one).
pub open spec fn all_hex_digits(s: Seq<char>) -> bool {
    s.len() >= 1 && forall|i: int| 0 <= i < s.len() ==> 0 <= #[trigger] digit_value(s[i]) < 16
}

/// A signed decimal that reads back as `n`: a minus sign and the digits of
/// the magnitude for a negative number, the digits alone otherwise.
pub open spec fn reads_as_signed(s: Seq<char>, n: int) -> bool {
    if n < 0 {
        s.len() >= 2 && s[0] == '-' && all_decimal_digits(s.drop_first()) && digits_value(
            s.drop_first(),
            10,
        ) == -n
    } else {
        all_decimal_digits(s) && digits_value(s, 10) == n
    }
}

/// Each digit below 16 is written with the character that reads back as it:
/// 0 to 9 as `0`..`9`, 10 to 15 as `a`..`f`.
pub proof fn lemma_digit_char_reads_back(d: nat)
    requires
        d < 16,
    ensures
        digit_value(digit_char(d)) == d,
        d < 10 ==> digit_char(d) as int == 48 + d,
        10 <= d ==> digit_char(d) as int == 97 + (d - 10),
{
}

/// Writing `n` in base `radix` (2 to 16) and reading the digits back gives
/// `n`; there is at least one digit, every character is a digit below the
/// radix, and a nonzero number has no leading zero.
pub proof fn lemma_radix_digits_read_back(n: nat, radix: nat)
    requires
        2 <= radix <= 16,
    ensures
        digits_value(radix_digits(n, radix), radix as int) == n,
        radix_digits(n, radix).len() >= 1,
        forall|i: int|
            0 <= i < radix_digits(n, radix).len() ==> 0 <= #[trigger] digit_value(
                radix_digits(n, radix)[i],
            ) < radix,
        n > 0 ==> radix_digits(n, radix)[0] != '0',
    decreases n,
{
    let s = radix_digits(n, radix);
    if n < radix {
        lemma_digit_char_reads_back(n);
        assert(s.drop_last() =~= Seq::<char>::empty());
        assert(digits_value(s, radix as int) == digits_value(s.drop_last(), radix as int) * radix
            + digit_value(s.last()));
    } else {
        assert(n / radix < n && n / radix > 0) by (nonlinear_arith)
            requires
                n >= radix,
                radix >= 2,
        ;
        assert(n % radix < radix) by (nonlinear_arith)
            requires
                radix >= 2,
        ;
        lemma_radix_digits_read_back(n / radix, radix);
        lemma_digit_char_reads_back(n % radix);
        let p = radix_digits(n / radix, radix);
        assert(s == p.push(digit_char(n % radix)));
        assert(s.drop_last() =~= p);
        assert((n / radix) * radix + n % radix == n) by (nonlinear_arith)
            requires
                radix >= 2,
        ;
        assert(s.last() == digit_char(n % radix));
        assert(digits_value(s, radix as int) == digits_value(p, radix as int) * radix + digit_value(
            s.last(),
        ));
        assert(digits_value(p, radix as int) == n / radix);
        assert forall|i: int| 0 <= i < s.len() implies 0 <= #[trigger] digit_value(s[i]) < radix by {
            if i < p.len() {
                assert(s[i] == p[i]);
            }
        }
        assert(s[0] == p[0]);
    }
}

/// `{}` of a signed number: a minus sign exactly for a negative number,
/// followed by decimal digits that read back as its magnitude.
pub proof fn lemma_signed_decimal_reads_back(n: int)
    ensures
        reads_as_signed(signed_decimal(n), n),
        n < 0 ==> signed_decimal(n)[0] == '-' && digits_value(signed_decimal(n).drop_first(), 10)
            == -n,
        n >= 0 ==> digits_value(signed_decimal(n), 10) == n && signed_decimal(n)[0] != '-',
{
    if n < 0 {
        lemma_radix_digits_read_back((-n) as nat, 10);
        assert(signed_decimal(n).drop_first() =~= decimal((-n) as nat));
        assert forall|i: int| 0 <= i < signed_decimal(n).drop_first().len() implies 0
            <= #[trigger] digit_value(signed_decimal(n).drop_first()[i]) < 10 by {
            assert(signed_decimal(n).drop_first()[i] == decimal((-n) as nat)[i]);
        }
    } else {
        lemma_radix_digits_read_back(n as nat, 10);
        assert(0 <= digit_value(radix_digits(n as nat, 10)[0]));
    }
}

/// `{:#x}`: the text starts with `0x` and the rest reads back, in base 16,
/// as the number.
pub proof fn lemma_prefixed_lower_hex_reads_back(n: nat)
    ensures
        prefixed_lower_hex(n).len() >= 3,
        prefixed_lower_hex(n)[0] == '0',
        prefixed_lower_hex(n)[1] == 'x',
        digits_value(prefixed_lower_hex(n).skip(2), 16) == n,
{
    lemma_radix_digits_read_back(n, 16);
    assert(prefixed_lower_hex(n).skip(2) =~= radix_digits(n, 16));
}

/// The one-character text of digit `d`.
fn digit(d: u64) -> (t: &'static str)
    requires
        d < 16,
    ensures
        t@ == seq![digit_char(d as nat)],
{
    if d == 0 {
        proof { reveal_strlit("0"); }
        "0"
    } else if d == 1 {
        proof { reveal_strlit("1"); }
        "1"
    } else if d == 2 {
        proof { reveal_strlit("2"); }
        "2"
    } else if d == 3 {
        proof { reveal_strlit("3"); }
        "3"
    } else if d == 4 {
        proof { reveal_strlit("4"); }
        "4"
    } else if d == 5 {
        proof { reveal_strlit("5"); }
        "5"
    } else if d == 6 {
        proof { reveal_strlit("6"); }
        "6"
    } else if d == 7 {
        proof { reveal_strlit("7"); }
        "7"
    } else if d == 8 {
        proof { reveal_strlit("8"); }
        "8"
    } else if d == 9 {
        proof { reveal_strlit("9"); }
        "9"
    } else if d == 10 {
        proof { reveal_strlit("a"); }
        "a"
    } else if d == 11 {
        proof { reveal_strlit("b"); }
        "b"
    } else if d == 12 {
        proof { reveal_strlit("c"); }
        "c"
    } else if d == 13 {
        proof { reveal_strlit("d"); }
        "d"
    } else if d == 14 {
        proof { reveal_strlit("e"); }
        "e"
    } else {
        proof { reveal_strlit("f"); }
        "f"
    }
}

/// Appends the digits of `n` in base `radix` to `s`.
pub fn push_radix_digits(s: &mut String, n: u64, radix: u64)
    requires
        2 <= radix <= 16,
    ensures
        final(s)@ == old(s)@ + radix_digits(n as nat, radix as nat),
    decreases n,
{
    if n >= radix {
        assert(n / radix < n) by (nonlinear_arith)
            requires
                n >= radix,
                radix >= 2,
        ;
        push_radix_digits(s, n / radix, radix);
    }
    s.append(digit(n % radix));
    assert(final(s)@ == old(s)@ + radix_digits(n as nat, radix as nat)) by {
        if n < radix {
            assert(n % radix == n) by (nonlinear_arith)
                requires
                    n < radix,
            ;
        }
        assert(old(s)@ + radix_digits((n / radix) as nat, radix as nat).push(digit_char((n % radix) as nat))
            =~= (old(s)@ + radix_digits((n / radix) as nat, radix as nat)).push(digit_char((n % radix) as nat)));
    }
}

/// Appends `n` as `{}` prints it.
pub fn push_decimal(s: &mut String, n: u64)
    ensures
        final(s)@ == old(s)@ + decimal(n as nat),
{
    push_radix_digits(s, n, 10);
}

/// Appends `n` as `{}` prints a signed integer.
pub fn push_signed_decimal(s: &mut String, n: i64)
    ensures
        final(s)@ == old(s)@ + signed_decimal(n as int),
{
    if n < 0 {
        proof {
            reveal_strlit("-");
        }
        s.append("-");
        let magnitude: u64 = if n == i64::MIN {
            9223372036854775808u64
        } else {
            (-n) as u64
        };
        push_decimal(s, magnitude);
        assert(final(s)@ =~= old(s)@ + signed_decimal(n as int));
    } else {
        push_decimal(s, n as u64);
    }
}

/// Appends `n` as `{:#x}` prints it.
pub fn push_prefixed_lower_hex(s: &mut String, n: u64)
    ensures
        final(s)@ == old(s)@ + prefixed_lower_hex(n as nat),
{
    proof {
        reveal_strlit("0x");
    }
    s.append("0x");
    push_radix_digits(s, n, 16);
    assert(final(s)@ =~= old(s)@ + prefixed_lower_hex(n as nat));
}

} // verus!
