//! Decimal and hexadecimal rendering of numbers, as the formatting
//! specifiers `{}`, `{:02}`, `{:x}` and `{:X}` write them.

use vstd::prelude::*;

verus! {

/// The ASCII digit for `d` in base 10 or 16, lower case letters.
pub open spec fn digit_lower(d: nat) -> char {
    if d < 10 {
        (d + 48) as char
    } else {
        (d + 87) as char
    }
}

/// The ASCII digit for `d` in base 10 or 16, upper case letters.
pub open spec fn digit_upper(d: nat) -> char {
    if d < 10 {
        (d + 48) as char
    } else {
        (d + 55) as char
    }
}

/// `n` written in base 10, without leading zeros ("0" for zero).
pub open spec fn decimal_text(n: nat) -> Seq<char>
    decreases n,
{
    if n < 10 {
        seq![digit_lower(n)]
    } else {
        decimal_text(n / 10).push(digit_lower(n % 10))
    }
}

/// `n` written in base 10 and padded with zeros to at least two digits (`{:02}`).
pub open spec fn decimal_text_2(n: nat) -> Seq<char> {
    if n < 10 {
        seq!['0', digit_lower(n)]
    } else {
        decimal_text(n)
    }
}

/// `n` written in base 10 with a leading minus sign when negative.
pub open spec fn signed_decimal_text(n: int) -> Seq<char> {
    if n < 0 {
        seq!['-'] + decimal_text((-n) as nat)
    } else {
        decimal_text(n as nat)
    }
}

/// `n` written in base 16 with upper case letters, without leading zeros (`{:X}`).
pub open spec fn hex_upper_text(n: nat) -> Seq<char>
    decreases n,
{
    if n < 16 {
        seq![digit_upper(n)]
    } else {
        hex_upper_text(n / 16).push(digit_upper(n % 16))
    }
}

/// `n` written in base 16 with lower case letters, without leading zeros (`{:x}`).
pub open spec fn hex_lower_text(n: nat) -> Seq<char>
    decreases n,
{
    if n < 16 {
        seq![digit_lower(n)]
    } else {
        hex_lower_text(n / 16).push(digit_lower(n % 16))
    }
}

/// The lowest `width` hexadecimal digits of `n`, most significant first, lower case.
pub open spec fn hex_lower_fixed(n: nat, width: nat) -> Seq<char>
    decreases width,
{
    if width == 0 {
        Seq::empty()
    } else {
        hex_lower_fixed(n / 16, (width - 1) as nat).push(digit_lower(n % 16))
    }
}

/// Whether every character of `s` is a decimal digit.
pub open spec fn all_decimal_digits(s: Seq<char>) -> bool {
    forall|j: int| 0 <= j < s.len() ==> '0' <= #[trigger] s[j] <= '9'
}

/// The number that a sequence of decimal digits stands for.
pub open spec fn decimal_value(s: Seq<char>) -> nat
    decreases s.len(),
{
    if s.len() == 0 {
        0
    } else {
        decimal_value(s.drop_last()) * 10 + ((s.last() as int - 48) as nat)
    }
}

/// A number written in base 10 reads back as itself: its text is a
/// non-empty run of decimal digits whose value is the number.
pub proof fn lemma_decimal_text_reads_back(n: nat)
    ensures
        decimal_text(n).len() >= 1,
        all_decimal_digits(decimal_text(n)),
        decimal_value(decimal_text(n)) == n,
    decreases n,
{
    let t = decimal_text(n);
    assert((digit_lower(n % 10) as int) == (n % 10) + 48);
    if n < 10 {
        assert(t.drop_last() =~= Seq::<char>::empty());
        assert(decimal_value(t.drop_last()) == 0);
        assert(t.last() == digit_lower(n % 10));
        assert(decimal_value(t) == n);
    } else {
        lemma_decimal_text_reads_back(n / 10);
        assert(t == decimal_text(n / 10).push(digit_lower(n % 10)));
        assert(t.drop_last() =~= decimal_text(n / 10));
        assert(t.last() == digit_lower(n % 10));
        assert(decimal_value(t) == (n / 10) * 10 + n % 10);
        assert forall|j: int| 0 <= j < t.len() implies '0' <= #[trigger] t[j] <= '9' by {
            if j < t.len() - 1 {
                assert(t[j] == decimal_text(n / 10)[j]);
            }
        }
    }
}

/// The number that a sequence of lower-case hexadecimal digits stands for.
pub open spec fn hex_value(s: Seq<char>) -> nat
    decreases s.len(),
{
    if s.len() == 0 {
        0
    } else {
        hex_value(s.drop_last()) * 16 + (if s.last() <= '9' {
            (s.last() as int - 48) as nat
        } else {
            (s.last() as int - 87) as nat
        })
    }
}

/// A number written in lower-case hexadecimal reads back as itself: its text
/// is a non-empty run of the digits 0-9 and a-f whose value is the number.
pub proof fn lemma_hex_lower_text_reads_back(n: nat)
    ensures
        hex_lower_text(n).len() >= 1,
        forall|j: int| 0 <= j < hex_lower_text(n).len() ==> ('0' <= #[trigger] hex_lower_text(n)[j] <= '9'
            || 'a' <= hex_lower_text(n)[j] <= 'f'),
        hex_value(hex_lower_text(n)) == n,
    decreases n,
{
    let t = hex_lower_text(n);
    let d = n % 16;
    assert(d < 10 ==> (digit_lower(d) as int) == d + 48);
    assert(d >= 10 ==> (digit_lower(d) as int) == d + 87);
    if n < 16 {
        assert(t.drop_last() =~= Seq::<char>::empty());
        assert(hex_value(t.drop_last()) == 0);
        assert(t.last() == digit_lower(d));
        assert(hex_value(t) == n);
    } else {
        lemma_hex_lower_text_reads_back(n / 16);
        assert(t == hex_lower_text(n / 16).push(digit_lower(d)));
        assert(t.drop_last() =~= hex_lower_text(n / 16));
        assert(t.last() == digit_lower(d));
        assert(hex_value(t) == (n / 16) * 16 + d);
        assert forall|j: int| 0 <= j < t.len() implies ('0' <= #[trigger] t[j] <= '9' || 'a' <= t[j] <= 'f') by {
            if j < t.len() - 1 {
                assert(t[j] == hex_lower_text(n / 16)[j]);
            }
        }
    }
}

/// Appends one character to a string through `String::push`, which std
/// documents as appending the character to the end.
#[verifier::external_body]
pub(crate) fn push_char(s: &mut String, c: char)
    ensures
        final(s)@ == old(s)@.push(c),
{
    s.push(c);
}

fn digit_char_lower(d: u8) -> (c: char)
    requires
        d < 16,
    ensures
        c == digit_lower(d as nat),
{
    if d < 10 {
        (d + 48) as char
    } else {
        (d + 87) as char
    }
}

fn digit_char_upper(d: u8) -> (c: char)
    requires
        d < 16,
    ensures
        c == digit_upper(d as nat),
{
    if d < 10 {
        (d + 48) as char
    } else {
        (d + 55) as char
    }
}

/// Appends `n` in base 10 to `s`.
pub fn push_decimal(s: &mut String, n: u64)
    ensures
        final(s)@ == old(s)@ + decimal_text(n as nat),
    decreases n,
{
    if n >= 10 {
        push_decimal(s, n / 10);
    }
    push_char(s, digit_char_lower((n % 10) as u8));
    proof {
        if n < 10 {
            assert(old(s)@ + decimal_text(n as nat) =~= old(s)@.push(digit_lower(n as nat)));
        } else {
            assert(decimal_text(n as nat) == decimal_text((n / 10) as nat).push(digit_lower((n % 10) as nat)));
            assert((old(s)@ + decimal_text((n / 10) as nat)).push(digit_lower((n % 10) as nat))
                =~= old(s)@ + decimal_text(n as nat));
        }
    }
}

/// Appends `n` in base 16, upper case, to `s`.
pub fn push_hex_upper(s: &mut String, n: u64)
    ensures
        final(s)@ == old(s)@ + hex_upper_text(n as nat),
    decreases n,
{
    if n >= 16 {
        push_hex_upper(s, n / 16);
    }
    push_char(s, digit_char_upper((n % 16) as u8));
    proof {
        if n < 16 {
            assert(old(s)@ + hex_upper_text(n as nat) =~= old(s)@.push(digit_upper(n as nat)));
        } else {
            assert(hex_upper_text(n as nat) == hex_upper_text((n / 16) as nat).push(digit_upper((n % 16) as nat)));
            assert((old(s)@ + hex_upper_text((n / 16) as nat)).push(digit_upper((n % 16) as nat))
                =~= old(s)@ + hex_upper_text(n as nat));
        }
    }
}

/// Appends `n` in base 16, lower case, to `s`.
pub fn push_hex_lower(s: &mut String, n: u64)
    ensures
        final(s)@ == old(s)@ + hex_lower_text(n as nat),
    decreases n,
{
    if n >= 16 {
        push_hex_lower(s, n / 16);
    }
    push_char(s, digit_char_lower((n % 16) as u8));
    proof {
        if n < 16 {
            assert(old(s)@ + hex_lower_text(n as nat) =~= old(s)@.push(digit_lower(n as nat)));
        } else {
            assert(hex_lower_text(n as nat) == hex_lower_text((n / 16) as nat).push(digit_lower((n % 16) as nat)));
            assert((old(s)@ + hex_lower_text((n / 16) as nat)).push(digit_lower((n % 16) as nat))
                =~= old(s)@ + hex_lower_text(n as nat));
        }
    }
}

/// Appends `n` in base 10, padded with zeros to two digits, to `s`.
pub fn push_decimal_2(s: &mut String, n: u64)
    ensures
        final(s)@ == old(s)@ + decimal_text_2(n as nat),
{
    if n < 10 {
        push_char(s, '0');
        push_char(s, digit_char_lower(n as u8));
        proof {
            assert(old(s)@.push('0').push(digit_lower(n as nat)) =~= old(s)@ + decimal_text_2(n as nat));
        }
    } else {
        push_decimal(s, n);
    }
}

/// Appends `n` in base 10 with a minus sign when negative.
pub fn push_signed_decimal(s: &mut String, n: i64)
    ensures
        final(s)@ == old(s)@ + signed_decimal_text(n as int),
{
    if n < 0 {
        push_char(s, '-');
        let magnitude: u64 = if n == i64::MIN { 9223372036854775808u64 } else { (-n) as u64 };
        push_decimal(s, magnitude);
        proof {
            assert(old(s)@.push('-') + decimal_text(magnitude as nat) =~= old(s)@ + signed_decimal_text(n as int));
        }
    } else {
        push_decimal(s, n as u64);
    }
}

} // verus!
