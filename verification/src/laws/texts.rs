//! How numbers are written as text, and read.
use crate::felt::{felt_of_hex, hex_digit, hex_value, modulus, without_hex_prefix, Felt};
use crate::gateway::{hex_char, hex_digits, hex_text};
use crate::laws::numbers::{lemma_digits_move_up, modulus_is_the_prime};
use crate::text::{decimal, decimal_char, decimal_text, truth};
use vstd::arithmetic::div_mod::lemma_fundamental_div_mod;
use vstd::arithmetic::power::pow;
use vstd::arithmetic::power2::pow2;
use vstd::prelude::*;

verus! {

/// The decimal digits, in order.
proof fn lemma_decimal_char(d: nat)
    requires
        d < 10,
    ensures
        "0123456789"@.len() == 10,
        decimal_char(d) == "0123456789"@[d as int],
{
    reveal_strlit("0123456789");
}

/// The lower-case hexadecimal digits, in order.
proof fn lemma_hex_char(d: nat)
    requires
        d < 16,
    ensures
        "0123456789abcdef"@.len() == 16,
        hex_char(d) == "0123456789abcdef"@[d as int],
{
    reveal_strlit("0123456789abcdef");
}

/// What a character is worth as a hexadecimal digit, in either case.
proof fn lemma_hex_digit(c: char, d: nat)
    requires
        d < 16,
    ensures
        hex_digit(c) == Some(d) <==> c == "0123456789abcdef"@[d as int] || c
            == "0123456789ABCDEF"@[d as int],
        hex_digit(c) matches Some(x) ==> x < 16,
{
    reveal_strlit("0123456789abcdef");
    reveal_strlit("0123456789ABCDEF");
}

/// A number is written with as many decimal digits as it needs, and the character at `i` is its
/// digit at the place that counts the characters after it.
pub proof fn decimal_text_is_the_digits(n: nat)
    ensures
        decimal_text(n).len() >= 1,
        n < pow(10, decimal_text(n).len()),
        decimal_text(n).len() > 1 ==> n >= pow(10, (decimal_text(n).len() - 1) as nat),
        forall|i: int|
            0 <= i < decimal_text(n).len() ==> #[trigger] decimal_text(n)[i] == "0123456789"@[(n
                as int / pow(10, (decimal_text(n).len() - 1 - i) as nat)) % 10],
    decreases n,
{
    let text = decimal_text(n);
    let high = n / 10;
    let low = n % 10;
    lemma_fundamental_div_mod(n as int, 10);
    lemma_decimal_char(low);
    assert(pow(10, 0) == 1 && pow(10, 1) == 10) by {
        reveal(pow);
        reveal_with_fuel(pow, 3);
    }
    if n >= 10 {
        let init = decimal_text(high);
        decimal_text_is_the_digits(high);
        lemma_digits_move_up(high, low, 10, init.len());
        lemma_digits_move_up(high, low, 10, (init.len() - 1) as nat);
        assert forall|i: int| 0 <= i < text.len() implies #[trigger] text[i] == "0123456789"@[(n
            as int / pow(10, (text.len() - 1 - i) as nat)) % 10] by {
            if i < init.len() {
                assert(text[i] == init[i]);
                lemma_digits_move_up(high, low, 10, (init.len() - 1 - i) as nat);
                assert((text.len() - 1 - i) as nat == (init.len() - 1 - i) as nat + 1);
            } else {
                assert((text.len() - 1 - i) as nat == 0);
                assert(n as int / 1 == n);
            }
        }
    } else {
        assert(n as int / 1 == n);
    }
}

/// A number is written in hexadecimal with as many lower-case digits as it needs, and the
/// character at `i` is its digit at the place that counts the characters after it.
pub proof fn hex_text_is_the_digits(n: nat)
    ensures
        hex_text(n) == "0x"@ + hex_digits(n),
        hex_digits(n).len() >= 1,
        n < pow(16, hex_digits(n).len()),
        hex_digits(n).len() > 1 ==> n >= pow(16, (hex_digits(n).len() - 1) as nat),
        forall|i: int|
            0 <= i < hex_digits(n).len() ==> #[trigger] hex_digits(n)[i] == "0123456789abcdef"@[(n
                as int / pow(16, (hex_digits(n).len() - 1 - i) as nat)) % 16],
    decreases n,
{
    reveal_strlit("0x");
    assert(hex_text(n) =~= "0x"@ + hex_digits(n));
    let text = hex_digits(n);
    let high = n / 16;
    let low = n % 16;
    lemma_fundamental_div_mod(n as int, 16);
    lemma_hex_char(low);
    assert(pow(16, 0) == 1 && pow(16, 1) == 16) by {
        reveal(pow);
        reveal_with_fuel(pow, 3);
    }
    if n >= 16 {
        let init = hex_digits(high);
        hex_text_is_the_digits(high);
        lemma_digits_move_up(high, low, 16, init.len());
        lemma_digits_move_up(high, low, 16, (init.len() - 1) as nat);
        assert forall|i: int| 0 <= i < text.len() implies #[trigger] text[i]
            == "0123456789abcdef"@[(n as int / pow(16, (text.len() - 1 - i) as nat)) % 16] by {
            if i < init.len() {
                assert(text[i] == init[i]);
                lemma_digits_move_up(high, low, 16, (init.len() - 1 - i) as nat);
                assert((text.len() - 1 - i) as nat == (init.len() - 1 - i) as nat + 1);
            } else {
                assert((text.len() - 1 - i) as nat == 0);
                assert(n as int / 1 == n);
            }
        }
    } else {
        assert(n as int / 1 == n);
    }
}

/// The client writes an integer in decimal: as many digits as it needs, the one at `i` being its
/// digit at the place that counts the characters after it.
pub proof fn decimal_writes_the_digits(n: u64, text: String)
    requires
        call_ensures(decimal, (n,), text),
    ensures
        text@.len() >= 1,
        n < pow(10, text@.len()),
        text@.len() > 1 ==> n >= pow(10, (text@.len() - 1) as nat),
        forall|i: int|
            0 <= i < text@.len() ==> #[trigger] text@[i] == "0123456789"@[(n as int / pow(
                10,
                (text@.len() - 1 - i) as nat,
            )) % 10],
{
    decimal_text_is_the_digits(n as nat);
}

/// The client writes a truth value as its word.
pub proof fn truth_writes_the_word(b: bool, text: &'static str)
    requires
        call_ensures(truth, (b,), text),
    ensures
        b ==> text@ == "true"@,
        !b ==> text@ == "false"@,
{
}

/// Digits that are those of `n`, one character for each place, are read as `n`.
proof fn lemma_hex_digits_are_read(digits: Seq<char>, n: nat)
    requires
        n < pow(16, digits.len()),
        forall|i: int|
            #![trigger digits[i]]
            0 <= i < digits.len() ==> {
                let d = (n as int / pow(16, (digits.len() - 1 - i) as nat)) % 16;
                digits[i] == "0123456789abcdef"@[d] || digits[i] == "0123456789ABCDEF"@[d]
            },
    ensures
        hex_value(digits) == Some(n),
    decreases digits.len(),
{
    assert(pow(16, 0) == 1) by {
        reveal(pow);
    }
    if digits.len() > 0 {
        let init = digits.drop_last();
        let high = n / 16;
        let low = n % 16;
        lemma_fundamental_div_mod(n as int, 16);
        lemma_digits_move_up(high, low, 16, init.len());
        assert(high < pow(16, init.len()));
        assert forall|i: int| #![trigger init[i]] 0 <= i < init.len() implies {
            let d = (high as int / pow(16, (init.len() - 1 - i) as nat)) % 16;
            init[i] == "0123456789abcdef"@[d] || init[i] == "0123456789ABCDEF"@[d]
        } by {
            assert(init[i] == digits[i]);
            lemma_digits_move_up(high, low, 16, (init.len() - 1 - i) as nat);
            assert((digits.len() - 1 - i) as nat == (init.len() - 1 - i) as nat + 1);
        }
        lemma_hex_digits_are_read(init, high);
        let last = digits.len() - 1;
        assert(digits[last] == digits.last());
        assert((digits.len() - 1 - last) as nat == 0);
        assert(n as int / 1 == n);
        lemma_hex_digit(digits.last(), low);
    }
}

/// A text with a character that is no digit is not read.
proof fn lemma_other_characters_are_not_read(digits: Seq<char>, i: int)
    requires
        0 <= i < digits.len(),
        !"0123456789abcdefABCDEF"@.contains(digits[i]),
    ensures
        hex_value(digits) is None,
    decreases digits.len(),
{
    let c = digits[i];
    if i == digits.len() - 1 {
        if hex_digit(c) is Some {
            let d = hex_digit(c)->Some_0;
            reveal_strlit("0123456789abcdefABCDEF");
            let all = "0123456789abcdefABCDEF"@;
            let k = if d < 10 || c >= 'a' {
                d as int
            } else {
                d as int + 6
            };
            assert(all[k] == c);
            assert(all.contains(c));
        }
    } else {
        lemma_other_characters_are_not_read(digits.drop_last(), i);
    }
}

/// Field elements are read from hexadecimal: a text of at most 64 digits, of either case, that are
/// those of a number gives that number, exactly where it is below the prime.
pub proof fn hex_is_read_by_its_digits(text: &str, n: nat, felt: Option<Felt>)
    requires
        call_ensures(Felt::from_hex_be, (text,), felt),
        text@.len() < 2 || text@[0] != '0' || text@[1] != 'x',
        text@.len() <= 64,
        n < pow(16, text@.len()),
        forall|i: int|
            #![trigger text@[i]]
            0 <= i < text@.len() ==> {
                let d = (n as int / pow(16, (text@.len() - 1 - i) as nat)) % 16;
                text@[i] == "0123456789abcdef"@[d] || text@[i] == "0123456789ABCDEF"@[d]
            },
    ensures
        felt is Some <==> n < pow2(251) + 17 * pow2(192) + 1,
        felt matches Some(f) ==> f@ == n,
{
    lemma_hex_digits_are_read(text@, n);
    modulus_is_the_prime();
}

/// A text without the prefix `0x` that has another character, or more than 64, is no field element.
pub proof fn other_texts_are_not_read(text: &str, i: int, felt: Option<Felt>)
    requires
        call_ensures(Felt::from_hex_be, (text,), felt),
        text@.len() < 2 || text@[0] != '0' || text@[1] != 'x',
        0 <= i < text@.len(),
        text@.len() > 64 || !"0123456789abcdefABCDEF"@.contains(text@[i]),
    ensures
        felt is None,
{
    if text@.len() <= 64 {
        lemma_other_characters_are_not_read(text@, i);
    }
}

/// The prefix `0x` makes no difference.
pub proof fn hex_prefix_makes_no_difference(
    text: &str,
    prefixed: &str,
    felt: Option<Felt>,
    other: Option<Felt>,
)
    requires
        prefixed@ == "0x"@ + text@,
        call_ensures(Felt::from_hex_be, (text,), felt),
        call_ensures(Felt::from_hex_be, (prefixed,), other),
    ensures
        felt is Some <==> other is Some,
        felt matches Some(f) ==> other matches Some(g) && f@ == g@,
{
    reveal_strlit("0x");
    assert(prefixed@.skip(2) =~= text@);
    assert(without_hex_prefix(prefixed@) == without_hex_prefix(text@));
    assert(felt_of_hex(prefixed@) == felt_of_hex(text@));
}

/// What is written in hexadecimal is read back as the same number.
pub proof fn hex_is_read_back(n: nat, text: &str, felt: Option<Felt>)
    requires
        n < pow2(251) + 17 * pow2(192) + 1,
        text@ == hex_text(n),
        call_ensures(Felt::from_hex_be, (text,), felt),
    ensures
        felt matches Some(f) && f@ == n,
{
    let digits = hex_digits(n);
    hex_text_is_the_digits(n);
    modulus_is_the_prime();
    reveal_strlit("0x");
    reveal_strlit("0123456789abcdef");
    assert(text@.skip(2) =~= digits);
    assert(digits.len() <= 64) by {
        if digits.len() > 64 {
            vstd::arithmetic::power::lemma_pow_increases(16, 64, (digits.len() - 1) as nat);
            vstd::arithmetic::power::lemma_pow_adds(16, 32, 32);
            vstd::arithmetic::power::lemma_pow_adds(16, 16, 16);
            assert(pow(16, 16) == 0x1_0000_0000_0000_0000) by {
                reveal(pow);
                reveal_with_fuel(pow, 17);
            }
            assert(pow(16, 32) == 0x1_0000_0000_0000_0000_0000_0000_0000_0000);
            let half = pow(16, 32);
            assert(half * half > modulus()) by (nonlinear_arith)
                requires
                    half == 0x1_0000_0000_0000_0000_0000_0000_0000_0000,
            ;
        }
    }
    assert(digits.len() >= 2 ==> digits[1] != 'x') by {
        if digits.len() >= 2 {
            let d = (n as int / pow(16, (digits.len() - 1 - 1) as nat)) % 16;
            assert(digits[1] == "0123456789abcdef"@[d]);
            assert(0 <= d < 16);
        }
    }
    lemma_hex_digits_are_read(digits, n);
    assert(without_hex_prefix(text@) == digits) by {
        reveal_with_fuel(without_hex_prefix, 3);
    }
}

} // verus!
