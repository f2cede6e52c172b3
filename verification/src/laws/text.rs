//! Laws of text: numbers, case, white space, fields, prefixes and replacement.

use crate::laws::windows::{is_blank_text, is_bounded, lemma_trimmed};
use crate::messages::{first_placeholder_is_filled_in, occurs, text_without_placeholder_is_kept};
use crate::text::{
    decimal_string, digit, digits, field_views, fields_of_joined_texts,
    hexadecimal_string, is_blank, replaced, split_fields, starts_with, strip_leading,
    strip_repeated, text_without_separator_is_one_field, to_ascii_lower, to_ascii_upper, trimmed,
};
use vstd::prelude::*;

verus! {

// ---------------------------------------------------------------------------
// Numbers

/// The value of a digit, letters in upper case counting from ten.
pub open spec fn digit_value(c: char) -> int {
    if '0' <= c <= '9' {
        c as u32 - '0' as u32
    } else {
        c as u32 - 'A' as u32 + 10
    }
}

/// Whether a character is a digit of a base up to sixteen.
pub open spec fn is_digit(c: char, base: int) -> bool {
    ('0' <= c <= '9' || 'A' <= c <= 'F') && digit_value(c) < base
}

/// The number that a text of digits stands for.
pub open spec fn number_of(text: Seq<char>, base: int) -> int
    decreases text.len(),
{
    if text.len() == 0 {
        0
    } else {
        number_of(text.drop_last(), base) * base + digit_value(text.last())
    }
}

proof fn lemma_digit(value: nat)
    requires
        value < 16,
    ensures
        digit_value(digit(value)) == value,
        is_digit(digit(value), value as int + 1),
        value > 0 ==> digit(value) != '0',
{
}

proof fn lemma_number(value: nat, base: nat)
    requires
        2 <= base <= 16,
    ensures
        number_of(digits(value, base), base as int) == value,
        digits(value, base).len() > 0,
        digits(value, base).len() > 1 ==> digits(value, base)[0] != '0',
        value > 0 ==> digits(value, base)[0] != '0',
        forall|i: int|
            0 <= i < digits(value, base).len() ==> is_digit(
                #[trigger] digits(value, base)[i],
                base as int,
            ),
    decreases value,
{
    let text = digits(value, base);
    if value < base {
        lemma_digit(value);
        assert(text.drop_last().len() == 0);
        assert(number_of(text.drop_last(), base as int) == 0);
    } else {
        let rest = value / base;
        let last = value % base;
        vstd::arithmetic::div_mod::lemma_div_decreases(value as int, base as int);
        vstd::arithmetic::div_mod::lemma_fundamental_div_mod(value as int, base as int);
        assert(rest > 0) by (nonlinear_arith)
            requires
                value >= base,
                base >= 2,
                rest == value / base,
        ;
        lemma_number(rest, base);
        lemma_digit(last);
        assert(text.drop_last() =~= digits(rest, base));
        assert(base * rest == rest * base) by (nonlinear_arith);
        assert forall|i: int| 0 <= i < text.len() implies is_digit(#[trigger] text[i], base as int) by {
            if i < text.len() - 1 {
                assert(text[i] == digits(rest, base)[i]);
            }
        }
    }
}

/// A number in decimal reads back as the number, holds only digits and begins with no needless
/// zero.
pub proof fn decimal_reads_back(value: u128, text: String)
    requires
        call_ensures(decimal_string, (value,), text),
    ensures
        number_of(text@, 10) == value,
        text@.len() > 0,
        text@.len() > 1 ==> text@[0] != '0',
        forall|i: int| 0 <= i < text@.len() ==> '0' <= #[trigger] text@[i] <= '9',
{
    lemma_number(value as nat, 10);
    assert forall|i: int| 0 <= i < text@.len() implies '0' <= #[trigger] text@[i] <= '9' by {
        assert(is_digit(text@[i], 10));
    }
}

proof fn lemma_leading_zeros(zeros: nat, text: Seq<char>, base: int)
    ensures
        number_of(Seq::new(zeros, |i: int| '0') + text, base) == number_of(text, base),
    decreases text.len() + zeros,
{
    let fill = Seq::new(zeros, |i: int| '0');
    let whole = fill + text;
    if text.len() > 0 {
        assert(whole.drop_last() =~= fill + text.drop_last());
        assert(whole.last() == text.last());
        lemma_leading_zeros(zeros, text.drop_last(), base);
    } else if zeros > 0 {
        let fewer = (zeros - 1) as nat;
        assert(whole.drop_last() =~= Seq::new(fewer, |i: int| '0') + text);
        lemma_leading_zeros(fewer, text, base);
        assert(whole.last() == '0');
        assert(number_of(text, base) == 0);
        assert(number_of(whole, base) == 0 * base + 0);
    } else {
        assert(whole =~= text);
    }
}

/// A number in hexadecimal reads back as the number, has at least the digits asked for, and more
/// only where it needs them.
pub proof fn hexadecimal_reads_back(value: u32, width: usize, text: String)
    requires
        call_ensures(hexadecimal_string, (value, width), text),
    ensures
        number_of(text@, 16) == value,
        text@.len() >= width,
        text@.len() >= 1,
        text@.len() > width && text@.len() > 1 ==> text@[0] != '0',
        forall|i: int| 0 <= i < text@.len() ==> is_digit(#[trigger] text@[i], 16),
{
    let plain = digits(value as nat, 16);
    lemma_number(value as nat, 16);
    if plain.len() < width {
        lemma_leading_zeros((width - plain.len()) as nat, plain, 16);
        assert forall|i: int| 0 <= i < text@.len() implies is_digit(#[trigger] text@[i], 16) by {
            if i >= width - plain.len() {
                assert(text@[i] == plain[i - (width - plain.len())]);
            }
        }
    }
}

// ---------------------------------------------------------------------------
// Case

/// Putting text in upper case changes the letters a to z, each into its capital, and nothing else;
/// putting it in lower case changes the letters A to Z back.
pub proof fn case_changes_letters_only(chars: &[char], upper: Vec<char>, lower: Vec<char>, i: int)
    requires
        call_ensures(to_ascii_upper, (chars,), upper),
        call_ensures(to_ascii_lower, (chars,), lower),
        0 <= i < chars@.len(),
    ensures
        upper@.len() == chars@.len(),
        lower@.len() == chars@.len(),
        if 'a' <= chars@[i] <= 'z' {
            upper@[i] as u32 == chars@[i] as u32 - 'a' as u32 + 'A' as u32
        } else {
            upper@[i] == chars@[i]
        },
        if 'A' <= chars@[i] <= 'Z' {
            lower@[i] as u32 == chars@[i] as u32 - 'A' as u32 + 'a' as u32
        } else {
            lower@[i] == chars@[i]
        },
{
}

// ---------------------------------------------------------------------------
// White space

/// Trimming takes the white space from both ends and nothing else.
pub proof fn only_white_space_is_trimmed(
    chars: &[char],
    before: Seq<char>,
    inner: Seq<char>,
    after: Seq<char>,
    result: Vec<char>,
)
    requires
        call_ensures(trimmed, (chars,), result),
        is_blank_text(before),
        is_blank_text(after),
        inner.len() == 0 || is_bounded(inner),
        chars@ == before + inner + after,
    ensures
        result@ == inner,
{
    lemma_trimmed(before, inner, after);
}

/// A text is blank exactly where it holds nothing but white space.
pub proof fn blank_means_white_space(text: &str, blank: bool)
    requires
        call_ensures(is_blank, (text,), blank),
    ensures
        blank <==> is_blank_text(text@),
{
    crate::laws::settings::lemma_blank(text@);
    assert(is_blank_text(text@) <==> crate::laws::settings::is_all_blank(text@));
}

// ---------------------------------------------------------------------------
// Fields, prefixes, replacement

/// A text without the separator is its only field; the fields of two texts with a separator between
/// them are those of the first and then those of the second.
pub proof fn fields_lie_between_separators(
    first: &[char],
    second: &[char],
    joined: &[char],
    separator: char,
    of_first: Vec<Vec<char>>,
    of_second: Vec<Vec<char>>,
    of_joined: Vec<Vec<char>>,
)
    requires
        call_ensures(split_fields, (first, separator), of_first),
        call_ensures(split_fields, (second, separator), of_second),
        call_ensures(split_fields, (joined, separator), of_joined),
        joined@ == first@ + seq![separator] + second@,
    ensures
        !first@.contains(separator) ==> of_first@.len() == 1 && of_first@[0]@ == first@,
        of_joined@.len() == of_first@.len() + of_second@.len(),
        forall|i: int|
            0 <= i < of_first@.len() ==> (#[trigger] of_joined@[i])@ == of_first@[i]@,
        forall|i: int|
            0 <= i < of_second@.len() ==> of_joined@[of_first@.len() + i]@ == (
            #[trigger] of_second@[i])@,
{
    fields_of_joined_texts(first@, second@, separator);
    if !first@.contains(separator) {
        text_without_separator_is_one_field(first@, separator);
        assert(field_views(of_first@).len() == 1);
        assert(field_views(of_first@)[0] == of_first@[0]@);
    }
    let a = field_views(of_first@);
    let b = field_views(of_second@);
    let c = field_views(of_joined@);
    assert(c == a + b);
    assert(c.len() == a.len() + b.len());
    assert(of_joined@.len() == c.len());
    assert forall|i: int| 0 <= i < of_first@.len() implies (#[trigger] of_joined@[i])@
        == of_first@[i]@ by {
        assert((a + b)[i] == a[i]);
        assert(c[i] == of_joined@[i]@);
        assert(a[i] == of_first@[i]@);
    }
    assert forall|i: int| 0 <= i < of_second@.len() implies of_joined@[of_first@.len() + i]@ == (
    #[trigger] of_second@[i])@ by {
        assert((a + b)[a.len() + i] == b[i]);
        assert(c[a.len() + i] == of_joined@[of_first@.len() + i]@);
        assert(b[i] == of_second@[i]@);
    }
}

/// Every leading copy of a prefix is stripped, and what is left begins with none.
pub proof fn every_leading_copy_is_stripped(
    chars: &[char],
    longer: &[char],
    prefix: &[char],
    rest: Vec<char>,
    of_longer: Vec<char>,
)
    requires
        call_ensures(strip_leading, (chars, prefix), rest),
        call_ensures(strip_leading, (longer, prefix), of_longer),
        prefix@.len() > 0,
        longer@ == prefix@ + chars@,
    ensures
        of_longer@ == rest@,
        !starts_with(rest@, prefix@),
        !starts_with(chars@, prefix@) ==> rest@ == chars@,
{
    assert(longer@.take(prefix@.len() as int) =~= prefix@);
    assert(longer@.skip(prefix@.len() as int) =~= chars@);
    lemma_stripped(chars@, prefix@);
}

proof fn lemma_stripped(text: Seq<char>, prefix: Seq<char>)
    requires
        prefix.len() > 0,
    ensures
        !starts_with(strip_repeated(text, prefix), prefix),
    decreases text.len(),
{
    if starts_with(text, prefix) {
        lemma_stripped(text.skip(prefix.len() as int), prefix);
    }
}

/// The first occurrence of a pattern is replaced by the value, and what follows it is treated
/// likewise; a text without the pattern stays as it is.
pub proof fn occurrences_are_replaced_from_the_left(
    text: &str,
    rest: &str,
    pattern: &str,
    value: &str,
    before: Seq<char>,
    result: String,
    of_rest: String,
)
    requires
        call_ensures(replaced, (text, pattern, value), result),
        call_ensures(replaced, (rest, pattern, value), of_rest),
        pattern@.len() > 0,
    ensures
        !occurs(pattern@, text@) ==> result@ == text@,
        text@ == before + pattern@ + rest@ && (forall|i: int|
            0 <= i < before.len() ==> !#[trigger] starts_with(text@.skip(i), pattern@)) ==> result@
            == before + value@ + of_rest@,
{
    if !occurs(pattern@, text@) {
        text_without_placeholder_is_kept(text@, pattern@, value@);
    }
    if text@ == before + pattern@ + rest@ && (forall|i: int|
        0 <= i < before.len() ==> !#[trigger] starts_with(text@.skip(i), pattern@)) {
        first_placeholder_is_filled_in(before, pattern@, rest@, value@);
    }
}

} // verus!
