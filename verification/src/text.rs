//! Text: the character-level operations that the rest of the library is stated with.
//!
//! A string is modelled as the sequence of its characters.

use vstd::prelude::*;
use vstd::string::*;

verus! {

broadcast use vstd::string::group_string_axioms;

/// `char::from_u32`: the character of a code point, `None` above `0x10FFFF` and for surrogates.
pub assume_specification[ char::from_u32 ](code: u32) -> (character: Option<char>)
    ensures
        character is Some <==> is_scalar_value(code as int),
        character matches Some(c) ==> c as u32 == code,
;

/// `String::push`: appends one character at the end of the string.
pub assume_specification[ String::push ](text: &mut String, character: char)
    ensures
        final(text)@ == old(text)@.push(character),
;

/// A Unicode scalar value: any code point but a surrogate.
pub open spec fn is_scalar_value(code: int) -> bool {
    0 <= code < 0xd800 || 0xe000 <= code <= 0x10ffff
}

/// Collects the characters of a string.
pub fn chars_of(text: &str) -> (chars: Vec<char>)
    ensures
        chars@ == text@,
{
    let mut chars: Vec<char> = Vec::new();
    for character in iter: text.chars()
        invariant
            chars@ == iter.seq().take(iter.index()),
            iter.seq() == text@,
    {
        chars.push(character);
    }
    chars
}

/// Builds a string from its characters.
pub fn string_of(chars: &[char]) -> (text: String)
    ensures
        text@ == chars@,
{
    let mut text = String::new();
    let mut i: usize = 0;
    while i < chars.len()
        invariant
            i <= chars@.len(),
            text@ == chars@.take(i as int),
        decreases chars@.len() - i,
    {
        text.push(chars[i]);
        i += 1;
        assert(chars@.take(i as int) == chars@.take(i - 1).push(chars@[i - 1]));
    }
    assert(chars@.take(i as int) == chars@);
    text
}

/// Whether two strings hold the same characters.
pub fn same_text(left: &str, right: &str) -> (same: bool)
    ensures
        same == (left@ == right@),
{
    left.to_owned() == right.to_owned()
}

/// Concatenates two strings.
pub fn join2(first: &str, second: &str) -> (text: String)
    ensures
        text@ == first@ + second@,
{
    let mut text = first.to_owned();
    text.append(second);
    text
}

/// Concatenates three strings.
pub fn join3(first: &str, second: &str, third: &str) -> (text: String)
    ensures
        text@ == first@ + second@ + third@,
{
    let mut text = first.to_owned();
    text.append(second);
    text.append(third);
    text
}

// ---------------------------------------------------------------------------
// ASCII case

/// `c` in upper case if it is an ASCII letter, else `c` itself.
pub open spec fn ascii_upper_char(c: char) -> char {
    if 'a' <= c <= 'z' {
        ((c as u32 - 32) as u32) as char
    } else {
        c
    }
}

/// `c` in lower case if it is an ASCII letter, else `c` itself.
pub open spec fn ascii_lower_char(c: char) -> char {
    if 'A' <= c <= 'Z' {
        ((c as u32 + 32) as u32) as char
    } else {
        c
    }
}

/// `text` with its ASCII letters in upper case.
pub open spec fn ascii_upper(text: Seq<char>) -> Seq<char> {
    Seq::new(text.len(), |i: int| ascii_upper_char(text[i]))
}

/// `text` with its ASCII letters in lower case.
pub open spec fn ascii_lower(text: Seq<char>) -> Seq<char> {
    Seq::new(text.len(), |i: int| ascii_lower_char(text[i]))
}

/// The characters of `chars` with ASCII letters in upper case.
pub fn to_ascii_upper(chars: &[char]) -> (upper: Vec<char>)
    ensures
        upper@ == ascii_upper(chars@),
{
    let mut upper: Vec<char> = Vec::new();
    let mut i: usize = 0;
    while i < chars.len()
        invariant
            i <= chars@.len(),
            upper@ == ascii_upper(chars@).take(i as int),
        decreases chars@.len() - i,
    {
        let c: char = chars[i];
        let mapped: char = if 'a' <= c && c <= 'z' {
            match char::from_u32(c as u32 - 32) {
                Some(shifted) => shifted,
                None => c,
            }
        } else {
            c
        };
        assert(mapped == ascii_upper_char(c)) by {
            vstd::utf8::char_u32_cast(mapped, mapped as u32);
        }
        upper.push(mapped);
        i += 1;
    }
    upper
}

/// The characters of `chars` with ASCII letters in lower case.
pub fn to_ascii_lower(chars: &[char]) -> (lower: Vec<char>)
    ensures
        lower@ == ascii_lower(chars@),
{
    let mut lower: Vec<char> = Vec::new();
    let mut i: usize = 0;
    while i < chars.len()
        invariant
            i <= chars@.len(),
            lower@ == ascii_lower(chars@).take(i as int),
        decreases chars@.len() - i,
    {
        let c: char = chars[i];
        let mapped: char = if 'A' <= c && c <= 'Z' {
            match char::from_u32(c as u32 + 32) {
                Some(shifted) => shifted,
                None => c,
            }
        } else {
            c
        };
        assert(mapped == ascii_lower_char(c)) by {
            vstd::utf8::char_u32_cast(mapped, mapped as u32);
        }
        lower.push(mapped);
        i += 1;
    }
    lower
}

// ---------------------------------------------------------------------------
// Prefixes, trimming and fields

/// Whether `text` begins with `prefix`.
pub open spec fn starts_with(text: Seq<char>, prefix: Seq<char>) -> bool {
    prefix.len() <= text.len() && text.take(prefix.len() as int) == prefix
}

/// Whether `chars[from..]` begins with `prefix`.
pub fn has_prefix_at(chars: &[char], from: usize, prefix: &[char]) -> (found: bool)
    requires
        from <= chars@.len(),
    ensures
        found == starts_with(chars@.skip(from as int), prefix@),
{
    let total: usize = chars.len();
    if total - from < prefix.len() {
        return false;
    }
    let mut i: usize = 0;
    while i < prefix.len()
        invariant
            i <= prefix@.len(),
            total == chars@.len(),
            from + prefix@.len() <= total,
            forall|k: int| 0 <= k < i ==> chars@[from + k] == prefix@[k],
        decreases prefix@.len() - i,
    {
        if chars[from + i] != prefix[i] {
            assert(chars@.skip(from as int).take(prefix@.len() as int)[i as int] != prefix@[i as int]);
            return false;
        }
        i += 1;
    }
    assert(chars@.skip(from as int).take(prefix@.len() as int) == prefix@);
    true
}

/// `text` without any number of leading copies of `prefix`.
pub open spec fn strip_repeated(text: Seq<char>, prefix: Seq<char>) -> Seq<char>
    decreases text.len(),
{
    if prefix.len() > 0 && starts_with(text, prefix) {
        strip_repeated(text.skip(prefix.len() as int), prefix)
    } else {
        text
    }
}

/// Drops every leading copy of `prefix`.
pub fn strip_leading(chars: &[char], prefix: &[char]) -> (rest: Vec<char>)
    ensures
        rest@ == strip_repeated(chars@, prefix@),
{
    let total: usize = chars.len();
    let mut from: usize = 0;
    assert(chars@.skip(0) == chars@);
    if prefix.len() > 0 {
        while has_prefix_at(chars, from, prefix)
            invariant
                total == chars@.len(),
                from <= total,
                prefix@.len() > 0,
                strip_repeated(chars@.skip(from as int), prefix@) == strip_repeated(chars@, prefix@),
            decreases chars@.len() - from,
        {
            assert(chars@.skip(from as int).skip(prefix@.len() as int) == chars@.skip(
                from + prefix@.len(),
            ));
            from += prefix.len();
        }
    }
    slice_chars(chars, from, total)
}

/// Copies `chars[from..to]`.
pub fn slice_chars(chars: &[char], from: usize, to: usize) -> (part: Vec<char>)
    requires
        from <= to <= chars@.len(),
    ensures
        part@ == chars@.subrange(from as int, to as int),
{
    let mut part: Vec<char> = Vec::new();
    let mut i: usize = from;
    while i < to
        invariant
            from <= i <= to <= chars@.len(),
            part@ == chars@.subrange(from as int, i as int),
        decreases to - i,
    {
        part.push(chars[i]);
        i += 1;
    }
    part
}

/// A character with the Unicode property `White_Space`.
pub open spec fn is_white_space(c: char) -> bool {
    let code = c as u32;
    ||| 0x09 <= code <= 0x0d
    ||| code == 0x20
    ||| code == 0x85
    ||| code == 0xa0
    ||| code == 0x1680
    ||| 0x2000 <= code <= 0x200a
    ||| code == 0x2028
    ||| code == 0x2029
    ||| code == 0x202f
    ||| code == 0x205f
    ||| code == 0x3000
}

/// Whether `c` has the Unicode property `White_Space`.
pub fn white_space(c: char) -> (white: bool)
    ensures
        white == is_white_space(c),
{
    let code: u32 = c as u32;
    (0x09 <= code && code <= 0x0d) || code == 0x20 || code == 0x85 || code == 0xa0 || code == 0x1680
        || (0x2000 <= code && code <= 0x200a) || code == 0x2028 || code == 0x2029 || code == 0x202f
        || code == 0x205f || code == 0x3000
}

/// `text` without its leading white space.
pub open spec fn trim_start(text: Seq<char>) -> Seq<char>
    decreases text.len(),
{
    if text.len() > 0 && is_white_space(text[0]) {
        trim_start(text.skip(1))
    } else {
        text
    }
}

/// `text` without its trailing white space.
pub open spec fn trim_end(text: Seq<char>) -> Seq<char>
    decreases text.len(),
{
    if text.len() > 0 && is_white_space(text.last()) {
        trim_end(text.drop_last())
    } else {
        text
    }
}

/// `text` without the white space around it.
pub open spec fn trim(text: Seq<char>) -> Seq<char> {
    trim_end(trim_start(text))
}

/// Copies `chars` without the white space around them.
pub fn trimmed(chars: &[char]) -> (inner: Vec<char>)
    ensures
        inner@ == trim(chars@),
{
    let mut from: usize = 0;
    assert(chars@.skip(0) == chars@);
    while from < chars.len() && white_space(chars[from])
        invariant
            from <= chars@.len(),
            trim_start(chars@.skip(from as int)) == trim_start(chars@),
        decreases chars@.len() - from,
    {
        assert(chars@.skip(from as int).skip(1) == chars@.skip(from + 1));
        from += 1;
    }
    let ghost started = chars@.skip(from as int);
    assert(started == trim_start(chars@));
    let mut to: usize = chars.len();
    assert(chars@.subrange(from as int, to as int) == started);
    while from < to && white_space(chars[to - 1])
        invariant
            from <= to <= chars@.len(),
            trim_end(chars@.subrange(from as int, to as int)) == trim_end(started),
        decreases to - from,
    {
        assert(chars@.subrange(from as int, to as int).drop_last() == chars@.subrange(
            from as int,
            to - 1,
        ));
        to -= 1;
    }
    slice_chars(chars, from, to)
}

/// Whether a string holds nothing but white space.
pub fn is_blank(text: &str) -> (blank: bool)
    ensures
        blank == (trim(text@).len() == 0),
{
    trimmed(&chars_of(text)).len() == 0
}

/// The fields of `text` between occurrences of `separator`: one more than there are separators.
pub open spec fn fields(text: Seq<char>, separator: char) -> Seq<Seq<char>>
    decreases text.len(),
{
    if text.len() == 0 {
        seq![Seq::<char>::empty()]
    } else {
        let before = fields(text.drop_last(), separator);
        if text.last() == separator {
            before.push(Seq::<char>::empty())
        } else {
            before.drop_last().push(before.last().push(text.last()))
        }
    }
}

/// The contents of a list of character lists.
pub open spec fn field_views(parts: Seq<Vec<char>>) -> Seq<Seq<char>> {
    Seq::new(parts.len(), |i: int| parts[i]@)
}

/// A text without the separator is its own and only field.
pub proof fn text_without_separator_is_one_field(text: Seq<char>, separator: char)
    requires
        !text.contains(separator),
    ensures
        fields(text, separator) == seq![text],
    decreases text.len(),
{
    if text.len() > 0 {
        let rest = text.drop_last();
        assert(text[text.len() - 1] != separator);
        assert forall|i: int| 0 <= i < rest.len() implies rest[i] != separator by {
            assert(text[i] != separator);
        }
        text_without_separator_is_one_field(rest, separator);
        assert(rest.push(text.last()) == text);
        assert(fields(text, separator) =~= seq![text]);
    } else {
        assert(text =~= Seq::<char>::empty());
    }
}

/// The fields of two texts with a separator between them are those of the one, followed by those
/// of the other.
pub proof fn fields_of_joined_texts(first: Seq<char>, second: Seq<char>, separator: char)
    ensures
        fields(second, separator).len() >= 1,
        fields(first + seq![separator] + second, separator) == fields(first, separator) + fields(
            second,
            separator,
        ),
    decreases second.len(),
{
    let text = first + seq![separator] + second;
    let before = fields(first, separator);
    if second.len() == 0 {
        assert(text.drop_last() == first);
        assert(fields(text, separator) =~= before + fields(second, separator));
    } else {
        let rest = second.drop_last();
        fields_of_joined_texts(first, rest, separator);
        assert(text.drop_last() == first + seq![separator] + rest);
        assert(text.last() == second.last());
        assert(fields(text, separator) =~= before + fields(second, separator));
    }
}

/// Splits `chars` at every `separator`.
pub fn split_fields(chars: &[char], separator: char) -> (parts: Vec<Vec<char>>)
    ensures
        field_views(parts@) == fields(chars@, separator),
        parts@.len() >= 1,
{
    let mut parts: Vec<Vec<char>> = Vec::new();
    let mut current: Vec<char> = Vec::new();
    let mut i: usize = 0;
    while i < chars.len()
        invariant
            i <= chars@.len(),
            field_views(parts@).push(current@) == fields(chars@.take(i as int), separator),
        decreases chars@.len() - i,
    {
        let ghost before = fields(chars@.take(i as int), separator);
        let ghost old_parts = field_views(parts@);
        let ghost old_current = current@;
        assert(chars@.take(i + 1).drop_last() == chars@.take(i as int));
        assert(chars@.take(i + 1).last() == chars@[i as int]);
        assert(before.drop_last() == old_parts);
        assert(before.last() == old_current);
        if chars[i] == separator {
            parts.push(current);
            current = Vec::new();
            assert(field_views(parts@) == old_parts.push(old_current));
        } else {
            current.push(chars[i]);
        }
        i += 1;
    }
    let ghost old_parts = field_views(parts@);
    let ghost old_current = current@;
    parts.push(current);
    assert(field_views(parts@) == old_parts.push(old_current));
    assert(chars@.take(i as int) == chars@);
    parts
}

// ---------------------------------------------------------------------------
// Substitution

/// `text` with each occurrence of `pattern`, found from left to right without overlap,
/// replaced by `value`.
pub open spec fn replace_all(text: Seq<char>, pattern: Seq<char>, value: Seq<char>) -> Seq<char>
    decreases text.len(),
{
    if text.len() == 0 || pattern.len() == 0 {
        text
    } else if starts_with(text, pattern) {
        value + replace_all(text.skip(pattern.len() as int), pattern, value)
    } else {
        seq![text[0]] + replace_all(text.skip(1), pattern, value)
    }
}

/// Replaces each occurrence of a pattern that is not empty.
pub fn replaced(text: &str, pattern: &str, value: &str) -> (result: String)
    requires
        pattern@.len() > 0,
    ensures
        result@ == replace_all(text@, pattern@, value@),
{
    let chars = chars_of(text);
    let pattern_chars = chars_of(pattern);
    let mut result = String::new();
    let mut i: usize = 0;
    assert(chars@.skip(0) == chars@);
    while i < chars.len()
        invariant
            i <= chars@.len(),
            pattern_chars@ == pattern@,
            pattern@.len() > 0,
            result@ + replace_all(chars@.skip(i as int), pattern@, value@) == replace_all(
                chars@,
                pattern@,
                value@,
            ),
        decreases chars@.len() - i,
    {
        let ghost rest = chars@.skip(i as int);
        if has_prefix_at(&chars, i, &pattern_chars) {
            assert(rest.skip(pattern@.len() as int) == chars@.skip(i + pattern@.len()));
            result.append(value);
            i += pattern_chars.len();
        } else {
            assert(rest.skip(1) == chars@.skip(i + 1));
            result.push(chars[i]);
            i += 1;
        }
    }
    result
}

// ---------------------------------------------------------------------------
// Numbers

/// The digit of a value below sixteen, letters in upper case.
pub open spec fn digit(value: nat) -> char {
    if value < 10 {
        ((48 + value) as u32) as char
    } else {
        ((55 + value) as u32) as char
    }
}

/// `value` written in base `base` without leading zeros.
pub open spec fn digits(value: nat, base: nat) -> Seq<char>
    decreases value,
{
    if base < 2 || value < base {
        seq![digit(value)]
    } else {
        proof {
            vstd::arithmetic::div_mod::lemma_div_decreases(value as int, base as int);
        }
        digits(value / base, base).push(digit(value % base))
    }
}

/// `value` in decimal.
pub open spec fn decimal(value: nat) -> Seq<char> {
    digits(value, 10)
}

/// `value` in upper-case hexadecimal, filled with zeros on the left up to `width` digits.
pub open spec fn hexadecimal(value: nat, width: nat) -> Seq<char> {
    let plain = digits(value, 16);
    if plain.len() >= width {
        plain
    } else {
        Seq::new((width - plain.len()) as nat, |i: int| '0') + plain
    }
}

fn digit_char(value: u32) -> (c: char)
    requires
        value < 16,
    ensures
        c == digit(value as nat),
{
    let code: u32 = if value < 10 {
        48 + value
    } else {
        55 + value
    };
    match char::from_u32(code) {
        Some(c) => {
            proof {
                vstd::utf8::char_u32_cast(c, code);
            }
            c
        },
        None => '?',
    }
}

fn digits_of(value: u128, base: u32) -> (text: Vec<char>)
    requires
        2 <= base <= 16,
    ensures
        text@ == digits(value as nat, base as nat),
    decreases value,
{
    if value < base as u128 {
        let mut text: Vec<char> = Vec::new();
        text.push(digit_char(value as u32));
        text
    } else {
        proof {
            vstd::arithmetic::div_mod::lemma_div_decreases(value as int, base as int);
        }
        let mut text = digits_of(value / base as u128, base);
        text.push(digit_char((value % base as u128) as u32));
        text
    }
}

/// A number in decimal is at least one digit, and nothing else.
pub proof fn decimal_holds_digits_only(value: nat)
    ensures
        decimal(value).len() > 0,
        forall|i: int| 0 <= i < decimal(value).len() ==> '0' <= #[trigger] decimal(value)[i] <= '9',
    decreases value,
{
    if value >= 10 {
        decimal_holds_digits_only(value / 10);
    }
}

/// Different numbers are written differently.
pub proof fn decimal_is_injective(a: nat, b: nat)
    requires
        decimal(a) == decimal(b),
    ensures
        a == b,
    decreases a + b,
{
    decimal_holds_digits_only(a);
    decimal_holds_digits_only(b);
    if a < 10 && b < 10 {
        assert(decimal(a)[0] == digit(a));
        assert(decimal(b)[0] == digit(b));
    } else if a >= 10 && b >= 10 {
        assert(decimal(a) == decimal(a / 10).push(digit(a % 10)));
        assert(decimal(b) == decimal(b / 10).push(digit(b % 10)));
        assert(decimal(a).drop_last() == decimal(a / 10));
        assert(decimal(b).drop_last() == decimal(b / 10));
        decimal_is_injective(a / 10, b / 10);
        assert(decimal(a).last() == digit(a % 10));
        assert(decimal(b).last() == digit(b % 10));
    } else if a < 10 {
        decimal_holds_digits_only(b / 10);
        assert(decimal(b).len() >= 2);
    } else {
        decimal_holds_digits_only(a / 10);
        assert(decimal(a).len() >= 2);
    }
}

/// Different numbers have different digits, even behind zeros.
proof fn lemma_digits_injective(a: nat, b: nat, zeros_a: nat, zeros_b: nat)
    requires
        Seq::new(zeros_a, |i: int| '0') + digits(a, 16) == Seq::new(zeros_b, |i: int| '0') + digits(
            b,
            16,
        ),
    ensures
        a == b,
    decreases a + b,
{
    let fill_a = Seq::new(zeros_a, |i: int| '0');
    let fill_b = Seq::new(zeros_b, |i: int| '0');
    let left = fill_a + digits(a, 16);
    let right = fill_b + digits(b, 16);
    assert(digits(a, 16).len() > 0 && digits(b, 16).len() > 0);
    assert(left.last() == digit(a % 16));
    assert(right.last() == digit(b % 16));
    assert(a % 16 == b % 16);
    if a >= 16 && b >= 16 {
        assert(left.drop_last() == fill_a + digits(a / 16, 16));
        assert(right.drop_last() == fill_b + digits(b / 16, 16));
        lemma_digits_injective(a / 16, b / 16, zeros_a, zeros_b);
    } else if a < 16 && b >= 16 {
        assert(left.drop_last() == fill_a);
        assert(right.drop_last() == fill_b + digits(b / 16, 16));
        lemma_leading_digit(b / 16);
        let i = zeros_b as int;
        assert(right.drop_last()[i] == digits(b / 16, 16)[0]);
        assert(fill_a[i] == '0');
    } else if a >= 16 && b < 16 {
        assert(right.drop_last() == fill_b);
        assert(left.drop_last() == fill_a + digits(a / 16, 16));
        lemma_leading_digit(a / 16);
        let i = zeros_a as int;
        assert(left.drop_last()[i] == digits(a / 16, 16)[0]);
        assert(fill_b[i] == '0');
    }
}

/// The first digit of a number other than zero is not zero.
proof fn lemma_leading_digit(value: nat)
    requires
        value > 0,
    ensures
        digits(value, 16).len() > 0,
        digits(value, 16)[0] != '0',
    decreases value,
{
    if value >= 16 {
        lemma_leading_digit(value / 16);
    }
}

/// Different numbers are written differently in hexadecimal.
pub proof fn hexadecimal_is_injective(a: nat, b: nat, width: nat)
    requires
        hexadecimal(a, width) == hexadecimal(b, width),
    ensures
        a == b,
{
    let plain_a = digits(a, 16);
    let plain_b = digits(b, 16);
    let zeros_a: nat = if plain_a.len() >= width {
        0
    } else {
        (width - plain_a.len()) as nat
    };
    let zeros_b: nat = if plain_b.len() >= width {
        0
    } else {
        (width - plain_b.len()) as nat
    };
    assert(Seq::new(zeros_a, |i: int| '0') + plain_a == hexadecimal(a, width));
    assert(Seq::new(zeros_b, |i: int| '0') + plain_b == hexadecimal(b, width));
    lemma_digits_injective(a, b, zeros_a, zeros_b);
}

/// Writes a number in decimal.
pub fn decimal_string(value: u128) -> (text: String)
    ensures
        text@ == decimal(value as nat),
{
    string_of(&digits_of(value, 10))
}

/// Writes a number in upper-case hexadecimal with at least `width` digits.
pub fn hexadecimal_string(value: u32, width: usize) -> (text: String)
    ensures
        text@ == hexadecimal(value as nat, width as nat),
{
    let plain = digits_of(value as u128, 16);
    let mut text = String::new();
    let mut missing: usize = if plain.len() < width {
        width - plain.len()
    } else {
        0
    };
    let ghost total = missing;
    while missing > 0
        invariant
            missing <= total,
            text@ == Seq::new((total - missing) as nat, |i: int| '0'),
        decreases missing,
    {
        text.push('0');
        missing -= 1;
    }
    let tail = string_of(&plain);
    text.append(tail.as_str());
    text
}

// ---------------------------------------------------------------------------
// UTF-16

/// The units of `units` before the first zero.
pub open spec fn before_zero(units: Seq<u16>) -> Seq<u16>
    decreases units.len(),
{
    if units.len() == 0 || units[0] == 0 {
        Seq::empty()
    } else {
        seq![units[0]] + before_zero(units.skip(1))
    }
}

pub open spec fn is_high_surrogate(unit: u16) -> bool {
    0xd800 <= unit <= 0xdbff
}

pub open spec fn is_low_surrogate(unit: u16) -> bool {
    0xdc00 <= unit <= 0xdfff
}

/// The character that a surrogate pair stands for.
pub open spec fn pair_char(high: u16, low: u16) -> char {
    ((0x10000 + (high - 0xd800) * 0x400 + (low - 0xdc00)) as u32) as char
}

/// UTF-16 text, with U+FFFD in place of each unpaired surrogate.
pub open spec fn utf16_lossy(units: Seq<u16>) -> Seq<char>
    decreases units.len(),
{
    if units.len() == 0 {
        Seq::empty()
    } else if !is_high_surrogate(units[0]) && !is_low_surrogate(units[0]) {
        seq![(units[0] as u32) as char] + utf16_lossy(units.skip(1))
    } else if is_high_surrogate(units[0]) && units.len() >= 2 && is_low_surrogate(units[1]) {
        seq![pair_char(units[0], units[1])] + utf16_lossy(units.skip(2))
    } else {
        seq!['\u{FFFD}'] + utf16_lossy(units.skip(1))
    }
}

/// Code units read as characters one by one, surrogates dropped.
pub open spec fn scalar_units(units: Seq<u16>) -> Seq<char>
    decreases units.len(),
{
    if units.len() == 0 {
        Seq::empty()
    } else if is_scalar_value(units[0] as int) {
        seq![(units[0] as u32) as char] + scalar_units(units.skip(1))
    } else {
        scalar_units(units.skip(1))
    }
}

/// Copies the units before the first zero.
pub fn until_zero(units: &[u16]) -> (prefix: Vec<u16>)
    ensures
        prefix@ == before_zero(units@),
{
    let mut prefix: Vec<u16> = Vec::new();
    let mut i: usize = 0;
    assert(units@.skip(0) == units@);
    while i < units.len() && units[i] != 0
        invariant
            i <= units@.len(),
            prefix@ + before_zero(units@.skip(i as int)) == before_zero(units@),
        decreases units@.len() - i,
    {
        assert(units@.skip(i as int).skip(1) == units@.skip(i + 1));
        prefix.push(units[i]);
        i += 1;
    }
    prefix
}

/// Decodes UTF-16 text, replacing unpaired surrogates.
pub fn decode_utf16(units: &[u16]) -> (chars: Vec<char>)
    ensures
        chars@ == utf16_lossy(units@),
{
    let mut chars: Vec<char> = Vec::new();
    let mut i: usize = 0;
    assert(units@.skip(0) == units@);
    while i < units.len()
        invariant
            i <= units@.len(),
            chars@ + utf16_lossy(units@.skip(i as int)) == utf16_lossy(units@),
        decreases units@.len() - i,
    {
        let ghost rest = units@.skip(i as int);
        assert(rest.skip(1) == units@.skip(i + 1));
        let unit: u16 = units[i];
        let paired: bool = 0xd800 <= unit && unit <= 0xdbff && i + 1 < units.len() && 0xdc00 <= units[i
            + 1] && units[i + 1] <= 0xdfff;
        if paired {
            assert(rest.skip(2) == units@.skip(i + 2));
            let code: u32 = 0x10000 + (unit as u32 - 0xd800) * 0x400 + (units[i + 1] as u32 - 0xdc00);
            match char::from_u32(code) {
                Some(c) => {
                    proof {
                        vstd::utf8::char_u32_cast(c, code);
                    }
                    chars.push(c);
                },
                None => {},
            }
            i += 2;
        } else {
            match char::from_u32(unit as u32) {
                Some(c) => {
                    proof {
                        vstd::utf8::char_u32_cast(c, unit as u32);
                    }
                    chars.push(c);
                },
                None => {
                    chars.push('\u{FFFD}');
                },
            }
            i += 1;
        }
    }
    chars
}

/// Reads code units as characters one by one, dropping surrogates.
pub fn scalar_chars(units: &[u16]) -> (chars: Vec<char>)
    ensures
        chars@ == scalar_units(units@),
{
    let mut chars: Vec<char> = Vec::new();
    let mut i: usize = 0;
    assert(units@.skip(0) == units@);
    while i < units.len()
        invariant
            i <= units@.len(),
            chars@ + scalar_units(units@.skip(i as int)) == scalar_units(units@),
        decreases units@.len() - i,
    {
        assert(units@.skip(i as int).skip(1) == units@.skip(i + 1));
        match char::from_u32(units[i] as u32) {
            Some(c) => {
                proof {
                    vstd::utf8::char_u32_cast(c, units@[i as int] as u32);
                }
                chars.push(c);
            },
            None => {},
        }
        i += 1;
    }
    chars
}

} // verus!
