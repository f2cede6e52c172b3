//! The two languages of the user interface.

use crate::domain::{mccs_name, DisplayInput};
use crate::error::{error_message, DisplayMuxError};
use crate::messages::occurs;
use crate::text::{
    ascii_lower, chars_of, has_prefix_at, hexadecimal, hexadecimal_is_injective, hexadecimal_string,
    join3, starts_with, to_ascii_lower,
};
use vstd::prelude::*;

verus! {

#[derive(Clone, Copy, Debug, PartialEq, Eq, Structural)]
pub enum UiLocale {
    English,
    TraditionalChinese,
}

/// The language that a stored number stands for: Traditional Chinese for 1, else English.
pub open spec fn stored_locale(stored: u64) -> UiLocale {
    if stored == 1 {
        UiLocale::TraditionalChinese
    } else {
        UiLocale::English
    }
}

/// The number that stands for a language.
pub open spec fn locale_number(locale: UiLocale) -> u64 {
    match locale {
        UiLocale::TraditionalChinese => 1,
        UiLocale::English => 0,
    }
}

impl UiLocale {
    /// The language that a stored number stands for.
    pub fn current(stored: u64) -> (locale: UiLocale)
        ensures
            locale == stored_locale(stored),
    {
        if stored == 1 {
            UiLocale::TraditionalChinese
        } else {
            UiLocale::English
        }
    }

    /// The number that stands for the language.
    pub fn stored(self) -> (stored: u64)
        ensures
            stored == locale_number(self),
    {
        match self {
            UiLocale::TraditionalChinese => 1,
            UiLocale::English => 0,
        }
    }

    /// Whether the language is Traditional Chinese.
    pub fn is_traditional_chinese(self) -> (chinese: bool)
        ensures
            chinese == (self == UiLocale::TraditionalChinese),
    {
        self == UiLocale::TraditionalChinese
    }
}

/// Whether a language tag asks for Traditional Chinese: its script, or a region that writes it.
pub open spec fn is_traditional_chinese_tag(tag: Seq<char>) -> bool {
    let lower = ascii_lower(tag);
    ||| starts_with(lower, "zh-tw"@)
    ||| starts_with(lower, "zh-hant"@)
    ||| starts_with(lower, "zh-hk"@)
    ||| starts_with(lower, "zh-mo"@)
}

/// The language for a language tag: Traditional Chinese where the tag asks for it, else English.
pub fn locale_from_tag(locale: &str) -> (selected: UiLocale)
    ensures
        selected == if is_traditional_chinese_tag(locale@) {
            UiLocale::TraditionalChinese
        } else {
            UiLocale::English
        },
{
    let lower = to_ascii_lower(&chars_of(locale));
    assert(lower@.skip(0) == lower@);
    if has_prefix_at(&lower, 0, &chars_of("zh-tw")) || has_prefix_at(
        &lower,
        0,
        &chars_of("zh-hant"),
    ) || has_prefix_at(&lower, 0, &chars_of("zh-hk")) || has_prefix_at(
        &lower,
        0,
        &chars_of("zh-mo"),
    ) {
        UiLocale::TraditionalChinese
    } else {
        UiLocale::English
    }
}

/// The one of two texts that is in the language `locale`.
pub open spec fn localized(locale: UiLocale, zh_tw: Seq<char>, en: Seq<char>) -> Seq<char> {
    match locale {
        UiLocale::TraditionalChinese => zh_tw,
        UiLocale::English => en,
    }
}

/// Picks a text by language.
pub fn ui_text(locale: UiLocale, zh_tw: &'static str, en: &'static str) -> (text: &'static str)
    ensures
        text@ == localized(locale, zh_tw@, en@),
{
    match locale {
        UiLocale::TraditionalChinese => zh_tw,
        UiLocale::English => en,
    }
}

/// How an input without a name is shown: as a custom input, with its value.
pub open spec fn custom_input_name(locale: UiLocale, value: u32) -> Seq<char> {
    localized(
        locale,
        "自訂輸入 (0x"@ + hexadecimal(value as nat, 2) + ")"@,
        "Custom input (0x"@ + hexadecimal(value as nat, 2) + ")"@,
    )
}

/// Whether an input value is commonly known by a name.
pub open spec fn has_common_name(value: u32) -> bool {
    mccs_name(value) is Some || value == 0x1b
}

/// The name of an input in the language `locale`. Some names are the same in both, some are in
/// the language, others are the MCCS names, and an input without a name is a custom one.
pub open spec fn input_name(locale: UiLocale, value: u32) -> Seq<char> {
    let chinese = locale == UiLocale::TraditionalChinese;
    if value == 0x0f {
        "DP 1"@
    } else if value == 0x10 {
        "DP 2"@
    } else if value == 0x1b {
        "Type-C"@
    } else if chinese && value == 0x05 {
        "複合視訊 1"@
    } else if chinese && value == 0x06 {
        "複合視訊 2"@
    } else if chinese && value == 0x09 {
        "電視調諧器 1"@
    } else if chinese && value == 0x0a {
        "電視調諧器 2"@
    } else if chinese && value == 0x0b {
        "電視調諧器 3"@
    } else if chinese && value == 0x0c {
        "色差視訊 1"@
    } else if chinese && value == 0x0d {
        "色差視訊 2"@
    } else if chinese && value == 0x0e {
        "色差視訊 3"@
    } else {
        match mccs_name(value) {
            Some(name) => name,
            None => custom_input_name(locale, value),
        }
    }
}

/// The name of an input, for people.
pub fn localized_input_name(locale: UiLocale, input: DisplayInput) -> (name: String)
    ensures
        name@ == input_name(locale, input.code),
{
    let standard_name: Option<&'static str> = match (locale, input.value()) {
        (_, 0x0f) => Some("DP 1"),
        (_, 0x10) => Some("DP 2"),
        (_, 0x1b) => Some("Type-C"),
        (UiLocale::TraditionalChinese, 0x05) => Some("複合視訊 1"),
        (UiLocale::TraditionalChinese, 0x06) => Some("複合視訊 2"),
        (UiLocale::TraditionalChinese, 0x09) => Some("電視調諧器 1"),
        (UiLocale::TraditionalChinese, 0x0a) => Some("電視調諧器 2"),
        (UiLocale::TraditionalChinese, 0x0b) => Some("電視調諧器 3"),
        (UiLocale::TraditionalChinese, 0x0c) => Some("色差視訊 1"),
        (UiLocale::TraditionalChinese, 0x0d) => Some("色差視訊 2"),
        (UiLocale::TraditionalChinese, 0x0e) => Some("色差視訊 3"),
        _ => input.standard_name(),
    };
    match standard_name {
        Some(name) => name.to_owned(),
        None => {
            let code = hexadecimal_string(input.value(), 2);
            join3(ui_text(locale, "自訂輸入 (0x", "Custom input (0x"), code.as_str(), ")")
        },
    }
}

/// An error, in the language of the user.
pub fn core_user_error(locale: UiLocale, error: &DisplayMuxError) -> (text: String)
    ensures
        text@ == error_message(error@, locale == UiLocale::TraditionalChinese),
{
    error.localized_message(locale.is_traditional_chinese())
}

/// Storing a language and reading it back gives the language.
pub proof fn stored_language_is_read_back(locale: UiLocale)
    ensures
        stored_locale(locale_number(locale)) == locale,
{
}

/// A common input is never shown by its number: no such name holds `0x`.
pub proof fn common_input_names_hold_no_codes(locale: UiLocale, value: u32)
    requires
        has_common_name(value),
    ensures
        !occurs("0x"@, input_name(locale, value)),
{
    reveal_strlit("0x");
    reveal_strlit("DP 1");
    reveal_strlit("DP 2");
    reveal_strlit("Type-C");
    reveal_strlit("複合視訊 1");
    reveal_strlit("複合視訊 2");
    reveal_strlit("電視調諧器 1");
    reveal_strlit("電視調諧器 2");
    reveal_strlit("電視調諧器 3");
    reveal_strlit("色差視訊 1");
    reveal_strlit("色差視訊 2");
    reveal_strlit("色差視訊 3");
    reveal_strlit("VGA 1");
    reveal_strlit("VGA 2");
    reveal_strlit("DVI 1");
    reveal_strlit("DVI 2");
    reveal_strlit("Composite video 1");
    reveal_strlit("Composite video 2");
    reveal_strlit("S-Video 1");
    reveal_strlit("S-Video 2");
    reveal_strlit("Tuner 1");
    reveal_strlit("Tuner 2");
    reveal_strlit("Tuner 3");
    reveal_strlit("Component video 1");
    reveal_strlit("Component video 2");
    reveal_strlit("Component video 3");
    reveal_strlit("HDMI 1");
    reveal_strlit("HDMI 2");
    let name = input_name(locale, value);
    assert(name.len() <= 17);
    assert forall|i: int| 0 <= i <= name.len() implies !#[trigger] starts_with(
        name.skip(i),
        "0x"@,
    ) by {
        if starts_with(name.skip(i), "0x"@) {
            assert(name.skip(i).take(2)[1] == 'x');
            assert(name[i + 1] == 'x');
        }
    }
}

/// Inputs without a common name are told apart by what is shown.
pub proof fn custom_input_names_are_distinct(locale: UiLocale, a: u32, b: u32)
    requires
        !has_common_name(a),
        !has_common_name(b),
        input_name(locale, a) == input_name(locale, b),
    ensures
        a == b,
{
    let head = localized(locale, "自訂輸入 (0x"@, "Custom input (0x"@);
    let digits_a = hexadecimal(a as nat, 2);
    let digits_b = hexadecimal(b as nat, 2);
    let name = input_name(locale, a);
    assert(name == head + digits_a + ")"@);
    assert(name == head + digits_b + ")"@);
    assert(digits_a.len() == digits_b.len());
    let start = head.len() as int;
    let end = start + digits_a.len();
    assert(name.subrange(start, end) == digits_a);
    assert(name.subrange(start, end) == digits_b);
    hexadecimal_is_injective(a as nat, b as nat, 2);
}

} // verus!
