//! Laws of languages, names and messages.

use crate::domain::DisplayInput;
use crate::error::DisplayMuxError;
use crate::inputs::{common_input_sources, get_input_options, InputOption};
use crate::laws::dashboard::{holds, lemma_holds};
use crate::locale::{
    core_user_error, custom_input_names_are_distinct, has_common_name, locale_from_tag,
    localized_input_name, ui_text, UiLocale,
};
use crate::messages::{
    get, placeholder, render, rendered, MessageCatalog, MessageCatalogs,
};
use crate::settings::AppSettings;
use crate::text::{ascii_lower, starts_with};
use vstd::prelude::*;

verus! {

// ---------------------------------------------------------------------------
// Languages

/// Whether a language tag begins with `zh-` and the script or a region of Traditional Chinese, in
/// any case of letters.
pub open spec fn asks_for_traditional_chinese(tag: Seq<char>) -> bool {
    &&& tag.len() >= 5
    &&& tag[0] == 'z' || tag[0] == 'Z'
    &&& tag[1] == 'h' || tag[1] == 'H'
    &&& tag[2] == '-'
    &&& {
        ||| (tag[3] == 't' || tag[3] == 'T') && (tag[4] == 'w' || tag[4] == 'W')
        ||| (tag[3] == 'h' || tag[3] == 'H') && (tag[4] == 'k' || tag[4] == 'K')
        ||| (tag[3] == 'm' || tag[3] == 'M') && (tag[4] == 'o' || tag[4] == 'O')
        ||| tag.len() >= 7 && (tag[3] == 'h' || tag[3] == 'H') && (tag[4] == 'a' || tag[4] == 'A')
            && (tag[5] == 'n' || tag[5] == 'N') && (tag[6] == 't' || tag[6] == 'T')
    }
}

proof fn lemma_starts(tag: Seq<char>, prefix: Seq<char>)
    ensures
        starts_with(ascii_lower(tag), prefix) <==> prefix.len() <= tag.len() && forall|i: int|
            0 <= i < prefix.len() ==> ascii_lower(tag)[i] == #[trigger] prefix[i],
{
    let lower = ascii_lower(tag);
    if starts_with(lower, prefix) {
        assert forall|i: int| 0 <= i < prefix.len() implies lower[i] == #[trigger] prefix[i] by {
            assert(lower.take(prefix.len() as int)[i] == prefix[i]);
        }
    }
    if prefix.len() <= tag.len() && forall|i: int|
        0 <= i < prefix.len() ==> lower[i] == #[trigger] prefix[i] {
        assert(lower.take(prefix.len() as int) =~= prefix);
    }
}

/// The language is Traditional Chinese exactly for the tags that ask for it.
pub proof fn language_follows_the_tag(tag: &str, locale: UiLocale)
    requires
        call_ensures(locale_from_tag, (tag,), locale),
    ensures
        locale == UiLocale::TraditionalChinese <==> asks_for_traditional_chinese(tag@),
{
    reveal_strlit("zh-tw");
    reveal_strlit("zh-hant");
    reveal_strlit("zh-hk");
    reveal_strlit("zh-mo");
    let lower = ascii_lower(tag@);
    lemma_starts(tag@, "zh-tw"@);
    lemma_starts(tag@, "zh-hant"@);
    lemma_starts(tag@, "zh-hk"@);
    lemma_starts(tag@, "zh-mo"@);
    assert("zh-tw"@[0] == 'z' && "zh-tw"@[1] == 'h' && "zh-tw"@[2] == '-' && "zh-tw"@[3] == 't'
        && "zh-tw"@[4] == 'w');
    assert("zh-hk"@[0] == 'z' && "zh-hk"@[1] == 'h' && "zh-hk"@[2] == '-' && "zh-hk"@[3] == 'h'
        && "zh-hk"@[4] == 'k');
    assert("zh-mo"@[0] == 'z' && "zh-mo"@[1] == 'h' && "zh-mo"@[2] == '-' && "zh-mo"@[3] == 'm'
        && "zh-mo"@[4] == 'o');
    assert("zh-hant"@[0] == 'z' && "zh-hant"@[1] == 'h' && "zh-hant"@[2] == '-' && "zh-hant"@[3]
        == 'h' && "zh-hant"@[4] == 'a' && "zh-hant"@[5] == 'n' && "zh-hant"@[6] == 't');
}

/// A language is read back from the number that stands for it, and a text is picked by it.
pub proof fn language_is_read_back_and_used(
    locale: UiLocale,
    stored: u64,
    read: UiLocale,
    zh_tw: &'static str,
    en: &'static str,
    text: &'static str,
)
    requires
        call_ensures(UiLocale::stored, (locale,), stored),
        call_ensures(UiLocale::current, (stored,), read),
        call_ensures(ui_text, (locale, zh_tw, en), text),
    ensures
        read == locale,
        locale == UiLocale::TraditionalChinese ==> text@ == zh_tw@,
        locale == UiLocale::English ==> text@ == en@,
{
}

/// An error in Traditional Chinese is its own text, and in either language it holds the text that
/// it carries.
pub proof fn error_text_holds_what_it_carries(
    locale: UiLocale,
    error: DisplayMuxError,
    text: String,
    own: String,
)
    requires
        call_ensures(core_user_error, (locale, &error), text),
        call_ensures(DisplayMuxError::message, (&error,), own),
    ensures
        locale == UiLocale::TraditionalChinese ==> text@ == own@,
        match error {
            DisplayMuxError::MonitorNoLongerAvailable(carried) => holds(text@, carried@),
            DisplayMuxError::InvalidInputCode(carried) => holds(text@, carried@),
            DisplayMuxError::InvalidMacAddress(carried) => holds(text@, carried@),
            DisplayMuxError::WakeFailed(carried) => holds(text@, carried@),
            DisplayMuxError::PeerUnavailable(carried) => holds(text@, carried@),
            DisplayMuxError::Backend(carried) => holds(text@, carried@),
            _ => true,
        },
{
    let none = Seq::<char>::empty();
    match error {
        DisplayMuxError::MonitorNoLongerAvailable(carried) => {
            lemma_holds("找不到先前列舉的螢幕裝置："@, carried@, none);
            lemma_holds("The previously listed display is no longer available: "@, carried@, none);
        },
        DisplayMuxError::InvalidInputCode(carried) => {
            lemma_holds(
                "無法辨識螢幕輸入值："@,
                carried@,
                "；請輸入 0x01 至 0xFF，或使用十進位 1 至 255"@,
            );
            lemma_holds(
                "Unrecognized display input value: "@,
                carried@,
                "; enter 0x01 to 0xFF, or decimal 1 to 255"@,
            );
        },
        DisplayMuxError::InvalidMacAddress(carried) => {
            lemma_holds("MAC 位址格式無效："@, carried@, none);
            lemma_holds("Invalid MAC address: "@, carried@, none);
        },
        DisplayMuxError::WakeFailed(carried) => {
            lemma_holds("無法送出網路喚醒封包："@, carried@, none);
            lemma_holds("Unable to send the wake packet: "@, carried@, none);
        },
        DisplayMuxError::PeerUnavailable(carried) => {
            lemma_holds("無法連線至另一台主機："@, carried@, none);
            lemma_holds("Unable to connect to the other host: "@, carried@, none);
        },
        DisplayMuxError::Backend(carried) => {
            lemma_holds("無法完成螢幕操作："@, carried@, none);
            lemma_holds("The display operation could not be completed: "@, carried@, none);
        },
        _ => {},
    }
}

// ---------------------------------------------------------------------------
// Inputs

/// The inputs that are offered without a word from the display are those with a common name, each
/// once, in the order of their values.
pub proof fn common_inputs_are_those_with_a_name(inputs: Vec<DisplayInput>, value: u32, i: int)
    requires
        call_ensures(common_input_sources, (), inputs),
    ensures
        inputs@.contains(DisplayInput { code: value }) <==> 1 <= value <= 0x12 || value == 0x1b,
        0 <= i && i + 1 < inputs@.len() ==> inputs@[i].code < inputs@[i + 1].code,
{
    if 1 <= value <= 0x12 {
        assert(inputs@[value - 1] == DisplayInput { code: value });
    }
    if value == 0x1b {
        assert(inputs@[18] == DisplayInput { code: value });
    }
}

/// A user can choose from the inputs that the display names, or, if it names none, from the common
/// ones; each is shown by its name.
pub proof fn offered_inputs_are_those_of_the_display(
    locale: UiLocale,
    settings: AppSettings,
    options: Vec<InputOption>,
    common: Vec<DisplayInput>,
    i: int,
    input: DisplayInput,
    name: String,
)
    requires
        call_ensures(get_input_options, (locale, &settings), options),
        call_ensures(common_input_sources, (), common),
        0 <= i < options@.len(),
        input.code == options@[i].value,
        call_ensures(localized_input_name, (locale, input), name),
    ensures
        options@[i].name@ == name@,
        ({
            let named = settings.supported_inputs matches Some(inputs) && inputs@.len() > 0;
            if named {
                &&& options@.len() == settings.supported_inputs->Some_0@.len()
                &&& options@[i].value == settings.supported_inputs->Some_0@[i].code
            } else {
                &&& options@.len() == common@.len()
                &&& options@[i].value == common@[i].code
            }
        }),
{
}

/// The inputs of one kind have one name and are numbered from one on: two for most kinds, three for
/// tuners and component video.
pub open spec fn number_in_kind(value: u32) -> int {
    if 0x09 <= value <= 0x0b {
        value - 0x08
    } else if 0x0c <= value <= 0x0e {
        value - 0x0b
    } else if value % 2 == 1 && value <= 0x08 {
        1
    } else if value <= 0x08 {
        2
    } else if value == 0x0f || value == 0x11 {
        1
    } else {
        2
    }
}

/// Common inputs of one kind share their name but for its number, and the number counts them.
pub proof fn input_names_are_numbered(
    locale: UiLocale,
    a: DisplayInput,
    b: DisplayInput,
    name_a: String,
    name_b: String,
)
    requires
        call_ensures(localized_input_name, (locale, a), name_a),
        call_ensures(localized_input_name, (locale, b), name_b),
        1 <= a.code <= 0x12,
        b.code == a.code + 1,
        number_in_kind(b.code) == number_in_kind(a.code) + 1,
    ensures
        name_a@.len() == name_b@.len(),
        name_a@.len() > 2,
        name_a@.drop_last() == name_b@.drop_last(),
        name_a@.last() as u32 == '0' as u32 + number_in_kind(a.code),
        name_b@.last() as u32 == '0' as u32 + number_in_kind(b.code),
{
    lemma_reveal_names();
    assert(name_a@.drop_last() =~= name_b@.drop_last());
}

/// The names of the common inputs, as far as they tell them apart.
proof fn lemma_reveal_names()
    ensures
        "DP 1"@ == seq!['D', 'P', ' ', '1'],
        "DP 2"@ == seq!['D', 'P', ' ', '2'],
        "VGA 1"@ == seq!['V', 'G', 'A', ' ', '1'],
        "VGA 2"@ == seq!['V', 'G', 'A', ' ', '2'],
        "DVI 1"@ == seq!['D', 'V', 'I', ' ', '1'],
        "DVI 2"@ == seq!['D', 'V', 'I', ' ', '2'],
        "HDMI 1"@ == seq!['H', 'D', 'M', 'I', ' ', '1'],
        "HDMI 2"@ == seq!['H', 'D', 'M', 'I', ' ', '2'],
        "S-Video 1"@ == seq!['S', '-', 'V', 'i', 'd', 'e', 'o', ' ', '1'],
        "S-Video 2"@ == seq!['S', '-', 'V', 'i', 'd', 'e', 'o', ' ', '2'],
        "Tuner 1"@ == seq!['T', 'u', 'n', 'e', 'r', ' ', '1'],
        "Tuner 2"@ == seq!['T', 'u', 'n', 'e', 'r', ' ', '2'],
        "Tuner 3"@ == seq!['T', 'u', 'n', 'e', 'r', ' ', '3'],
        "Composite video 1"@ == seq![
            'C', 'o', 'm', 'p', 'o', 's', 'i', 't', 'e', ' ', 'v', 'i', 'd', 'e', 'o', ' ', '1',
        ],
        "Composite video 2"@ == seq![
            'C', 'o', 'm', 'p', 'o', 's', 'i', 't', 'e', ' ', 'v', 'i', 'd', 'e', 'o', ' ', '2',
        ],
        "Component video 1"@ == seq![
            'C', 'o', 'm', 'p', 'o', 'n', 'e', 'n', 't', ' ', 'v', 'i', 'd', 'e', 'o', ' ', '1',
        ],
        "Component video 2"@ == seq![
            'C', 'o', 'm', 'p', 'o', 'n', 'e', 'n', 't', ' ', 'v', 'i', 'd', 'e', 'o', ' ', '2',
        ],
        "Component video 3"@ == seq![
            'C', 'o', 'm', 'p', 'o', 'n', 'e', 'n', 't', ' ', 'v', 'i', 'd', 'e', 'o', ' ', '3',
        ],
        "複合視訊 1"@ == seq!['複', '合', '視', '訊', ' ', '1'],
        "複合視訊 2"@ == seq!['複', '合', '視', '訊', ' ', '2'],
        "電視調諧器 1"@ == seq!['電', '視', '調', '諧', '器', ' ', '1'],
        "電視調諧器 2"@ == seq!['電', '視', '調', '諧', '器', ' ', '2'],
        "電視調諧器 3"@ == seq!['電', '視', '調', '諧', '器', ' ', '3'],
        "色差視訊 1"@ == seq!['色', '差', '視', '訊', ' ', '1'],
        "色差視訊 2"@ == seq!['色', '差', '視', '訊', ' ', '2'],
        "色差視訊 3"@ == seq!['色', '差', '視', '訊', ' ', '3'],
        "Type-C"@ == seq!['T', 'y', 'p', 'e', '-', 'C'],
{
    reveal_strlit("DP 1");
    reveal_strlit("DP 2");
    reveal_strlit("VGA 1");
    reveal_strlit("VGA 2");
    reveal_strlit("DVI 1");
    reveal_strlit("DVI 2");
    reveal_strlit("HDMI 1");
    reveal_strlit("HDMI 2");
    reveal_strlit("S-Video 1");
    reveal_strlit("S-Video 2");
    reveal_strlit("Tuner 1");
    reveal_strlit("Tuner 2");
    reveal_strlit("Tuner 3");
    reveal_strlit("Composite video 1");
    reveal_strlit("Composite video 2");
    reveal_strlit("Component video 1");
    reveal_strlit("Component video 2");
    reveal_strlit("Component video 3");
    reveal_strlit("複合視訊 1");
    reveal_strlit("複合視訊 2");
    reveal_strlit("電視調諧器 1");
    reveal_strlit("電視調諧器 2");
    reveal_strlit("電視調諧器 3");
    reveal_strlit("色差視訊 1");
    reveal_strlit("色差視訊 2");
    reveal_strlit("色差視訊 3");
    reveal_strlit("Type-C");
    assert("DP 1"@ =~= seq!['D', 'P', ' ', '1']);
    assert("DP 2"@ =~= seq!['D', 'P', ' ', '2']);
    assert("VGA 1"@ =~= seq!['V', 'G', 'A', ' ', '1']);
    assert("VGA 2"@ =~= seq!['V', 'G', 'A', ' ', '2']);
    assert("DVI 1"@ =~= seq!['D', 'V', 'I', ' ', '1']);
    assert("DVI 2"@ =~= seq!['D', 'V', 'I', ' ', '2']);
    assert("HDMI 1"@ =~= seq!['H', 'D', 'M', 'I', ' ', '1']);
    assert("HDMI 2"@ =~= seq!['H', 'D', 'M', 'I', ' ', '2']);
    assert("S-Video 1"@ =~= seq!['S', '-', 'V', 'i', 'd', 'e', 'o', ' ', '1']);
    assert("S-Video 2"@ =~= seq!['S', '-', 'V', 'i', 'd', 'e', 'o', ' ', '2']);
    assert("Tuner 1"@ =~= seq!['T', 'u', 'n', 'e', 'r', ' ', '1']);
    assert("Tuner 2"@ =~= seq!['T', 'u', 'n', 'e', 'r', ' ', '2']);
    assert("Tuner 3"@ =~= seq!['T', 'u', 'n', 'e', 'r', ' ', '3']);
    assert("Composite video 1"@ =~= seq![
        'C', 'o', 'm', 'p', 'o', 's', 'i', 't', 'e', ' ', 'v', 'i', 'd', 'e', 'o', ' ', '1',
    ]);
    assert("Composite video 2"@ =~= seq![
        'C', 'o', 'm', 'p', 'o', 's', 'i', 't', 'e', ' ', 'v', 'i', 'd', 'e', 'o', ' ', '2',
    ]);
    assert("Component video 1"@ =~= seq![
        'C', 'o', 'm', 'p', 'o', 'n', 'e', 'n', 't', ' ', 'v', 'i', 'd', 'e', 'o', ' ', '1',
    ]);
    assert("Component video 2"@ =~= seq![
        'C', 'o', 'm', 'p', 'o', 'n', 'e', 'n', 't', ' ', 'v', 'i', 'd', 'e', 'o', ' ', '2',
    ]);
    assert("Component video 3"@ =~= seq![
        'C', 'o', 'm', 'p', 'o', 'n', 'e', 'n', 't', ' ', 'v', 'i', 'd', 'e', 'o', ' ', '3',
    ]);
    assert("複合視訊 1"@ =~= seq!['複', '合', '視', '訊', ' ', '1']);
    assert("複合視訊 2"@ =~= seq!['複', '合', '視', '訊', ' ', '2']);
    assert("電視調諧器 1"@ =~= seq!['電', '視', '調', '諧', '器', ' ', '1']);
    assert("電視調諧器 2"@ =~= seq!['電', '視', '調', '諧', '器', ' ', '2']);
    assert("電視調諧器 3"@ =~= seq!['電', '視', '調', '諧', '器', ' ', '3']);
    assert("色差視訊 1"@ =~= seq!['色', '差', '視', '訊', ' ', '1']);
    assert("色差視訊 2"@ =~= seq!['色', '差', '視', '訊', ' ', '2']);
    assert("色差視訊 3"@ =~= seq!['色', '差', '視', '訊', ' ', '3']);
    assert("Type-C"@ =~= seq!['T', 'y', 'p', 'e', '-', 'C']);
}

/// Different inputs have different names.
pub proof fn input_names_are_distinct(
    locale: UiLocale,
    a: DisplayInput,
    b: DisplayInput,
    name_a: String,
    name_b: String,
)
    requires
        call_ensures(localized_input_name, (locale, a), name_a),
        call_ensures(localized_input_name, (locale, b), name_b),
        name_a@ == name_b@,
    ensures
        a == b,
{
    lemma_reveal_names();
    reveal_strlit("自訂輸入 (0x");
    reveal_strlit("Custom input (0x");
    let name = name_a@;
    if has_common_name(a.code) && has_common_name(b.code) {
        assert(name.len() == name_b@.len());
        assert(name.last() == name_b@.last());
        assert(name[0] == name_b@[0]);
        assert(name[1] == name_b@[1]);
        if name.len() > 5 {
            assert(name[5] == name_b@[5]);
        }
    } else if !has_common_name(a.code) && !has_common_name(b.code) {
        custom_input_names_are_distinct(locale, a.code, b.code);
    } else {
        let custom = if has_common_name(a.code) {
            name_b@
        } else {
            name_a@
        };
        assert(custom[0] == '自' || (custom[0] == 'C' && custom[1] == 'u'));
        assert(name_a@[0] == name_b@[0]);
        assert(name_a@[1] == name_b@[1]);
    }
}

// ---------------------------------------------------------------------------
// Messages

/// A template without parameters stays as it is, and parameters are filled in one after the other:
/// filling in all of them is filling in the last into what the others give.
pub proof fn parameters_are_filled_in_one_by_one(
    template: &str,
    parameters: &[(&str, &str)],
    front: &[(&str, &str)],
    last: &[(&str, &str)],
    message: String,
    partial: String,
    partial_text: &str,
    completed: String,
)
    requires
        call_ensures(render, (template, parameters), message),
        call_ensures(render, (template, front), partial),
        partial_text@ == partial@,
        call_ensures(render, (partial_text, last), completed),
        parameters@.len() > 0,
        front@ == parameters@.drop_last(),
        last@ == seq![parameters@.last()],
    ensures
        message@ == completed@,
        front@.len() == 0 ==> partial@ == template@,
{
    assert(last@.drop_last().len() == 0);
    assert(rendered(partial_text@, last@.drop_last()) == partial_text@);
}

/// A parameter stands where its name in braces stands: a template that holds it once is filled in
/// there, and keeps the rest.
pub proof fn parameter_replaces_its_name_in_braces(
    template: &str,
    parameter: &[(&str, &str)],
    before: Seq<char>,
    after: Seq<char>,
    message: String,
)
    requires
        call_ensures(render, (template, parameter), message),
        parameter@.len() == 1,
        template@ == before + ("{"@ + parameter@[0].0@ + "}"@) + after,
        forall|i: int|
            0 <= i < before.len() ==> !#[trigger] starts_with(
                template@.skip(i),
                "{"@ + parameter@[0].0@ + "}"@,
            ),
        !crate::messages::occurs("{"@ + parameter@[0].0@ + "}"@, after),
    ensures
        message@ == before + parameter@[0].1@ + after,
{
    reveal_strlit("{");
    let pattern = "{"@ + parameter@[0].0@ + "}"@;
    let value = parameter@[0].1@;
    assert(parameter@.drop_last().len() == 0);
    assert(rendered(template@, parameter@.drop_last()) == template@);
    assert(parameter@.last() == parameter@[0]);
    assert(pattern == placeholder(parameter@[0].0@));
    crate::messages::first_placeholder_is_filled_in(before, pattern, after, value);
    crate::messages::text_without_placeholder_is_kept(after, pattern, value);
}

/// A message is looked up in the language, then in English, and else is its key.
pub proof fn message_falls_back_to_english_and_to_its_key(
    catalogs: MessageCatalogs,
    traditional_chinese: bool,
    key: &str,
    shown: String,
    chinese: Option<String>,
    english: Option<String>,
)
    requires
        call_ensures(get, (&catalogs, traditional_chinese, key), shown),
        call_ensures(
            MessageCatalog::message,
            (&catalogs.traditional_chinese, key),
            chinese,
        ),
        call_ensures(MessageCatalog::message, (&catalogs.english, key), english),
    ensures
        match (traditional_chinese, chinese, english) {
            (true, Some(text), _) => shown@ == text@,
            (true, None, Some(text)) => shown@ == text@,
            (false, _, Some(text)) => shown@ == text@,
            (_, _, None) => shown@ == key@,
        },
{
}

/// A catalog gives for a key the text of the last entry with that key, and none for another key.
pub proof fn last_entry_of_a_key_counts(
    entries: Vec<(String, String)>,
    catalog: MessageCatalog,
    key: &str,
    message: Option<String>,
    position: int,
)
    requires
        call_ensures(MessageCatalog::from_entries, (entries,), catalog),
        call_ensures(MessageCatalog::message, (&catalog, key), message),
    ensures
        (0 <= position < entries@.len() && entries@[position].0@ == key@ && forall|i: int|
            position < i < entries@.len() ==> (#[trigger] entries@[i]).0@ != key@) ==> (
        message matches Some(text) && text@ == entries@[position].1@),
        (forall|i: int| 0 <= i < entries@.len() ==> (#[trigger] entries@[i]).0@ != key@)
            ==> message is None,
{
    if 0 <= position < entries@.len() && entries@[position].0@ == key@ && forall|i: int|
        position < i < entries@.len() ==> (#[trigger] entries@[i]).0@ != key@ {
        lemma_entry(entries@, key@, position);
    }
    if forall|i: int| 0 <= i < entries@.len() ==> (#[trigger] entries@[i]).0@ != key@ {
        lemma_no_entry(entries@, key@);
    }
}

proof fn lemma_entry(entries: Seq<(String, String)>, key: Seq<char>, position: int)
    requires
        0 <= position < entries.len(),
        entries[position].0@ == key,
        forall|i: int| position < i < entries.len() ==> (#[trigger] entries[i]).0@ != key,
    ensures
        crate::json::entry_map(entries).dom().contains(key),
        crate::json::entry_map(entries)[key] == entries[position].1@,
    decreases entries.len(),
{
    let last = entries.len() - 1;
    if position < last {
        let rest = entries.drop_last();
        assert(entries[last].0@ != key);
        assert forall|i: int| position < i < rest.len() implies (#[trigger] rest[i]).0@ != key by {
            assert(rest[i] == entries[i]);
        }
        lemma_entry(rest, key, position);
    }
}

proof fn lemma_no_entry(entries: Seq<(String, String)>, key: Seq<char>)
    requires
        forall|i: int| 0 <= i < entries.len() ==> (#[trigger] entries[i]).0@ != key,
    ensures
        !crate::json::entry_map(entries).dom().contains(key),
    decreases entries.len(),
{
    if entries.len() > 0 {
        let rest = entries.drop_last();
        assert forall|i: int| 0 <= i < rest.len() implies (#[trigger] rest[i]).0@ != key by {
            assert(rest[i] == entries[i]);
        }
        assert(entries[entries.len() - 1].0@ != key);
        lemma_no_entry(rest, key);
    }
}

} // verus!
