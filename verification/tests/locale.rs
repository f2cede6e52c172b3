use displaymux::inputs::{common_input_sources, get_input_options};
use displaymux::locale::{
    core_user_error, locale_from_tag, localized_input_name, ui_text, UiLocale,
};
use displaymux::messages::{get, render, MessageCatalog, MessageCatalogs};
use displaymux::settings::AppSettings;
use displaymux::{DisplayInput, DisplayMuxError};

#[test]
fn locale_detection_uses_traditional_chinese_and_falls_back_to_english() {
    assert_eq!(locale_from_tag("zh-TW"), UiLocale::TraditionalChinese);
    assert_eq!(locale_from_tag("zh-Hant-HK"), UiLocale::TraditionalChinese);
    assert_eq!(locale_from_tag("en-US"), UiLocale::English);
    assert_eq!(locale_from_tag("ja-JP"), UiLocale::English);
    assert_eq!(locale_from_tag("zh-CN"), UiLocale::English);
}

#[test]
fn regions_that_write_traditional_chinese_are_known() {
    assert_eq!(locale_from_tag("ZH-hk"), UiLocale::TraditionalChinese);
    assert_eq!(locale_from_tag("zh-MO"), UiLocale::TraditionalChinese);
    assert_eq!(locale_from_tag("zh"), UiLocale::English);
    assert_eq!(locale_from_tag(""), UiLocale::English);
}

#[test]
fn stored_language_survives() {
    for locale in [UiLocale::English, UiLocale::TraditionalChinese] {
        assert_eq!(UiLocale::current(locale.stored()), locale);
    }
    assert_eq!(UiLocale::current(2), UiLocale::English);
    assert_eq!(ui_text(UiLocale::TraditionalChinese, "zh", "en"), "zh");
    assert_eq!(ui_text(UiLocale::English, "zh", "en"), "en");
}

#[test]
fn common_input_names_include_vga_dvi_dp_hdmi_and_type_c_without_codes() {
    let inputs = common_input_sources();
    for value in [0x01, 0x03, 0x0f, 0x11, 0x1b] {
        assert!(inputs.iter().any(|input| input.value() == value));
    }
    assert_eq!(
        localized_input_name(UiLocale::English, DisplayInput::new(0x0f).unwrap()),
        "DP 1"
    );
    assert_eq!(
        localized_input_name(UiLocale::English, DisplayInput::new(0x1b).unwrap()),
        "Type-C"
    );
    assert!(
        !localized_input_name(UiLocale::English, DisplayInput::new(0x11).unwrap()).contains("0x")
    );
}

#[test]
fn only_custom_inputs_are_shown_with_their_code() {
    for locale in [UiLocale::English, UiLocale::TraditionalChinese] {
        for value in 1..=0xff {
            let name = localized_input_name(locale, DisplayInput::new(value).unwrap());
            let common = value <= 0x12 || value == 0x1b;
            assert_eq!(name.contains("0x"), !common);
            assert_eq!(name.contains(&format!("(0x{value:02X})")), !common);
        }
    }
    let unknown = DisplayInput::new(0x77).unwrap();
    assert_eq!(
        localized_input_name(UiLocale::TraditionalChinese, unknown),
        "自訂輸入 (0x77)"
    );
    assert_eq!(
        localized_input_name(UiLocale::English, unknown),
        "Custom input (0x77)"
    );
    assert_ne!(
        localized_input_name(UiLocale::English, DisplayInput::new(0xab).unwrap()),
        localized_input_name(UiLocale::English, DisplayInput::new(0xac).unwrap())
    );
    let composite = DisplayInput::new(0x05).unwrap();
    assert_eq!(
        localized_input_name(UiLocale::TraditionalChinese, composite),
        "複合視訊 1"
    );
}

#[test]
fn inputs_are_one_byte_and_not_zero() {
    assert_eq!(DisplayInput::new(1).unwrap().value(), 1);
    assert_eq!(DisplayInput::new(0xff).unwrap().value(), 0xff);
    assert_eq!(
        DisplayInput::new(0),
        Err(DisplayMuxError::InvalidInput(0))
    );
    assert_eq!(
        DisplayInput::new(0x100),
        Err(DisplayMuxError::InvalidInput(0x100))
    );
    assert_eq!(
        DisplayInput::new(0x11).unwrap().standard_name(),
        Some("HDMI 1")
    );
    assert_eq!(
        DisplayInput::new(0x0f).unwrap().standard_name(),
        Some("DisplayPort 1")
    );
    assert_eq!(DisplayInput::new(0x1b).unwrap().standard_name(), None);
}

#[test]
fn input_options_come_from_the_display_if_it_names_any() {
    let mut settings = AppSettings::default();
    let common = get_input_options(UiLocale::English, &settings);
    assert_eq!(common.len(), 19);
    assert_eq!(common[0].value, 1);
    assert_eq!(common[18].value, 0x1b);
    assert_eq!(common[18].name, "Type-C");

    settings.supported_inputs = Some(vec![DisplayInput::new(0x11).unwrap()]);
    let supported = get_input_options(UiLocale::English, &settings);
    assert_eq!(supported.len(), 1);
    assert_eq!(supported[0].name, "HDMI 1");

    settings.supported_inputs = Some(vec![]);
    assert_eq!(get_input_options(UiLocale::English, &settings).len(), 19);
}

#[test]
fn errors_are_told_in_the_language_of_the_user() {
    let error = DisplayMuxError::AmbiguousTarget { count: 2 };
    assert_eq!(
        core_user_error(UiLocale::TraditionalChinese, &error),
        "找到 2 台符合共用螢幕指紋的裝置；為避免誤控，已停止操作"
    );
    assert!(core_user_error(UiLocale::English, &error).contains("Found 2 displays"));
    assert_eq!(
        DisplayMuxError::InvalidInput(0x105).message(),
        "無效的螢幕輸入值：0x105"
    );
    assert_eq!(
        DisplayMuxError::InvalidInput(0).message(),
        "無效的螢幕輸入值：0x00"
    );
    assert_eq!(
        DisplayMuxError::Backend("x".to_owned()).message(),
        "無法完成螢幕操作：x"
    );
    assert_eq!(
        DisplayMuxError::InvalidInputCode("zz".to_owned()).message(),
        "無法辨識螢幕輸入值：zz；請輸入 0x01 至 0xFF，或使用十進位 1 至 255"
    );
}

fn catalogs() -> MessageCatalogs {
    MessageCatalogs {
        english: MessageCatalog::parse(
            "{\"backend.peerDisplayWakeFailed\": \"{peer} could not wake its display: {error}\", \"only.english\": \"English\"}",
        )
        .expect("English catalog"),
        traditional_chinese: MessageCatalog::parse(
            "{\"backend.peerDisplayWakeFailed\": \"{peer} 無法喚醒螢幕：{error}\"}",
        )
        .expect("Traditional Chinese catalog"),
    }
}

#[test]
fn renders_named_message_parameters() {
    let message = render(
        &get(&catalogs(), false, "backend.peerDisplayWakeFailed"),
        &[("peer", "Studio Mac"), ("error", "wake failed")],
    );

    assert!(message.contains("Studio Mac"));
    assert!(message.contains("wake failed"));
    assert!(!message.contains("{peer}"));
    assert!(!message.contains("{error}"));
}

#[test]
fn messages_fall_back_to_english_and_then_to_the_key() {
    let catalogs = catalogs();
    assert_eq!(
        get(&catalogs, true, "backend.peerDisplayWakeFailed"),
        "{peer} 無法喚醒螢幕：{error}"
    );
    assert_eq!(get(&catalogs, true, "only.english"), "English");
    assert_eq!(get(&catalogs, true, "missing"), "missing");
    assert!(MessageCatalog::parse("[1]").is_none());
    assert!(MessageCatalog::parse("{\"a\": 1}").is_none());
}

#[test]
fn later_entry_of_a_key_counts() {
    let catalog = MessageCatalog::from_entries(vec![
        ("key".to_owned(), "first".to_owned()),
        ("key".to_owned(), "second".to_owned()),
    ]);
    assert_eq!(catalog.message("key"), Some("second".to_owned()));
    assert_eq!(catalog.message("other"), None);
}

#[test]
fn placeholders_are_replaced_like_str_replace() {
    for (template, name, value) in [
        ("{a}{a}", "a", "x"),
        ("{{a}}", "a", "{a}"),
        ("nothing here", "a", "x"),
        ("{a", "a", "x"),
        ("", "a", "x"),
        ("配對{主機}！", "主機", "Studio"),
        ("{}", "", "x"),
    ] {
        assert_eq!(
            render(template, &[(name, value)]),
            template.replace(&format!("{{{name}}}"), value)
        );
    }
    assert_eq!(render("{a}", &[("a", "{b}"), ("b", "c")]), "c");
    assert_eq!(render("{a}", &[]), "{a}");
}
