use ntrans::i18n::UiLang;
use ntrans::model::{find, is_chinese, langs};

#[test]
fn detect_chinese() {
    assert!(is_chinese("你好，世界"));
    assert!(is_chinese("Hello 你好 world"));
    assert!(is_chinese("繁體中文測試"));
    assert!(!is_chinese("hello world"));
    assert!(!is_chinese("こんにちは"));
    assert!(!is_chinese("日本語のテスト"));
    assert!(!is_chinese("안녕하세요"));
    assert!(!is_chinese(""));
    assert!(!is_chinese("12345 !@#"));
}

#[test]
fn texts_localized() {
    assert_eq!(UiLang::En.texts().translate, "Translate");
    assert_eq!(UiLang::Zh.texts().translate, "翻译");
    assert_eq!(langs()[2].name(UiLang::En), "English");
    assert_eq!(langs()[2].name(UiLang::Zh), "英语");
}

#[test]
fn lang_table_order() {
    let l = langs();
    assert_eq!(l.len(), 12);
    assert_eq!(l[0].code, "auto");
    assert!(!l[0].can_be_target);
    assert_eq!(l[1].code, "zh-CN");
    assert_eq!(l[11].code, "ar");
    assert_eq!(l[11].label_zh, "阿拉伯语");
}

#[test]
fn find_every_code() {
    for l in langs() {
        assert_eq!(find(l.code), Some(l));
    }
    assert_eq!(find("zh-CN").unwrap().label_en, "Chinese (Simplified)");
    assert_eq!(find("xx"), None);
    assert_eq!(find(""), None);
    assert_eq!(find("EN"), None);
}

#[test]
fn chinese_edge_cases() {
    // Han extension B and compatibility ideographs count as Han.
    assert!(is_chinese("\u{20000}"));
    assert!(is_chinese("\u{F900}"));
    assert!(is_chinese("\u{3400}"));
    // Kana anywhere makes it Japanese, even after Han.
    assert!(!is_chinese("漢字カ"));
    assert!(!is_chinese("\u{3040}中"));
    assert!(!is_chinese("中\u{30FF}"));
    // Just outside the ranges.
    assert!(!is_chinese("\u{33FF}"));
    assert!(!is_chinese("\u{3100}"));
}
