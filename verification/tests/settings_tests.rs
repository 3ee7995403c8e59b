use ntrans::app_settings::Settings;
use ntrans::i18n::UiLang;

#[test]
fn defaults_sane() {
    let s = Settings::default();
    assert!(s.hide_on_close);
    assert_eq!(s.history_capacity, 200);
    assert!(s.auto_direction);
    assert_eq!(s.ui_lang, UiLang::En);
}

#[test]
fn load_clamps_capacity() {
    let mut s = Settings::default();
    s.history_capacity = 0;
    s.auto_direction = false;
    let l = Settings::load(s);
    assert_eq!(l.history_capacity, 1);
    assert!(!l.auto_direction);
    s.history_capacity = 50_000;
    assert_eq!(Settings::load(s).history_capacity, 10_000);
    s.history_capacity = 777;
    assert_eq!(Settings::load(s).history_capacity, 777);
    // Loading twice changes nothing more.
    let once = Settings::load(Settings { history_capacity: 99_999, ..Settings::default() });
    assert_eq!(Settings::load(once), once);
}

#[test]
fn ui_lang_codes() {
    assert_eq!(UiLang::En.code(), "en");
    assert_eq!(UiLang::Zh.code(), "zh");
    assert_eq!(UiLang::from_code("zh"), UiLang::Zh);
    assert_eq!(UiLang::from_code("en"), UiLang::En);
    assert_eq!(UiLang::from_code("fr"), UiLang::En);
    assert_eq!(UiLang::from_code("ZH"), UiLang::En);
    for l in [UiLang::En, UiLang::Zh] {
        assert_eq!(UiLang::from_code(l.code()), l);
    }
    assert_eq!(UiLang::En.label(), "English");
    assert_eq!(UiLang::Zh.label(), "中文");
    assert_eq!(UiLang::default(), UiLang::En);
}
