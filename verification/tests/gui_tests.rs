use ntrans::app_settings::Settings;
use ntrans::gui::{AppState, WindowAction};
use ntrans::tray::Command;
use ntrans::history::History;
use ntrans::i18n::UiLang;
use ntrans::model::{langs, TranslateOut};
use ntrans::providers::Engine;
use ntrans::ui_msg::UiMsg;

fn app_for_test() -> AppState {
    let mut app = AppState::new(Settings::default(), History::fresh(20), false);
    app.source = "hello".into();
    app.engine = Engine::MyMemory;
    app
}

#[test]
fn drain_applies_matching_result() {
    let mut app = app_for_test();
    app.pending_seq = 7;
    app.apply_message(UiMsg {
        seq: 7,
        result: Ok(TranslateOut { text: "你好，世界".into(), detected_from: "en".into(), engine: "MyMemory" }),
    });
    assert_eq!(app.output, "你好，世界");
    assert_eq!(app.history.entries().len(), 1);
    assert!(!app.busy);
}

#[test]
fn stale_result_ignored() {
    let mut app = app_for_test();
    app.pending_seq = 8;
    app.apply_message(UiMsg { seq: 3, result: Err("stale".into()) });
    assert!(app.output.is_empty());
    assert!(app.history.entries().is_empty());
}

#[test]
fn translate_empty_source_sets_error() {
    let mut app = app_for_test();
    app.source.clear();
    app.start_translate();
    assert!(app.error.is_some());
    assert!(!app.busy);
}

#[test]
fn auto_direction_picks_target() {
    let mut app = app_for_test();
    app.from_idx = 0; // auto
    app.to_idx = 1; // zh-CN

    let en_idx = langs().iter().position(|l| l.code == "en").unwrap();
    let zh_idx = langs().iter().position(|l| l.code == "zh-CN").unwrap();

    app.source = "你好世界".into();
    app.auto_pick_target();
    assert_eq!(app.to_idx, en_idx, "中文输入应自动选英文");

    app.source = "hello world".into();
    app.auto_pick_target();
    assert_eq!(app.to_idx, zh_idx, "非中文输入应自动选中文");
}

#[test]
fn auto_direction_respects_manual_target() {
    let mut app = app_for_test();
    app.from_idx = 0; // auto
    let ja_idx = langs().iter().position(|l| l.code == "ja").unwrap();
    app.to_idx = ja_idx;
    app.source = "你好".into();
    app.auto_pick_target();
    assert_eq!(app.to_idx, ja_idx, "手动选择的日语目标不应被覆盖");
}

#[test]
fn auto_direction_off_keeps_target() {
    let mut app = app_for_test();
    app.settings.auto_direction = false;
    app.from_idx = 0;
    app.to_idx = 1;
    let zh_idx = 1;
    app.source = "hello world".into();
    app.auto_pick_target();
    assert_eq!(app.to_idx, zh_idx);
}

#[test]
fn start_then_answer() {
    let mut app = app_for_test();
    app.source = "  你好  ".into();
    let job = app.start_translate().unwrap();
    assert_eq!(job.seq, 1);
    assert_eq!(job.req.text, "你好");
    assert_eq!(job.req.from, "auto");
    assert_eq!(job.req.to, "en");
    assert_eq!(job.engine, Engine::MyMemory);
    assert!(app.busy);
    // A second start while busy does nothing.
    assert!(app.start_translate().is_none());
    assert_eq!(app.pending_seq, 1);
    let save = app.apply_message(UiMsg {
        seq: 1,
        result: Ok(TranslateOut { text: "hello".into(), detected_from: "zh-CN".into(), engine: "Google" }),
    });
    assert!(save);
    assert_eq!(app.history.entries()[0].source, "你好");
    assert_eq!(app.history.entries()[0].to, "en");
    assert_eq!(app.history.entries()[0].from, "zh-CN");
    assert_eq!(app.status_text(), "Done · Source: Chinese (Simplified) · Engine: Google");
    app.settings.ui_lang = UiLang::Zh;
    assert_eq!(app.status_text(), "翻译完成  源语言: 简体中文   引擎: Google");
}

#[test]
fn error_answer_and_status() {
    let mut app = app_for_test();
    assert_eq!(app.status_text(), "Ready");
    app.start_translate().unwrap();
    let save = app.apply_message(UiMsg { seq: 1, result: Err("boom".into()) });
    assert!(!save);
    assert!(!app.busy);
    assert_eq!(app.status_text(), "boom");
}

#[test]
fn non_target_language_falls_back_to_chinese() {
    let mut app = app_for_test();
    app.settings.auto_direction = false;
    app.to_idx = 0; // "auto" cannot be a target
    let job = app.start_translate().unwrap();
    assert_eq!(job.req.to, "zh-CN");
    assert_eq!(app.to_idx, 1);
}

#[test]
fn wrapping_request_numbers() {
    let mut app = app_for_test();
    app.pending_seq = u64::MAX;
    let job = app.start_translate().unwrap();
    assert_eq!(job.seq, 0);
}

#[test]
fn swap_and_fill_back() {
    let mut app = app_for_test();
    app.from_idx = 0;
    app.to_idx = 3;
    app.swap_langs();
    assert_eq!(app.from_idx, 3);
    assert_eq!(app.to_idx, 1);
    app.swap_langs();
    assert_eq!(app.from_idx, 1);
    assert_eq!(app.to_idx, 3);
    app.error = Some("x".into());
    app.fill_back("hola".into(), "hello".into(), "es", "xx");
    assert_eq!(app.source, "hola");
    assert_eq!(app.output, "hello");
    assert_eq!(app.from_idx, 7);
    assert_eq!(app.to_idx, 3);
    assert!(app.error.is_none());
    assert!(app.last_out.is_none());
}

#[test]
fn labels_and_heading() {
    let mut app = app_for_test();
    assert_eq!(app.lang_label("ja"), "Japanese");
    assert_eq!(app.lang_label("xx"), "xx");
    assert_eq!(app.history_heading(), "History (0)");
    app.settings.ui_lang = UiLang::Zh;
    assert_eq!(app.lang_label("ja"), "日语");
    app.history.add("a".into(), "b".into(), "en".into(), "zh-CN".into(), "g".into());
    assert_eq!(app.history_heading(), "历史记录 (1)");
    let (from, to) = app.current_langs();
    assert_eq!(from.code, "auto");
    assert_eq!(to.code, "zh-CN");
    app.from_idx = 99;
    assert_eq!(app.current_langs().0.code, "ar");
}

#[test]
fn window_and_tray() {
    let mut app = AppState::new(Settings::default(), History::fresh(5), true);
    assert!(app.close_requested());
    assert!(app.hidden);
    assert_eq!(app.on_tray(Command::Toggle), WindowAction::Show);
    assert!(!app.hidden);
    assert_eq!(app.on_tray(Command::Settings), WindowAction::Show);
    assert!(app.show_settings);
    assert_eq!(app.on_tray(Command::Quit), WindowAction::Close);
    assert!(!app.close_requested());
    let mut no_tray = AppState::new(Settings::default(), History::fresh(5), false);
    assert!(!no_tray.close_requested());
    assert!(!no_tray.hidden);
}

#[test]
fn capacity_from_settings_window() {
    let mut app = app_for_test();
    for i in 0..5 {
        app.history.add_at(format!("s{i}"), "t".into(), "en".into(), "zh-CN".into(), "g".into(), i, "t".into());
    }
    assert!(app.set_history_capacity(2));
    assert_eq!(app.settings.history_capacity, 2);
    assert_eq!(app.history.entries().len(), 2);
    app.set_history_capacity(-3);
    assert_eq!(app.settings.history_capacity, 1);
    assert_eq!(app.history.capacity(), 1);
}

#[test]
fn target_choices_skip_auto() {
    assert_eq!(AppState::target_choices(), (1..12).collect::<Vec<usize>>());
}

#[test]
fn tray_menu_ids() {
    assert_eq!(ntrans::tray::menu_command("toggle"), Some(Command::Toggle));
    assert_eq!(ntrans::tray::menu_command("settings"), Some(Command::Settings));
    assert_eq!(ntrans::tray::menu_command("quit"), Some(Command::Quit));
    assert_eq!(ntrans::tray::menu_command("other"), None);
}

#[test]
fn font_candidates() {
    let c = ntrans::fonts::candidates();
    assert_eq!(c.len(), 17);
    assert_eq!(c[0], "/usr/share/fonts/opentype/noto/NotoSansCJK-Regular.ttc");
    assert_eq!(c[12], "C:\\Windows\\Fonts\\msyh.ttc");
    assert!(ntrans::fonts::usable(4));
    assert!(!ntrans::fonts::usable(3));
}
