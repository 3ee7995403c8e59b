use ntrans::i18n::{
    engine_display, err_empty, err_google_bad_response, err_google_not_json, err_google_status,
    err_input_empty, err_mymemory_fail, err_mymemory_status, err_runtime, err_unknown_engine, UiLang,
};
use ntrans::providers::Engine;

#[test]
fn messages_in_both_languages() {
    assert_eq!(err_input_empty(UiLang::En), "Please enter some text to translate.");
    assert_eq!(err_input_empty(UiLang::Zh), "请输入需要翻译的内容");
    assert_eq!(err_google_not_json(UiLang::Zh), "Google 返回了非 JSON 内容（可能被网络屏蔽或限流）");
    assert_eq!(err_google_bad_response(UiLang::En), "Unexpected Google response structure.");
    assert_eq!(err_empty(UiLang::En), "Upstream returned empty content.");
    assert_eq!(err_empty(UiLang::Zh), "上游返回内容为空");
}

#[test]
fn status_messages() {
    assert_eq!(err_google_status(UiLang::En, 429), "Google returned status 429 Too Many Requests");
    assert_eq!(err_google_status(UiLang::Zh, 503), "Google 返回状态 503 Service Unavailable");
    assert_eq!(err_mymemory_status(UiLang::En, 404), "MyMemory returned status 404 Not Found");
    assert_eq!(err_mymemory_status(UiLang::En, 599), "MyMemory returned status 599 <unknown status code>");
}

#[test]
fn formatted_messages() {
    assert_eq!(
        err_mymemory_fail(UiLang::En, 500, "no match"),
        "MyMemory translation failed (status=500, details=no match)"
    );
    assert_eq!(
        err_mymemory_fail(UiLang::Zh, -7, ""),
        "MyMemory 翻译失败 (status=-7, details=)"
    );
    assert_eq!(
        err_mymemory_fail(UiLang::En, i64::MIN, "x"),
        "MyMemory translation failed (status=-9223372036854775808, details=x)"
    );
    assert_eq!(
        err_unknown_engine("Bing".to_string(), UiLang::En),
        "Unknown engine: Bing (options: auto/google/mymemory)"
    );
    assert_eq!(err_unknown_engine("x".to_string(), UiLang::Zh), "未知引擎：x（可选 auto/google/mymemory）");
    assert_eq!(err_runtime("boom".to_string(), UiLang::En), "Failed to create runtime: boom");
    assert_eq!(err_runtime("boom".to_string(), UiLang::Zh), "运行时创建失败: boom");
}

#[test]
fn engine_names() {
    assert_eq!(engine_display(Engine::Auto, UiLang::En), "Auto (Google → MyMemory)");
    assert_eq!(engine_display(Engine::Auto, UiLang::Zh), "自动（Google → MyMemory）");
    assert_eq!(engine_display(Engine::Google, UiLang::Zh), "Google");
    assert_eq!(engine_display(Engine::MyMemory, UiLang::En), "MyMemory");
}

#[test]
fn texts_fields() {
    let en = UiLang::En.texts();
    let zh = UiLang::Zh.texts();
    assert_eq!(en.history_title, "History ({n})");
    assert_eq!(zh.history_title, "历史记录 ({n})");
    assert_eq!(en.ready, "Ready");
    assert_eq!(zh.ready, "就绪");
    assert!(en.engine_note.contains("\nIf Google"));
}
