use ntrans::i18n::UiLang;
use ntrans::model::TranslateRequest;
use ntrans::providers::{
    google_response, is_success, mymemory_langpair, mymemory_response, parse_google, parse_mymemory,
    status_line, translate_begin, translate_next, Engine, Step, TrError, Upstream,
};

#[test]
fn parse_google_ok() {
    let body = r#"[[["你好，世界","hello, world",null,null,10]],null,"en",null,null,null,null,[]]"#;
    let (text, detected) = parse_google(body, UiLang::En).unwrap();
    assert_eq!(text, "你好，世界");
    assert_eq!(detected.as_deref(), Some("en"));
}

#[test]
fn parse_google_multiseg() {
    let body = r#"[[["你好","hello",null,null,1],["，世界","，world",null,null,1]],null,"en",null]"#;
    let (text, detected) = parse_google(body, UiLang::En).unwrap();
    assert_eq!(text, "你好，世界");
    assert_eq!(detected.as_deref(), Some("en"));
}

#[test]
fn parse_google_rejects_html() {
    let body = "<html><body>Sorry</body></html>";
    assert!(parse_google(body, UiLang::En).is_err());
}

#[test]
fn parse_mymemory_ok() {
    let body = r#"{"responseData":{"translatedText":"你好世界","match":1,"detectedLanguage":"en"},"responseStatus":200,"responseDetails":""}"#;
    let (text, detected) = parse_mymemory(body, UiLang::En).unwrap();
    assert_eq!(text, "你好世界");
    assert_eq!(detected.as_deref(), Some("en"));
}

#[test]
fn parse_mymemory_empty() {
    let body = r#"{"responseData":{"translatedText":""},"responseStatus":500,"responseDetails":"no match"}"#;
    assert!(parse_mymemory(body, UiLang::En).is_err());
}

#[test]
fn engine_code_roundtrip() {
    assert_eq!(Engine::from_code("mymemory"), Some(Engine::MyMemory));
    assert_eq!(Engine::from_code("auto"), Some(Engine::Auto));
    assert_eq!(Engine::from_code("nope"), None);
}

#[test]
fn engine_codes_all() {
    for e in Engine::all() {
        assert_eq!(Engine::from_code(e.code()), Some(e));
    }
    assert_eq!(Engine::from_code("Google"), None);
    assert_eq!(Engine::Auto.label(), "自动（Google→MyMemory）");
    assert_eq!(Engine::default(), Engine::Auto);
}

#[test]
fn google_error_kinds() {
    match parse_google("<html>", UiLang::En) {
        Err(TrError::Json(_)) => {}
        other => panic!("unexpected {:?}", other),
    }
    match parse_google(r#"{"a":1}"#, UiLang::En) {
        Err(TrError::Msg(m)) => assert_eq!(m, "Unexpected Google response structure."),
        other => panic!("unexpected {:?}", other),
    }
    match parse_google(r#"[[[null,"x"],[5]],null,"en"]"#, UiLang::Zh) {
        Err(TrError::Empty(UiLang::Zh)) => {}
        other => panic!("unexpected {:?}", other),
    }
    // Segments whose first element is not a string add nothing; no detected language.
    let (t, d) = parse_google(r#"[[["a"],[1],["b","x"]],null,7]"#, UiLang::En).unwrap();
    assert_eq!(t, "ab");
    assert_eq!(d, None);
}

#[test]
fn google_http_answer() {
    match google_response(403, "[]", UiLang::En) {
        Err(TrError::Msg(m)) => assert_eq!(m, "Google returned status 403 Forbidden"),
        other => panic!("unexpected {:?}", other),
    }
    match google_response(200, "  <html>", UiLang::En) {
        Err(TrError::Msg(m)) => {
            assert_eq!(m, "Google returned unexpected content (possibly blocked or rate-limited).")
        }
        other => panic!("unexpected {:?}", other),
    }
    let (t, _) = google_response(200, "\n [[[\"hi\"]]]", UiLang::En).unwrap();
    assert_eq!(t, "hi");
}

#[test]
fn mymemory_answers() {
    let body = r#"{"responseData":{"translatedText":"  "},"responseStatus":403,"responseDetails":"LIMIT"}"#;
    match parse_mymemory(body, UiLang::En) {
        Err(TrError::Msg(m)) => assert_eq!(m, "MyMemory translation failed (status=403, details=LIMIT)"),
        other => panic!("unexpected {:?}", other),
    }
    match parse_mymemory(r#"{"responseStatus":"x"}"#, UiLang::Zh) {
        Err(TrError::Msg(m)) => assert_eq!(m, "MyMemory 翻译失败 (status=0, details=)"),
        other => panic!("unexpected {:?}", other),
    }
    let (t, d) = parse_mymemory(r#"{"responseData":{"translatedText":"ok"}}"#, UiLang::En).unwrap();
    assert_eq!(t, "ok");
    assert_eq!(d, None);
    match mymemory_response(500, "{}", UiLang::Zh) {
        Err(TrError::Msg(m)) => assert_eq!(m, "MyMemory 返回状态 500 Internal Server Error"),
        other => panic!("unexpected {:?}", other),
    }
    assert!(matches!(parse_mymemory("nope", UiLang::En), Err(TrError::Json(_))));
}

#[test]
fn status_helpers() {
    assert_eq!(status_line(200), "200 OK");
    assert_eq!(status_line(418), "418 I'm a teapot");
    assert_eq!(status_line(42), "42 <unknown status code>");
    assert!(is_success(200));
    assert!(is_success(299));
    assert!(!is_success(300));
    assert!(!is_success(199));
}

fn req(text: &str, from: &str, to: &str) -> TranslateRequest {
    TranslateRequest { text: text.to_string(), from: from.to_string(), to: to.to_string() }
}

#[test]
fn langpair_parameter() {
    assert_eq!(mymemory_langpair(&req("x", "auto", "zh-CN")), "Autodetect|zh-CN");
    assert_eq!(mymemory_langpair(&req("x", "en", "ja")), "en|ja");
}

#[test]
fn translation_steps() {
    let r = req("hello", "auto", "zh-CN");
    match translate_begin(&req("  \n", "auto", "en"), Engine::Google, UiLang::En) {
        Step::Done(Err(TrError::Msg(m))) => assert_eq!(m, "Please enter some text to translate."),
        other => panic!("unexpected {:?}", other),
    }
    assert!(matches!(translate_begin(&r, Engine::Auto, UiLang::En), Step::Ask(Upstream::Google)));
    assert!(matches!(translate_begin(&r, Engine::MyMemory, UiLang::En), Step::Ask(Upstream::MyMemory)));
    // Auto falls back to MyMemory when Google fails.
    let s = translate_next(&r, Engine::Auto, Upstream::Google, Err(TrError::Msg("x".into())));
    assert!(matches!(s, Step::Ask(Upstream::MyMemory)));
    // Google alone does not fall back.
    let s = translate_next(&r, Engine::Google, Upstream::Google, Err(TrError::Msg("x".into())));
    assert!(matches!(s, Step::Done(Err(TrError::Msg(_)))));
    // The detected language is reported when the source was auto.
    match translate_next(&r, Engine::Auto, Upstream::MyMemory, Ok(("你好".into(), Some("en".into())))) {
        Step::Done(Ok(out)) => {
            assert_eq!(out.text, "你好");
            assert_eq!(out.detected_from, "en");
            assert_eq!(out.engine, "MyMemory");
        }
        other => panic!("unexpected {:?}", other),
    }
    match translate_next(&r, Engine::Auto, Upstream::Google, Ok(("你好".into(), None))) {
        Step::Done(Ok(out)) => {
            assert_eq!(out.detected_from, "auto");
            assert_eq!(out.engine, "Google");
        }
        other => panic!("unexpected {:?}", other),
    }
    let fixed = req("hello", "en", "zh-CN");
    match translate_next(&fixed, Engine::Google, Upstream::Google, Ok(("你好".into(), Some("fr".into())))) {
        Step::Done(Ok(out)) => assert_eq!(out.detected_from, "en"),
        other => panic!("unexpected {:?}", other),
    }
}

#[test]
fn localized_errors() {
    assert_eq!(TrError::Empty(UiLang::En).to_localized(UiLang::Zh), "上游返回内容为空");
    assert_eq!(TrError::Empty(UiLang::En).message(), "upstream returned empty content");
    assert_eq!(TrError::Msg("m".into()).to_localized(UiLang::En), "m");
    assert_eq!(TrError::Http("timeout".into()).to_localized(UiLang::En), "网络请求失败: timeout");
    assert_eq!(TrError::Json("eof".into()).message(), "解析上游响应失败: eof");
}

#[test]
fn json_errors_carry_the_parser_message() {
    match ntrans::json::parse_json("{\"a\": ") {
        Err(m) => assert!(m.contains("EOF")),
        Ok(v) => panic!("unexpected {:?}", v),
    }
    let v = ntrans::json::parse_json(r#"{"k": [1, -2, 2.5, "s", null, true]}"#).unwrap();
    let arr = v.get_key("k").unwrap().as_array().unwrap();
    assert_eq!(arr.len(), 6);
    assert_eq!(arr[0].as_i64(), Some(1));
    assert_eq!(arr[1].as_i64(), Some(-2));
    assert_eq!(arr[2].as_i64(), None);
    assert_eq!(arr[3].as_str().map(|s| s.as_str()), Some("s"));
    assert!(v.get_key("missing").is_none());
    assert!(v.get_index(0).is_none());
}

#[test]
fn json_error_message_is_serde_json_text() {
    let body = "[1, 2";
    let expected = serde_json::from_str::<serde_json::Value>(body).unwrap_err().to_string();
    assert!(!expected.is_empty());
    assert_eq!(ntrans::json::parse_json(body).unwrap_err(), expected);
    match parse_google(body, UiLang::En) {
        Err(TrError::Json(m)) => assert_eq!(m, expected),
        other => panic!("unexpected {:?}", other),
    }
    match google_response(200, body, UiLang::Zh) {
        Err(TrError::Json(m)) => assert_eq!(m, expected),
        other => panic!("unexpected {:?}", other),
    }
    match mymemory_response(200, body, UiLang::En) {
        Err(TrError::Json(m)) => assert_eq!(m, expected),
        other => panic!("unexpected {:?}", other),
    }
    match parse_mymemory(body, UiLang::Zh) {
        Err(TrError::Json(m)) => assert_eq!(m, expected),
        other => panic!("unexpected {:?}", other),
    }
}
