use ntrans::cli::{prepare, report, CliPlan, TranslateArgs};
use ntrans::i18n::UiLang;
use ntrans::model::TranslateOut;
use ntrans::providers::{Engine, TrError};

fn args(engine: &str, lang: &str, quiet: bool) -> TranslateArgs {
    TranslateArgs {
        text: "hello".into(),
        from: "auto".into(),
        to: "zh-CN".into(),
        engine: engine.into(),
        quiet,
        lang: lang.into(),
    }
}

#[test]
fn prepare_reads_engine_in_any_case() {
    match prepare(&args("MyMemory", "en", false)) {
        CliPlan::Translate { engine, lang, req } => {
            assert_eq!(engine, Engine::MyMemory);
            assert_eq!(lang, UiLang::En);
            assert_eq!(req.text, "hello");
            assert_eq!(req.from, "auto");
            assert_eq!(req.to, "zh-CN");
        }
        other => panic!("unexpected {:?}", other),
    }
    match prepare(&args("bing", "zh", false)) {
        CliPlan::Fail { code, message } => {
            assert_eq!(code, 2);
            assert_eq!(message, "未知引擎：bing（可选 auto/google/mymemory）");
        }
        other => panic!("unexpected {:?}", other),
    }
}

#[test]
fn report_lines() {
    let out = TranslateOut { text: "你好".into(), detected_from: "en".into(), engine: "Google" };
    let r = report(&args("auto", "en", false), UiLang::En, &Ok(out.clone()));
    assert_eq!(r.code, 0);
    assert_eq!(r.out, vec!["Source[auto]: hello", "Translation[zh-CN]: 你好", "Engine: Google"]);
    let r = report(&args("auto", "zh", false), UiLang::Zh, &Ok(out.clone()));
    assert_eq!(r.out, vec!["原文[auto]: hello", "译文[zh-CN]: 你好", "引擎: Google"]);
    let r = report(&args("auto", "en", true), UiLang::En, &Ok(out));
    assert_eq!(r.out, vec!["你好"]);
    assert!(r.err.is_empty());
    let r = report(&args("auto", "en", false), UiLang::Zh, &Err(TrError::Empty(UiLang::En)));
    assert_eq!(r.code, 1);
    assert!(r.out.is_empty());
    assert_eq!(r.err, vec!["上游返回内容为空"]);
}
