//! Interface languages: the text of the interface and the localized messages.

use vstd::prelude::*;

use crate::providers::{Engine, status_line, status_text};
use crate::text::{dec_int, str_eq};

verus! {

/// Interface language; English unless chosen otherwise.
#[derive(Clone, Copy, PartialEq, Eq, Debug, Structural)]
pub enum UiLang {
    En,
    Zh,
}

impl Default for UiLang {
    fn default() -> (r: Self)
        ensures
            r == UiLang::En,
    {
        UiLang::En
    }
}

/// The code of an interface language.
pub open spec fn ui_code(lang: UiLang) -> &'static str {
    match lang {
        UiLang::En => "en",
        UiLang::Zh => "zh",
    }
}

/// All the texts of the interface, for one language.
#[derive(Clone, Copy, Debug)]
pub struct Texts {
    pub title: &'static str,
    pub engine: &'static str,
    pub auto_engine: &'static str,
    pub from: &'static str,
    pub to: &'static str,
    pub swap: &'static str,
    pub translate: &'static str,
    pub translating: &'static str,
    pub translate_shortcut: &'static str,
    pub history: &'static str,
    pub settings: &'static str,
    pub auto_direction: &'static str,
    pub auto_direction_hint: &'static str,
    pub source: &'static str,
    pub target: &'static str,
    pub clear: &'static str,
    pub copy: &'static str,
    pub use_as_source: &'static str,
    pub input_hint: &'static str,
    pub output_hint: &'static str,
    pub no_translation_yet: &'static str,
    pub ready: &'static str,
    pub history_title: &'static str,
    pub clear_all: &'static str,
    pub history_empty: &'static str,
    pub fill_back: &'static str,
    pub copy_translation: &'static str,
    pub delete: &'static str,
    pub section_language: &'static str,
    pub ui_language: &'static str,
    pub section_general: &'static str,
    pub section_tray: &'static str,
    pub hide_on_close: &'static str,
    pub no_tray_note: &'static str,
    pub section_history: &'static str,
    pub keep_max: &'static str,
    pub entries_suffix: &'static str,
    pub engine_note: &'static str,
    pub language_note: &'static str,
}

/// The English texts.
pub open spec fn en_texts() -> Texts {
    Texts {
        title: "ntrans",
        engine: "Engine:",
        auto_engine: "Auto (Google → MyMemory)",
        from: "From:",
        to: "To:",
        swap: "Swap",
        translate: "Translate",
        translating: "Translating…",
        translate_shortcut: "Ctrl/Cmd+Enter to translate",
        history: "History",
        settings: "Settings",
        auto_direction: "Auto direction",
        auto_direction_hint: "Translate Chinese input to English, other input to Chinese (source must be Auto)",
        source: "Text",
        target: "Translation",
        clear: "Clear",
        copy: "Copy",
        use_as_source: "Use as input",
        input_hint: "Type text to translate… (Ctrl/Cmd + Enter)",
        output_hint: "Translation appears here",
        no_translation_yet: "No translation yet",
        ready: "Ready",
        history_title: "History ({n})",
        clear_all: "Clear all",
        history_empty: "(empty)",
        fill_back: "Refill",
        copy_translation: "Copy",
        delete: "Delete",
        section_language: "Interface language",
        ui_language: "Language",
        section_general: "General",
        section_tray: "System tray",
        hide_on_close: "Hide to tray when closing the window",
        no_tray_note: "No system tray on this platform; closing the window exits the app.",
        section_history: "History",
        keep_max: "Keep at most",
        entries_suffix: "entries",
        engine_note: "Engine “Auto” prefers the free Google endpoint and falls back to MyMemory.\nIf Google is unreachable on your network, pick MyMemory manually.",
        language_note: "Restart the app for full language switch of remaining system messages.",
    }
}

/// The Chinese texts.
pub open spec fn zh_texts() -> Texts {
    Texts {
        title: "ntrans",
        engine: "引擎:",
        auto_engine: "自动（Google → MyMemory）",
        from: "从:",
        to: "到:",
        swap: "交换语言",
        translate: "翻译",
        translating: "翻译中…",
        translate_shortcut: "Ctrl/Cmd+Enter 翻译",
        history: "历史",
        settings: "设置",
        auto_direction: "自动方向",
        auto_direction_hint: "输入中文自动译成英文，其他语言自动译成中文（源语言需为“自动”）",
        source: "原文",
        target: "译文",
        clear: "清空",
        copy: "复制",
        use_as_source: "设为原文",
        input_hint: "输入要翻译的文本…（Ctrl/Cmd + Enter 翻译）",
        output_hint: "译文将显示在这里",
        no_translation_yet: "暂无译文",
        ready: "就绪",
        history_title: "历史记录 ({n})",
        clear_all: "清空",
        history_empty: "（暂无历史）",
        fill_back: "回填",
        copy_translation: "复制译文",
        delete: "删除",
        section_language: "界面语言",
        ui_language: "语言",
        section_general: "常规",
        section_tray: "托盘",
        hide_on_close: "关闭主窗口时最小化到托盘",
        no_tray_note: "当前平台无系统托盘，关闭窗口将直接退出应用。",
        section_history: "历史记录",
        keep_max: "最多保留",
        entries_suffix: "条",
        engine_note: "引擎「自动」优先使用 Google 免费接口，失败自动回退 MyMemory；\n若你的网络无法访问 Google，可手动切换为 MyMemory。",
        language_note: "部分系统消息在重启应用后完全切换语言。",
    }
}

impl UiLang {
    /// The code of the language: `en` or `zh`.
    pub fn code(self) -> (r: &'static str)
        ensures
            r == ui_code(self),
    {
        match self {
            UiLang::En => "en",
            UiLang::Zh => "zh",
        }
    }

    /// The language of a code: `zh` is Chinese, anything else English.
    pub fn from_code(code: &str) -> (r: UiLang)
        ensures
            r == (if code@ == "zh"@ {
                UiLang::Zh
            } else {
                UiLang::En
            }),
    {
        if str_eq(code, "zh") {
            UiLang::Zh
        } else {
            UiLang::En
        }
    }

    /// The name of the language, written in that language.
    pub fn label(self) -> (r: &'static str)
        ensures
            r == (match self {
                UiLang::En => "English",
                UiLang::Zh => "中文",
            }),
    {
        match self {
            UiLang::En => "English",
            UiLang::Zh => "中文",
        }
    }

    /// The interface texts in this language.
    pub fn texts(self) -> (r: Texts)
        ensures
            r == (match self {
                UiLang::En => en_texts(),
                UiLang::Zh => zh_texts(),
            }),
    {
        match self {
            UiLang::En => Texts {
                title: "ntrans",
                engine: "Engine:",
                auto_engine: "Auto (Google → MyMemory)",
                from: "From:",
                to: "To:",
                swap: "Swap",
                translate: "Translate",
                translating: "Translating…",
                translate_shortcut: "Ctrl/Cmd+Enter to translate",
                history: "History",
                settings: "Settings",
                auto_direction: "Auto direction",
                auto_direction_hint: "Translate Chinese input to English, other input to Chinese (source must be Auto)",
                source: "Text",
                target: "Translation",
                clear: "Clear",
                copy: "Copy",
                use_as_source: "Use as input",
                input_hint: "Type text to translate… (Ctrl/Cmd + Enter)",
                output_hint: "Translation appears here",
                no_translation_yet: "No translation yet",
                ready: "Ready",
                history_title: "History ({n})",
                clear_all: "Clear all",
                history_empty: "(empty)",
                fill_back: "Refill",
                copy_translation: "Copy",
                delete: "Delete",
                section_language: "Interface language",
                ui_language: "Language",
                section_general: "General",
                section_tray: "System tray",
                hide_on_close: "Hide to tray when closing the window",
                no_tray_note: "No system tray on this platform; closing the window exits the app.",
                section_history: "History",
                keep_max: "Keep at most",
                entries_suffix: "entries",
                engine_note: "Engine “Auto” prefers the free Google endpoint and falls back to MyMemory.\nIf Google is unreachable on your network, pick MyMemory manually.",
                language_note: "Restart the app for full language switch of remaining system messages.",
            },
            UiLang::Zh => Texts {
                title: "ntrans",
                engine: "引擎:",
                auto_engine: "自动（Google → MyMemory）",
                from: "从:",
                to: "到:",
                swap: "交换语言",
                translate: "翻译",
                translating: "翻译中…",
                translate_shortcut: "Ctrl/Cmd+Enter 翻译",
                history: "历史",
                settings: "设置",
                auto_direction: "自动方向",
                auto_direction_hint: "输入中文自动译成英文，其他语言自动译成中文（源语言需为“自动”）",
                source: "原文",
                target: "译文",
                clear: "清空",
                copy: "复制",
                use_as_source: "设为原文",
                input_hint: "输入要翻译的文本…（Ctrl/Cmd + Enter 翻译）",
                output_hint: "译文将显示在这里",
                no_translation_yet: "暂无译文",
                ready: "就绪",
                history_title: "历史记录 ({n})",
                clear_all: "清空",
                history_empty: "（暂无历史）",
                fill_back: "回填",
                copy_translation: "复制译文",
                delete: "删除",
                section_language: "界面语言",
                ui_language: "语言",
                section_general: "常规",
                section_tray: "托盘",
                hide_on_close: "关闭主窗口时最小化到托盘",
                no_tray_note: "当前平台无系统托盘，关闭窗口将直接退出应用。",
                section_history: "历史记录",
                keep_max: "最多保留",
                entries_suffix: "条",
                engine_note: "引擎「自动」优先使用 Google 免费接口，失败自动回退 MyMemory；\n若你的网络无法访问 Google，可手动切换为 MyMemory。",
                language_note: "部分系统消息在重启应用后完全切换语言。",
            },
        }
    }
}

/// Language codes read back as the language they came from.
pub proof fn law_ui_code_roundtrip(lang: UiLang)
    ensures
        (if ui_code(lang)@ == "zh"@ {
            UiLang::Zh
        } else {
            UiLang::En
        }) == lang,
{
    reveal_strlit("zh");
    reveal_strlit("en");
    assert("en"@[0] != "zh"@[0]);
}

/// The name under which an engine is shown.
pub fn engine_display(engine: Engine, lang: UiLang) -> (r: &'static str)
    ensures
        r == (match engine {
            Engine::Auto => match lang {
                UiLang::En => en_texts().auto_engine,
                UiLang::Zh => zh_texts().auto_engine,
            },
            Engine::Google => "Google",
            Engine::MyMemory => "MyMemory",
        }),
{
    match engine {
        Engine::Auto => lang.texts().auto_engine,
        Engine::Google => "Google",
        Engine::MyMemory => "MyMemory",
    }
}

/// Asks for some text to translate.
pub open spec fn input_empty_msg(lang: UiLang) -> &'static str {
    match lang {
            UiLang::En => "Please enter some text to translate.",
            UiLang::Zh => "请输入需要翻译的内容",
        }
}

/// Asks for some text to translate.
pub fn err_input_empty(lang: UiLang) -> (r: &'static str)
    ensures
        r == input_empty_msg(lang),
{
    match lang {
        UiLang::En => "Please enter some text to translate.",
        UiLang::Zh => "请输入需要翻译的内容",
    }
}

/// Google answered with an HTTP status other than success.
pub fn err_google_status(lang: UiLang, status: u16) -> (r: String)
    ensures
        r@ == (match lang {
            UiLang::En => "Google returned status "@,
            UiLang::Zh => "Google 返回状态 "@,
        }) + status_text(status),
{
    let mut r = match lang {
        UiLang::En => "Google returned status ".to_owned(),
        UiLang::Zh => "Google 返回状态 ".to_owned(),
    };
    let s = status_line(status);
    r.append(s.as_str());
    r
}

/// Google answered with something other than JSON.
pub open spec fn not_json_msg(lang: UiLang) -> &'static str {
    match lang {
            UiLang::En => "Google returned unexpected content (possibly blocked or rate-limited).",
            UiLang::Zh => "Google 返回了非 JSON 内容（可能被网络屏蔽或限流）",
        }
}

/// Google answered with something other than JSON.
pub fn err_google_not_json(lang: UiLang) -> (r: &'static str)
    ensures
        r == not_json_msg(lang),
{
    match lang {
        UiLang::En => "Google returned unexpected content (possibly blocked or rate-limited).",
        UiLang::Zh => "Google 返回了非 JSON 内容（可能被网络屏蔽或限流）",
    }
}

/// Google's JSON did not have the expected shape.
pub open spec fn bad_response_msg(lang: UiLang) -> &'static str {
    match lang {
            UiLang::En => "Unexpected Google response structure.",
            UiLang::Zh => "Google 响应结构异常",
        }
}

/// Google's JSON did not have the expected shape.
pub fn err_google_bad_response(lang: UiLang) -> (r: &'static str)
    ensures
        r == bad_response_msg(lang),
{
    match lang {
        UiLang::En => "Unexpected Google response structure.",
        UiLang::Zh => "Google 响应结构异常",
    }
}

/// MyMemory answered with an HTTP status other than success.
pub fn err_mymemory_status(lang: UiLang, status: u16) -> (r: String)
    ensures
        r@ == (match lang {
            UiLang::En => "MyMemory returned status "@,
            UiLang::Zh => "MyMemory 返回状态 "@,
        }) + status_text(status),
{
    let mut r = match lang {
        UiLang::En => "MyMemory returned status ".to_owned(),
        UiLang::Zh => "MyMemory 返回状态 ".to_owned(),
    };
    let s = status_line(status);
    r.append(s.as_str());
    r
}

/// MyMemory gave no translation; reports its status and details.
pub open spec fn mymemory_fail_msg(lang: UiLang, status: i64, detail: Seq<char>) -> Seq<char> {
    (match lang {
        UiLang::En => "MyMemory translation failed (status="@,
        UiLang::Zh => "MyMemory 翻译失败 (status="@,
    }) + dec_int(status as int) + ", details="@ + detail + ")"@
}

/// MyMemory gave no translation; reports its status and details.
pub fn err_mymemory_fail(lang: UiLang, status: i64, detail: &str) -> (r: String)
    ensures
        r@ == mymemory_fail_msg(lang, status, detail@),
{
    let mut r = match lang {
        UiLang::En => "MyMemory translation failed (status=".to_owned(),
        UiLang::Zh => "MyMemory 翻译失败 (status=".to_owned(),
    };
    let n = crate::text::i64_to_dec(status);
    r.append(n.as_str());
    r.append(", details=");
    r.append(detail);
    r.append(")");
    r
}

/// The upstream answered with empty content.
pub open spec fn empty_msg(lang: UiLang) -> &'static str {
    match lang {
            UiLang::En => "Upstream returned empty content.",
            UiLang::Zh => "上游返回内容为空",
        }
}

/// The upstream answered with empty content.
pub fn err_empty(lang: UiLang) -> (r: &'static str)
    ensures
        r == empty_msg(lang),
{
    match lang {
        UiLang::En => "Upstream returned empty content.",
        UiLang::Zh => "上游返回内容为空",
    }
}

/// The engine name given on the command line is not known.
pub fn err_unknown_engine(name: String, lang: UiLang) -> (r: String)
    ensures
        r@ == (match lang {
            UiLang::En => "Unknown engine: "@ + name@ + " (options: auto/google/mymemory)"@,
            UiLang::Zh => "未知引擎："@ + name@ + "（可选 auto/google/mymemory）"@,
        }),
{
    match lang {
        UiLang::En => {
            let mut r = "Unknown engine: ".to_owned();
            r.append(name.as_str());
            r.append(" (options: auto/google/mymemory)");
            r
        },
        UiLang::Zh => {
            let mut r = "未知引擎：".to_owned();
            r.append(name.as_str());
            r.append("（可选 auto/google/mymemory）");
            r
        },
    }
}

/// The async runtime could not be created.
pub fn err_runtime(msg: String, lang: UiLang) -> (r: String)
    ensures
        r@ == (match lang {
            UiLang::En => "Failed to create runtime: "@,
            UiLang::Zh => "运行时创建失败: "@,
        }) + msg@,
{
    let mut r = match lang {
        UiLang::En => "Failed to create runtime: ".to_owned(),
        UiLang::Zh => "运行时创建失败: ".to_owned(),
    };
    r.append(msg.as_str());
    r
}

} // verus!
