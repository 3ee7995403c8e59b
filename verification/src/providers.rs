//! The translation upstreams, Google (first choice) and MyMemory (fallback):
//! what is asked of them and how their answers are read.

use vstd::prelude::*;

use crate::i18n::{
    bad_response_msg, empty_msg, err_google_bad_response, err_google_not_json, err_google_status,
    err_input_empty, err_mymemory_fail, err_mymemory_status, input_empty_msg, mymemory_fail_msg,
    not_json_msg, UiLang,
};
use crate::json::{at, field, field_of, int_of, json_error_message, json_parse, parse_json, str_of, Json};
use crate::model::{TranslateOut, TranslateRequest};
use crate::text::{blank, dec, is_blank, str_eq, trim_start, trimmed_starts_with, u64_to_dec};

verus! {

/// Why a translation failed.
#[derive(Debug)]
pub enum TrError {
    /// The request itself failed (network, TLS, timeout); holds the client's message.
    Http(String),
    /// The answer was not valid JSON; holds the parser's message.
    Json(String),
    /// A message for the user.
    Msg(String),
    /// The upstream answered with empty content.
    Empty(UiLang),
}

/// The text of an error, as its `Display` shows it.
pub open spec fn error_text(e: TrError) -> Seq<char> {
    match e {
        TrError::Http(s) => "网络请求失败: "@ + s@,
        TrError::Json(s) => "解析上游响应失败: "@ + s@,
        TrError::Msg(s) => s@,
        TrError::Empty(_) => "upstream returned empty content"@,
    }
}

/// The text of an error for the user: an empty answer is told in the interface language.
pub open spec fn localized_text(e: TrError, lang: UiLang) -> Seq<char> {
    match e {
        TrError::Empty(_) => empty_msg(lang)@,
        _ => error_text(e),
    }
}

impl TrError {
    /// The text of the error.
    pub fn message(&self) -> (r: String)
        ensures
            r@ == error_text(*self),
    {
        match self {
            TrError::Http(s) => {
                let mut r = "网络请求失败: ".to_owned();
                r.append(s.as_str());
                r
            },
            TrError::Json(s) => {
                let mut r = "解析上游响应失败: ".to_owned();
                r.append(s.as_str());
                r
            },
            TrError::Msg(s) => s.as_str().to_owned(),
            TrError::Empty(_) => "upstream returned empty content".to_owned(),
        }
    }

    /// The text of the error in the interface language.
    pub fn to_localized(&self, lang: UiLang) -> (r: String)
        ensures
            r@ == localized_text(*self, lang),
    {
        match self {
            TrError::Empty(_) => crate::i18n::err_empty(lang).to_owned(),
            _ => self.message(),
        }
    }
}

/// The translation engine to use.
#[derive(Clone, Copy, PartialEq, Eq, Debug, Structural)]
pub enum Engine {
    /// Google first, MyMemory when Google fails.
    Auto,
    Google,
    MyMemory,
}

impl Default for Engine {
    fn default() -> (r: Self)
        ensures
            r == Engine::Auto,
    {
        Engine::Auto
    }
}

/// The code of an engine.
pub open spec fn engine_code(e: Engine) -> &'static str {
    match e {
        Engine::Auto => "auto",
        Engine::Google => "google",
        Engine::MyMemory => "mymemory",
    }
}

/// The engine of a code, if any.
pub open spec fn engine_of_code(code: Seq<char>) -> Option<Engine> {
    if code == "auto"@ {
        Some(Engine::Auto)
    } else if code == "google"@ {
        Some(Engine::Google)
    } else if code == "mymemory"@ {
        Some(Engine::MyMemory)
    } else {
        None
    }
}

impl Engine {
    /// All engines, in display order.
    pub fn all() -> (r: [Engine; 3])
        ensures
            r@ == seq![Engine::Auto, Engine::Google, Engine::MyMemory],
    {
        let r = [Engine::Auto, Engine::Google, Engine::MyMemory];
        assert(r@ =~= seq![Engine::Auto, Engine::Google, Engine::MyMemory]);
        r
    }

    /// The display label of the engine.
    pub fn label(self) -> (r: &'static str)
        ensures
            r == (match self {
                Engine::Auto => "自动（Google→MyMemory）",
                Engine::Google => "Google",
                Engine::MyMemory => "MyMemory",
            }),
    {
        match self {
            Engine::Auto => "自动（Google→MyMemory）",
            Engine::Google => "Google",
            Engine::MyMemory => "MyMemory",
        }
    }

    /// The code of the engine: `auto`, `google` or `mymemory`.
    pub fn code(self) -> (r: &'static str)
        ensures
            r == engine_code(self),
    {
        match self {
            Engine::Auto => "auto",
            Engine::Google => "google",
            Engine::MyMemory => "mymemory",
        }
    }

    /// The engine with the given code; `None` for an unknown code.
    pub fn from_code(code: &str) -> (r: Option<Self>)
        ensures
            r == engine_of_code(code@),
    {
        if str_eq(code, "auto") {
            Some(Engine::Auto)
        } else if str_eq(code, "google") {
            Some(Engine::Google)
        } else if str_eq(code, "mymemory") {
            Some(Engine::MyMemory)
        } else {
            None
        }
    }
}

/// Every engine reads back from its code.
pub proof fn law_engine_code_roundtrip(e: Engine)
    ensures
        engine_of_code(engine_code(e)@) == Some(e),
{
    reveal_strlit("auto");
    reveal_strlit("google");
    reveal_strlit("mymemory");
    assert("google"@[0] != "auto"@[0]);
    assert("mymemory"@[0] != "auto"@[0]);
    assert("mymemory"@[0] != "google"@[0]);
}

/// The engine codes are the documented ones: a code names an engine exactly
/// when it is `auto`, `google` or `mymemory`, and each engine's code is that
/// word.
pub proof fn law_engine_codes_are_documented(code: Seq<char>)
    ensures
        engine_of_code(code) == Some(Engine::Auto) <==> code == seq!['a', 'u', 't', 'o'],
        engine_of_code(code) == Some(Engine::Google) <==> code == seq!['g', 'o', 'o', 'g', 'l', 'e'],
        engine_of_code(code) == Some(Engine::MyMemory) <==> code == seq!['m', 'y', 'm', 'e', 'm', 'o', 'r', 'y'],
        engine_of_code(code) is None <==> (code != seq!['a', 'u', 't', 'o'] && code != seq![
            'g',
            'o',
            'o',
            'g',
            'l',
            'e',
        ] && code != seq!['m', 'y', 'm', 'e', 'm', 'o', 'r', 'y']),
        engine_code(Engine::Auto)@ == seq!['a', 'u', 't', 'o'],
        engine_code(Engine::Google)@ == seq!['g', 'o', 'o', 'g', 'l', 'e'],
        engine_code(Engine::MyMemory)@ == seq!['m', 'y', 'm', 'e', 'm', 'o', 'r', 'y'],
{
    reveal_strlit("auto");
    reveal_strlit("google");
    reveal_strlit("mymemory");
    assert("auto"@ =~= seq!['a', 'u', 't', 'o']);
    assert("google"@ =~= seq!['g', 'o', 'o', 'g', 'l', 'e']);
    assert("mymemory"@ =~= seq!['m', 'y', 'm', 'e', 'm', 'o', 'r', 'y']);
}

// ---------- HTTP status ----------

/// The canonical reason phrase of an HTTP status code, as the `http` crate
/// (re-exported by reqwest) knows it; `None` for codes it has no phrase for.
pub uninterp spec fn http_reason(code: u16) -> Option<Seq<char>>;

/// The reason phrase of a status code
/// (`reqwest::StatusCode::from_u16(code)` then `canonical_reason`).
#[verifier::external_body]
fn canonical_reason(code: u16) -> (r: Option<&'static str>)
    ensures
        match r {
            Some(s) => http_reason(code) == Some(s@),
            None => http_reason(code) is None,
        },
        !(100 <= code <= 999) ==> r is None,
{
    reqwest::StatusCode::from_u16(code).ok().and_then(|s| s.canonical_reason())
}

/// A status code shown as `StatusCode` displays it: the number, a space, and
/// the reason phrase or `<unknown status code>`.
pub open spec fn status_text(code: u16) -> Seq<char> {
    dec(code as nat) + " "@ + match http_reason(code) {
        Some(r) => r,
        None => "<unknown status code>"@,
    }
}

/// The text of a status code.
pub fn status_line(code: u16) -> (r: String)
    ensures
        r@ == status_text(code),
{
    let mut r = u64_to_dec(code as u64);
    r.append(" ");
    match canonical_reason(code) {
        Some(reason) => r.append(reason),
        None => r.append("<unknown status code>"),
    }
    r
}

/// A success status: 200 to 299.
pub open spec fn success(code: u16) -> bool {
    200 <= code < 300
}

/// Whether a status code is a success.
pub fn is_success(code: u16) -> (r: bool)
    ensures
        r == success(code),
{
    200 <= code && code < 300
}

// ---------- Google ----------

/// The text of one Google segment: its first element when that is a string.
pub open spec fn segment_text(seg: Json) -> Seq<char> {
    match str_of(at(seg, 0)) {
        Some(t) => t,
        None => Seq::empty(),
    }
}

/// The translated text of Google's segments, joined in order.
pub open spec fn segments_text(segs: Seq<Json>) -> Seq<char>
    decreases segs.len(),
{
    if segs.len() == 0 {
        Seq::empty()
    } else {
        segments_text(segs.drop_last()) + segment_text(segs.last())
    }
}

/// Reads Google's `translate_a/single` answer: the translation is the text of
/// the segments listed first, the detected language is the third element.
pub fn google_from_json(v: &Json, lang: UiLang) -> (r: Result<(String, Option<String>), TrError>)
    ensures
        match at(*v, 0) {
            Some(Json::Array(segs)) => if segments_text(segs@).len() == 0 {
                r == Err::<(String, Option<String>), TrError>(TrError::Empty(lang))
            } else {
                &&& r is Ok
                &&& r->Ok_0.0@ == segments_text(segs@)
                &&& r->Ok_0.1 matches Some(d) ==> str_of(at(*v, 2)) == Some(d@)
                &&& r->Ok_0.1 is None ==> str_of(at(*v, 2)) is None
            },
            _ => r matches Err(TrError::Msg(m)) && m@ == bad_response_msg(lang)@,
        },
{
    let segs = match v.get_index(0) {
        Some(x) => match x.as_array() {
            Some(a) => a,
            None => {
                return Err(TrError::Msg(err_google_bad_response(lang).to_owned()));
            },
        },
        None => {
            return Err(TrError::Msg(err_google_bad_response(lang).to_owned()));
        },
    };
    let mut text = String::new();
    let mut i: usize = 0;
    while i < segs.len()
        invariant
            i <= segs.len(),
            text@ == segments_text(segs@.subrange(0, i as int)),
        decreases segs.len() - i,
    {
        let seg = &segs[i];
        assert(segs@.subrange(0, i + 1).drop_last() =~= segs@.subrange(0, i as int));
        match seg.get_index(0) {
            Some(first) => match first.as_str() {
                Some(t) => text.append(t.as_str()),
                None => {},
            },
            None => {},
        }
        assert(text@ =~= segments_text(segs@.subrange(0, i + 1)));
        i = i + 1;
    }
    assert(segs@.subrange(0, segs.len() as int) =~= segs@);
    if text.as_str().is_empty() {
        return Err(TrError::Empty(lang));
    }
    let detected = match v.get_index(2) {
        Some(d) => match d.as_str() {
            Some(s) => Some(s.as_str().to_owned()),
            None => None,
        },
        None => None,
    };
    Ok((text, detected))
}

/// Parses a Google answer: JSON first (its error becomes `TrError::Json`), then
/// [`google_from_json`].
pub fn parse_google(body: &str, lang: UiLang) -> (r: Result<(String, Option<String>), TrError>)
    ensures
        json_parse(body@) is None ==> (r matches Err(TrError::Json(m)) && m@ == json_error_message(body@)),
        json_parse(body@) is Some ==> google_reads(json_parse(body@)->0, lang, r),
{
    match parse_json(body) {
        Ok(v) => google_from_json(&v, lang),
        Err(m) => Err(TrError::Json(m)),
    }
}

/// What [`google_from_json`] gives for `v`.
pub open spec fn google_reads(v: Json, lang: UiLang, r: Result<(String, Option<String>), TrError>) -> bool {
    match at(v, 0) {
        Some(Json::Array(segs)) => if segments_text(segs@).len() == 0 {
            r == Err::<(String, Option<String>), TrError>(TrError::Empty(lang))
        } else {
            &&& r is Ok
            &&& r->Ok_0.0@ == segments_text(segs@)
            &&& r->Ok_0.1 matches Some(d) ==> str_of(at(v, 2)) == Some(d@)
            &&& r->Ok_0.1 is None ==> str_of(at(v, 2)) is None
        },
        _ => r matches Err(TrError::Msg(m)) && m@ == bad_response_msg(lang)@,
    }
}

/// Reads Google's HTTP answer: a failure status, then a body that does not
/// start with `[` (once leading white space is trimmed), are errors; otherwise
/// the body is parsed.
pub fn google_response(status: u16, body: &str, lang: UiLang) -> (r: Result<(String, Option<String>), TrError>)
    ensures
        !success(status) ==> (r matches Err(TrError::Msg(m)) && m@ == (match lang {
            UiLang::En => "Google returned status "@,
            UiLang::Zh => "Google 返回状态 "@,
        }) + status_text(status)),
        success(status) && !(trim_start(body@).len() > 0 && trim_start(body@)[0] == '[') ==> (r matches Err(TrError::Msg(m)) && m@ == not_json_msg(lang)@),
        success(status) && trim_start(body@).len() > 0 && trim_start(body@)[0] == '[' ==> {
            &&& json_parse(body@) is None ==> (r matches Err(TrError::Json(m)) && m@ == json_error_message(body@))
            &&& json_parse(body@) is Some ==> google_reads(json_parse(body@)->0, lang, r)
        },
{
    if !is_success(status) {
        return Err(TrError::Msg(err_google_status(lang, status)));
    }
    if !trimmed_starts_with(body, '[') {
        return Err(TrError::Msg(err_google_not_json(lang).to_owned()));
    }
    parse_google(body, lang)
}

// ---------- MyMemory ----------

/// What MyMemory's answer reads as: the translated text (empty when absent),
/// the detected language, and for an empty translation the status (0 when
/// absent) and details (empty when absent).
pub open spec fn mymemory_translated(v: Json) -> Seq<char> {
    match str_of(field_of(field(v, "responseData"@), "translatedText"@)) {
        Some(t) => t,
        None => Seq::empty(),
    }
}

/// The language MyMemory detected, if it said.
pub open spec fn mymemory_detected(v: Json) -> Option<Seq<char>> {
    str_of(field_of(field(v, "responseData"@), "detectedLanguage"@))
}

/// The message for an empty MyMemory translation.
pub open spec fn mymemory_failure(v: Json, lang: UiLang) -> Seq<char> {
    let status = match int_of(field(v, "responseStatus"@)) {
        Some(n) => n,
        None => 0,
    };
    let detail = match str_of(field(v, "responseDetails"@)) {
        Some(d) => d,
        None => Seq::empty(),
    };
    mymemory_fail_msg(lang, status, detail)
}

/// What [`mymemory_from_json`] gives for `v`.
pub open spec fn mymemory_reads(v: Json, lang: UiLang, r: Result<(String, Option<String>), TrError>) -> bool {
    if blank(mymemory_translated(v)) {
        r matches Err(TrError::Msg(m)) && m@ == mymemory_failure(v, lang)
    } else {
        &&& r is Ok
        &&& r->Ok_0.0@ == mymemory_translated(v)
        &&& r->Ok_0.1 matches Some(d) ==> mymemory_detected(v) == Some(d@)
        &&& r->Ok_0.1 is None ==> mymemory_detected(v) is None
    }
}

/// Reads MyMemory's answer: `responseData.translatedText` is the translation,
/// `responseData.detectedLanguage` the detected language; a blank translation
/// is an error that reports `responseStatus` and `responseDetails`.
pub fn mymemory_from_json(v: &Json, lang: UiLang) -> (r: Result<(String, Option<String>), TrError>)
    ensures
        mymemory_reads(*v, lang, r),
{
    let data = v.get_key("responseData");
    let translated: String = match data {
        Some(d) => match d.get_key("translatedText") {
            Some(t) => match t.as_str() {
                Some(s) => s.as_str().to_owned(),
                None => String::new(),
            },
            None => String::new(),
        },
        None => String::new(),
    };
    let detected: Option<String> = match data {
        Some(d) => match d.get_key("detectedLanguage") {
            Some(t) => match t.as_str() {
                Some(s) => Some(s.as_str().to_owned()),
                None => None,
            },
            None => None,
        },
        None => None,
    };
    if is_blank(translated.as_str()) {
        let status: i64 = match v.get_key("responseStatus") {
            Some(n) => match n.as_i64() {
                Some(k) => k,
                None => 0,
            },
            None => 0,
        };
        let detail: String = match v.get_key("responseDetails") {
            Some(d) => match d.as_str() {
                Some(s) => s.as_str().to_owned(),
                None => String::new(),
            },
            None => String::new(),
        };
        return Err(TrError::Msg(err_mymemory_fail(lang, status, detail.as_str())));
    }
    Ok((translated, detected))
}

/// Parses a MyMemory answer: JSON first (its error becomes `TrError::Json`),
/// then [`mymemory_from_json`].
pub fn parse_mymemory(body: &str, lang: UiLang) -> (r: Result<(String, Option<String>), TrError>)
    ensures
        json_parse(body@) is None ==> (r matches Err(TrError::Json(m)) && m@ == json_error_message(body@)),
        json_parse(body@) is Some ==> mymemory_reads(json_parse(body@)->0, lang, r),
{
    match parse_json(body) {
        Ok(v) => mymemory_from_json(&v, lang),
        Err(m) => Err(TrError::Json(m)),
    }
}

/// Reads MyMemory's HTTP answer: a failure status is an error, otherwise the body is parsed.
pub fn mymemory_response(status: u16, body: &str, lang: UiLang) -> (r: Result<(String, Option<String>), TrError>)
    ensures
        !success(status) ==> (r matches Err(TrError::Msg(m)) && m@ == (match lang {
            UiLang::En => "MyMemory returned status "@,
            UiLang::Zh => "MyMemory 返回状态 "@,
        }) + status_text(status)),
        success(status) ==> {
            &&& json_parse(body@) is None ==> (r matches Err(TrError::Json(m)) && m@ == json_error_message(body@))
            &&& json_parse(body@) is Some ==> mymemory_reads(json_parse(body@)->0, lang, r)
        },
{
    if !is_success(status) {
        return Err(TrError::Msg(err_mymemory_status(lang, status)));
    }
    parse_mymemory(body, lang)
}

/// The `langpair` parameter of a MyMemory request: `from|to`, where the
/// source `auto` is written `Autodetect`.
pub open spec fn langpair(from: Seq<char>, to: Seq<char>) -> Seq<char> {
    (if from == "auto"@ {
        "Autodetect"@
    } else {
        from
    }) + "|"@ + to
}

/// Builds the `langpair` parameter of a MyMemory request.
pub fn mymemory_langpair(req: &TranslateRequest) -> (r: String)
    ensures
        r@ == langpair(req.from@, req.to@),
{
    let mut r = if str_eq(req.from.as_str(), "auto") {
        "Autodetect".to_owned()
    } else {
        req.from.as_str().to_owned()
    };
    r.append("|");
    r.append(req.to.as_str());
    r
}

// ---------- One translation ----------

/// An upstream to ask.
#[derive(Clone, Copy, PartialEq, Eq, Debug, Structural)]
pub enum Upstream {
    Google,
    MyMemory,
}

/// The name of an upstream, as a translation reports it.
pub open spec fn upstream_name(u: Upstream) -> &'static str {
    match u {
        Upstream::Google => "Google",
        Upstream::MyMemory => "MyMemory",
    }
}

/// What to do next in a translation: ask an upstream, or stop with the outcome.
#[derive(Debug)]
pub enum Step {
    Ask(Upstream),
    Done(Result<TranslateOut, TrError>),
}

/// The first step of a translation: a blank text is refused; otherwise the
/// engine's upstream is asked (Google for `Auto`).
pub fn translate_begin(req: &TranslateRequest, engine: Engine, lang: UiLang) -> (r: Step)
    ensures
        blank(req.text@) ==> (r matches Step::Done(Err(TrError::Msg(m))) && m@ == input_empty_msg(lang)@),
        !blank(req.text@) ==> r == Step::Ask(match engine {
            Engine::MyMemory => Upstream::MyMemory,
            _ => Upstream::Google,
        }),
{
    if is_blank(req.text.as_str()) {
        return Step::Done(Err(TrError::Msg(err_input_empty(lang).to_owned())));
    }
    match engine {
        Engine::MyMemory => Step::Ask(Upstream::MyMemory),
        _ => Step::Ask(Upstream::Google),
    }
}

/// The source language a translation reports: the requested one, unless it
/// was `auto`; then the one the upstream detected, or `auto` when it said none.
pub open spec fn reported_from(from: Seq<char>, detected: Option<Seq<char>>) -> Seq<char> {
    if from == "auto"@ {
        match detected {
            Some(d) => d,
            None => "auto"@,
        }
    } else {
        from
    }
}

/// Builds the result of a translation out of the upstream's answer.
pub fn finish(req: &TranslateRequest, text: String, detected: Option<String>, used: Upstream) -> (r: TranslateOut)
    ensures
        r.text == text,
        r.engine == upstream_name(used),
        r.detected_from@ == reported_from(req.from@, match detected {
            Some(d) => Some(d@),
            None => None,
        }),
{
    let detected_from = if str_eq(req.from.as_str(), "auto") {
        match detected {
            Some(d) => d,
            None => "auto".to_owned(),
        }
    } else {
        req.from.as_str().to_owned()
    };
    let engine = match used {
        Upstream::Google => "Google",
        Upstream::MyMemory => "MyMemory",
    };
    TranslateOut { text, detected_from, engine }
}

/// The step after an upstream answered. With the `Auto` engine a Google
/// failure falls back to MyMemory; otherwise the answer is the outcome.
pub fn translate_next(
    req: &TranslateRequest,
    engine: Engine,
    used: Upstream,
    answer: Result<(String, Option<String>), TrError>,
) -> (r: Step)
    ensures
        engine == Engine::Auto && used == Upstream::Google && answer is Err ==> r == Step::Ask(
            Upstream::MyMemory,
        ),
        !(engine == Engine::Auto && used == Upstream::Google && answer is Err) ==> match answer {
            Err(e) => r == Step::Done(Err(e)),
            Ok((text, detected)) => r matches Step::Done(Ok(out)) && {
                &&& out.text == text
                &&& out.engine == upstream_name(used)
                &&& out.detected_from@ == reported_from(req.from@, match detected {
                    Some(d) => Some(d@),
                    None => None,
                })
            },
        },
{
    if engine == Engine::Auto && used == Upstream::Google && answer.is_err() {
        return Step::Ask(Upstream::MyMemory);
    }
    match answer {
        Err(e) => Step::Done(Err(e)),
        Ok((text, detected)) => Step::Done(Ok(finish(req, text, detected, used))),
    }
}

} // verus!
