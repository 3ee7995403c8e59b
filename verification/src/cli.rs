//! The command-line translation: `ntrans-cli translate "text"`. What to ask
//! for, and what to print of the outcome.

use vstd::prelude::*;

use crate::i18n::{err_unknown_engine, UiLang};
use crate::model::{TranslateOut, TranslateRequest};
use crate::providers::{engine_of_code, localized_text, Engine, TrError};
use crate::text::{ascii_lowercase, lower};

verus! {

/// The arguments of `translate`.
#[derive(Debug)]
pub struct TranslateArgs {
    /// The text to translate.
    pub text: String,
    /// Source language code (`auto` to detect it).
    pub from: String,
    /// Target language code.
    pub to: String,
    /// Engine: `auto`, `google` or `mymemory`, in any case.
    pub engine: String,
    /// Print the translation only.
    pub quiet: bool,
    /// Output language: `en` or `zh`.
    pub lang: String,
}

/// What the command does: translate, or stop with an exit code and a message.
#[derive(Debug)]
pub enum CliPlan {
    Translate { engine: Engine, lang: UiLang, req: TranslateRequest },
    Fail { code: i32, message: String },
}

/// The interface language an output-language code stands for.
pub open spec fn lang_of_code(code: Seq<char>) -> UiLang {
    if code == "zh"@ {
        UiLang::Zh
    } else {
        UiLang::En
    }
}

/// Reads the arguments: an unknown engine ends the command with code 2;
/// otherwise the request holds the text and languages as given.
pub fn prepare(args: &TranslateArgs) -> (r: CliPlan)
    ensures
        engine_of_code(lower(args.engine@)) is None ==> (r matches CliPlan::Fail { code, message }
            && code == 2 && message@ == (match lang_of_code(args.lang@) {
            UiLang::En => "Unknown engine: "@ + args.engine@ + " (options: auto/google/mymemory)"@,
            UiLang::Zh => "未知引擎："@ + args.engine@ + "（可选 auto/google/mymemory）"@,
        })),
        engine_of_code(lower(args.engine@)) matches Some(e) ==> (r matches CliPlan::Translate {
            engine,
            lang,
            req,
        } && engine == e && lang == lang_of_code(args.lang@) && req.text@ == args.text@
            && req.from@ == args.from@ && req.to@ == args.to@),
{
    let code = ascii_lowercase(args.engine.as_str());
    let lang = UiLang::from_code(args.lang.as_str());
    match Engine::from_code(code.as_str()) {
        None => {
            let name = args.engine.as_str().to_owned();
            CliPlan::Fail { code: 2, message: err_unknown_engine(name, lang) }
        },
        Some(engine) => CliPlan::Translate {
            engine,
            lang,
            req: TranslateRequest {
                text: args.text.as_str().to_owned(),
                from: args.from.as_str().to_owned(),
                to: args.to.as_str().to_owned(),
            },
        },
    }
}

/// What the command prints and its exit code.
#[derive(Debug)]
pub struct CliReport {
    pub code: i32,
    /// Lines for standard output.
    pub out: Vec<String>,
    /// Lines for standard error.
    pub err: Vec<String>,
}

/// The lines printed for a successful translation.
pub open spec fn success_lines(args: TranslateArgs, lang: UiLang, out: TranslateOut) -> Seq<Seq<char>> {
    if args.quiet {
        seq![out.text@]
    } else {
        match lang {
            UiLang::Zh => seq![
                "原文["@ + args.from@ + "]: "@ + args.text@,
                "译文["@ + args.to@ + "]: "@ + out.text@,
                "引擎: "@ + out.engine@,
            ],
            UiLang::En => seq![
                "Source["@ + args.from@ + "]: "@ + args.text@,
                "Translation["@ + args.to@ + "]: "@ + out.text@,
                "Engine: "@ + out.engine@,
            ],
        }
    }
}

/// With `--quiet` a successful translation prints exactly one line, the
/// translated text, whatever the output language; without it, three lines
/// (source, translation, engine), the second ending with the translated text.
pub proof fn law_quiet_prints_only_the_translation(args: TranslateArgs, lang: UiLang, out: TranslateOut)
    ensures
        args.quiet ==> success_lines(args, lang, out) == seq![out.text@],
        !args.quiet ==> success_lines(args, lang, out).len() == 3,
        !args.quiet ==> success_lines(args, lang, out)[1].subrange(
            success_lines(args, lang, out)[1].len() - out.text@.len(),
            success_lines(args, lang, out)[1].len() as int,
        ) == out.text@,
{
    if !args.quiet {
        let l = success_lines(args, lang, out)[1];
        assert(l.subrange(l.len() - out.text@.len(), l.len() as int) =~= out.text@);
    }
}

/// The views of a list of lines.
pub open spec fn lines(v: Seq<String>) -> Seq<Seq<char>> {
    v.map_values(|s: String| s@)
}

fn line3(a: &str, b: &str, c: &str, d: &str) -> (r: String)
    ensures
        r@ == a@ + b@ + c@ + d@,
{
    let mut r = a.to_owned();
    r.append(b);
    r.append(c);
    r.append(d);
    r
}

/// Reports the outcome: the translation (exit code 0), or the localized error
/// on standard error (exit code 1).
pub fn report(args: &TranslateArgs, lang: UiLang, outcome: &Result<TranslateOut, TrError>) -> (r: CliReport)
    ensures
        match outcome {
            Ok(out) => r.code == 0 && lines(r.out@) == success_lines(*args, lang, *out) && r.err@.len() == 0,
            Err(e) => r.code == 1 && r.out@.len() == 0 && lines(r.err@) == seq![localized_text(*e, lang)],
        },
{
    let mut out: Vec<String> = Vec::new();
    let mut err: Vec<String> = Vec::new();
    match outcome {
        Ok(o) => {
            if args.quiet {
                out.push(o.text.as_str().to_owned());
            } else {
                match lang {
                    UiLang::Zh => {
                        out.push(line3("原文[", args.from.as_str(), "]: ", args.text.as_str()));
                        out.push(line3("译文[", args.to.as_str(), "]: ", o.text.as_str()));
                        out.push(line3("引擎: ", o.engine, "", ""));
                    },
                    UiLang::En => {
                        out.push(line3("Source[", args.from.as_str(), "]: ", args.text.as_str()));
                        out.push(line3("Translation[", args.to.as_str(), "]: ", o.text.as_str()));
                        out.push(line3("Engine: ", o.engine, "", ""));
                    },
                }
            }
            proof {
                reveal_strlit("");
            }
            assert(lines(out@) =~= success_lines(*args, lang, *o));
            CliReport { code: 0, out, err }
        },
        Err(e) => {
            err.push(e.to_localized(lang));
            assert(lines(err@) =~= seq![localized_text(*e, lang)]);
            CliReport { code: 1, out, err }
        },
    }
}

} // verus!
