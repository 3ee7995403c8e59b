//! The state of the translator window and the decisions taken on it: which
//! languages are chosen, when a translation starts, how its answer is applied,
//! what the status line says, and how the window answers the tray.

use vstd::prelude::*;

use crate::app_settings::Settings;
use crate::history::{blank_pair_or_recorded, clamp_capacity, cut, History};
use crate::i18n::{en_texts, input_empty_msg, zh_texts, err_input_empty, Texts, UiLang};
use crate::model::{chinese, find, is_chinese, lang_table, lang_with_code, langs, Lang, TranslateOut, TranslateRequest};
use crate::providers::Engine;
use crate::text::{dec, str_eq, trim, trimmed, u64_to_dec};
use crate::tray::Command;
use crate::ui_msg::UiMsg;

verus! {

/// What to do with the main window.
#[derive(Clone, Copy, Debug, PartialEq, Eq, Structural)]
pub enum WindowAction {
    Show,
    Hide,
    Close,
}

/// A translation to run in the background.
#[derive(Debug)]
pub struct Job {
    pub seq: u64,
    pub req: TranslateRequest,
    pub engine: Engine,
    pub lang: UiLang,
}

/// The state of the translator window.
pub struct AppState {
    pub settings: Settings,
    pub history: History,
    pub source: String,
    pub output: String,
    pub from_idx: usize,
    pub to_idx: usize,
    pub engine: Engine,
    pub busy: bool,
    /// Number of the latest translation asked for; answers to others are stale.
    pub pending_seq: u64,
    pub last_out: Option<TranslateOut>,
    pub error: Option<String>,
    pub show_settings: bool,
    pub show_history: bool,
    pub hidden: bool,
    pub quitting: bool,
    /// Whether the platform has a system tray.
    pub has_tray: bool,
}

/// The language at a position of the table; positions past the end stand for the last one.
pub open spec fn lang_at(i: usize) -> Lang {
    lang_table()[if i < 12 {
        i as int
    } else {
        11
    }]
}

/// The position of the first language with the given code.
pub open spec fn code_position(code: Seq<char>) -> Option<int> {
    if exists|i: int| 0 <= i < 12 && (#[trigger] lang_table()[i]).code@ == code {
        Some(
            choose|i: int|
                0 <= i < 12 && (#[trigger] lang_table()[i]).code@ == code && forall|j: int|
                    0 <= j < i ==> (#[trigger] lang_table()[j]).code@ != code,
        )
    } else {
        None
    }
}

proof fn lemma_code_position(code: Seq<char>, i: int)
    requires
        0 <= i < 12,
        lang_table()[i].code@ == code,
        forall|j: int| 0 <= j < i ==> (#[trigger] lang_table()[j]).code@ != code,
    ensures
        code_position(code) == Some(i),
{
    assert(0 <= i < 12 && (#[trigger] lang_table()[i]).code@ == code);
    let k = choose|k: int|
        0 <= k < 12 && (#[trigger] lang_table()[k]).code@ == code && forall|j: int|
            0 <= j < k ==> (#[trigger] lang_table()[j]).code@ != code;
    if k < i {
        assert(lang_table()[k].code@ != code);
    }
    if k > i {
        assert(lang_table()[i].code@ != code);
    }
}

/// English is the third language of the table, Chinese the second.
pub proof fn lemma_en_zh_positions()
    ensures
        code_position("en"@) == Some(2int),
        code_position("zh-CN"@) == Some(1int),
        lang_table()[1].can_be_target,
        !lang_table()[0].can_be_target,
{
    reveal_strlit("auto");
    reveal_strlit("zh-CN");
    reveal_strlit("en");
    assert(lang_table()[0].code@[0] != "en"@[0]);
    assert(lang_table()[1].code@[0] != "en"@[0]);
    lemma_code_position("en"@, 2);
    assert(lang_table()[0].code@[0] != "zh-CN"@[0]);
    lemma_code_position("zh-CN"@, 1);
}

/// Automatic direction sends Chinese text to English and any other text to
/// Chinese; where it does not apply (for instance with a target chosen by hand
/// other than English or Chinese), the target stays.
pub proof fn law_auto_direction(s: AppState)
    ensures
        auto_applies(s) ==> lang_at(picked_to(s)).code@ == (if chinese(s.source@) {
            "en"@
        } else {
            "zh-CN"@
        }),
        auto_applies(s) ==> lang_at(picked_to(s)).can_be_target,
        !auto_applies(s) ==> picked_to(s) == s.to_idx,
{
    lemma_en_zh_positions();
}

/// A source language chosen by hand (anything but `auto`) keeps the target
/// chosen by hand: the target is not picked automatically, and a translation
/// started then goes to that target when it can be one.
pub proof fn law_hand_chosen_source_keeps_target(s: AppState)
    requires
        lang_at(s.from_idx).code@ != seq!['a', 'u', 't', 'o'],
    ensures
        picked_to(s) == s.to_idx,
        lang_at(s.to_idx).can_be_target ==> target_for(s) == s.to_idx,
{
    reveal_strlit("auto");
    assert("auto"@ =~= seq!['a', 'u', 't', 'o']);
}

/// With automatic direction switched off the target chosen by hand is kept.
pub proof fn law_auto_direction_off_keeps_target(s: AppState)
    requires
        !s.settings.auto_direction,
    ensures
        picked_to(s) == s.to_idx,
        lang_at(s.to_idx).can_be_target ==> target_for(s) == s.to_idx,
{
}

/// The name of a language code in the interface language; unknown codes are shown as they are.
pub open spec fn label_of(code: Seq<char>, lang: UiLang) -> Seq<char> {
    match lang_with_code(code) {
        Some(l) => match lang {
            UiLang::En => l.label_en@,
            UiLang::Zh => l.label_zh@,
        },
        None => code,
    }
}

/// Whether automatic direction applies: it is on, the source is `auto` and
/// the target is English or Chinese.
pub open spec fn auto_applies(s: AppState) -> bool {
    &&& s.settings.auto_direction
    &&& lang_at(s.from_idx).code@ == "auto"@
    &&& (lang_at(s.to_idx).code@ == "en"@ || lang_at(s.to_idx).code@ == "zh-CN"@)
}

/// The target position automatic direction picks: English for Chinese input,
/// Chinese otherwise; the current target when automatic direction does not apply.
pub open spec fn picked_to(s: AppState) -> usize {
    if auto_applies(s) {
        if chinese(s.source@) {
            2
        } else {
            1
        }
    } else {
        s.to_idx
    }
}

/// The target position a translation uses: the picked one, or Chinese when
/// the picked language cannot be a target.
pub open spec fn target_for(s: AppState) -> usize {
    if lang_at(picked_to(s)).can_be_target {
        picked_to(s)
    } else {
        1
    }
}

/// The positions of the languages that can be targets, among the first `n`.
pub open spec fn target_positions(n: nat) -> Seq<usize>
    decreases n,
{
    if n == 0 {
        Seq::empty()
    } else if lang_table()[n - 1].can_be_target {
        target_positions((n - 1) as nat).push((n - 1) as usize)
    } else {
        target_positions((n - 1) as nat)
    }
}

/// The status line: the error, or what the last translation used, or "ready".
pub open spec fn status_of(s: AppState) -> Seq<char> {
    match s.error {
        Some(e) => e@,
        None => match s.last_out {
            Some(out) => match s.settings.ui_lang {
                UiLang::En => "Done · Source: "@ + label_of(out.detected_from@, UiLang::En) + " · Engine: "@
                    + out.engine@,
                UiLang::Zh => "翻译完成  源语言: "@ + label_of(out.detected_from@, UiLang::Zh)
                    + "   引擎: "@ + out.engine@,
            },
            None => match s.settings.ui_lang {
                UiLang::En => en_texts().ready@,
                UiLang::Zh => zh_texts().ready@,
            },
        },
    }
}

impl AppState {
    /// The state of a newly opened window: empty texts, from "auto" to Chinese, engine Auto.
    pub fn new(settings: Settings, history: History, has_tray: bool) -> (r: Self)
        ensures
            r.settings == settings,
            r.history == history,
            r.source@.len() == 0,
            r.output@.len() == 0,
            r.from_idx == 0,
            r.to_idx == 1,
            r.engine == Engine::Auto,
            !r.busy,
            r.pending_seq == 0,
            r.last_out is None,
            r.error is None,
            !r.show_settings && !r.show_history && !r.hidden && !r.quitting,
            r.has_tray == has_tray,
    {
        AppState {
            settings,
            history,
            source: String::new(),
            output: String::new(),
            from_idx: 0,
            to_idx: 1,
            engine: Engine::Auto,
            busy: false,
            pending_seq: 0,
            last_out: None,
            error: None,
            show_settings: false,
            show_history: false,
            hidden: false,
            quitting: false,
            has_tray,
        }
    }

    /// The interface texts.
    pub fn texts(&self) -> (r: Texts)
        ensures
            r == (match self.settings.ui_lang {
                UiLang::En => en_texts(),
                UiLang::Zh => zh_texts(),
            }),
    {
        self.settings.ui_lang.texts()
    }

    /// The chosen source and target languages.
    pub fn current_langs(&self) -> (r: (Lang, Lang))
        ensures
            r == (lang_at(self.from_idx), lang_at(self.to_idx)),
    {
        let table = langs();
        let f = if self.from_idx < 12 {
            self.from_idx
        } else {
            11
        };
        let t = if self.to_idx < 12 {
            self.to_idx
        } else {
            11
        };
        (table[f], table[t])
    }

    /// The positions of the languages offered as targets, in table order.
    pub fn target_choices() -> (r: Vec<usize>)
        ensures
            r@ == target_positions(12),
    {
        let table = langs();
        let mut r: Vec<usize> = Vec::new();
        let mut i: usize = 0;
        while i < table.len()
            invariant
                table@ == lang_table(),
                i <= table.len(),
                r@ == target_positions(i as nat),
            decreases table.len() - i,
        {
            if table[i].can_be_target {
                r.push(i);
            }
            i = i + 1;
        }
        r
    }

    /// The name of a language code in the interface language.
    pub fn lang_label(&self, code: &str) -> (r: String)
        ensures
            r@ == label_of(code@, self.settings.ui_lang),
    {
        match find(code) {
            Some(l) => l.name(self.settings.ui_lang).to_owned(),
            None => code.to_owned(),
        }
    }

    /// The position of the first language with the given code.
    fn position_of_code(code: &str) -> (r: Option<usize>)
        ensures
            match r {
                Some(p) => code_position(code@) == Some(p as int) && p < 12,
                None => code_position(code@) is None,
            },
    {
        let table = langs();
        let mut i: usize = 0;
        while i < table.len()
            invariant
                table@ == lang_table(),
                i <= table.len(),
                forall|j: int| 0 <= j < i ==> (#[trigger] lang_table()[j]).code@ != code@,
            decreases table.len() - i,
        {
            if str_eq(table[i].code, code) {
                proof {
                    lemma_code_position(code@, i as int);
                }
                return Some(i);
            }
            i = i + 1;
        }
        None
    }

    /// Automatic direction: when it applies, the target becomes English for
    /// Chinese input and Chinese for any other input. Nothing else changes.
    pub fn auto_pick_target(&mut self)
        ensures
            *final(self) == (AppState { to_idx: picked_to(*old(self)), ..*old(self) }),
    {
        if !self.settings.auto_direction {
            return ;
        }
        let (from, to) = self.current_langs();
        let source_is_auto = str_eq(from.code, "auto");
        let target_is_default = str_eq(to.code, "en") || str_eq(to.code, "zh-CN");
        if !(source_is_auto && target_is_default) {
            return ;
        }
        let want_en = is_chinese(self.source.as_str());
        let code = if want_en {
            "en"
        } else {
            "zh-CN"
        };
        proof {
            lemma_en_zh_positions();
        }
        match Self::position_of_code(code) {
            Some(pos) => {
                self.to_idx = pos;
            },
            None => {},
        }
    }

    /// Starts a translation of the source text.
    ///
    /// A blank text sets the "enter some text" error; while a translation is
    /// running nothing happens. Otherwise the target is picked (see
    /// [`AppState::auto_pick_target`]; a language that cannot be a target gives
    /// way to Chinese), the request number advances, and the job to run is returned.
    pub fn start_translate(&mut self) -> (r: Option<Job>)
        ensures
            trim(old(self).source@).len() == 0 ==> (r is None && (final(self).error matches Some(e)
                && e@ == input_empty_msg(old(self).settings.ui_lang)@) && *final(self) == (AppState {
                error: final(self).error,
                ..*old(self)
            })),
            trim(old(self).source@).len() != 0 && old(self).busy ==> r is None && *final(self)
                == *old(self),
            trim(old(self).source@).len() != 0 && !old(self).busy ==> (r matches Some(job) && {
                &&& job.seq == old(self).pending_seq.wrapping_add(1)
                &&& job.req.text@ == trim(old(self).source@)
                &&& job.req.from@ == lang_at(old(self).from_idx).code@
                &&& job.req.to@ == lang_at(target_for(*old(self))).code@
                &&& job.engine == old(self).engine
                &&& job.lang == old(self).settings.ui_lang
                &&& *final(self) == (AppState {
                    to_idx: target_for(*old(self)),
                    pending_seq: job.seq,
                    busy: true,
                    error: None,
                    ..*old(self)
                })
            }),
    {
        let text = trimmed(self.source.as_str());
        if text.as_str().is_empty() {
            let lang = self.settings.ui_lang;
            self.error = Some(err_input_empty(lang).to_owned());
            return None;
        }
        if self.busy {
            return None;
        }
        self.auto_pick_target();
        let (from, to0) = self.current_langs();
        let mut to = to0;
        proof {
            lemma_en_zh_positions();
        }
        if !to.can_be_target {
            let table = langs();
            to = table[1];
            self.to_idx = 1;
        }
        let req = TranslateRequest { text, from: from.code.to_owned(), to: to.code.to_owned() };
        self.pending_seq = self.pending_seq.wrapping_add(1);
        let seq = self.pending_seq;
        self.busy = true;
        self.error = None;
        Some(Job { seq, req, engine: self.engine, lang: self.settings.ui_lang })
    }

    /// Applies the answer of a background translation. Answers to an older
    /// request are dropped. A translation becomes the output and is recorded in
    /// the history (source trimmed, detected source language, chosen target);
    /// an error becomes the error shown. Returns whether the history must be
    /// written to storage.
    pub fn apply_message(&mut self, msg: UiMsg) -> (save_history: bool)
        ensures
            msg.seq != old(self).pending_seq ==> !save_history && *final(self) == *old(self),
            msg.seq == old(self).pending_seq ==> match msg.result {
                Err(e) => !save_history && *final(self) == (AppState {
                    busy: false,
                    error: Some(e),
                    ..*old(self)
                }),
                Ok(out) => {
                    &&& final(self).output@ == out.text@
                    &&& final(self).last_out == Some(out)
                    &&& final(self).error is None
                    &&& !final(self).busy
                    &&& blank_pair_or_recorded(
                        old(self).history,
                        final(self).history,
                        trim(old(self).source@),
                        out.text@,
                        out.detected_from@,
                        lang_at(old(self).to_idx).code@,
                        out.engine@,
                        save_history,
                    )
                    &&& *final(self) == (AppState {
                        output: final(self).output,
                        last_out: Some(out),
                        error: None,
                        busy: false,
                        history: final(self).history,
                        ..*old(self)
                    })
                },
            },
    {
        if msg.seq != self.pending_seq {
            return false;
        }
        self.busy = false;
        match msg.result {
            Ok(out) => {
                let (_, to) = self.current_langs();
                self.output = out.text.as_str().to_owned();
                self.error = None;
                let source = trimmed(self.source.as_str());
                self.history.add(
                    source,
                    out.text.as_str().to_owned(),
                    out.detected_from.as_str().to_owned(),
                    to.code.to_owned(),
                    out.engine.to_owned(),
                );
                self.last_out = Some(out);
                self.history.flush()
            },
            Err(e) => {
                self.error = Some(e);
                false
            },
        }
    }

    /// The status line.
    pub fn status_text(&self) -> (r: String)
        ensures
            r@ == status_of(*self),
    {
        match &self.error {
            Some(e) => e.as_str().to_owned(),
            None => match &self.last_out {
                Some(out) => {
                    let detected = self.lang_label(out.detected_from.as_str());
                    match self.settings.ui_lang {
                        UiLang::En => {
                            let mut r = "Done · Source: ".to_owned();
                            r.append(detected.as_str());
                            r.append(" · Engine: ");
                            r.append(out.engine);
                            r
                        },
                        UiLang::Zh => {
                            let mut r = "翻译完成  源语言: ".to_owned();
                            r.append(detected.as_str());
                            r.append("   引擎: ");
                            r.append(out.engine);
                            r
                        },
                    }
                },
                None => self.texts().ready.to_owned(),
            },
        }
    }

    /// The heading of the history panel: its title and the number of entries.
    pub fn history_heading(&self) -> (r: String)
        ensures
            r@ == (match self.settings.ui_lang {
                UiLang::En => "History ("@,
                UiLang::Zh => "历史记录 ("@,
            }) + dec(self.history.items().len()) + ")"@,
    {
        let mut r = match self.settings.ui_lang {
            UiLang::En => "History (".to_owned(),
            UiLang::Zh => "历史记录 (".to_owned(),
        };
        let n = u64_to_dec(self.history.len() as u64);
        r.append(n.as_str());
        r.append(")");
        r
    }

    /// Swaps source and target; a source that cannot be a target gives way to Chinese.
    pub fn swap_langs(&mut self)
        requires
            old(self).from_idx < 12,
        ensures
            *final(self) == (AppState {
                from_idx: old(self).to_idx,
                to_idx: if lang_table()[old(self).from_idx as int].can_be_target {
                    old(self).from_idx
                } else {
                    1
                },
                ..*old(self)
            }),
    {
        let table = langs();
        let tmp = self.from_idx;
        self.from_idx = self.to_idx;
        self.to_idx = if table[tmp].can_be_target {
            tmp
        } else {
            1
        };
    }

    /// Puts a history entry back in the editor: its texts, and its languages
    /// where they are in the table; the last outcome and error are cleared.
    pub fn fill_back(&mut self, source: String, translation: String, from: &str, to: &str)
        ensures
            *final(self) == (AppState {
                source: source,
                output: translation,
                from_idx: match code_position(from@) {
                    Some(p) => p as usize,
                    None => old(self).from_idx,
                },
                to_idx: match code_position(to@) {
                    Some(p) => p as usize,
                    None => old(self).to_idx,
                },
                last_out: None,
                error: None,
                ..*old(self)
            }),
    {
        self.source = source;
        self.output = translation;
        match find(from) {
            Some(l) => match Self::position_of_code(l.code) {
                Some(p) => self.from_idx = p,
                None => {},
            },
            None => {},
        }
        match find(to) {
            Some(l) => match Self::position_of_code(l.code) {
                Some(p) => self.to_idx = p,
                None => {},
            },
            None => {},
        }
        proof {
            lemma_find_position(from@);
            lemma_find_position(to@);
        }
        self.last_out = None;
        self.error = None;
    }

    /// Sets how many history entries to keep (at least one), as the settings
    /// window does. Returns whether the history must be written to storage.
    pub fn set_history_capacity(&mut self, cap: i64) -> (save_history: bool)
        ensures
            final(self).settings == (Settings {
                history_capacity: (if cap < 1 {
                    1
                } else {
                    cap
                }) as usize,
                ..old(self).settings
            }),
            final(self).history.cap() == clamp_capacity(final(self).settings.history_capacity),
            final(self).history.items() == if old(self).history.cap() == clamp_capacity(
                final(self).settings.history_capacity,
            ) {
                old(self).history.items()
            } else {
                cut(old(self).history.items(), final(self).history.cap())
            },
            !final(self).history.changed(),
            save_history == (old(self).history.changed() || old(self).history.cap() != clamp_capacity(
                final(self).settings.history_capacity,
            )),
            *final(self) == (AppState {
                settings: final(self).settings,
                history: final(self).history,
                ..*old(self)
            }),
    {
        let c: usize = if cap < 1 {
            1
        } else {
            cap as usize
        };
        self.settings.history_capacity = c;
        self.history.set_capacity(c);
        self.history.flush()
    }

    /// Shows the window when hidden, hides it otherwise.
    pub fn toggle_window(&mut self) -> (r: WindowAction)
        ensures
            *final(self) == (AppState { hidden: !old(self).hidden, ..*old(self) }),
            r == (if old(self).hidden {
                WindowAction::Show
            } else {
                WindowAction::Hide
            }),
    {
        if self.hidden {
            self.hidden = false;
            WindowAction::Show
        } else {
            self.hidden = true;
            WindowAction::Hide
        }
    }

    /// Answers a tray command.
    pub fn on_tray(&mut self, cmd: Command) -> (r: WindowAction)
        ensures
            cmd == Command::Toggle ==> *final(self) == (AppState {
                hidden: !old(self).hidden,
                ..*old(self)
            }) && r == (if old(self).hidden {
                WindowAction::Show
            } else {
                WindowAction::Hide
            }),
            cmd == Command::Settings ==> *final(self) == (AppState {
                show_settings: true,
                hidden: false,
                ..*old(self)
            }) && r == WindowAction::Show,
            cmd == Command::Quit ==> *final(self) == (AppState { quitting: true, ..*old(self) }) && r
                == WindowAction::Close,
    {
        match cmd {
            Command::Toggle => self.toggle_window(),
            Command::Settings => {
                self.show_settings = true;
                self.hidden = false;
                WindowAction::Show
            },
            Command::Quit => {
                self.quitting = true;
                WindowAction::Close
            },
        }
    }

    /// Answers a request to close the window. Returns whether the close is
    /// cancelled: with a tray and "hide on close", the window hides instead;
    /// after Quit the close goes through.
    pub fn close_requested(&mut self) -> (cancel: bool)
        ensures
            cancel == (!old(self).quitting && old(self).has_tray && old(self).settings.hide_on_close),
            *final(self) == (AppState { hidden: old(self).hidden || cancel, ..*old(self) }),
    {
        if self.quitting {
            return false;
        }
        if self.has_tray && self.settings.hide_on_close {
            self.hidden = true;
            return true;
        }
        false
    }
}

/// Finding a language by code, then its position, is the position of that code.
proof fn lemma_find_position(code: Seq<char>)
    ensures
        lang_with_code(code) matches Some(l) ==> code_position(l.code@) == code_position(code),
        lang_with_code(code) is None ==> code_position(code) is None,
{
    if lang_with_code(code) is Some {
        let l = lang_with_code(code)->0;
        assert(l.code@ == code);
    } else {
        if exists|i: int| 0 <= i < 12 && (#[trigger] lang_table()[i]).code@ == code {
            let i = choose|i: int| 0 <= i < 12 && (#[trigger] lang_table()[i]).code@ == code;
            assert(0 <= i < lang_table().len() && lang_table()[i].code@ == code);
        }
    }
}

} // verus!
