//! Languages and the basic request / result model.

use vstd::prelude::*;

use crate::i18n::UiLang;
use crate::text::str_eq;

verus! {

/// A supported language, by its upstream code (as Google and MyMemory know it).
#[derive(Clone, Copy, PartialEq, Eq, Debug)]
pub struct Lang {
    /// Upstream code, such as `auto`, `zh-CN` or `en`.
    pub code: &'static str,
    /// Display name in English.
    pub label_en: &'static str,
    /// Display name in Chinese.
    pub label_zh: &'static str,
    /// Whether the language may be chosen as a target.
    pub can_be_target: bool,
}

impl Lang {
    /// The display name of the language in the given interface language.
    pub fn name(self, lang: UiLang) -> (r: &'static str)
        ensures
            r == (match lang {
                UiLang::En => self.label_en,
                UiLang::Zh => self.label_zh,
            }),
    {
        match lang {
            UiLang::En => self.label_en,
            UiLang::Zh => self.label_zh,
        }
    }
}

/// The table of supported languages, "auto" first.
pub open spec fn lang_table() -> Seq<Lang> {
    seq![
        Lang { code: "auto", label_en: "Auto detect", label_zh: "自动检测", can_be_target: false },
        Lang { code: "zh-CN", label_en: "Chinese (Simplified)", label_zh: "简体中文", can_be_target: true },
        Lang { code: "en", label_en: "English", label_zh: "英语", can_be_target: true },
        Lang { code: "ja", label_en: "Japanese", label_zh: "日语", can_be_target: true },
        Lang { code: "ko", label_en: "Korean", label_zh: "韩语", can_be_target: true },
        Lang { code: "fr", label_en: "French", label_zh: "法语", can_be_target: true },
        Lang { code: "de", label_en: "German", label_zh: "德语", can_be_target: true },
        Lang { code: "es", label_en: "Spanish", label_zh: "西班牙语", can_be_target: true },
        Lang { code: "ru", label_en: "Russian", label_zh: "俄语", can_be_target: true },
        Lang { code: "it", label_en: "Italian", label_zh: "意大利语", can_be_target: true },
        Lang { code: "pt", label_en: "Portuguese", label_zh: "葡萄牙语", can_be_target: true },
        Lang { code: "ar", label_en: "Arabic", label_zh: "阿拉伯语", can_be_target: true },
    ]
}

/// The supported languages, in display order ("auto" first).
pub fn langs() -> (r: Vec<Lang>)
    ensures
        r@ == lang_table(),
{
    let r = vec![
        Lang { code: "auto", label_en: "Auto detect", label_zh: "自动检测", can_be_target: false },
        Lang { code: "zh-CN", label_en: "Chinese (Simplified)", label_zh: "简体中文", can_be_target: true },
        Lang { code: "en", label_en: "English", label_zh: "英语", can_be_target: true },
        Lang { code: "ja", label_en: "Japanese", label_zh: "日语", can_be_target: true },
        Lang { code: "ko", label_en: "Korean", label_zh: "韩语", can_be_target: true },
        Lang { code: "fr", label_en: "French", label_zh: "法语", can_be_target: true },
        Lang { code: "de", label_en: "German", label_zh: "德语", can_be_target: true },
        Lang { code: "es", label_en: "Spanish", label_zh: "西班牙语", can_be_target: true },
        Lang { code: "ru", label_en: "Russian", label_zh: "俄语", can_be_target: true },
        Lang { code: "it", label_en: "Italian", label_zh: "意大利语", can_be_target: true },
        Lang { code: "pt", label_en: "Portuguese", label_zh: "葡萄牙语", can_be_target: true },
        Lang { code: "ar", label_en: "Arabic", label_zh: "阿拉伯语", can_be_target: true },
    ];
    assert(r@ =~= lang_table());
    r
}

/// The first language of the table whose code is `code`, if any.
pub open spec fn lang_with_code(code: Seq<char>) -> Option<Lang> {
    if exists|i: int| 0 <= i < lang_table().len() && (#[trigger] lang_table()[i]).code@ == code {
        let i = choose|i: int|
            0 <= i < lang_table().len() && (#[trigger] lang_table()[i]).code@ == code && forall|
                j: int,
            |
                0 <= j < i ==> (#[trigger] lang_table()[j]).code@ != code;
        Some(lang_table()[i])
    } else {
        None
    }
}

/// Looks a language up by its code; `None` when no language has that code.
pub fn find(code: &str) -> (r: Option<Lang>)
    ensures
        r == lang_with_code(code@),
{
    let table = langs();
    let mut i: usize = 0;
    while i < table.len()
        invariant
            table@ == lang_table(),
            i <= table.len(),
            forall|j: int| 0 <= j < i ==> (#[trigger] table@[j]).code@ != code@,
        decreases table.len() - i,
    {
        if str_eq(table[i].code, code) {
            assert(table@[i as int].code@ == code@);
            return Some(table[i]);
        }
        i = i + 1;
    }
    None
}

/// The codes of the table are all different.
pub proof fn lemma_codes_distinct()
    ensures
        forall|i: int, j: int|
            0 <= i < j < lang_table().len() ==> (#[trigger] lang_table()[i]).code@ != (#[trigger] lang_table()[j]).code@,
{
    reveal_strlit("auto");
    reveal_strlit("zh-CN");
    reveal_strlit("en");
    reveal_strlit("ja");
    reveal_strlit("ko");
    reveal_strlit("fr");
    reveal_strlit("de");
    reveal_strlit("es");
    reveal_strlit("ru");
    reveal_strlit("it");
    reveal_strlit("pt");
    reveal_strlit("ar");
    assert(lang_table()[0].code@[0] != lang_table()[1].code@[0]);
    assert(lang_table()[0].code@[0] != lang_table()[2].code@[0]);
    assert(lang_table()[0].code@[0] != lang_table()[3].code@[0]);
    assert(lang_table()[0].code@[0] != lang_table()[4].code@[0]);
    assert(lang_table()[0].code@[0] != lang_table()[5].code@[0]);
    assert(lang_table()[0].code@[0] != lang_table()[6].code@[0]);
    assert(lang_table()[0].code@[0] != lang_table()[7].code@[0]);
    assert(lang_table()[0].code@[0] != lang_table()[8].code@[0]);
    assert(lang_table()[0].code@[0] != lang_table()[9].code@[0]);
    assert(lang_table()[0].code@[0] != lang_table()[10].code@[0]);
    assert(lang_table()[0].code@[1] != lang_table()[11].code@[1]);
    assert(lang_table()[1].code@[0] != lang_table()[2].code@[0]);
    assert(lang_table()[1].code@[0] != lang_table()[3].code@[0]);
    assert(lang_table()[1].code@[0] != lang_table()[4].code@[0]);
    assert(lang_table()[1].code@[0] != lang_table()[5].code@[0]);
    assert(lang_table()[1].code@[0] != lang_table()[6].code@[0]);
    assert(lang_table()[1].code@[0] != lang_table()[7].code@[0]);
    assert(lang_table()[1].code@[0] != lang_table()[8].code@[0]);
    assert(lang_table()[1].code@[0] != lang_table()[9].code@[0]);
    assert(lang_table()[1].code@[0] != lang_table()[10].code@[0]);
    assert(lang_table()[1].code@[0] != lang_table()[11].code@[0]);
    assert(lang_table()[2].code@[0] != lang_table()[3].code@[0]);
    assert(lang_table()[2].code@[0] != lang_table()[4].code@[0]);
    assert(lang_table()[2].code@[0] != lang_table()[5].code@[0]);
    assert(lang_table()[2].code@[0] != lang_table()[6].code@[0]);
    assert(lang_table()[2].code@[1] != lang_table()[7].code@[1]);
    assert(lang_table()[2].code@[0] != lang_table()[8].code@[0]);
    assert(lang_table()[2].code@[0] != lang_table()[9].code@[0]);
    assert(lang_table()[2].code@[0] != lang_table()[10].code@[0]);
    assert(lang_table()[2].code@[0] != lang_table()[11].code@[0]);
    assert(lang_table()[3].code@[0] != lang_table()[4].code@[0]);
    assert(lang_table()[3].code@[0] != lang_table()[5].code@[0]);
    assert(lang_table()[3].code@[0] != lang_table()[6].code@[0]);
    assert(lang_table()[3].code@[0] != lang_table()[7].code@[0]);
    assert(lang_table()[3].code@[0] != lang_table()[8].code@[0]);
    assert(lang_table()[3].code@[0] != lang_table()[9].code@[0]);
    assert(lang_table()[3].code@[0] != lang_table()[10].code@[0]);
    assert(lang_table()[3].code@[0] != lang_table()[11].code@[0]);
    assert(lang_table()[4].code@[0] != lang_table()[5].code@[0]);
    assert(lang_table()[4].code@[0] != lang_table()[6].code@[0]);
    assert(lang_table()[4].code@[0] != lang_table()[7].code@[0]);
    assert(lang_table()[4].code@[0] != lang_table()[8].code@[0]);
    assert(lang_table()[4].code@[0] != lang_table()[9].code@[0]);
    assert(lang_table()[4].code@[0] != lang_table()[10].code@[0]);
    assert(lang_table()[4].code@[0] != lang_table()[11].code@[0]);
    assert(lang_table()[5].code@[0] != lang_table()[6].code@[0]);
    assert(lang_table()[5].code@[0] != lang_table()[7].code@[0]);
    assert(lang_table()[5].code@[0] != lang_table()[8].code@[0]);
    assert(lang_table()[5].code@[0] != lang_table()[9].code@[0]);
    assert(lang_table()[5].code@[0] != lang_table()[10].code@[0]);
    assert(lang_table()[5].code@[0] != lang_table()[11].code@[0]);
    assert(lang_table()[6].code@[0] != lang_table()[7].code@[0]);
    assert(lang_table()[6].code@[0] != lang_table()[8].code@[0]);
    assert(lang_table()[6].code@[0] != lang_table()[9].code@[0]);
    assert(lang_table()[6].code@[0] != lang_table()[10].code@[0]);
    assert(lang_table()[6].code@[0] != lang_table()[11].code@[0]);
    assert(lang_table()[7].code@[0] != lang_table()[8].code@[0]);
    assert(lang_table()[7].code@[0] != lang_table()[9].code@[0]);
    assert(lang_table()[7].code@[0] != lang_table()[10].code@[0]);
    assert(lang_table()[7].code@[0] != lang_table()[11].code@[0]);
    assert(lang_table()[8].code@[0] != lang_table()[9].code@[0]);
    assert(lang_table()[8].code@[0] != lang_table()[10].code@[0]);
    assert(lang_table()[8].code@[0] != lang_table()[11].code@[0]);
    assert(lang_table()[9].code@[0] != lang_table()[10].code@[0]);
    assert(lang_table()[9].code@[0] != lang_table()[11].code@[0]);
    assert(lang_table()[10].code@[0] != lang_table()[11].code@[0]);
}

/// Looking up the code of any language of the table finds that language.
pub proof fn law_find_own_code(i: int)
    requires
        0 <= i < lang_table().len(),
    ensures
        lang_with_code(lang_table()[i].code@) == Some(lang_table()[i]),
{
    lemma_codes_distinct();
    let code = lang_table()[i].code@;
    assert(0 <= i < lang_table().len() && (#[trigger] lang_table()[i]).code@ == code);
    let k = choose|k: int|
        0 <= k < lang_table().len() && (#[trigger] lang_table()[k]).code@ == code && forall|j: int|
            0 <= j < k ==> (#[trigger] lang_table()[j]).code@ != code;
    if k != i {
        if k < i {
            assert(lang_table()[k].code@ != lang_table()[i].code@);
        } else {
            assert(lang_table()[i].code@ != lang_table()[k].code@);
        }
    }
}

/// Han ideographs: CJK unified ideographs and their extensions, compatibility ideographs.
pub open spec fn han(c: char) -> bool {
    let u = c as u32;
    ||| 0x3400 <= u <= 0x4DBF
    ||| 0x4E00 <= u <= 0x9FFF
    ||| 0xF900 <= u <= 0xFAFF
    ||| 0x20000 <= u <= 0x2FA1F
}

/// Japanese kana (hiragana and katakana).
pub open spec fn kana(c: char) -> bool {
    0x3040 <= (c as u32) <= 0x30FF
}

/// The text holds at least one Han character.
pub open spec fn has_han(s: Seq<char>) -> bool {
    exists|i: int| 0 <= i < s.len() && han(#[trigger] s[i])
}

/// The text holds at least one kana character.
pub open spec fn has_kana(s: Seq<char>) -> bool {
    exists|i: int| 0 <= i < s.len() && kana(#[trigger] s[i])
}

/// A text counts as Chinese when it holds a Han character and no kana
/// (Japanese also uses Han characters, and kana tell it apart).
pub open spec fn chinese(s: Seq<char>) -> bool {
    has_han(s) && !has_kana(s)
}

fn is_han(c: char) -> (r: bool)
    ensures
        r == han(c),
{
    let u = c as u32;
    (0x3400 <= u && u <= 0x4DBF) || (0x4E00 <= u && u <= 0x9FFF) || (0xF900 <= u && u <= 0xFAFF)
        || (0x20000 <= u && u <= 0x2FA1F)
}

fn is_kana(c: char) -> (r: bool)
    ensures
        r == kana(c),
{
    let u = c as u32;
    0x3040 <= u && u <= 0x30FF
}

proof fn lemma_push_han(s: Seq<char>, c: char)
    ensures
        has_han(s.push(c)) == (has_han(s) || han(c)),
{
    let t = s.push(c);
    assert(t[s.len() as int] == c);
    if has_han(s) {
        let w = choose|w: int| 0 <= w < s.len() && han(#[trigger] s[w]);
        assert(t[w] == s[w]);
    }
    if has_han(t) {
        let w = choose|w: int| 0 <= w < t.len() && han(#[trigger] t[w]);
        if w < s.len() {
            assert(t[w] == s[w]);
        }
    }
}

proof fn lemma_push_kana(s: Seq<char>, c: char)
    ensures
        has_kana(s.push(c)) == (has_kana(s) || kana(c)),
{
    let t = s.push(c);
    assert(t[s.len() as int] == c);
    if has_kana(s) {
        let w = choose|w: int| 0 <= w < s.len() && kana(#[trigger] s[w]);
        assert(t[w] == s[w]);
    }
    if has_kana(t) {
        let w = choose|w: int| 0 <= w < t.len() && kana(#[trigger] t[w]);
        if w < s.len() {
            assert(t[w] == s[w]);
        }
    }
}

/// Whether the text is Chinese: some Han character and no kana.
pub fn is_chinese(text: &str) -> (r: bool)
    ensures
        r == chinese(text@),
{
    let v = crate::text::chars_of(text);
    let mut han_seen = false;
    let mut kana_seen = false;
    let mut i: usize = 0;
    while i < v.len() && !(han_seen && kana_seen)
        invariant
            v@ == text@,
            i <= v.len(),
            han_seen == has_han(v@.subrange(0, i as int)),
            kana_seen == has_kana(v@.subrange(0, i as int)),
            kana_seen ==> has_kana(text@),
        decreases v.len() - i,
    {
        let c = v[i];
        let ghost before = v@.subrange(0, i as int);
        let ghost after = v@.subrange(0, i + 1);
        assert(after =~= before.push(c));
        if is_han(c) {
            han_seen = true;
        } else if is_kana(c) {
            kana_seen = true;
        }
        proof {
            lemma_push_han(before, c);
            lemma_push_kana(before, c);
            if kana(c) {
                assert(text@[i as int] == c);
            }
        }
        i = i + 1;
    }
    if i == v.len() {
        assert(v@.subrange(0, i as int) =~= text@);
    }
    han_seen && !kana_seen
}

/// A translation request.
#[derive(Clone, Debug)]
pub struct TranslateRequest {
    pub text: String,
    pub from: String,
    pub to: String,
}

/// A successful translation.
#[derive(Clone, Debug)]
pub struct TranslateOut {
    pub text: String,
    /// The source language actually used: the one the upstream detected when `from` was `auto`.
    pub detected_from: String,
    pub engine: &'static str,
}

} // verus!
