//! Translation history: newest entries first, duplicates moved to the front,
//! bounded by a capacity.

use vstd::prelude::*;

use crate::text::{blank, dec_int, hex, i64_to_dec, is_blank, push_char, str_eq, u64_to_hex, unsigned_abs};

verus! {

/// One recorded translation.
#[derive(Clone, Debug)]
pub struct HistoryEntry {
    pub id: String,
    /// Time stamp in milliseconds since the Unix epoch.
    pub ts: i64,
    /// Local time for display.
    pub at: String,
    pub from: String,
    pub to: String,
    pub source: String,
    pub translation: String,
    pub engine: String,
}

/// Whether an entry records the same translation: the same source text and
/// the same translated text.
pub open spec fn same_translation(e: HistoryEntry, source: Seq<char>, translation: Seq<char>) -> bool {
    &&& e.source@ == source
    &&& e.translation@ == translation
}

/// No two entries record the same translation.
pub open spec fn no_repeats(s: Seq<HistoryEntry>) -> bool {
    forall|i: int, j: int|
        0 <= i < j < s.len() ==> !same_translation(#[trigger] s[i], (#[trigger] s[j]).source@, s[j].translation@)
}

/// The position of the first entry that records the same translation, if any.
pub open spec fn position_of(s: Seq<HistoryEntry>, source: Seq<char>, translation: Seq<char>) -> Option<int> {
    if exists|i: int| 0 <= i < s.len() && same_translation(#[trigger] s[i], source, translation) {
        Some(
            choose|i: int|
                0 <= i < s.len() && same_translation(#[trigger] s[i], source, translation)
                    && forall|j: int|
                    0 <= j < i ==> !same_translation(#[trigger] s[j], source, translation),
        )
    } else {
        None
    }
}

/// The entries that remain once those with the given id are dropped, in order.
pub open spec fn without_id(s: Seq<HistoryEntry>, id: Seq<char>) -> Seq<HistoryEntry>
    decreases s.len(),
{
    if s.len() == 0 {
        Seq::empty()
    } else if s[0].id@ == id {
        without_id(s.drop_first(), id)
    } else {
        seq![s[0]] + without_id(s.drop_first(), id)
    }
}

/// The id given to an entry created at `ts` when the history held `n` entries:
/// the decimal time stamp, a dash, and the hexadecimal of `|ts| xor n`.
pub open spec fn entry_id(ts: i64, n: usize) -> Seq<char> {
    let m: u64 = if ts < 0 { (-(ts as int)) as u64 } else { ts as u64 };
    dec_int(ts as int) + seq!['-'] + hex((m ^ (n as u64)) as nat)
}

/// The sequence cut to at most `n` elements (`Vec::truncate`).
pub open spec fn cut<A>(s: Seq<A>, n: nat) -> Seq<A> {
    if s.len() > n {
        s.take(n as int)
    } else {
        s
    }
}

/// The capacity that a requested one is clamped to.
pub open spec fn clamp_capacity(c: usize) -> usize {
    if c < 1 {
        1
    } else if c > 10_000 {
        10_000
    } else {
        c
    }
}

/// What recording a (non-blank) translation does to the entries: an entry
/// that records the same translation moves to the front; otherwise a new entry
/// with the given texts, languages and engine goes in front and the list is
/// cut to `cap` entries.
pub open spec fn recorded(
    before: Seq<HistoryEntry>,
    after: Seq<HistoryEntry>,
    cap: nat,
    source: Seq<char>,
    translation: Seq<char>,
    from: Seq<char>,
    to: Seq<char>,
    engine: Seq<char>,
) -> bool {
    match position_of(before, source, translation) {
        Some(p) => after == seq![before[p]] + before.take(p) + before.skip(p + 1),
        None => {
            let e = after[0];
            &&& after.len() == cut(before.push(e), cap).len()
            &&& after.drop_first() == before.take(after.len() - 1)
            &&& e.source@ == source && e.translation@ == translation
            &&& e.from@ == from && e.to@ == to && e.engine@ == engine
            &&& e.id@ == entry_id(e.ts, before.len() as usize)
        },
    }
}

/// What recording gives when followed by a flush: blank texts leave the
/// entries and the changed flag as they were; otherwise the translation is
/// recorded. `saved` is whether the entries must be written out, and the
/// history is no longer marked as changed.
pub open spec fn blank_pair_or_recorded(
    before: History,
    after: History,
    source: Seq<char>,
    translation: Seq<char>,
    from: Seq<char>,
    to: Seq<char>,
    engine: Seq<char>,
    saved: bool,
) -> bool {
    &&& after.cap() == before.cap()
    &&& !after.changed()
    &&& (blank(source) || blank(translation)) ==> after.items() == before.items() && saved == before.changed()
    &&& !(blank(source) || blank(translation)) ==> saved && recorded(
        before.items(),
        after.items(),
        before.cap(),
        source,
        translation,
        from,
        to,
        engine,
    )
}

/// Recording a translation never takes the history beyond its capacity.
pub proof fn law_recording_keeps_capacity(
    before: Seq<HistoryEntry>,
    after: Seq<HistoryEntry>,
    cap: nat,
    source: Seq<char>,
    translation: Seq<char>,
    from: Seq<char>,
    to: Seq<char>,
    engine: Seq<char>,
)
    requires
        1 <= cap,
        before.len() <= cap,
        recorded(before, after, cap, source, translation, from, to, engine),
    ensures
        after.len() <= cap,
{
    match position_of(before, source, translation) {
        Some(p) => {
            lemma_position_bounds(before, source, translation);
            assert(after.len() == before.len());
        },
        None => {},
    }
}

/// The position found for a translation lies within the entries and is the first match.
pub proof fn lemma_position_bounds(s: Seq<HistoryEntry>, source: Seq<char>, translation: Seq<char>)
    ensures
        position_of(s, source, translation) matches Some(p) ==> {
            &&& 0 <= p < s.len()
            &&& same_translation(s[p], source, translation)
            &&& forall|j: int| 0 <= j < p ==> !same_translation(#[trigger] s[j], source, translation)
        },
        position_of(s, source, translation) is None ==> forall|j: int|
            0 <= j < s.len() ==> !same_translation(#[trigger] s[j], source, translation),
{
    if exists|i: int| 0 <= i < s.len() && same_translation(#[trigger] s[i], source, translation) {
        let w = choose|i: int| 0 <= i < s.len() && same_translation(#[trigger] s[i], source, translation);
        lemma_first_match_exists(s, source, translation, w);
    }
}

proof fn lemma_first_match_exists(s: Seq<HistoryEntry>, source: Seq<char>, translation: Seq<char>, w: int)
    requires
        0 <= w < s.len(),
        same_translation(s[w], source, translation),
    ensures
        exists|i: int|
            0 <= i < s.len() && same_translation(#[trigger] s[i], source, translation)
                && forall|j: int|
                0 <= j < i ==> !same_translation(#[trigger] s[j], source, translation),
    decreases w,
{
    if exists|j: int| 0 <= j < w && same_translation(#[trigger] s[j], source, translation) {
        let v = choose|j: int| 0 <= j < w && same_translation(#[trigger] s[j], source, translation);
        lemma_first_match_exists(s, source, translation, v);
    }
}

/// After a translation is recorded, the newest entry is that translation.
pub proof fn law_recorded_translation_comes_first(
    before: Seq<HistoryEntry>,
    after: Seq<HistoryEntry>,
    cap: nat,
    source: Seq<char>,
    translation: Seq<char>,
    from: Seq<char>,
    to: Seq<char>,
    engine: Seq<char>,
)
    requires
        1 <= cap,
        recorded(before, after, cap, source, translation, from, to, engine),
    ensures
        after.len() >= 1,
        same_translation(after[0], source, translation),
        after[0].source@ == source,
        after[0].translation@ == translation,
{
    lemma_position_bounds(before, source, translation);
}

/// A translation whose source text and translated text are not both already
/// in the history is recorded as a new entry in front, with the given
/// languages and engine; the entries before it follow in order, and only the
/// oldest beyond the capacity are dropped.
pub proof fn law_new_translation_goes_in_front(
    before: Seq<HistoryEntry>,
    after: Seq<HistoryEntry>,
    cap: nat,
    source: Seq<char>,
    translation: Seq<char>,
    from: Seq<char>,
    to: Seq<char>,
    engine: Seq<char>,
)
    requires
        1 <= cap,
        before.len() <= cap,
        recorded(before, after, cap, source, translation, from, to, engine),
        forall|i: int|
            0 <= i < before.len() ==> !((#[trigger] before[i]).source@ == source && before[i].translation@
                == translation),
    ensures
        after.len() == if before.len() < cap { before.len() + 1 } else { cap },
        after[0].source@ == source,
        after[0].translation@ == translation,
        after[0].from@ == from,
        after[0].to@ == to,
        after[0].engine@ == engine,
        forall|i: int| 1 <= i < after.len() ==> #[trigger] after[i] == before[i - 1],
{
    lemma_position_bounds(before, source, translation);
    match position_of(before, source, translation) {
        Some(p) => {
            assert(before[p].source@ == source && before[p].translation@ == translation);
        },
        None => {
            assert forall|i: int| 1 <= i < after.len() implies #[trigger] after[i] == before[i - 1] by {
                assert(after[i] == after.drop_first()[i - 1]);
            }
        },
    }
}

/// Recording a translation that is already in the history only moves it to
/// the front: the number of entries stays the same.
pub proof fn law_repeat_keeps_length(
    before: Seq<HistoryEntry>,
    after: Seq<HistoryEntry>,
    cap: nat,
    source: Seq<char>,
    translation: Seq<char>,
    from: Seq<char>,
    to: Seq<char>,
    engine: Seq<char>,
)
    requires
        recorded(before, after, cap, source, translation, from, to, engine),
        exists|i: int| 0 <= i < before.len() && same_translation(#[trigger] before[i], source, translation),
    ensures
        after.len() == before.len(),
        after.to_multiset() == before.to_multiset(),
{
    lemma_position_bounds(before, source, translation);
    let p = position_of(before, source, translation)->0;
    assert(before =~= before.take(p) + seq![before[p]] + before.skip(p + 1));
    vstd::seq_lib::lemma_multiset_commutative(before.take(p), seq![before[p]]);
    vstd::seq_lib::lemma_multiset_commutative(before.take(p) + seq![before[p]], before.skip(p + 1));
    vstd::seq_lib::lemma_multiset_commutative(seq![before[p]] + before.take(p), before.skip(p + 1));
    vstd::seq_lib::lemma_multiset_commutative(seq![before[p]], before.take(p));
}

/// Recording keeps the history free of repeated translations.
pub proof fn law_recording_keeps_no_repeats(
    before: Seq<HistoryEntry>,
    after: Seq<HistoryEntry>,
    cap: nat,
    source: Seq<char>,
    translation: Seq<char>,
    from: Seq<char>,
    to: Seq<char>,
    engine: Seq<char>,
)
    requires
        1 <= cap,
        no_repeats(before),
        recorded(before, after, cap, source, translation, from, to, engine),
    ensures
        no_repeats(after),
{
    lemma_position_bounds(before, source, translation);
    match position_of(before, source, translation) {
        Some(p) => {
            // after = [b_p] + b_0..b_{p-1} + b_{p+1}..
            let f = |k: int| if k == 0 { p } else if k <= p { k - 1 } else { k };
            assert forall|i: int, j: int| 0 <= i < j < after.len() implies !same_translation(#[trigger] after[i], (#[trigger] after[j]).source@, after[j].translation@) by {
                assert(after[i] == before[f(i)]);
                assert(after[j] == before[f(j)]);
                assert(f(i) != f(j));
                if f(i) < f(j) {
                    assert(!same_translation(before[f(i)], before[f(j)].source@, before[f(j)].translation@));
                } else {
                    assert(!same_translation(before[f(j)], before[f(i)].source@, before[f(i)].translation@));
                }
            }
        },
        None => {
            assert forall|i: int, j: int| 0 <= i < j < after.len() implies !same_translation(#[trigger] after[i], (#[trigger] after[j]).source@, after[j].translation@) by {
                assert(after[j] == after.drop_first()[j - 1]);
                assert(after[j] == before[j - 1]);
                if i == 0 {
                    assert(!same_translation(before[j - 1], source, translation));
                } else {
                    assert(after[i] == after.drop_first()[i - 1]);
                    assert(after[i] == before[i - 1]);
                }
            }
        },
    }
}

/// Removing by id leaves no entry with that id, keeps the others in order,
/// and never adds entries.
pub proof fn law_removed_id_is_gone(s: Seq<HistoryEntry>, id: Seq<char>)
    ensures
        forall|i: int| 0 <= i < without_id(s, id).len() ==> (#[trigger] without_id(s, id)[i]).id@ != id,
        without_id(s, id).len() <= s.len(),
        forall|i: int| 0 <= i < s.len() && s[i].id@ != id ==> without_id(s, id).contains(#[trigger] s[i]),
        forall|e: HistoryEntry| without_id(s, id).contains(e) ==> s.contains(e),
    decreases s.len(),
{
    if s.len() > 0 {
        let t = s.drop_first();
        law_removed_id_is_gone(t, id);
        assert forall|i: int| 0 <= i < s.len() && s[i].id@ != id implies without_id(s, id).contains(#[trigger] s[i]) by {
            if i == 0 {
                assert(without_id(s, id)[0] == s[0]);
            } else {
                assert(s[i] == t[i - 1]);
                let w = choose|k: int| 0 <= k < without_id(t, id).len() && without_id(t, id)[k] == t[i - 1];
                if s[0].id@ != id {
                    assert(without_id(s, id)[w + 1] == t[i - 1]);
                }
            }
        }
        assert forall|e: HistoryEntry| without_id(s, id).contains(e) implies s.contains(e) by {
            let k = choose|k: int| 0 <= k < without_id(s, id).len() && without_id(s, id)[k] == e;
            if s[0].id@ != id && k == 0 {
                assert(s[0] == e);
            } else if s[0].id@ != id {
                assert(without_id(t, id)[k - 1] == e);
                assert(without_id(t, id).contains(e));
                assert(t.contains(e));
                let m = choose|m: int| 0 <= m < t.len() && t[m] == e;
                assert(s[m + 1] == e);
            } else {
                assert(without_id(t, id)[k] == e);
                assert(without_id(t, id).contains(e));
                assert(t.contains(e));
                let m = choose|m: int| 0 <= m < t.len() && t[m] == e;
                assert(s[m + 1] == e);
            }
        }
    }
}

/// Removing by id keeps exactly the entries whose id differs, in the order
/// they had: the result is the history filtered on the id.
pub proof fn law_removal_keeps_order(s: Seq<HistoryEntry>, id: Seq<char>)
    ensures
        without_id(s, id) == s.filter(|e: HistoryEntry| e.id@ != id),
    decreases s.len(),
{
    if s.len() > 0 {
        let t = s.drop_first();
        law_removal_keeps_order(t, id);
        assert(s =~= seq![s[0]] + t);
        t.lemma_filter_prepend(s[0], |e: HistoryEntry| e.id@ != id);
        if s[0].id@ != id {
            assert(without_id(s, id) =~= seq![s[0]] + t.filter(|e: HistoryEntry| e.id@ != id));
        } else {
            assert(without_id(s, id) =~= Seq::<HistoryEntry>::empty() + t.filter(|e: HistoryEntry| e.id@ != id));
        }
    } else {
        assert(s.filter(|e: HistoryEntry| e.id@ != id) =~= Seq::<HistoryEntry>::empty());
    }
}

/// Cutting to a capacity leaves at most that many entries, the first ones.
pub proof fn law_cut_fits<A>(s: Seq<A>, n: nat)
    ensures
        cut(s, n).len() <= n,
        cut(s, n).len() <= s.len(),
        forall|i: int| 0 <= i < cut(s, n).len() ==> cut(s, n)[i] == s[i],
{
}

/// Loading the entries a history holds, with its capacity, gives the same
/// entries back: a history that was written out reads back unchanged.
pub proof fn law_reload_keeps_entries(s: Seq<HistoryEntry>, cap: nat)
    requires
        s.len() <= cap,
    ensures
        cut(s, cap) == s,
{
}

/// Removing by id keeps the history free of repeated translations.
pub proof fn law_removal_keeps_no_repeats(s: Seq<HistoryEntry>, id: Seq<char>)
    requires
        no_repeats(s),
    ensures
        no_repeats(without_id(s, id)),
    decreases s.len(),
{
    if s.len() > 0 {
        let t = s.drop_first();
        assert(no_repeats(t)) by {
            assert forall|i: int, j: int| 0 <= i < j < t.len() implies !same_translation(#[trigger] t[i], (#[trigger] t[j]).source@, t[j].translation@) by {
                assert(t[i] == s[i + 1] && t[j] == s[j + 1]);
            }
        }
        law_removal_keeps_no_repeats(t, id);
        law_removed_id_is_gone(t, id);
        if s[0].id@ != id {
            let w = without_id(s, id);
            let u = without_id(t, id);
            assert(w == seq![s[0]] + u);
            assert forall|i: int, j: int| 0 <= i < j < w.len() implies !same_translation(#[trigger] w[i], (#[trigger] w[j]).source@, w[j].translation@) by {
                if i == 0 {
                    assert(w[j] == u[j - 1]);
                    assert(u.contains(u[j - 1]));
                    assert(t.contains(u[j - 1]));
                    let m = choose|m: int| 0 <= m < t.len() && t[m] == u[j - 1];
                    assert(s[m + 1] == w[j]);
                    assert(!same_translation(s[0], s[m + 1].source@, s[m + 1].translation@));
                } else {
                    assert(w[i] == u[i - 1] && w[j] == u[j - 1]);
                }
            }
        }
    }
}

#[verifier::external_type_specification]
#[verifier::external_body]
pub struct ExSystemTime(std::time::SystemTime);

/// The system clock's current time (`SystemTime::now`). Nothing is stated of
/// it: it is whatever the clock reads.
#[verifier::external_body]
fn system_now() -> std::time::SystemTime {
    std::time::SystemTime::now()
}

/// How long after the Unix epoch a time is (`SystemTime::duration_since`
/// with `UNIX_EPOCH`); `None` when it is before the epoch. A time is opaque
/// here, so which of the two comes back is not stated.
#[verifier::external_body]
fn since_epoch(t: &std::time::SystemTime) -> Option<std::time::Duration> {
    match t.duration_since(std::time::UNIX_EPOCH) {
        Ok(d) => Some(d),
        Err(_) => None,
    }
}

/// The whole milliseconds of a duration (`Duration::as_millis`). A duration is
/// opaque here, so the number is not stated.
#[verifier::external_body]
fn whole_millis(d: &std::time::Duration) -> u128 {
    d.as_millis()
}

/// The local time of the instant `ms` milliseconds after the Unix epoch, to
/// the minute, as chrono formats `%Y-%m-%d %H:%M`
/// (`Local.timestamp_millis_opt(ms)`, then `format(..).to_string()`); `None`
/// when chrono cannot place the instant (outside its range of dates).
/// Nothing more is stated of the text: it depends on the time zone. chrono
/// panics here only on time-zone data that gives an offset of a day or more.
#[verifier::external_body]
fn local_minute_of(ms: i64) -> Option<String> {
    chrono::TimeZone::timestamp_millis_opt(&chrono::Local, ms)
        .single()
        .map(|t| t.format("%Y-%m-%d %H:%M").to_string())
}

/// The time stamp recorded for a clock reading: the milliseconds since the
/// epoch as an `i64` (cut to 64 bits, as `as` does), or 0 when the clock is
/// set before the epoch (`None`).
pub fn stamp_of_millis(since_epoch_ms: Option<u128>) -> (r: i64)
    ensures
        r == match since_epoch_ms {
            Some(m) => m as i64,
            None => 0i64,
        },
{
    match since_epoch_ms {
        Some(m) => #[verifier::truncate] (m as i64),
        None => 0,
    }
}

/// The time stamp and display time of an entry made now: the stamp as
/// [`stamp_of_millis`] gives it, and the local time of that instant; when the
/// clock is set before the epoch, or the instant cannot be placed, the
/// display time is empty.
fn clock_reading() -> (String, i64) {
    let now = system_now();
    let since = match since_epoch(&now) {
        Some(d) => Some(whole_millis(&d)),
        None => None,
    };
    let ts = stamp_of_millis(since);
    let at = match since {
        Some(_) => match local_minute_of(ts) {
            Some(t) => t,
            None => String::new(),
        },
        None => String::new(),
    };
    (at, ts)
}

/// The entries with the one at `pos` moved to the front.
fn moved_to_front(entries: Vec<HistoryEntry>, pos: usize) -> (r: Vec<HistoryEntry>)
    requires
        pos < entries.len(),
    ensures
        r@ == seq![entries@[pos as int]] + entries@.take(pos as int) + entries@.skip(pos + 1),
{
    let ghost before = entries@;
    let mut entries = entries;
    let entry = entries.remove(pos);
    entries.insert(0, entry);
    assert(entries@ =~= seq![before[pos as int]] + before.take(pos as int) + before.skip(pos + 1));
    entries
}

/// The entries with `e` put in front, cut to `cap`.
fn pushed_front(entries: Vec<HistoryEntry>, e: HistoryEntry, cap: usize) -> (r: Vec<HistoryEntry>)
    requires
        1 <= cap,
        entries.len() <= cap,
    ensures
        r@.len() == cut(entries@.push(e), cap as nat).len(),
        r@.len() <= cap,
        r@[0] == e,
        r@.drop_first() == entries@.take(r@.len() - 1),
{
    let ghost before = entries@;
    let mut entries = entries;
    entries.insert(0, e);
    entries.truncate(cap);
    assert(entries@.drop_first() =~= before.take(entries@.len() - 1));
    entries
}

/// A history of translations, newest first.
pub struct History {
    entries: Vec<HistoryEntry>,
    capacity: usize,
    dirty: bool,
}

impl History {
    /// How many entries the history keeps at most.
    pub closed spec fn cap(&self) -> nat {
        self.capacity as nat
    }

    /// The entries, newest first.
    pub closed spec fn items(&self) -> Seq<HistoryEntry> {
        self.entries@
    }

    /// Whether the history changed since it was last flushed.
    pub closed spec fn changed(&self) -> bool {
        self.dirty
    }

    /// A history keeps at least one entry's room, and never more entries than its capacity.
    #[verifier::type_invariant]
    closed spec fn well_formed(self) -> bool {
        1 <= self.capacity && self.entries@.len() <= self.capacity
    }

    /// A history made of the entries read from storage, cut to `capacity`
    /// (a capacity of 0 keeps one entry from then on).
    pub fn load(entries: Vec<HistoryEntry>, capacity: usize) -> (r: Self)
        ensures
            1 <= r.cap(),
            r.items().len() <= r.cap(),
            r.items() == cut(entries@, capacity as nat),
            r.cap() == if capacity < 1 { 1 } else { capacity as nat },
            !r.changed(),
    {
        let mut entries = entries;
        entries.truncate(capacity);
        History { entries, capacity: if capacity < 1 { 1 } else { capacity }, dirty: false }
    }

    /// An empty history that touches no storage.
    pub fn fresh(capacity: usize) -> (r: Self)
        ensures
            1 <= r.cap(),
            r.items().len() <= r.cap(),
            r.items().len() == 0,
            r.cap() == if capacity < 1 { 1 } else { capacity as nat },
            !r.changed(),
    {
        History { entries: Vec::new(), capacity: if capacity < 1 { 1 } else { capacity }, dirty: false }
    }

    /// The entries, newest first.
    pub fn entries(&self) -> (r: &Vec<HistoryEntry>)
        ensures
            r@ == self.items(),
    {
        &self.entries
    }

    /// The capacity.
    pub fn capacity(&self) -> (r: usize)
        ensures
            r == self.cap(),
    {
        self.capacity
    }

    /// The number of entries.
    pub fn len(&self) -> (r: usize)
        ensures
            r == self.items().len(),
    {
        self.entries.len()
    }

    /// Whether the history changed since it was last flushed.
    pub fn is_dirty(&self) -> (r: bool)
        ensures
            r == self.changed(),
    {
        self.dirty
    }

    /// Takes the entries out, leaving none.
    fn take_entries(&mut self) -> (r: Vec<HistoryEntry>)
        ensures
            r@ == old(self).items(),
            final(self).items().len() == 0,
            final(self).cap() == old(self).cap(),
            final(self).changed() == old(self).changed(),
    {
        proof {
            use_type_invariant(&*self);
        }
        let mut out: Vec<HistoryEntry> = Vec::new();
        std::mem::swap(&mut out, &mut self.entries);
        out
    }

    /// Sets the capacity, clamped to 1..=10000, and drops the entries beyond it.
    pub fn set_capacity(&mut self, capacity: usize)
        ensures
            1 <= final(self).cap(),
            final(self).items().len() <= final(self).cap(),
            final(self).cap() == clamp_capacity(capacity),
            old(self).cap() == clamp_capacity(capacity) ==> *final(self) == *old(self),
            old(self).cap() != clamp_capacity(capacity) ==> {
                &&& final(self).items() == cut(old(self).items(), clamp_capacity(capacity) as nat)
                &&& final(self).changed()
            },
    {
        proof {
            use_type_invariant(&*self);
        }
        let capacity = if capacity < 1 {
            1
        } else if capacity > 10_000 {
            10_000
        } else {
            capacity
        };
        if self.capacity == capacity {
            return ;
        }
        let mut entries = self.take_entries();
        entries.truncate(capacity);
        self.capacity = capacity;
        self.entries = entries;
        self.dirty = true;
    }

    /// The position of the first entry that records the same translation.
    fn find_same(&self, source: &String, translation: &String) -> (r: Option<usize>)
        ensures
            match r {
                Some(p) => p < self.items().len() && position_of(self.items(), source@, translation@) == Some(
                    p as int,
                ),
                None => position_of(self.items(), source@, translation@) is None,
            },
    {
        let mut i: usize = 0;
        while i < self.entries.len()
            invariant
                i <= self.entries.len(),
                forall|j: int|
                    0 <= j < i ==> !same_translation(#[trigger] self.entries@[j], source@, translation@),
            decreases self.entries.len() - i,
        {
            let e = &self.entries[i];
            if e.source == *source && e.translation == *translation {
                assert(same_translation(self.entries@[i as int], source@, translation@));
                return Some(i);
            }
            i = i + 1;
        }
        None
    }

    /// Records a translation made at `ts` (milliseconds) and shown as `at`.
    ///
    /// Blank source or translation texts are ignored. A translation already
    /// recorded (the same source text and translated text) moves to the front
    /// as it was; a new one is inserted at the front and the oldest entries
    /// beyond the capacity are dropped.
    pub fn add_at(
        &mut self,
        source: String,
        translation: String,
        from: String,
        to: String,
        engine: String,
        ts: i64,
        at: String,
    )
        ensures
            1 <= final(self).cap(),
            final(self).items().len() <= final(self).cap(),
            final(self).cap() == old(self).cap(),
            blank(source@) || blank(translation@) ==> *final(self) == *old(self),
            !blank(source@) && !blank(translation@) ==> final(self).changed(),
            !blank(source@) && !blank(translation@) ==> recorded(
                old(self).items(),
                final(self).items(),
                old(self).cap(),
                source@,
                translation@,
                from@,
                to@,
                engine@,
            ),
            !blank(source@) && !blank(translation@) && position_of(old(self).items(), source@, translation@) is None ==> {
                &&& final(self).items()[0].ts == ts
                &&& final(self).items()[0].at == at
            },
    {
        proof {
            use_type_invariant(&*self);
        }
        if is_blank(source.as_str()) || is_blank(translation.as_str()) {
            return ;
        }
        let found = self.find_same(&source, &translation);
        let n = self.entries.len();
        let cap = self.capacity;
        let entries = self.take_entries();
        let entries = match found {
            Some(pos) => moved_to_front(entries, pos),
            None => {
                let id = Self::make_id(ts, n);
                let entry = HistoryEntry { id, ts, at, from, to, source, translation, engine };
                pushed_front(entries, entry, cap)
            },
        };
        self.entries = entries;
        self.dirty = true;
    }

    /// The id of an entry created at `ts` when the history holds `n` entries.
    fn make_id(ts: i64, n: usize) -> (r: String)
        ensures
            r@ == entry_id(ts, n),
    {
        let mut id = i64_to_dec(ts);
        push_char(&mut id, '-');
        let m = unsigned_abs(ts);
        let x = m ^ (n as u64);
        let h = u64_to_hex(x);
        id.append(h.as_str());
        id
    }

    /// Records a translation made now; see [`History::add_at`], which this
    /// calls with the current time stamp and local time (an empty display time
    /// when the clock is set before the epoch, whose stamp is 0).
    pub fn add(&mut self, source: String, translation: String, from: String, to: String, engine: String)
        ensures
            1 <= final(self).cap(),
            final(self).items().len() <= final(self).cap(),
            final(self).cap() == old(self).cap(),
            blank(source@) || blank(translation@) ==> *final(self) == *old(self),
            !blank(source@) && !blank(translation@) ==> final(self).changed(),
            !blank(source@) && !blank(translation@) ==> recorded(
                old(self).items(),
                final(self).items(),
                old(self).cap(),
                source@,
                translation@,
                from@,
                to@,
                engine@,
            ),
    {
        let (at, ts) = clock_reading();
        self.add_at(source, translation, from, to, engine, ts, at);
    }

    /// Drops every entry with the given id; the history counts as changed only if one was dropped.
    pub fn remove(&mut self, id: &str)
        ensures
            1 <= final(self).cap(),
            final(self).items().len() <= final(self).cap(),
            final(self).items() == without_id(old(self).items(), id@),
            final(self).cap() == old(self).cap(),
            final(self).changed() == (old(self).changed() || final(self).items().len()
                != old(self).items().len()),
    {
        proof {
            use_type_invariant(&*self);
        }
        let ghost old_entries = self.entries@;
        let mut entries = self.take_entries();
        let before = entries.len();
        let mut i: usize = before;
        while i > 0
            invariant
                i <= old_entries.len(),
                before == old_entries.len(),
                entries@ == old_entries.take(i as int) + without_id(old_entries.skip(i as int), id@),
            decreases i,
        {
            let k = i - 1;
            assert(old_entries.skip(k as int).drop_first() =~= old_entries.skip(i as int));
            assert(old_entries.skip(k as int)[0] == old_entries[k as int]);
            assert(entries@[k as int] == old_entries[k as int]);
            if str_eq(entries[k].id.as_str(), id) {
                entries.remove(k);
                assert(entries@ =~= old_entries.take(k as int) + without_id(old_entries.skip(k as int), id@));
            } else {
                assert(entries@ =~= old_entries.take(k as int) + without_id(old_entries.skip(k as int), id@));
            }
            i = k;
        }
        assert(old_entries.skip(0) =~= old_entries);
        assert(old_entries.take(0) =~= Seq::<HistoryEntry>::empty());
        assert(entries@ =~= without_id(old_entries, id@));
        proof {
            law_removed_id_is_gone(old_entries, id@);
        }
        let changed = entries.len() != before;
        self.entries = entries;
        self.dirty = self.dirty || changed;
    }

    /// Drops all entries; the history counts as changed only if it held any.
    pub fn clear(&mut self)
        ensures
            1 <= final(self).cap(),
            final(self).items().len() <= final(self).cap(),
            final(self).items().len() == 0,
            final(self).cap() == old(self).cap(),
            final(self).changed() == (old(self).changed() || old(self).items().len() > 0),
    {
        proof {
            use_type_invariant(&*self);
        }
        if !self.entries.is_empty() {
            self.entries = Vec::new();
            self.dirty = true;
        }
    }

    /// Marks the history as saved. Returns whether it had changed, that is,
    /// whether its entries must be written to storage now.
    pub fn flush(&mut self) -> (must_save: bool)
        ensures
            1 <= final(self).cap(),
            final(self).items().len() <= final(self).cap(),
            must_save == old(self).changed(),
            !final(self).changed(),
            final(self).items() == old(self).items(),
            final(self).cap() == old(self).cap(),
    {
        proof {
            use_type_invariant(&*self);
        }
        let must_save = self.dirty;
        self.dirty = false;
        must_save
    }
}

} // verus!
