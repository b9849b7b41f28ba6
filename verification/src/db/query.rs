//! The query engine: query modes, the decoding of values, and scans that
//! count and page the matching entries of a space.

use vstd::prelude::*;
pub use crate::db::parser::parse_query;
use vstd::slice::slice_to_vec;
use crate::db::env::{entries_view, strictly_ascending, window, EntryView};
use crate::db::order::{
    key_before, key_bytes, key_has_prefix, key_le, key_lt, key_starts_with,
    lemma_lex_lt_asymmetric, lemma_lex_lt_transitive, lemma_prefixed_sorts_before_passed,
};
use crate::errors::AppError;
use crate::plugins::{decode_with_plugins, first_decoded, Decoder, DecoderRegistry};
use crate::trusted::{
    json_decode, json_decoding, jsonpath_count, jsonpath_selection, msgpack_decode,
    msgpack_decoding, regex_accepts, regex_is_match,
};

verus! {

/// What the decoders make of `bytes`: the result of the first that accepts
/// them, JSON text before MessagePack and both before the registered
/// decoders, which are asked in the order of their registration.
pub open spec fn decoding<D: Decoder>(decoders: Seq<D>, bytes: Seq<u8>) -> Option<
    serde_json::Value,
> {
    if json_decoding(bytes) is Some {
        json_decoding(bytes)
    } else if msgpack_decoding(bytes) is Some {
        msgpack_decoding(bytes)
    } else {
        first_decoded(decoders, bytes)
    }
}

/// Decodes raw bytes into a structured value: as JSON text, else as
/// MessagePack, else with the registered decoders in order. The first
/// success wins; where every decoder declines the value is `Undecodable`.
pub fn decode_value<D: Decoder>(bytes: &[u8], plugins: &DecoderRegistry<D>) -> (r: Result<
    serde_json::Value,
    AppError,
>)
    requires
        plugins.wf(),
    ensures
        match decoding(plugins@, bytes@) {
            Some(v) => r == Ok::<serde_json::Value, AppError>(v),
            None => r == Err::<serde_json::Value, AppError>(AppError::Undecodable),
        },
{
    if let Some(v) = json_decode(bytes) {
        return Ok(v);
    }
    if let Some(v) = msgpack_decode(bytes) {
        return Ok(v);
    }
    if let Some(v) = decode_with_plugins(plugins, bytes) {
        return Ok(v);
    }
    Err(AppError::Undecodable)
}

/// A parsed query: which entries of a space it asks for.
#[derive(Clone)]
pub enum Mode<'a> {
    /// The entries whose key starts with the text.
    Prefix(&'a str),
    /// The entries whose key lies in the half-open range from the first text
    /// up to, and without, the second.
    Range(&'a str, &'a str),
    /// The entries in whose key the expression finds a match.
    Regex(regex::Regex),
    /// The entries in whose decoded value the path selects at least one
    /// node.
    JsonPath(&'a str),
}

/// A query mode as a mathematical value.
pub enum ModeView {
    Prefix(Seq<char>),
    Range(Seq<char>, Seq<char>),
    Regex(regex::Regex),
    JsonPath(Seq<char>),
}

impl<'a> View for Mode<'a> {
    type V = ModeView;

    open spec fn view(&self) -> ModeView {
        match self {
            Mode::Prefix(p) => ModeView::Prefix(p@),
            Mode::Range(lo, hi) => ModeView::Range(lo@, hi@),
            Mode::Regex(re) => ModeView::Regex(*re),
            Mode::JsonPath(path) => ModeView::JsonPath(path@),
        }
    }
}

impl<'a> Mode<'a> {
    /// A copy of this mode: the same query.
    pub fn duplicate(&self) -> (r: Mode<'a>)
        ensures
            r@ == self@,
    {
        match self {
            Mode::Prefix(p) => Mode::Prefix(p),
            Mode::Range(lo, hi) => Mode::Range(lo, hi),
            Mode::Regex(re) => Mode::Regex(re.clone()),
            Mode::JsonPath(path) => Mode::JsonPath(path),
        }
    }
}

/// Whether `path` selects a node in what the decoders make of `bytes`. A
/// value that no decoder accepts, and a path that is rejected, match nothing.
pub open spec fn path_selects<D: Decoder>(decoders: Seq<D>, bytes: Seq<u8>, path: Seq<char>)
    -> bool {
    match decoding(decoders, bytes) {
        Some(v) => match jsonpath_selection(v, path) {
            Some(Some(n)) => n > 0,
            _ => false,
        },
        None => false,
    }
}

/// The path evaluator answers for `path` on what the decoders make of
/// `bytes`. It aborts on expressions that it does not implement; a scan by
/// path is defined on the values for which it answers.
pub open spec fn path_answers<D: Decoder>(decoders: Seq<D>, bytes: Seq<u8>, path: Seq<char>)
    -> bool {
    match decoding(decoders, bytes) {
        Some(v) => jsonpath_selection(v, path) is Some,
        None => true,
    }
}

/// A scan in `mode` can look at `entry`: always, but for a scan by path,
/// which needs the evaluator's answer on the entry's value.
pub open spec fn mode_answers<D: Decoder>(mode: ModeView, decoders: Seq<D>, entry: EntryView)
    -> bool {
    match mode {
        ModeView::JsonPath(path) => path_answers(decoders, entry.1, path),
        _ => true,
    }
}

/// A scan in `mode` can look at each of `entries`.
pub open spec fn mode_answers_all<D: Decoder>(
    mode: ModeView,
    decoders: Seq<D>,
    entries: Seq<EntryView>,
) -> bool {
    forall|i: int| 0 <= i < entries.len() ==> mode_answers(mode, decoders, #[trigger] entries[i])
}

/// Whether `entry` matches `mode`.
pub open spec fn entry_selected<D: Decoder>(mode: ModeView, decoders: Seq<D>, entry: EntryView)
    -> bool {
    match mode {
        ModeView::Prefix(p) => key_has_prefix(entry.0, p),
        ModeView::Range(lo, hi) => key_le(lo, entry.0) && key_lt(entry.0, hi),
        ModeView::Regex(re) => regex_accepts(re, entry.0),
        ModeView::JsonPath(path) => path_selects(decoders, entry.1, path),
    }
}

/// Whether the key of `entry` lies behind everything that `mode` can match
/// in a space, so that a scan ends on seeing it: behind every key that
/// starts with the prefix, or at or behind the upper end of the range.
/// Scans by expression or by path end nowhere.
pub open spec fn ends_scan(mode: ModeView, entry: EntryView) -> bool {
    match mode {
        ModeView::Prefix(p) => !key_has_prefix(entry.0, p) && key_lt(p, entry.0),
        ModeView::Range(lo, hi) => !key_lt(entry.0, hi),
        _ => false,
    }
}

/// The entries of `entries` that match `mode`, in their order.
pub open spec fn selection<D: Decoder>(
    mode: ModeView,
    decoders: Seq<D>,
    entries: Seq<EntryView>,
) -> Seq<EntryView>
    decreases entries.len(),
{
    if entries.len() == 0 {
        Seq::empty()
    } else {
        let before = selection(mode, decoders, entries.drop_last());
        if entry_selected(mode, decoders, entries.last()) {
            before.push(entries.last())
        } else {
            before
        }
    }
}

/// The page that a query asks for: of the entries that match `mode`, those
/// behind the first `offset`, at most `limit` of them.
pub open spec fn page_of<D: Decoder>(
    mode: ModeView,
    decoders: Seq<D>,
    entries: Seq<EntryView>,
    offset: nat,
    limit: nat,
) -> Seq<EntryView> {
    window(selection(mode, decoders, entries), offset, limit)
}

/// The number of entries that match `mode`.
pub open spec fn count_of<D: Decoder>(mode: ModeView, decoders: Seq<D>, entries: Seq<EntryView>)
    -> nat {
    selection(mode, decoders, entries).len()
}

/// One more entry adds itself to the selection if it matches, and changes
/// nothing if it does not.
pub proof fn lemma_selection_push<D: Decoder>(
    mode: ModeView,
    decoders: Seq<D>,
    entries: Seq<EntryView>,
    entry: EntryView,
)
    ensures
        selection(mode, decoders, entries.push(entry)) == if entry_selected(
            mode,
            decoders,
            entry,
        ) {
            selection(mode, decoders, entries).push(entry)
        } else {
            selection(mode, decoders, entries)
        },
{
    assert(entries.push(entry).drop_last() =~= entries);
}

/// The selection of a stretch from the start begins the selection of the
/// whole, and every selected entry is an entry.
pub proof fn lemma_selection_of_take<D: Decoder>(
    mode: ModeView,
    decoders: Seq<D>,
    entries: Seq<EntryView>,
    n: int,
)
    requires
        0 <= n <= entries.len(),
    ensures
        selection(mode, decoders, entries.take(n)).is_prefix_of(
            selection(mode, decoders, entries),
        ),
        selection(mode, decoders, entries).len() <= entries.len(),
    decreases entries.len(),
{
    if entries.len() == 0 {
        assert(entries.take(n) =~= entries);
    } else if n == entries.len() {
        assert(entries.take(n) =~= entries);
        lemma_selection_of_take(mode, decoders, entries.drop_last(), n - 1);
    } else {
        lemma_selection_of_take(mode, decoders, entries.drop_last(), n);
        assert(entries.drop_last().take(n) =~= entries.take(n));
    }
}

/// In a space no entry behind one that ends the scan matches.
pub proof fn lemma_nothing_matches_behind_end<D: Decoder>(
    mode: ModeView,
    decoders: Seq<D>,
    entries: Seq<EntryView>,
    end: int,
    later: int,
)
    requires
        strictly_ascending(entries),
        0 <= end < later < entries.len(),
        ends_scan(mode, entries[end]),
    ensures
        !entry_selected(mode, decoders, entries[later]),
        ends_scan(mode, entries[later]),
{
    let passed = key_bytes(entries[end].0);
    let k = key_bytes(entries[later].0);
    assert(key_lt(entries[end].0, entries[later].0));
    match mode {
        ModeView::Prefix(p) => {
            if key_has_prefix(entries[later].0, p) {
                lemma_prefixed_sorts_before_passed(key_bytes(p), passed, k);
                lemma_lex_lt_asymmetric(k, passed);
            }
            lemma_lex_lt_transitive(key_bytes(p), passed, k);
        },
        ModeView::Range(lo, hi) => {
            if key_lt(entries[later].0, hi) {
                lemma_lex_lt_transitive(passed, k, key_bytes(hi));
            }
        },
        _ => {},
    }
}

/// In a space the entries up to one that ends the scan hold the whole
/// selection: a scan that stops there has missed nothing.
pub proof fn lemma_selection_complete_at_end<D: Decoder>(
    mode: ModeView,
    decoders: Seq<D>,
    entries: Seq<EntryView>,
    end: int,
)
    requires
        strictly_ascending(entries),
        0 <= end < entries.len(),
        ends_scan(mode, entries[end]),
    ensures
        selection(mode, decoders, entries) == selection(mode, decoders, entries.take(end + 1)),
    decreases entries.len(),
{
    if end + 1 == entries.len() {
        assert(entries.take(end + 1) =~= entries);
    } else {
        let head = entries.drop_last();
        lemma_nothing_matches_behind_end(mode, decoders, entries, end, entries.len() - 1);
        lemma_selection_complete_at_end(mode, decoders, head, end);
        assert(head.take(end + 1) =~= entries.take(end + 1));
    }
}

/// Whatever matches a prefix or a range in a space comes out in strictly
/// ascending key order; so does every page of it.
pub proof fn lemma_selection_ascending<D: Decoder>(
    mode: ModeView,
    decoders: Seq<D>,
    entries: Seq<EntryView>,
)
    requires
        strictly_ascending(entries),
    ensures
        strictly_ascending(selection(mode, decoders, entries)),
        forall|i: int|
            0 <= i < selection(mode, decoders, entries).len() ==> exists|j: int|
                0 <= j < entries.len() && entries[j] == #[trigger] selection(
                    mode,
                    decoders,
                    entries,
                )[i] && i <= j,
    decreases entries.len(),
{
    if entries.len() > 0 {
        let head = entries.drop_last();
        let last = entries.last();
        lemma_selection_ascending(mode, decoders, head);
        let before = selection(mode, decoders, head);
        let all = selection(mode, decoders, entries);
        assert forall|i: int| 0 <= i < all.len() implies exists|j: int|
            0 <= j < entries.len() && entries[j] == #[trigger] all[i] && i <= j by {
            if i < before.len() {
                let j = choose|j: int| 0 <= j < head.len() && head[j] == before[i] && i <= j;
                assert(entries[j] == all[i]);
            } else {
                lemma_selection_of_take(mode, decoders, head, head.len() as int);
                assert(entries[entries.len() - 1] == all[i]);
            }
        }
        assert forall|i: int, j: int| 0 <= i < j < all.len() implies key_lt(
            (#[trigger] all[i]).0,
            (#[trigger] all[j]).0,
        ) by {
            if j == before.len() {
                let k = choose|k: int| 0 <= k < head.len() && head[k] == before[i] && i <= k;
                assert(entries[k] == all[i]);
                assert(key_lt(entries[k].0, entries[entries.len() - 1].0));
            } else {
                assert(key_lt(before[i].0, before[j].0));
            }
        }
    }
}

/// What a scan does with one entry.
enum Verdict {
    /// The entry matches.
    Take,
    /// The entry does not match; later ones may.
    Pass,
    /// The entry lies behind everything that can match.
    Stop,
}

/// Decides what a scan in `mode` does with the entry of `key` and `value`.
fn verdict<D: Decoder>(
    mode: &Mode<'_>,
    plugins: &DecoderRegistry<D>,
    key: &str,
    value: &[u8],
) -> (v: Verdict)
    requires
        plugins.wf(),
        mode_answers(mode@, plugins@, (key@, value@)),
    ensures
        (v is Take) == entry_selected(mode@, plugins@, (key@, value@)),
        (v is Stop) == ends_scan(mode@, (key@, value@)),
{
    match mode {
        Mode::Prefix(prefix) => {
            if key_starts_with(key, prefix) {
                Verdict::Take
            } else if key_before(prefix, key) {
                Verdict::Stop
            } else {
                Verdict::Pass
            }
        },
        Mode::Range(lo, hi) => {
            if !key_before(key, hi) {
                Verdict::Stop
            } else if !key_before(key, lo) {
                Verdict::Take
            } else {
                Verdict::Pass
            }
        },
        Mode::Regex(re) => {
            if regex_is_match(re, key) {
                Verdict::Take
            } else {
                Verdict::Pass
            }
        },
        Mode::JsonPath(path) => {
            let hit = match decode_value(value, plugins) {
                Ok(decoded) => match jsonpath_count(&decoded, path) {
                    Some(n) => n > 0,
                    None => false,
                },
                Err(_) => false,
            };
            if hit {
                Verdict::Take
            } else {
                Verdict::Pass
            }
        },
    }
}

/// Only the last of the entries seen can be one that ends the scan.
pub open spec fn ends_only_at_last(mode: ModeView, seen: Seq<EntryView>) -> bool {
    forall|i: int| 0 <= i < seen.len() - 1 ==> !ends_scan(mode, #[trigger] seen[i])
}

/// The length of the band of a scan in a space: the number of entries from
/// position `from` on that lie before the first entry that ends the scan,
/// counted from the start of the space.
pub open spec fn band_end(mode: ModeView, entries: Seq<EntryView>, from: int) -> int
    decreases entries.len() - from,
{
    if from < 0 || from >= entries.len() {
        from
    } else if ends_scan(mode, entries[from]) {
        from
    } else {
        band_end(mode, entries, from + 1)
    }
}

/// A scan examines the band of its query and at most one entry more: when
/// only the last of the first `seen` entries of a space can end the scan,
/// `seen` is at most the length of the band plus one.
pub proof fn lemma_examined_within_band(mode: ModeView, entries: Seq<EntryView>, seen: int)
    requires
        0 <= seen <= entries.len(),
        ends_only_at_last(mode, entries.take(seen)),
    ensures
        seen <= band_end(mode, entries, 0) + 1,
{
    if seen >= 1 {
        lemma_band_reaches(mode, entries, seen, 0);
    } else {
        lemma_band_end_at_least(mode, entries, 0);
    }
}

/// The band ends at or behind the position from which it is measured.
proof fn lemma_band_end_at_least(mode: ModeView, entries: Seq<EntryView>, from: int)
    requires
        0 <= from,
    ensures
        band_end(mode, entries, from) >= from,
    decreases entries.len() - from,
{
    if from < entries.len() && !ends_scan(mode, entries[from]) {
        lemma_band_end_at_least(mode, entries, from + 1);
    }
}

/// From any position before the last entry seen, the band reaches at least
/// to that entry.
proof fn lemma_band_reaches(mode: ModeView, entries: Seq<EntryView>, seen: int, from: int)
    requires
        1 <= seen <= entries.len(),
        0 <= from <= seen - 1,
        ends_only_at_last(mode, entries.take(seen)),
    ensures
        band_end(mode, entries, from) >= seen - 1,
    decreases seen - from,
{
    if from < seen - 1 {
        assert(entries.take(seen)[from] == entries[from]);
        lemma_band_reaches(mode, entries, seen, from + 1);
    } else {
        lemma_band_end_at_least(mode, entries, from);
    }
}

/// Whether a scan that has seen `seen` looks at one more entry: it has seen
/// none that ends the scan.
pub open spec fn scan_goes_on(mode: ModeView, seen: Seq<EntryView>) -> bool {
    seen.len() == 0 || !ends_scan(mode, seen.last())
}

/// The state of a paging scan as a mathematical value.
pub struct ScanView {
    /// The query.
    pub mode: ModeView,
    /// The number of matches to leave out at the start.
    pub offset: nat,
    /// The largest number of matches to collect.
    pub limit: nat,
    /// The entries fed so far, in the order fed.
    pub seen: Seq<EntryView>,
}

/// A paging scan that is fed the entries of a space one by one, in key
/// order, and says when it needs no more: once the page is full, or once it
/// has seen an entry behind everything that its query can match.
pub struct Scanner<'a, D: Decoder> {
    mode: Mode<'a>,
    plugins: &'a DecoderRegistry<D>,
    offset: usize,
    limit: usize,
    skipped: usize,
    items: Vec<(String, Vec<u8>)>,
    open: bool,
    seen: Ghost<Seq<EntryView>>,
}

impl<'a, D: Decoder> View for Scanner<'a, D> {
    type V = ScanView;

    closed spec fn view(&self) -> ScanView {
        ScanView {
            mode: self.mode@,
            offset: self.offset as nat,
            limit: self.limit as nat,
            seen: self.seen@,
        }
    }
}

impl<'a, D: Decoder> Scanner<'a, D> {
    /// The decoders that a scan by path consults.
    pub closed spec fn decoders(&self) -> Seq<D> {
        self.plugins@
    }

    /// The matches among the entries seen.
    pub open spec fn matched(&self) -> Seq<EntryView> {
        selection(self@.mode, self.decoders(), self@.seen)
    }

    /// The page collected from the entries seen.
    pub open spec fn page(&self) -> Seq<EntryView> {
        page_of(self@.mode, self.decoders(), self@.seen, self@.offset, self@.limit)
    }

    /// Whether the scan looks at one more entry: the page is not full and no
    /// entry seen ends the scan.
    pub open spec fn wants_more(&self) -> bool {
        self.page().len() < self@.limit && scan_goes_on(self@.mode, self@.seen)
    }

    /// The scan holds what its entries seen call for.
    pub closed spec fn wf(&self) -> bool {
        &&& self.plugins.wf()
        &&& entries_view(self.items@) == self.page()
        &&& self.skipped as nat == if self.offset as nat <= self.matched().len() {
            self.offset as nat
        } else {
            self.matched().len()
        }
        &&& self.open == self.wants_more()
        &&& ends_only_at_last(self@.mode, self@.seen)
    }

    /// A scan for the page of `mode` that starts behind the first `offset`
    /// matches and holds at most `limit`. It has seen nothing yet.
    pub fn new(mode: Mode<'a>, plugins: &'a DecoderRegistry<D>, offset: usize, limit: usize) -> (r:
        Self)
        requires
            plugins.wf(),
        ensures
            r.wf(),
            r@ == (ScanView { mode: mode@, offset: offset as nat, limit: limit as nat, seen: Seq::empty() }),
            r.decoders() == plugins@,
    {
        let r = Scanner {
            mode,
            plugins,
            offset,
            limit,
            skipped: 0,
            items: Vec::new(),
            open: limit > 0,
            seen: Ghost(Seq::empty()),
        };
        assert(entries_view(r.items@) =~= r.page());
        r
    }

    /// Whether the scan looks at one more entry. Once it does not, the page
    /// is final whatever the space holds behind the entries seen.
    pub fn is_open(&self) -> (r: bool)
        requires
            self.wf(),
        ensures
            r == self.wants_more(),
    {
        self.open
    }

    /// A scan looks at no entry behind one that ends it: of the entries seen,
    /// only the last can lie behind everything that the query can match.
    pub proof fn lemma_stays_in_band(&self)
        requires
            self.wf(),
        ensures
            ends_only_at_last(self@.mode, self@.seen),
    {
    }

    /// Looks at the next entry of the space. Returns whether the scan looks
    /// at one more.
    pub fn feed(&mut self, key: &str, value: &[u8]) -> (more: bool)
        requires
            old(self).wf(),
            old(self).wants_more(),
            mode_answers(old(self)@.mode, old(self).decoders(), (key@, value@)),
        ensures
            final(self).wf(),
            final(self).decoders() == old(self).decoders(),
            final(self)@ == (ScanView { seen: old(self)@.seen.push((key@, value@)), ..old(self)@ }),
            more == final(self).wants_more(),
    {
        let ghost entry = (key@, value@);
        let ghost before = self.matched();
        proof {
            lemma_selection_push(self@.mode, self.decoders(), self@.seen, entry);
            assert(self@.seen.push(entry).last() == entry);
            assert forall|i: int| 0 <= i < self@.seen.push(entry).len() - 1 implies !ends_scan(
                self@.mode,
                #[trigger] self@.seen.push(entry)[i],
            ) by {
                assert(self@.seen.push(entry)[i] == self@.seen[i]);
            }
        }
        match verdict(&self.mode, self.plugins, key, value) {
            Verdict::Take => {
                if self.skipped < self.offset {
                    self.skipped += 1;
                    self.seen = Ghost(self.seen@.push(entry));
                    assert(entries_view(self.items@) =~= self.page());
                } else {
                    let ghost held = entries_view(self.items@);
                    self.items.push((key.to_owned(), slice_to_vec(value)));
                    self.seen = Ghost(self.seen@.push(entry));
                    assert(entries_view(self.items@) =~= held.push(entry));
                    assert(self.page() =~= held.push(entry));
                    self.open = self.items.len() < self.limit;
                }
            },
            Verdict::Pass => {
                self.seen = Ghost(self.seen@.push(entry));
            },
            Verdict::Stop => {
                self.seen = Ghost(self.seen@.push(entry));
                self.open = false;
            },
        }
        self.open
    }

    /// The page collected.
    pub fn finish(self) -> (page: Vec<(String, Vec<u8>)>)
        requires
            self.wf(),
        ensures
            entries_view(page@) == self.page(),
    {
        self.items
    }
}

/// The state of a counting scan as a mathematical value.
pub struct CountView {
    /// The query.
    pub mode: ModeView,
    /// The entries fed so far, in the order fed.
    pub seen: Seq<EntryView>,
}

/// A counting scan that is fed the entries of a space one by one, in key
/// order, and says when it needs no more: once it has seen an entry behind
/// everything that its query can match.
pub struct Counter<'a, D: Decoder> {
    mode: Mode<'a>,
    plugins: &'a DecoderRegistry<D>,
    count: usize,
    open: bool,
    seen: Ghost<Seq<EntryView>>,
}

impl<'a, D: Decoder> View for Counter<'a, D> {
    type V = CountView;

    closed spec fn view(&self) -> CountView {
        CountView { mode: self.mode@, seen: self.seen@ }
    }
}

impl<'a, D: Decoder> Counter<'a, D> {
    /// The decoders that a scan by path consults.
    pub closed spec fn decoders(&self) -> Seq<D> {
        self.plugins@
    }

    /// The number of matches among the entries seen.
    pub open spec fn matched(&self) -> nat {
        count_of(self@.mode, self.decoders(), self@.seen)
    }

    /// The scan holds what its entries seen call for.
    pub closed spec fn wf(&self) -> bool {
        &&& self.plugins.wf()
        &&& self.count as nat == self.matched()
        &&& self.open == scan_goes_on(self@.mode, self@.seen)
        &&& ends_only_at_last(self@.mode, self@.seen)
    }

    /// A scan that counts the matches of `mode`. It has seen nothing yet.
    pub fn new(mode: Mode<'a>, plugins: &'a DecoderRegistry<D>) -> (r: Self)
        requires
            plugins.wf(),
        ensures
            r.wf(),
            r@ == (CountView { mode: mode@, seen: Seq::empty() }),
            r.decoders() == plugins@,
    {
        Counter { mode, plugins, count: 0, open: true, seen: Ghost(Seq::empty()) }
    }

    /// Whether the scan looks at one more entry. Once it does not, the count
    /// is final whatever the space holds behind the entries seen.
    pub fn is_open(&self) -> (r: bool)
        requires
            self.wf(),
        ensures
            r == scan_goes_on(self@.mode, self@.seen),
    {
        self.open
    }

    /// A scan looks at no entry behind one that ends it.
    pub proof fn lemma_stays_in_band(&self)
        requires
            self.wf(),
        ensures
            ends_only_at_last(self@.mode, self@.seen),
    {
    }

    /// Looks at the next entry of the space. Returns whether the scan looks
    /// at one more.
    pub fn feed(&mut self, key: &str, value: &[u8]) -> (more: bool)
        requires
            old(self).wf(),
            scan_goes_on(old(self)@.mode, old(self)@.seen),
            old(self)@.seen.len() < usize::MAX,
            mode_answers(old(self)@.mode, old(self).decoders(), (key@, value@)),
        ensures
            final(self).wf(),
            final(self).decoders() == old(self).decoders(),
            final(self)@ == (CountView { seen: old(self)@.seen.push((key@, value@)), ..old(self)@ }),
            more == scan_goes_on(final(self)@.mode, final(self)@.seen),
    {
        let ghost entry = (key@, value@);
        proof {
            lemma_selection_push(self@.mode, self.decoders(), self@.seen, entry);
            lemma_selection_of_take(self@.mode, self.decoders(), self@.seen, 0);
            assert(self@.seen.push(entry).last() == entry);
            assert forall|i: int| 0 <= i < self@.seen.push(entry).len() - 1 implies !ends_scan(
                self@.mode,
                #[trigger] self@.seen.push(entry)[i],
            ) by {
                assert(self@.seen.push(entry)[i] == self@.seen[i]);
            }
        }
        match verdict(&self.mode, self.plugins, key, value) {
            Verdict::Take => {
                self.count += 1;
            },
            Verdict::Pass => {},
            Verdict::Stop => {
                self.open = false;
            },
        }
        self.seen = Ghost(self.seen@.push(entry));
        self.open
    }

    /// The number of matches counted.
    pub fn finish(self) -> (n: usize)
        requires
            self.wf(),
        ensures
            n == self.matched(),
    {
        self.count
    }
}

/// Counts the entries of a space that match `mode`, without collecting
/// them. `entries` holds the space in key order; a scan by prefix or by range
/// looks at no entry behind the first that lies behind all possible matches.
pub fn count_matches<D: Decoder>(
    entries: &[(String, Vec<u8>)],
    mode: Mode<'_>,
    plugins: &DecoderRegistry<D>,
) -> (n: usize)
    requires
        plugins.wf(),
        strictly_ascending(entries_view(entries@)),
        mode_answers_all(mode@, plugins@, entries_view(entries@)),
    ensures
        n == count_of(mode@, plugins@, entries_view(entries@)),
{
    let ghost all = entries_view(entries@);
    let ghost m = mode@;
    let mut counter = Counter::new(mode, plugins);
    let mut i: usize = 0;
    assert(all.take(0) =~= Seq::<EntryView>::empty());
    while i < entries.len() && counter.is_open()
        invariant
            i <= entries.len(),
            all == entries_view(entries@),
            counter.wf(),
            counter.decoders() == plugins@,
            counter@ == (CountView { mode: m, seen: all.take(i as int) }),
            mode_answers_all(m, plugins@, all),
        decreases entries.len() - i,
    {
        assert(all[i as int] == (entries@[i as int].0@, entries@[i as int].1@));
        counter.feed(&entries[i].0, &entries[i].1);
        assert(all.take(i as int).push(all[i as int]) =~= all.take(i as int + 1));
        i += 1;
    }
    proof {
        if i < entries.len() {
            assert(all.take(i as int).last() == all[i as int - 1]);
            lemma_selection_complete_at_end(m, plugins@, all, i as int - 1);
        } else {
            assert(all.take(i as int) =~= all);
        }
    }
    counter.finish()
}

/// Collects one page of the entries of a space that match `mode`: those
/// behind the first `offset` matches, at most `limit` of them, in key order.
/// `entries` holds the space in key order; the scan stops once the page is
/// full and, by prefix or by range, at the first entry behind all possible
/// matches.
pub fn scan_paginated<D: Decoder>(
    entries: &[(String, Vec<u8>)],
    mode: Mode<'_>,
    plugins: &DecoderRegistry<D>,
    offset: usize,
    limit: usize,
) -> (page: Vec<(String, Vec<u8>)>)
    requires
        plugins.wf(),
        strictly_ascending(entries_view(entries@)),
        mode_answers_all(mode@, plugins@, entries_view(entries@)),
    ensures
        entries_view(page@) == page_of(
            mode@,
            plugins@,
            entries_view(entries@),
            offset as nat,
            limit as nat,
        ),
{
    let ghost all = entries_view(entries@);
    let ghost m = mode@;
    let mut scanner = Scanner::new(mode, plugins, offset, limit);
    let mut i: usize = 0;
    assert(all.take(0) =~= Seq::<EntryView>::empty());
    while i < entries.len() && scanner.is_open()
        invariant
            i <= entries.len(),
            all == entries_view(entries@),
            scanner.wf(),
            scanner.decoders() == plugins@,
            scanner@ == (ScanView {
                mode: m,
                offset: offset as nat,
                limit: limit as nat,
                seen: all.take(i as int),
            }),
            mode_answers_all(m, plugins@, all),
        decreases entries.len() - i,
    {
        assert(all[i as int] == (entries@[i as int].0@, entries@[i as int].1@));
        scanner.feed(&entries[i].0, &entries[i].1);
        assert(all.take(i as int).push(all[i as int]) =~= all.take(i as int + 1));
        i += 1;
    }
    proof {
        if i < entries.len() {
            lemma_page_is_final(m, plugins@, all, i as int, offset as nat, limit as nat);
        } else {
            assert(all.take(i as int) =~= all);
        }
    }
    scanner.finish()
}

/// Collects the first `limit` entries of a space that match `mode`.
pub fn scan<D: Decoder>(
    entries: &[(String, Vec<u8>)],
    mode: Mode<'_>,
    plugins: &DecoderRegistry<D>,
    limit: usize,
) -> (page: Vec<(String, Vec<u8>)>)
    requires
        plugins.wf(),
        strictly_ascending(entries_view(entries@)),
        mode_answers_all(mode@, plugins@, entries_view(entries@)),
    ensures
        entries_view(page@) == page_of(mode@, plugins@, entries_view(entries@), 0, limit as nat),
{
    scan_paginated(entries, mode, plugins, 0, limit)
}

/// Once a scan of a space has filled its page, or has seen an entry that
/// ends it, the page of the entries seen is the page of the whole space.
pub proof fn lemma_page_is_final<D: Decoder>(
    mode: ModeView,
    decoders: Seq<D>,
    entries: Seq<EntryView>,
    seen: int,
    offset: nat,
    limit: nat,
)
    requires
        strictly_ascending(entries),
        0 <= seen <= entries.len(),
        page_of(mode, decoders, entries.take(seen), offset, limit).len() >= limit || !scan_goes_on(
            mode,
            entries.take(seen),
        ),
    ensures
        page_of(mode, decoders, entries, offset, limit) == page_of(
            mode,
            decoders,
            entries.take(seen),
            offset,
            limit,
        ),
{
    let part = selection(mode, decoders, entries.take(seen));
    let whole = selection(mode, decoders, entries);
    lemma_selection_of_take(mode, decoders, entries, seen);
    if !scan_goes_on(mode, entries.take(seen)) {
        assert(entries.take(seen).last() == entries[seen - 1]);
        lemma_selection_complete_at_end(mode, decoders, entries, seen - 1);
    } else {
        assert(window(whole, offset, limit) =~= window(part, offset, limit));
    }
}

/// The empty prefix matches every entry: a scan for it reads the space as
/// it is.
pub proof fn lemma_empty_prefix_selects_all<D: Decoder>(decoders: Seq<D>, entries: Seq<EntryView>)
    ensures
        selection(ModeView::Prefix(Seq::empty()), decoders, entries) == entries,
    decreases entries.len(),
{
    let mode = ModeView::Prefix(Seq::<char>::empty());
    if entries.len() > 0 {
        lemma_empty_prefix_selects_all(decoders, entries.drop_last());
        assert(key_bytes(Seq::<char>::empty()) =~= Seq::<u8>::empty()) by {
            reveal_with_fuel(vstd::utf8::encode_utf8, 1);
        }
        assert(key_has_prefix(entries.last().0, Seq::<char>::empty()));
        assert(entries.drop_last().push(entries.last()) =~= entries);
    } else {
        assert(selection(mode, decoders, entries) =~= entries);
    }
}

/// Every page of a space comes in strictly ascending key order.
pub proof fn lemma_page_ascending<D: Decoder>(
    mode: ModeView,
    decoders: Seq<D>,
    entries: Seq<EntryView>,
    offset: nat,
    limit: nat,
)
    requires
        strictly_ascending(entries),
    ensures
        strictly_ascending(page_of(mode, decoders, entries, offset, limit)),
{
    lemma_selection_ascending(mode, decoders, entries);
}

/// The count of a query is the length of its page from the start with a
/// limit that cuts nothing off, and that page holds every match.
pub proof fn lemma_count_is_length_of_whole_page<D: Decoder>(
    mode: ModeView,
    decoders: Seq<D>,
    entries: Seq<EntryView>,
    limit: nat,
)
    requires
        limit >= count_of(mode, decoders, entries),
    ensures
        page_of(mode, decoders, entries, 0, limit) == selection(mode, decoders, entries),
        count_of(mode, decoders, entries) == page_of(mode, decoders, entries, 0, limit).len(),
{
    let all = selection(mode, decoders, entries);
    assert(window(all, 0, limit) =~= all);
}

/// The first `pages` pages of a query with `step` entries each, one behind
/// the other.
pub open spec fn pages_joined<D: Decoder>(
    mode: ModeView,
    decoders: Seq<D>,
    entries: Seq<EntryView>,
    step: nat,
    pages: nat,
) -> Seq<EntryView>
    decreases pages,
{
    if pages == 0 {
        Seq::empty()
    } else {
        pages_joined(mode, decoders, entries, step, (pages - 1) as nat) + page_of(
            mode,
            decoders,
            entries,
            ((pages - 1) * step) as nat,
            step,
        )
    }
}

/// Pages laid end to end are one page: the first `pages` pages of `step`
/// entries each make up the page of `pages * step` entries from the start.
/// Once they reach behind the last match they hold every match, each once
/// and in order.
pub proof fn lemma_pages_join<D: Decoder>(
    mode: ModeView,
    decoders: Seq<D>,
    entries: Seq<EntryView>,
    step: nat,
    pages: nat,
)
    ensures
        pages_joined(mode, decoders, entries, step, pages) == page_of(
            mode,
            decoders,
            entries,
            0,
            pages * step,
        ),
        pages * step >= count_of(mode, decoders, entries) ==> pages_joined(
            mode,
            decoders,
            entries,
            step,
            pages,
        ) == selection(mode, decoders, entries),
    decreases pages,
{
    let all = selection(mode, decoders, entries);
    if pages == 0 {
        assert(window(all, 0, 0) =~= Seq::<EntryView>::empty());
    } else {
        let head = (pages - 1) as nat;
        lemma_pages_join(mode, decoders, entries, step, head);
        assert(head * step + step == pages * step && (pages - 1) * step == head * step)
            by (nonlinear_arith)
            requires
                head + 1 == pages,
        ;
        assert(pages_joined(mode, decoders, entries, step, pages) == window(all, 0, head * step)
            + window(all, head * step, step));
        assert(window(all, 0, head * step) + window(all, head * step, step) =~= window(
            all,
            0,
            pages * step,
        ));
    }
    if pages * step >= all.len() {
        assert(window(all, 0, pages * step) =~= all);
    }
}

} // verus!
