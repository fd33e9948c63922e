//! Parser for Java-properties configuration files
//! (`tiger_openapi_config.properties`).
//!
//! Supports `key=value` and `key:value` pairs, `\` line continuation
//! (an odd number of trailing backslashes), `#` and `!` comment lines, and
//! ignores blank lines. Later occurrences of a key replace earlier ones.

use vstd::prelude::*;
use vstd::relations::sorted_by;
use crate::error::TigerError;
use crate::text::{
    append_chars, chars_of, is_ws, lex_le, lex_less_eq, lex_order, lemma_lex_connected,
    lemma_lex_total_ordering, lemma_lex_transitive, owned, string_of, skip_ws_forward, slice_chars, string_of_range, trim, trim_bounds,
    trim_start,
};

verus! {

/// Key/value entries in first-insertion order.
pub type Entries = Seq<(Seq<char>, Seq<char>)>;

/// Position of the entry with key `k`, if any (the first one).
pub open spec fn key_index(es: Entries, k: Seq<char>) -> Option<int>
    decreases es.len(),
{
    if es.len() == 0 {
        None
    } else if es[0].0 == k {
        Some(0)
    } else {
        match key_index(es.drop_first(), k) {
            Some(i) => Some(i + 1),
            None => None,
        }
    }
}

/// Sets `k` to `v`: replaces the value in place when `k` is present,
/// otherwise appends the pair.
pub open spec fn insert_entry(es: Entries, k: Seq<char>, v: Seq<char>) -> Entries {
    match key_index(es, k) {
        Some(i) => es.update(i, (k, v)),
        None => es.push((k, v)),
    }
}

/// No key occurs twice.
pub open spec fn distinct_keys(es: Entries) -> bool {
    forall|i: int, j: int| 0 <= i < j < es.len() ==> es[i].0 != es[j].0
}

/// The entries as a map (a later entry for a key wins).
pub open spec fn entries_map(es: Entries) -> Map<Seq<char>, Seq<char>>
    decreases es.len(),
{
    if es.len() == 0 {
        Map::empty()
    } else {
        entries_map(es.drop_last()).insert(es.last().0, es.last().1)
    }
}

/// Position of the first line feed in `s`, or `s.len()`.
pub open spec fn nl_index(s: Seq<char>) -> int
    decreases s.len(),
{
    if s.len() == 0 {
        0
    } else if s[0] == '\n' {
        0
    } else {
        1 + nl_index(s.drop_first())
    }
}

/// `nl_index` is the position of the first line feed, if there is one.
pub proof fn lemma_nl_index(s: Seq<char>)
    ensures
        0 <= nl_index(s) <= s.len(),
        nl_index(s) < s.len() ==> s[nl_index(s)] == '\n',
        forall|j: int| 0 <= j < nl_index(s) ==> s[j] != '\n',
    decreases s.len(),
{
    if s.len() > 0 && s[0] != '\n' {
        lemma_nl_index(s.drop_first());
        assert forall|j: int| 0 <= j < nl_index(s) implies s[j] != '\n' by {
            if j > 0 {
                assert(s[j] == s.drop_first()[j - 1]);
            }
        }
    }
}

/// `s` without one trailing carriage return.
pub open spec fn strip_cr(s: Seq<char>) -> Seq<char> {
    if s.len() > 0 && s.last() == '\r' {
        s.drop_last()
    } else {
        s
    }
}

/// The lines of `s` as `str::lines` yields them: split at `\n` or `\r\n`;
/// a final line ending is optional.
pub open spec fn lines(s: Seq<char>) -> Seq<Seq<char>>
    decreases s.len(),
{
    if s.len() == 0 {
        seq![]
    } else {
        let e = nl_index(s);
        proof {
            lemma_nl_index(s);
        }
        if e >= s.len() {
            seq![s]
        } else {
            seq![strip_cr(s.subrange(0, e))] + lines(s.subrange(e + 1, s.len() as int))
        }
    }
}

/// Number of trailing backslashes of `s`.
pub open spec fn trailing_backslashes(s: Seq<char>) -> nat
    decreases s.len(),
{
    if s.len() > 0 && s.last() == '\\' {
        1 + trailing_backslashes(s.drop_last())
    } else {
        0
    }
}

/// A line continues on the next one when it ends with an odd number of
/// backslashes (an even number are escaped literal backslashes).
pub open spec fn continues(s: Seq<char>) -> bool {
    trailing_backslashes(s) % 2 == 1
}

/// Position of the first `=` or `:`.
pub open spec fn first_sep(s: Seq<char>) -> Option<int>
    decreases s.len(),
{
    if s.len() == 0 {
        None
    } else if s[0] == '=' || s[0] == ':' {
        Some(0)
    } else {
        match first_sep(s.drop_first()) {
            Some(i) => Some(i + 1),
            None => None,
        }
    }
}

/// The key/value pair a logical line holds: split at the first `=` or `:`,
/// both sides trimmed; no pair without a separator or with an empty key.
pub open spec fn parse_kv(line: Seq<char>) -> Option<(Seq<char>, Seq<char>)> {
    match first_sep(line) {
        None => None,
        Some(i) => {
            let key = trim(line.subrange(0, i));
            if key.len() == 0 {
                None
            } else {
                Some((key, trim(line.subrange(i + 1, line.len() as int))))
            }
        }
    }
}

/// Blank, or a `#` / `!` comment.
pub open spec fn is_skippable(t: Seq<char>) -> bool {
    t.len() == 0 || t[0] == '#' || t[0] == '!'
}

/// Parser state: entries so far, the logical line being assembled, and
/// whether the previous physical line asked to be continued.
pub type ParseState = (Entries, Seq<char>, bool);

/// Ends the logical line `line`: records its pair, if any, and starts afresh.
pub open spec fn flush(es: Entries, line: Seq<char>) -> ParseState {
    let es2 = match parse_kv(line) {
        Some((k, v)) => insert_entry(es, k, v),
        None => es,
    };
    (es2, seq![], false)
}

/// The effect of one physical line.
pub open spec fn step(st: ParseState, line: Seq<char>) -> ParseState {
    let (es, cur, cont) = st;
    if cont {
        let t = trim_start(line);
        if is_skippable(t) {
            flush(es, cur)
        } else if continues(t) {
            (es, cur + t.drop_last(), true)
        } else {
            flush(es, cur + t)
        }
    } else {
        let t = trim(line);
        if is_skippable(t) {
            (es, cur, false)
        } else if continues(t) {
            (es, t.drop_last(), true)
        } else {
            flush(es, t)
        }
    }
}

/// The state after the lines `ls`, in order, from the empty state.
pub open spec fn fold_lines(ls: Seq<Seq<char>>) -> ParseState
    decreases ls.len(),
{
    if ls.len() == 0 {
        (seq![], seq![], false)
    } else {
        step(fold_lines(ls.drop_last()), ls.last())
    }
}

/// The entries of a whole file: a continued logical line cut off by the end
/// of input still counts.
pub open spec fn parsed_entries(content: Seq<char>) -> Entries {
    let (es, cur, cont) = fold_lines(lines(content));
    if cont && cur.len() > 0 {
        match parse_kv(cur) {
            Some((k, v)) => insert_entry(es, k, v),
            None => es,
        }
    } else {
        es
    }
}

/// A set of properties: distinct keys, kept in first-insertion order.
pub struct Properties {
    entries: Vec<(String, String)>,
}

impl View for Properties {
    type V = Entries;

    closed spec fn view(&self) -> Entries {
        self.entries@.map_values(|e: (String, String)| (e.0@, e.1@))
    }
}

proof fn lemma_key_index_first(es: Entries, k: Seq<char>, i: int)
    requires
        0 <= i < es.len(),
        es[i].0 == k,
        forall|j: int| 0 <= j < i ==> es[j].0 != k,
    ensures
        key_index(es, k) == Some(i),
    decreases i,
{
    if i > 0 {
        lemma_key_index_first(es.drop_first(), k, i - 1);
    }
}

proof fn lemma_key_index_none(es: Entries, k: Seq<char>)
    requires
        forall|j: int| 0 <= j < es.len() ==> es[j].0 != k,
    ensures
        key_index(es, k) is None,
    decreases es.len(),
{
    if es.len() > 0 {
        lemma_key_index_none(es.drop_first(), k);
    }
}

/// `key_index` finds exactly the entries with that key.
pub proof fn lemma_key_index(es: Entries, k: Seq<char>)
    ensures
        match key_index(es, k) {
            Some(i) => 0 <= i < es.len() && es[i].0 == k && forall|j: int|
                0 <= j < i ==> es[j].0 != k,
            None => forall|j: int| 0 <= j < es.len() ==> es[j].0 != k,
        },
    decreases es.len(),
{
    if es.len() > 0 {
        lemma_key_index(es.drop_first(), k);
        if es[0].0 != k {
            match key_index(es.drop_first(), k) {
                Some(i) => {
                    assert forall|j: int| 0 <= j < i + 1 implies es[j].0 != k by {
                        if j > 0 {
                            assert(es[j] == es.drop_first()[j - 1]);
                        }
                    }
                },
                None => {
                    assert forall|j: int| 0 <= j < es.len() implies es[j].0 != k by {
                        if j > 0 {
                            assert(es[j] == es.drop_first()[j - 1]);
                        }
                    }
                },
            }
        }
    }
}

/// Inserting keeps keys distinct.
pub proof fn lemma_insert_distinct(es: Entries, k: Seq<char>, v: Seq<char>)
    requires
        distinct_keys(es),
    ensures
        distinct_keys(insert_entry(es, k, v)),
{
    lemma_key_index(es, k);
}

/// With distinct keys, the map view holds exactly the entries' pairs.
pub proof fn lemma_entries_map(es: Entries)
    requires
        distinct_keys(es),
    ensures
        forall|k: Seq<char>| #[trigger]
            entries_map(es).contains_key(k) <==> exists|i: int| 0 <= i < es.len() && es[i].0 == k,
        forall|i: int| 0 <= i < es.len() ==> #[trigger] entries_map(es)[es[i].0] == es[i].1,
    decreases es.len(),
{
    if es.len() > 0 {
        let init = es.drop_last();
        assert(distinct_keys(init));
        lemma_entries_map(init);
        let m = entries_map(es);
        let mi = entries_map(init);
        assert(m == mi.insert(es.last().0, es.last().1));
        assert forall|k: Seq<char>| #[trigger] m.contains_key(k) <==> exists|i: int|
            0 <= i < es.len() && es[i].0 == k by {
            if m.contains_key(k) {
                if k == es.last().0 {
                    assert(es[es.len() - 1].0 == k);
                } else {
                    assert(mi.contains_key(k));
                    let i = choose|i: int| 0 <= i < init.len() && init[i].0 == k;
                    assert(es[i] == init[i]);
                    assert(es[i].0 == k);
                }
            }
            if exists|i: int| 0 <= i < es.len() && es[i].0 == k {
                let i = choose|i: int| 0 <= i < es.len() && es[i].0 == k;
                if i < es.len() - 1 {
                    assert(init[i] == es[i]);
                    assert(mi.contains_key(init[i].0));
                }
            }
        }
        assert forall|i: int| 0 <= i < es.len() implies #[trigger] m[es[i].0] == es[i].1 by {
            if i < es.len() - 1 {
                assert(init[i] == es[i]);
                assert(es[i].0 != es.last().0);
                assert(mi[init[i].0] == init[i].1);
            }
        }
    }
}

/// `insert_entry` behaves as a map insertion on the map view.
pub proof fn lemma_insert_entry_map(es: Entries, k: Seq<char>, v: Seq<char>)
    requires
        distinct_keys(es),
    ensures
        entries_map(insert_entry(es, k, v)) =~= entries_map(es).insert(k, v),
{
    let es2 = insert_entry(es, k, v);
    lemma_key_index(es, k);
    lemma_insert_distinct(es, k, v);
    lemma_entries_map(es);
    lemma_entries_map(es2);
    let m = entries_map(es);
    let m2 = entries_map(es2);
    assert forall|q: Seq<char>| #[trigger] m2.contains_key(q) <==> m.insert(k, v).contains_key(q) by {
        if m2.contains_key(q) {
            let i = choose|i: int| 0 <= i < es2.len() && es2[i].0 == q;
            if q != k {
                assert(es[i].0 == q);
            }
        }
        if m.contains_key(q) && q != k {
            let i = choose|i: int| 0 <= i < es.len() && es[i].0 == q;
            assert(es2[i].0 == q);
        }
        if q == k {
            match key_index(es, k) {
                Some(i) => assert(es2[i].0 == k),
                None => assert(es2[es.len() as int].0 == k),
            }
        }
    }
    assert forall|q: Seq<char>| m2.contains_key(q) implies #[trigger] m2[q] == m.insert(k, v)[q] by {
        let i = choose|i: int| 0 <= i < es2.len() && es2[i].0 == q;
        assert(m2[es2[i].0] == es2[i].1);
        if q != k {
            assert(es[i] == es2[i]);
            assert(m[es[i].0] == es[i].1);
        }
    }
}

impl Properties {
    #[verifier::type_invariant]
    spec fn keys_distinct(self) -> bool {
        distinct_keys(self@)
    }

    /// An empty set of properties.
    pub fn new() -> (p: Properties)
        ensures
            p@ == Seq::<(Seq<char>, Seq<char>)>::empty(),
    {
        let p = Properties { entries: Vec::new() };
        assert(p@ =~= Seq::<(Seq<char>, Seq<char>)>::empty());
        p
    }

    /// Sets `key` to `value` (in place when the key is present).
    pub fn insert(&mut self, key: String, value: String)
        ensures
            final(self)@ == insert_entry(old(self)@, key@, value@),
    {
        proof {
            use_type_invariant(&*self);
            lemma_insert_distinct(self@, key@, value@);
        }
        let ghost es = self@;
        let mut i: usize = 0;
        while i < self.entries.len()
            invariant
                es == self@,
                es == old(self)@,
                distinct_keys(es),
                i <= es.len(),
                forall|j: int| 0 <= j < i ==> es[j].0 != key@,
            decreases es.len() - i,
        {
            if self.entries[i].0 == key {
                proof {
                    lemma_key_index_first(es, key@, i as int);
                }
                let mut entries: Vec<(String, String)> = Vec::new();
                std::mem::swap(&mut entries, &mut self.entries);
                let ghost kv = (key@, value@);
                entries.set(i, (key, value));
                assert(entries@.map_values(|e: (String, String)| (e.0@, e.1@)) =~= es.update(
                    i as int,
                    kv,
                ));
                self.entries = entries;
                assert(self@ == es.update(i as int, kv));
                return;
            }
            i = i + 1;
        }
        proof {
            lemma_key_index_none(es, key@);
        }
        let mut entries: Vec<(String, String)> = Vec::new();
                std::mem::swap(&mut entries, &mut self.entries);
        let ghost kv = (key@, value@);
        entries.push((key, value));
        assert(entries@.map_values(|e: (String, String)| (e.0@, e.1@)) =~= es.push(kv));
        self.entries = entries;
    }

    /// The value of `key`, if present.
    pub fn get(&self, key: &str) -> (r: Option<&String>)
        ensures
            r.is_some() == entries_map(self@).contains_key(key@),
            r matches Some(v) ==> v@ == entries_map(self@)[key@],
    {
        proof {
            use_type_invariant(self);
            lemma_entries_map(self@);
        }
        let k = owned(key);
        let mut i: usize = 0;
        while i < self.entries.len()
            invariant
                distinct_keys(self@),
                i <= self@.len(),
                k@ == key@,
                forall|j: int| 0 <= j < i ==> self@[j].0 != key@,
            decreases self@.len() - i,
        {
            if self.entries[i].0 == k {
                proof {
                    lemma_entries_map(self@);
                }
                assert(self@[i as int] == (self.entries@[i as int].0@, self.entries@[i as int].1@));
                assert(self@[i as int].0 == key@);
                assert(entries_map(self@)[self@[i as int].0] == self@[i as int].1);
                return Some(&self.entries[i].1);
            }
            i = i + 1;
        }
        assert(!entries_map(self@).contains_key(key@)) by {
            lemma_entries_map(self@);
            if entries_map(self@).contains_key(key@) {
                let j = choose|j: int| 0 <= j < self@.len() && self@[j].0 == key@;
            }
        }
        None
    }

    /// Number of distinct keys.
    pub fn len(&self) -> (n: usize)
        ensures
            n == self@.len(),
    {
        self.entries.len()
    }

    /// Whether there are no properties.
    pub fn is_empty(&self) -> (b: bool)
        ensures
            b == (self@.len() == 0),
    {
        self.entries.len() == 0
    }

    /// The entries, in first-insertion order.
    pub fn entries(&self) -> (r: &Vec<(String, String)>)
        ensures
            r@.map_values(|e: (String, String)| (e.0@, e.1@)) == self@,
            distinct_keys(self@),
    {
        proof {
            use_type_invariant(self);
        }
        &self.entries
    }
}

/// `first_sep` finds the first separator.
pub proof fn lemma_first_sep(s: Seq<char>)
    ensures
        match first_sep(s) {
            Some(i) => 0 <= i < s.len() && (s[i] == '=' || s[i] == ':') && forall|j: int|
                0 <= j < i ==> s[j] != '=' && s[j] != ':',
            None => forall|j: int| 0 <= j < s.len() ==> s[j] != '=' && s[j] != ':',
        },
    decreases s.len(),
{
    if s.len() > 0 {
        lemma_first_sep(s.drop_first());
        if !(s[0] == '=' || s[0] == ':') {
            assert forall|j: int| 1 <= j < s.len() implies s[j] == s.drop_first()[j - 1] by {}
        }
    }
}

proof fn lemma_first_sep_at(s: Seq<char>, i: int)
    requires
        0 <= i < s.len(),
        s[i] == '=' || s[i] == ':',
        forall|j: int| 0 <= j < i ==> s[j] != '=' && s[j] != ':',
    ensures
        first_sep(s) == Some(i),
    decreases i,
{
    if i > 0 {
        lemma_first_sep_at(s.drop_first(), i - 1);
    }
}

proof fn lemma_first_sep_none(s: Seq<char>)
    requires
        forall|j: int| 0 <= j < s.len() ==> s[j] != '=' && s[j] != ':',
    ensures
        first_sep(s) is None,
    decreases s.len(),
{
    if s.len() > 0 {
        lemma_first_sep_none(s.drop_first());
    }
}

/// Whether `s[lo..hi]` ends with an odd number of backslashes.
fn continues_range(s: &Vec<char>, lo: usize, hi: usize) -> (b: bool)
    requires
        lo <= hi <= s@.len(),
    ensures
        b == continues(s@.subrange(lo as int, hi as int)),
{
    let mut k = hi;
    let mut count: usize = 0;
    while k > lo && s[k - 1] == '\\'
        invariant
            lo <= k <= hi <= s@.len(),
            count == hi - k,
            trailing_backslashes(s@.subrange(lo as int, hi as int)) == count + trailing_backslashes(
                s@.subrange(lo as int, k as int),
            ),
        decreases k - lo,
    {
        assert(s@.subrange(lo as int, k as int).drop_last() =~= s@.subrange(lo as int, k - 1));
        k = k - 1;
        count = count + 1;
    }
    count % 2 == 1
}

/// Whether a line ends with a continuation marker: an odd number of
/// trailing backslashes.
pub fn ends_with_continuation(line: &str) -> (b: bool)
    ensures
        b == continues(line@),
{
    let s = chars_of(line);
    assert(s@.subrange(0, s@.len() as int) =~= s@);
    continues_range(&s, 0, s.len())
}

/// The pair held by `s[lo..hi]`, as `parse_kv` describes it.
fn parse_kv_range(s: &Vec<char>, lo: usize, hi: usize) -> (r: Option<(String, String)>)
    requires
        lo <= hi <= s@.len(),
    ensures
        match r {
            None => parse_kv(s@.subrange(lo as int, hi as int)) is None,
            Some((k, v)) => parse_kv(s@.subrange(lo as int, hi as int)) == Some((k@, v@)),
        },
{
    let ghost line = s@.subrange(lo as int, hi as int);
    let mut j = lo;
    while j < hi && s[j] != '=' && s[j] != ':'
        invariant
            lo <= j <= hi <= s@.len(),
            line == s@.subrange(lo as int, hi as int),
            forall|m: int| 0 <= m < j - lo ==> line[m] != '=' && line[m] != ':',
        decreases hi - j,
    {
        j = j + 1;
    }
    if j == hi {
        proof {
            lemma_first_sep_none(line);
        }
        return None;
    }
    proof {
        lemma_first_sep_at(line, j - lo);
        assert(line.subrange(0, j - lo) =~= s@.subrange(lo as int, j as int));
        assert(line.subrange(j - lo + 1, line.len() as int) =~= s@.subrange(j + 1, hi as int));
    }
    let (a, b) = trim_bounds(s, lo, j);
    if a == b {
        return None;
    }
    let (c, d) = trim_bounds(s, j + 1, hi);
    let key = string_of_range(s, a, b);
    let value = string_of_range(s, c, d);
    Some((key, value))
}

/// Splits a line at its first `=` or `:` into a trimmed key and value;
/// `None` when there is no separator or the key is empty.
pub fn parse_key_value(line: &str) -> (r: Option<(String, String)>)
    ensures
        match r {
            None => parse_kv(line@) is None,
            Some((k, v)) => parse_kv(line@) == Some((k@, v@)),
        },
{
    let s = chars_of(line);
    assert(s@.subrange(0, s@.len() as int) =~= s@);
    parse_kv_range(&s, 0, s.len())
}

/// Working state of `parse_properties`.
struct LineParser {
    props: Properties,
    current: Vec<char>,
    continuation: bool,
}

impl LineParser {
    spec fn state(&self) -> ParseState {
        (self.props@, self.current@, self.continuation)
    }

    fn flush_current(&mut self)
        ensures
            final(self).state() == flush(old(self).props@, old(self).current@),
    {
        let n = self.current.len();
        assert(self.current@.subrange(0, n as int) =~= self.current@);
        match parse_kv_range(&self.current, 0, n) {
            Some((k, v)) => self.props.insert(k, v),
            None => {},
        }
        self.current = Vec::new();
        self.continuation = false;
    }

    fn apply_line(&mut self, s: &Vec<char>, lo: usize, hi: usize)
        requires
            lo <= hi <= s@.len(),
        ensures
            final(self).state() == step(old(self).state(), s@.subrange(lo as int, hi as int)),
    {
        let ghost line = s@.subrange(lo as int, hi as int);
        if self.continuation {
            let a = skip_ws_forward(s, lo, hi);
            let ghost t = s@.subrange(a as int, hi as int);
            if a == hi || s[a] == '#' || s[a] == '!' {
                self.flush_current();
            } else if continues_range(s, a, hi) {
                proof {
                    assert(t.last() == '\\') by {
                        assert(trailing_backslashes(t) > 0);
                    }
                }
                let tail = slice_chars(s, a, hi - 1);
                assert(tail@ =~= t.drop_last());
                append_chars(&mut self.current, &tail);
            } else {
                let tail = slice_chars(s, a, hi);
                append_chars(&mut self.current, &tail);
                self.flush_current();
            }
        } else {
            let (a, b) = trim_bounds(s, lo, hi);
            let ghost t = s@.subrange(a as int, b as int);
            if a == b || s[a] == '#' || s[a] == '!' {
            } else if continues_range(s, a, b) {
                proof {
                    assert(t.last() == '\\') by {
                        assert(trailing_backslashes(t) > 0);
                    }
                }
                self.current = slice_chars(s, a, b - 1);
                assert(self.current@ =~= t.drop_last());
                self.continuation = true;
            } else {
                self.current = slice_chars(s, a, b);
                self.flush_current();
            }
        }
    }
}

/// Parses properties text: `key=value` / `key:value` pairs, `\` line
/// continuation, `#` / `!` comments; blank lines are ignored. Never fails.
pub fn parse_properties(content: &str) -> (r: Result<Properties, TigerError>)
    ensures
        r matches Ok(p) && p@ == parsed_entries(content@),
{
    let s = chars_of(content);
    let n = s.len();
    let mut p = LineParser { props: Properties::new(), current: Vec::new(), continuation: false };
    let mut pos: usize = 0;
    let ghost mut done: Seq<Seq<char>> = seq![];
    assert(s@.subrange(0, n as int) =~= s@);
    assert(p.state() == fold_lines(done)) by {
        assert(p.current@ =~= Seq::<char>::empty());
    }
    while pos < n
        invariant
            n == s@.len(),
            pos <= n,
            lines(s@) == done + lines(s@.subrange(pos as int, n as int)),
            p.state() == fold_lines(done),
        decreases n - pos,
    {
        let ghost rest = s@.subrange(pos as int, n as int);
        let mut e = pos;
        while e < n && s[e] != '\n'
            invariant
                pos <= e <= n == s@.len(),
                rest == s@.subrange(pos as int, n as int),
                nl_index(rest) == (e - pos) + nl_index(s@.subrange(e as int, n as int)),
            decreases n - e,
        {
            assert(s@.subrange(e as int, n as int).drop_first() =~= s@.subrange(e + 1, n as int));
            e = e + 1;
        }
        proof {
            lemma_nl_index(rest);
        }
        assert(nl_index(rest) == e - pos);
        let mut le = e;
        if e < n && le > pos && s[le - 1] == '\r' {
            le = le - 1;
        }
        let ghost line = s@.subrange(pos as int, le as int);
        proof {
            if e < n {
                assert(line == strip_cr(rest.subrange(0, e - pos))) by {
                    assert(rest.subrange(0, e - pos) =~= s@.subrange(pos as int, e as int));
                    if e > pos && s@[e - 1] == '\r' {
                        assert(s@.subrange(pos as int, e as int).drop_last() =~= line);
                    }
                }
                assert(rest.subrange(e - pos + 1, rest.len() as int) =~= s@.subrange(e + 1, n as int));
                assert(lines(rest) == seq![line] + lines(s@.subrange(e + 1, n as int)));
            } else {
                assert(line =~= rest);
                assert(lines(rest) == seq![line]);
                assert(s@.subrange(n as int, n as int) =~= Seq::<char>::empty());
            }
        }
        p.apply_line(&s, pos, le);
        proof {
            let nd = done.push(line);
            assert(nd.drop_last() =~= done);
            done = nd;
        }
        pos = if e < n { e + 1 } else { n };
        assert(lines(s@) =~= done + lines(s@.subrange(pos as int, n as int)));
    }
    assert(s@.subrange(pos as int, n as int) =~= Seq::<char>::empty());
    assert(done =~= lines(s@));
    if p.continuation && p.current.len() > 0 {
        let m = p.current.len();
        assert(p.current@.subrange(0, m as int) =~= p.current@);
        match parse_kv_range(&p.current, 0, m) {
            Some((k, v)) => p.props.insert(k, v),
            None => {},
        }
    }
    Ok(p.props)
}

/// The line `key=value`.
pub open spec fn entry_line(e: (Seq<char>, Seq<char>)) -> Seq<char> {
    e.0 + seq!['='] + e.1
}

/// Lines joined with `\n` separators (no trailing line feed).
pub open spec fn join_lines(ls: Seq<Seq<char>>) -> Seq<char>
    decreases ls.len(),
{
    if ls.len() == 0 {
        seq![]
    } else if ls.len() == 1 {
        ls[0]
    } else {
        ls[0] + seq!['\n'] + join_lines(ls.drop_first())
    }
}

/// The text `serialize_properties` writes for `es`: one `key=value` line per
/// entry, lines in lexicographic order, separated by `\n`.
pub open spec fn serialized(es: Entries) -> Seq<char> {
    join_lines(es.map_values(|e: (Seq<char>, Seq<char>)| entry_line(e)).sort_by(lex_order()))
}

proof fn lemma_join_lines_push(ls: Seq<Seq<char>>, l: Seq<char>)
    ensures
        join_lines(ls.push(l)) == if ls.len() == 0 {
            l
        } else {
            join_lines(ls) + seq!['\n'] + l
        },
    decreases ls.len(),
{
    if ls.len() >= 1 {
        let t = ls.push(l);
        assert(t.drop_first() =~= ls.drop_first().push(l));
        lemma_join_lines_push(ls.drop_first(), l);
        if ls.len() == 1 {
            assert(ls.drop_first() =~= Seq::<Seq<char>>::empty());
        }
    }
}

/// The lines of `es`, sorted, as character vectors.
fn sorted_entry_lines(es: &Vec<(String, String)>) -> (out: Vec<Vec<char>>)
    ensures
        out@.map_values(|v: Vec<char>| v@) == es@.map_values(|e: (String, String)| (e.0@, e.1@)).map_values(
            |e: (Seq<char>, Seq<char>)| entry_line(e),
        ).sort_by(lex_order()),
{
    let ghost entries = es@.map_values(|e: (String, String)| (e.0@, e.1@));
    let ghost all = entries.map_values(|e: (Seq<char>, Seq<char>)| entry_line(e));
    let ghost leq = lex_order();
    proof {
        lemma_lex_total_ordering();
    }
    let mut out: Vec<Vec<char>> = Vec::new();
    let mut i: usize = 0;
    assert(out@.map_values(|v: Vec<char>| v@) =~= Seq::<Seq<char>>::empty());
    assert(all.take(0) =~= Seq::<Seq<char>>::empty());
    while i < es.len()
        invariant
            i <= es@.len(),
            entries == es@.map_values(|e: (String, String)| (e.0@, e.1@)),
            all == entries.map_values(|e: (Seq<char>, Seq<char>)| entry_line(e)),
            leq == lex_order(),
            vstd::relations::total_ordering(leq),
            sorted_by(out@.map_values(|v: Vec<char>| v@), leq),
            out@.map_values(|v: Vec<char>| v@).to_multiset() == all.take(i as int).to_multiset(),
        decreases es@.len() - i,
    {
        let mut line = chars_of(es[i].0.as_str());
        line.push('=');
        let value = chars_of(es[i].1.as_str());
        append_chars(&mut line, &value);
        let ghost x = line@;
        assert(x == all[i as int]) by {
            assert(entries[i as int] == (es@[i as int].0@, es@[i as int].1@));
        }
        let ghost g = out@.map_values(|v: Vec<char>| v@);
        let mut p: usize = 0;
        while p < out.len() && lex_less_eq(&out[p], &line)
            invariant
                p <= out@.len(),
                g == out@.map_values(|v: Vec<char>| v@),
                x == line@,
                forall|q: int| 0 <= q < p ==> lex_le(#[trigger] g[q], x),
            decreases out@.len() - p,
        {
            p = p + 1;
        }
        let ghost before = g;
        out.insert(p, line);
        proof {
            let g2 = out@.map_values(|v: Vec<char>| v@);
            assert(g2 =~= before.insert(p as int, x));
            assert forall|a: int, b: int| 0 <= a < b < g2.len() implies #[trigger] leq(g2[a], g2[b]) by {
                if p < before.len() {
                    lemma_lex_connected(before[p as int], x);
                }
                if a < p && b == p {
                } else if a == p && b > p {
                    if b - 1 > p {
                        assert(leq(before[p as int], before[b - 1]));
                        lemma_lex_transitive(x, before[p as int], before[b - 1]);
                    }
                } else if a < p && b > p {
                    assert(leq(before[a], before[b - 1]));
                } else if b < p {
                    assert(leq(before[a], before[b]));
                } else {
                    assert(leq(before[a - 1], before[b - 1]));
                }
            }
            vstd::seq_lib::to_multiset_insert(before, p as int, x);
            assert(all.take(i + 1) =~= all.take(i as int).push(x));
            all.take(i as int).to_multiset_ensures();
        }
        i = i + 1;
    }
    proof {
        assert(all.take(es@.len() as int) =~= all);
        all.lemma_sort_by_ensures(leq);
        vstd::seq_lib::lemma_sorted_unique(out@.map_values(|v: Vec<char>| v@), all.sort_by(leq), leq);
    }
    out
}

/// Writes properties as `key=value` lines, sorted, joined by `\n`.
pub fn serialize_properties(props: &Properties) -> (s: String)
    ensures
        s@ == serialized(props@),
{
    let es = props.entries();
    let lines = sorted_entry_lines(es);
    let ghost ls = lines@.map_values(|v: Vec<char>| v@);
    let mut out: Vec<char> = Vec::new();
    let mut i: usize = 0;
    while i < lines.len()
        invariant
            i <= lines@.len(),
            ls == lines@.map_values(|v: Vec<char>| v@),
            out@ == join_lines(ls.take(i as int)),
        decreases lines@.len() - i,
    {
        proof {
            lemma_join_lines_push(ls.take(i as int), ls[i as int]);
            assert(ls.take(i + 1) =~= ls.take(i as int).push(ls[i as int]));
        }
        if i > 0 {
            out.push('\n');
        } else {
            assert(ls.take(0) =~= Seq::<Seq<char>>::empty());
        }
        append_chars(&mut out, &lines[i]);
        assert(out@ =~= join_lines(ls.take(i + 1)));
        i = i + 1;
    }
    assert(ls.take(lines@.len() as int) =~= ls);
    string_of(&out)
}

/// A key that a `key=value` line carries unchanged: non-empty, no `=`, `:`
/// or line break, not starting with a comment marker, no whitespace at
/// either end.
pub open spec fn plain_key(k: Seq<char>) -> bool {
    &&& k.len() > 0
    &&& !is_ws(k[0]) && !is_ws(k.last())
    &&& k[0] != '#' && k[0] != '!'
    &&& forall|i: int| 0 <= i < k.len() ==> k[i] != '=' && k[i] != ':' && k[i] != '\n' && k[i] != '\r'
}

/// A value that a `key=value` line carries unchanged: no line break, no
/// whitespace at either end, not ending in a backslash.
pub open spec fn plain_value(v: Seq<char>) -> bool {
    &&& forall|i: int| 0 <= i < v.len() ==> v[i] != '\n' && v[i] != '\r'
    &&& v.len() > 0 ==> !is_ws(v[0]) && !is_ws(v.last()) && v.last() != '\\'
}

pub open spec fn plain_entry(e: (Seq<char>, Seq<char>)) -> bool {
    plain_key(e.0) && plain_value(e.1)
}

proof fn lemma_trim_identity(s: Seq<char>)
    requires
        s.len() == 0 || (!is_ws(s[0]) && !is_ws(s.last())),
    ensures
        trim(s) == s,
{
}

/// A plain entry's line is a complete, uncontinued line holding that entry.
proof fn lemma_entry_line_parses(e: (Seq<char>, Seq<char>))
    requires
        plain_entry(e),
    ensures
        trim(entry_line(e)) == entry_line(e),
        !is_skippable(entry_line(e)),
        !continues(entry_line(e)),
        parse_kv(entry_line(e)) == Some(e),
        entry_line(e).len() > 0,
        entry_line(e).last() != '\r',
        forall|i: int| 0 <= i < entry_line(e).len() ==> entry_line(e)[i] != '\n',
{
    let (k, v) = e;
    let l = entry_line(e);
    assert(l[0] == k[0]);
    if v.len() > 0 {
        assert(l.last() == v.last());
    } else {
        assert(l.last() == '=');
    }
    lemma_trim_identity(l);
    assert(trailing_backslashes(l) == 0);
    assert forall|j: int| 0 <= j < k.len() implies l[j] != '=' && l[j] != ':' by {
        assert(l[j] == k[j]);
    }
    lemma_first_sep_at(l, k.len() as int);
    assert(l.subrange(0, k.len() as int) =~= k);
    assert(l.subrange(k.len() as int + 1, l.len() as int) =~= v);
    lemma_trim_identity(k);
    lemma_trim_identity(v);
    assert forall|i: int| 0 <= i < l.len() implies l[i] != '\n' by {
        if i < k.len() {
            assert(l[i] == k[i]);
        } else if i > k.len() {
            assert(l[i] == v[i - k.len() - 1]);
        }
    }
}

/// The lines of lines joined by `\n` are those lines, when none is empty,
/// holds a line feed, or ends with a carriage return.
proof fn lemma_lines_of_join(ls: Seq<Seq<char>>)
    requires
        forall|i: int|
            0 <= i < ls.len() ==> (#[trigger] ls[i]).len() > 0 && ls[i].last() != '\r' && forall|j: int|
                0 <= j < ls[i].len() ==> ls[i][j] != '\n',
    ensures
        lines(join_lines(ls)) == ls,
    decreases ls.len(),
{
    if ls.len() == 0 {
        assert(lines(join_lines(ls)) =~= ls);
    } else if ls.len() == 1 {
        let l = ls[0];
        lemma_nl_index(l);
        assert(lines(l) =~= ls);
    } else {
        let l = ls[0];
        let rest = join_lines(ls.drop_first());
        let s = join_lines(ls);
        assert(s == l + seq!['\n'] + rest);
        lemma_nl_index(s);
        assert(s[l.len() as int] == '\n');
        assert(nl_index(s) == l.len()) by {
            if nl_index(s) < l.len() {
                assert(s[nl_index(s)] == l[nl_index(s)]);
            }
        }
        assert(s.subrange(0, l.len() as int) =~= l);
        assert(s.subrange(l.len() as int + 1, s.len() as int) =~= rest);
        assert forall|i: int| 0 <= i < ls.drop_first().len() implies (#[trigger] ls.drop_first()[i]).len() > 0
            && ls.drop_first()[i].last() != '\r' && forall|j: int|
            0 <= j < ls.drop_first()[i].len() ==> ls.drop_first()[i][j] != '\n' by {
            assert(ls.drop_first()[i] == ls[i + 1]);
        }
        lemma_lines_of_join(ls.drop_first());
        assert(lines(s) =~= ls);
    }
}

/// Entries after inserting each pair of `ps` in order.
pub open spec fn fold_inserts(ps: Entries) -> Entries
    decreases ps.len(),
{
    if ps.len() == 0 {
        seq![]
    } else {
        let prev = fold_inserts(ps.drop_last());
        insert_entry(prev, ps.last().0, ps.last().1)
    }
}

proof fn lemma_fold_inserts(ps: Entries)
    ensures
        distinct_keys(fold_inserts(ps)),
        entries_map(fold_inserts(ps)) == entries_map(ps),
    decreases ps.len(),
{
    if ps.len() > 0 {
        lemma_fold_inserts(ps.drop_last());
        let prev = fold_inserts(ps.drop_last());
        lemma_insert_distinct(prev, ps.last().0, ps.last().1);
        lemma_insert_entry_map(prev, ps.last().0, ps.last().1);
    }
}

/// Parsing lines that each hold one plain entry records those entries in
/// order.
proof fn lemma_fold_plain_lines(ls: Seq<Seq<char>>, ps: Entries)
    requires
        ls.len() == ps.len(),
        forall|i: int| 0 <= i < ps.len() ==> plain_entry(#[trigger] ps[i]) && ls[i] == entry_line(ps[i]),
    ensures
        fold_lines(ls) == (fold_inserts(ps), Seq::<char>::empty(), false),
    decreases ls.len(),
{
    if ls.len() > 0 {
        let ls0 = ls.drop_last();
        let ps0 = ps.drop_last();
        assert forall|i: int| 0 <= i < ps0.len() implies plain_entry(#[trigger] ps0[i]) && ls0[i]
            == entry_line(ps0[i]) by {
            assert(ps0[i] == ps[i]);
        }
        lemma_fold_plain_lines(ls0, ps0);
        let e = ps.last();
        assert(plain_entry(ps[ps.len() - 1]));
        lemma_entry_line_parses(e);
    }
}

/// Reading back what `serialize_properties` wrote gives the same properties,
/// for keys and values that a `key=value` line carries unchanged.
pub proof fn law_properties_roundtrip(es: Entries)
    requires
        distinct_keys(es),
        forall|i: int| 0 <= i < es.len() ==> plain_entry(#[trigger] es[i]),
    ensures
        entries_map(parsed_entries(serialized(es))) == entries_map(es),
{
    let leq = lex_order();
    let all = es.map_values(|e: (Seq<char>, Seq<char>)| entry_line(e));
    lemma_lex_total_ordering();
    all.lemma_sort_by_ensures(leq);
    let ls = all.sort_by(leq);
    assert forall|x: Seq<char>| ls.contains(x) <==> all.contains(x) by {
        vstd::seq_lib::to_multiset_contains(ls, x);
        vstd::seq_lib::to_multiset_contains(all, x);
    }
    // every line of `ls` is the line of some entry
    assert forall|i: int| 0 <= i < ls.len() implies exists|j: int|
        0 <= j < es.len() && #[trigger] ls[i] == entry_line(es[j]) by {
        assert(ls.contains(ls[i]));
        let j = choose|j: int| 0 <= j < all.len() && all[j] == ls[i];
    }
    let ps = ls.map_values(|l: Seq<char>| parse_kv(l).unwrap());
    assert forall|i: int| 0 <= i < ps.len() implies plain_entry(#[trigger] ps[i]) && ls[i] == entry_line(
        ps[i],
    ) && exists|j: int| 0 <= j < es.len() && ps[i] == es[j] by {
        let j = choose|j: int| 0 <= j < es.len() && #[trigger] ls[i] == entry_line(es[j]);
        lemma_entry_line_parses(es[j]);
    }
    // distinct entries have distinct lines, and `ls` repeats no line
    assert(all.no_duplicates()) by {
        assert forall|a: int, b: int| 0 <= a < all.len() && 0 <= b < all.len() && a != b implies all[a]
            != all[b] by {
            lemma_entry_line_parses(es[a]);
            lemma_entry_line_parses(es[b]);
        }
    }
    all.lemma_multiset_has_no_duplicates();
    assert forall|x: Seq<char>| ls.to_multiset().contains(x) implies ls.to_multiset().count(x) == 1 by {}
    ls.lemma_multiset_has_no_duplicates_conv();
    assert(distinct_keys(ps)) by {
        assert forall|a: int, b: int| 0 <= a < b < ps.len() implies ps[a].0 != ps[b].0 by {
            let ja = choose|j: int| 0 <= j < es.len() && ps[a] == es[j];
            let jb = choose|j: int| 0 <= j < es.len() && ps[b] == es[j];
            if ps[a].0 == ps[b].0 {
                assert(ja == jb);
                assert(ls[a] == ls[b]);
            }
        }
    }
    // the text parses back to those entries
    assert forall|i: int| 0 <= i < ls.len() implies (#[trigger] ls[i]).len() > 0 && ls[i].last() != '\r'
        && forall|j: int| 0 <= j < ls[i].len() ==> ls[i][j] != '\n' by {
        assert(plain_entry(ps[i]));
        lemma_entry_line_parses(ps[i]);
    }
    lemma_lines_of_join(ls);
    lemma_fold_plain_lines(ls, ps);
    lemma_fold_inserts(ps);
    assert(parsed_entries(serialized(es)) == fold_inserts(ps));
    // and the two entry lists describe the same map
    lemma_entries_map(ps);
    lemma_entries_map(es);
    let m1 = entries_map(ps);
    let m2 = entries_map(es);
    assert forall|k: Seq<char>| #[trigger] m1.contains_key(k) <==> m2.contains_key(k) by {
        if m1.contains_key(k) {
            let i = choose|i: int| 0 <= i < ps.len() && ps[i].0 == k;
            let j = choose|j: int| 0 <= j < es.len() && ps[i] == es[j];
        }
        if m2.contains_key(k) {
            let j = choose|j: int| 0 <= j < es.len() && es[j].0 == k;
            assert(all.contains(all[j]));
            assert(ls.contains(all[j]));
            let i = choose|i: int| 0 <= i < ls.len() && ls[i] == all[j];
            lemma_entry_line_parses(es[j]);
            assert(ps[i] == es[j]);
        }
    }
    assert forall|k: Seq<char>| m1.contains_key(k) implies #[trigger] m1[k] == m2[k] by {
        let i = choose|i: int| 0 <= i < ps.len() && ps[i].0 == k;
        let j = choose|j: int| 0 <= j < es.len() && ps[i] == es[j];
        assert(m1[ps[i].0] == ps[i].1);
        assert(m2[es[j].0] == es[j].1);
    }
    assert(m1 =~= m2);
}


/// The lines of a text that ends a line, followed by one more line, are its
/// lines and that line.
proof fn lemma_lines_append(c: Seq<char>, l: Seq<char>)
    requires
        c.len() == 0 || c.last() == '\n',
        forall|j: int| 0 <= j < l.len() ==> l[j] != '\n',
    ensures
        lines(c + l + seq!['\n']) == lines(c).push(strip_cr(l)),
    decreases c.len(),
{
    let s = c + l + seq!['\n'];
    lemma_nl_index(s);
    if c.len() == 0 {
        assert(s =~= l + seq!['\n']);
        assert(s[l.len() as int] == '\n');
        if nl_index(s) < l.len() {
            assert(s[nl_index(s)] == l[nl_index(s)]);
        }
        assert(nl_index(s) == l.len());
        assert(s.subrange(0, l.len() as int) =~= l);
        assert(s.subrange(l.len() as int + 1, s.len() as int) =~= Seq::<char>::empty());
        assert(lines(Seq::<char>::empty()) =~= Seq::<Seq<char>>::empty());
        assert(lines(c) =~= Seq::<Seq<char>>::empty());
        assert(lines(s) =~= seq![strip_cr(l)]);
    } else {
        lemma_nl_index(c);
        let e = nl_index(c);
        assert(c[c.len() - 1] == '\n');
        assert(e < c.len());
        assert(s[e] == c[e]);
        assert forall|j: int| 0 <= j < e implies s[j] != '\n' by {
            assert(s[j] == c[j]);
        }
        if nl_index(s) < e {
            assert(s[nl_index(s)] == '\n');
        }
        assert(nl_index(s) == e);
        let c2 = c.subrange(e + 1, c.len() as int);
        assert(s.subrange(0, e) =~= c.subrange(0, e));
        assert(s.subrange(e + 1, s.len() as int) =~= c2 + l + seq!['\n']);
        if c2.len() > 0 {
            assert(c2.last() == c.last());
        }
        lemma_lines_append(c2, l);
        assert(lines(c) == seq![strip_cr(c.subrange(0, e))] + lines(c2));
        assert(lines(s) == seq![strip_cr(c.subrange(0, e))] + lines(c2 + l + seq!['\n']));
        assert(lines(s) =~= lines(c).push(strip_cr(l)));
    }
}

/// Whether the text `c` ends a logical line: it is empty, or ends with a
/// line feed after a line that does not ask to be continued.
pub open spec fn ends_logical_line(c: Seq<char>) -> bool {
    c.len() == 0 || (c.last() == '\n' && !fold_lines(lines(c)).2)
}

/// A comment line (one whose text, trimmed, starts with `#` or `!`) adds
/// nothing: after a text that ends a logical line, appending such a line
/// leaves the parsed entries as they are.
pub proof fn law_comment_lines_ignored(c: Seq<char>, l: Seq<char>)
    requires
        ends_logical_line(c),
        forall|j: int| 0 <= j < l.len() ==> l[j] != '\n',
        trim(strip_cr(l)).len() > 0,
        trim(strip_cr(l))[0] == '#' || trim(strip_cr(l))[0] == '!',
    ensures
        parsed_entries(c + l + seq!['\n']) == parsed_entries(c),
{
    lemma_lines_append(c, l);
    let ls = lines(c);
    assert(ls.push(strip_cr(l)).drop_last() =~= ls);
    if c.len() == 0 {
        assert(lines(c) =~= Seq::<Seq<char>>::empty());
    }
    assert(!fold_lines(ls).2);
    assert(fold_lines(ls.push(strip_cr(l))) == step(fold_lines(ls), strip_cr(l)));
}

/// A comment line read on its own gives no entry, whatever follows it.
pub proof fn law_comment_line_alone(l: Seq<char>)
    requires
        forall|j: int| 0 <= j < l.len() ==> l[j] != '\n',
        trim(strip_cr(l)).len() > 0,
        trim(strip_cr(l))[0] == '#' || trim(strip_cr(l))[0] == '!',
    ensures
        parsed_entries(l + seq!['\n']) == Seq::<(Seq<char>, Seq<char>)>::empty(),
{
    law_comment_lines_ignored(Seq::empty(), l);
    assert(Seq::<char>::empty() + l + seq!['\n'] =~= l + seq!['\n']);
    assert(lines(Seq::<char>::empty()) =~= Seq::<Seq<char>>::empty());
}

/// A blank line adds nothing: after a text that ends a logical line,
/// appending a line of only whitespace leaves the parsed entries as they
/// are.
pub proof fn law_blank_lines_ignored(c: Seq<char>, l: Seq<char>)
    requires
        ends_logical_line(c),
        forall|j: int| 0 <= j < l.len() ==> l[j] != '\n',
        trim(strip_cr(l)).len() == 0,
    ensures
        parsed_entries(c + l + seq!['\n']) == parsed_entries(c),
{
    lemma_lines_append(c, l);
    let ls = lines(c);
    assert(ls.push(strip_cr(l)).drop_last() =~= ls);
    if c.len() == 0 {
        assert(lines(c) =~= Seq::<Seq<char>>::empty());
    }
    assert(fold_lines(ls.push(strip_cr(l))) == step(fold_lines(ls), strip_cr(l)));
}

/// A line is split at its first separator: with a key part free of `=`
/// and `:` that is not blank, `key<sep>value` (`sep` being `=` or `:`)
/// gives the trimmed key and the trimmed value, whatever the value holds;
/// a line with no separator gives no pair.
pub proof fn law_key_value_split(k: Seq<char>, sep: char, v: Seq<char>)
    requires
        sep == '=' || sep == ':',
        forall|j: int| 0 <= j < k.len() ==> k[j] != '=' && k[j] != ':',
    ensures
        trim(k).len() > 0 ==> parse_kv(k + seq![sep] + v) == Some((trim(k), trim(v))),
        trim(k).len() == 0 ==> parse_kv(k + seq![sep] + v) is None,
        parse_kv(k) is None,
{
    let line = k + seq![sep] + v;
    assert(line[k.len() as int] == sep);
    assert forall|j: int| 0 <= j < k.len() implies line[j] != '=' && line[j] != ':' by {
        assert(line[j] == k[j]);
    }
    lemma_first_sep_at(line, k.len() as int);
    assert(line.subrange(0, k.len() as int) =~= k);
    assert(line.subrange(k.len() as int + 1, line.len() as int) =~= v);
    lemma_first_sep_none(k);
}

} // verus!
