//! The record of what the push client is subscribed to: per subject, the
//! set of symbols (market data), and the set of subjects subscribed for
//! the account. After a reconnection the record is replayed.
//!
//! Each subject has a slot; a slot is absent, or holds the subject's
//! symbols without repetition, in the order they were first added.

use vstd::prelude::*;
use crate::push::proto_message::{
    build_subscribe_message, next_id, same_text, subject_data_type, subject_to_data_type,
    Command, Request, RequestIds,
};
use crate::push::push_message::SubjectType;

verus! {

/// Number of subjects.
pub const SUBJECT_COUNT: usize = 14;

/// The slot of a subject.
pub open spec fn subject_slot(s: SubjectType) -> int {
    match s {
        SubjectType::Quote => 0,
        SubjectType::Tick => 1,
        SubjectType::Depth => 2,
        SubjectType::Option => 3,
        SubjectType::Future => 4,
        SubjectType::Kline => 5,
        SubjectType::StockTop => 6,
        SubjectType::OptionTop => 7,
        SubjectType::FullTick => 8,
        SubjectType::QuoteBbo => 9,
        SubjectType::Asset => 10,
        SubjectType::Position => 11,
        SubjectType::Order => 12,
        SubjectType::Transaction => 13,
    }
}

/// The subject of a slot.
pub open spec fn slot_subject(i: int) -> SubjectType {
    if i == 0 {
        SubjectType::Quote
    } else if i == 1 {
        SubjectType::Tick
    } else if i == 2 {
        SubjectType::Depth
    } else if i == 3 {
        SubjectType::Option
    } else if i == 4 {
        SubjectType::Future
    } else if i == 5 {
        SubjectType::Kline
    } else if i == 6 {
        SubjectType::StockTop
    } else if i == 7 {
        SubjectType::OptionTop
    } else if i == 8 {
        SubjectType::FullTick
    } else if i == 9 {
        SubjectType::QuoteBbo
    } else if i == 10 {
        SubjectType::Asset
    } else if i == 11 {
        SubjectType::Position
    } else if i == 12 {
        SubjectType::Order
    } else {
        SubjectType::Transaction
    }
}

/// Slots and subjects correspond one to one.
pub proof fn lemma_slots(s: SubjectType, i: int)
    ensures
        0 <= subject_slot(s) < 14,
        slot_subject(subject_slot(s)) == s,
        0 <= i < 14 ==> subject_slot(slot_subject(i)) == i,
{
}

/// The slot of a subject.
pub fn slot_of(s: SubjectType) -> (i: usize)
    ensures
        i == subject_slot(s),
{
    match s {
        SubjectType::Quote => 0,
        SubjectType::Tick => 1,
        SubjectType::Depth => 2,
        SubjectType::Option => 3,
        SubjectType::Future => 4,
        SubjectType::Kline => 5,
        SubjectType::StockTop => 6,
        SubjectType::OptionTop => 7,
        SubjectType::FullTick => 8,
        SubjectType::QuoteBbo => 9,
        SubjectType::Asset => 10,
        SubjectType::Position => 11,
        SubjectType::Order => 12,
        SubjectType::Transaction => 13,
    }
}

/// The subject of a slot.
pub fn subject_of(i: usize) -> (s: SubjectType)
    requires
        i < 14,
    ensures
        s == slot_subject(i as int),
{
    if i == 0 {
        SubjectType::Quote
    } else if i == 1 {
        SubjectType::Tick
    } else if i == 2 {
        SubjectType::Depth
    } else if i == 3 {
        SubjectType::Option
    } else if i == 4 {
        SubjectType::Future
    } else if i == 5 {
        SubjectType::Kline
    } else if i == 6 {
        SubjectType::StockTop
    } else if i == 7 {
        SubjectType::OptionTop
    } else if i == 8 {
        SubjectType::FullTick
    } else if i == 9 {
        SubjectType::QuoteBbo
    } else if i == 10 {
        SubjectType::Asset
    } else if i == 11 {
        SubjectType::Position
    } else if i == 12 {
        SubjectType::Order
    } else {
        SubjectType::Transaction
    }
}

/// The texts of some strings.
pub open spec fn texts(v: Seq<String>) -> Seq<Seq<char>> {
    v.map_values(|s: String| s@)
}

/// `cur` followed by those of `new` it does not hold yet, each once, in
/// order.
pub open spec fn append_new(cur: Seq<Seq<char>>, new: Seq<Seq<char>>) -> Seq<Seq<char>>
    decreases new.len(),
{
    if new.len() == 0 {
        cur
    } else {
        append_new(
            if cur.contains(new[0]) {
                cur
            } else {
                cur.push(new[0])
            },
            new.drop_first(),
        )
    }
}

/// Whether a text is not among `gone`.
pub open spec fn not_in(gone: Seq<Seq<char>>) -> spec_fn(Seq<char>) -> bool {
    |x: Seq<char>| !gone.contains(x)
}

/// `cur` without the elements of `gone`.
pub open spec fn without(cur: Seq<Seq<char>>, gone: Seq<Seq<char>>) -> Seq<Seq<char>> {
    cur.filter(not_in(gone))
}

/// Removing from a sequence with one more element.
proof fn lemma_without_push(s: Seq<Seq<char>>, x: Seq<char>, g: Seq<Seq<char>>)
    ensures
        without(s.push(x), g) == (if g.contains(x) {
            without(s, g)
        } else {
            without(s, g).push(x)
        }),
{
    reveal(Seq::filter);
    let t = s.push(x);
    assert(t.drop_last() =~= s);
    assert(t.last() == x);
    assert(t.filter(not_in(g)) == (if not_in(g)(t.last()) {
        t.drop_last().filter(not_in(g)).push(t.last())
    } else {
        t.drop_last().filter(not_in(g))
    }));
}

/// `append_new` keeps every element it had and adds every new one, and
/// nothing else.
pub proof fn lemma_append_new_set(cur: Seq<Seq<char>>, new: Seq<Seq<char>>)
    ensures
        append_new(cur, new).to_set() == cur.to_set().union(new.to_set()),
    decreases new.len(),
{
    if new.len() > 0 {
        let next = if cur.contains(new[0]) {
            cur
        } else {
            cur.push(new[0])
        };
        lemma_append_new_set(next, new.drop_first());
        assert(new =~= seq![new[0]] + new.drop_first());
        assert(next.to_set() =~= cur.to_set().insert(new[0])) by {
            if !cur.contains(new[0]) {
                assert forall|x: Seq<char>| next.contains(x) <==> cur.contains(x) || x == new[0] by {
                    if next.contains(x) {
                        let k = choose|k: int| 0 <= k < next.len() && next[k] == x;
                        if k < cur.len() {
                            assert(cur[k] == x);
                        }
                    }
                    if cur.contains(x) {
                        let k = choose|k: int| 0 <= k < cur.len() && cur[k] == x;
                        assert(next[k] == x);
                    }
                    if x == new[0] {
                        assert(next[cur.len() as int] == x);
                    }
                }
            }
        }
        assert(new.to_set() =~= new.drop_first().to_set().insert(new[0])) by {
            assert forall|x: Seq<char>| new.contains(x) <==> new.drop_first().contains(x) || x == new[0] by {
                if new.contains(x) {
                    let k = choose|k: int| 0 <= k < new.len() && new[k] == x;
                    if k > 0 {
                        assert(new.drop_first()[k - 1] == x);
                    }
                }
                if new.drop_first().contains(x) {
                    let k = choose|k: int| 0 <= k < new.drop_first().len() && new.drop_first()[k] == x;
                    assert(new[k + 1] == x);
                }
            }
        }
        assert(append_new(cur, new).to_set() =~= cur.to_set().union(new.to_set()));
    } else {
        assert(new.to_set() =~= Set::<Seq<char>>::empty());
        assert(cur.to_set().union(new.to_set()) =~= cur.to_set());
    }
}

/// Recording symbols for a subject leaves it subscribed to exactly what it
/// had and the new symbols.
pub proof fn law_add_subscription(before: SubscriptionState, subject: SubjectType, symbols: Seq<Seq<char>>)
    requires
        before.slots.len() == 14,
    ensures
        ({
            let cur = match before.slots[subject_slot(subject)] {
                Some(c) => c,
                None => Seq::empty(),
            };
            let after = SubscriptionState {
                slots: before.slots.update(subject_slot(subject), Some(append_new(cur, symbols))),
                ..before
            };
            &&& after.market().contains_key(subject)
            &&& after.market()[subject] == (if before.market().contains_key(subject) {
                before.market()[subject]
            } else {
                Set::empty()
            }).union(symbols.to_set())
            &&& forall|s: SubjectType| s != subject ==> after.market().contains_key(s)
                == before.market().contains_key(s)
        }),
{
    let cur = match before.slots[subject_slot(subject)] {
        Some(c) => c,
        None => Seq::<Seq<char>>::empty(),
    };
    lemma_append_new_set(cur, symbols);
    lemma_slots(subject, 0);
    assert forall|s: SubjectType| s != subject implies subject_slot(s) != subject_slot(subject) by {
        lemma_slots(s, 0);
        lemma_slots(subject, 0);
    }
    if before.slots[subject_slot(subject)] is None {
        assert(cur.to_set() =~= Set::<Seq<char>>::empty());
    }
}

/// Every subscribed slot is among the slots a replay lists.
proof fn lemma_market_slots_complete(st: SubscriptionState, n: int, i: int)
    requires
        0 <= i < n,
        st.slots[i] is Some,
    ensures
        market_slots(st, n).contains(i),
    decreases n,
{
    if i < n - 1 {
        lemma_market_slots_complete(st, n - 1, i);
        if st.slots[n - 1] is Some {
            let prev = market_slots(st, n - 1);
            let k = choose|k: int| 0 <= k < prev.len() && prev[k] == i;
            assert(market_slots(st, n)[k] == i);
        }
    } else {
        assert(market_slots(st, n).last() == i);
    }
}

/// Every account-subscribed slot is among the slots a replay lists.
proof fn lemma_account_slots_complete(st: SubscriptionState, n: int, i: int)
    requires
        0 <= i < n,
        st.accounts[i],
    ensures
        account_slots(st, n).contains(i),
    decreases n,
{
    if i < n - 1 {
        lemma_account_slots_complete(st, n - 1, i);
        if st.accounts[n - 1] {
            let prev = account_slots(st, n - 1);
            let k = choose|k: int| 0 <= k < prev.len() && prev[k] == i;
            assert(account_slots(st, n)[k] == i);
        }
    } else {
        assert(account_slots(st, n).last() == i);
    }
}

/// A replay after reconnection covers everything recorded: each subscribed
/// subject and each account subject has its place in the replay.
pub proof fn law_replay_covers_all(st: SubscriptionState, s: SubjectType)
    ensures
        st.slots[subject_slot(s)] is Some ==> market_slots(st, 14).contains(subject_slot(s)),
        st.accounts[subject_slot(s)] ==> account_slots(st, 14).contains(subject_slot(s)),
{
    lemma_slots(s, 0);
    if st.slots[subject_slot(s)] is Some {
        lemma_market_slots_complete(st, 14, subject_slot(s));
    }
    if st.accounts[subject_slot(s)] {
        lemma_account_slots_complete(st, 14, subject_slot(s));
    }
}

/// The record, as plain values: a slot per subject (absent, or the
/// subject's symbols), and whether each subject is subscribed for the
/// account.
pub struct SubscriptionState {
    pub slots: Seq<Option<Seq<Seq<char>>>>,
    pub accounts: Seq<bool>,
}

impl SubscriptionState {
    /// Symbols per subscribed subject.
    pub open spec fn market(self) -> Map<SubjectType, Set<Seq<char>>> {
        Map::new(
            |s: SubjectType| self.slots[subject_slot(s)] is Some,
            |s: SubjectType| self.slots[subject_slot(s)].unwrap().to_set(),
        )
    }

    /// Subjects subscribed for the account.
    pub open spec fn account_subjects(self) -> Set<SubjectType> {
        Set::new(|s: SubjectType| self.accounts[subject_slot(s)])
    }

    /// Nothing subscribed.
    pub open spec fn empty() -> SubscriptionState {
        SubscriptionState {
            slots: Seq::new(14, |i: int| None),
            accounts: Seq::new(14, |i: int| false),
        }
    }
}

/// Texts joined with `,` between them.
pub open spec fn join_comma(ts: Seq<Seq<char>>) -> Seq<char>
    decreases ts.len(),
{
    if ts.len() == 0 {
        Seq::empty()
    } else if ts.len() == 1 {
        ts[0]
    } else {
        join_comma(ts.drop_last()) + seq![','] + ts.last()
    }
}

/// The strings of `v` joined with `,`.
pub fn join_with_commas(v: &Vec<String>) -> (s: String)
    ensures
        s@ == join_comma(texts(v@)),
{
    let mut s = String::new();
    let mut i: usize = 0;
    while i < v.len()
        invariant
            i <= v@.len(),
            s@ == join_comma(texts(v@).take(i as int)),
        decreases v@.len() - i,
    {
        let ghost prev = texts(v@).take(i as int);
        assert(texts(v@).take(i + 1).drop_last() =~= prev);
        if i > 0 {
            s.append(",");
        } else {
            assert(prev.len() == 0);
        }
        s.append(v[i].as_str());
        proof {
            let next = texts(v@).take(i + 1);
            reveal_strlit(",");
            assert(next.last() == v@[i as int]@);
            if i == 0 {
                assert(s@ =~= next[0]);
            } else {
                assert(s@ =~= join_comma(prev) + seq![','] + next.last());
            }
        }
        i = i + 1;
    }
    assert(texts(v@).take(v@.len() as int) =~= texts(v@));
    s
}

/// The slots below `n` that hold a subscription, in order.
pub open spec fn market_slots(st: SubscriptionState, n: int) -> Seq<int>
    decreases n,
{
    if n <= 0 {
        Seq::empty()
    } else if st.slots[n - 1] is Some {
        market_slots(st, n - 1).push(n - 1)
    } else {
        market_slots(st, n - 1)
    }
}

/// The slots below `n` subscribed for the account, in order.
pub open spec fn account_slots(st: SubscriptionState, n: int) -> Seq<int>
    decreases n,
{
    if n <= 0 {
        Seq::empty()
    } else if st.accounts[n - 1] {
        account_slots(st, n - 1).push(n - 1)
    } else {
        account_slots(st, n - 1)
    }
}

/// `r` is the SUBSCRIBE request with id `id` for the market data of slot
/// `slot`: its data type, its symbols joined with commas, no account and
/// no market.
pub open spec fn market_request(st: SubscriptionState, slot: int, id: int, r: Request) -> bool {
    &&& r.command == Command::Subscribe.code_spec()
    &&& r.id == id
    &&& r.connect is None
    &&& r.subscribe is Some
    &&& r.subscribe.unwrap().data_type == subject_data_type(slot_subject(slot)).code_spec()
    &&& r.subscribe.unwrap().symbols is Some
    &&& r.subscribe.unwrap().symbols.unwrap()@ == join_comma(st.slots[slot].unwrap())
    &&& r.subscribe.unwrap().account is None
    &&& r.subscribe.unwrap().market is None
}

/// `r` is the SUBSCRIBE request with id `id` for the account events of slot
/// `slot`: its data type, no symbols, the account, no market.
pub open spec fn account_request(slot: int, account: Seq<char>, id: int, r: Request) -> bool {
    &&& r.command == Command::Subscribe.code_spec()
    &&& r.id == id
    &&& r.connect is None
    &&& r.subscribe is Some
    &&& r.subscribe.unwrap().data_type == subject_data_type(slot_subject(slot)).code_spec()
    &&& r.subscribe.unwrap().symbols is None
    &&& r.subscribe.unwrap().account is Some
    &&& r.subscribe.unwrap().account.unwrap()@ == account
    &&& r.subscribe.unwrap().market is None
}

proof fn lemma_market_slots_bounds(st: SubscriptionState, n: int)
    requires
        0 <= n,
    ensures
        market_slots(st, n).len() <= n,
        forall|k: int| 0 <= k < market_slots(st, n).len() ==> 0 <= #[trigger] market_slots(st, n)[k] < n,
    decreases n,
{
    if n > 0 {
        lemma_market_slots_bounds(st, n - 1);
    }
}

proof fn lemma_account_slots_bounds(st: SubscriptionState, n: int)
    requires
        0 <= n,
    ensures
        account_slots(st, n).len() <= n,
        forall|k: int| 0 <= k < account_slots(st, n).len() ==> 0 <= #[trigger] account_slots(st, n)[k] < n,
    decreases n,
{
    if n > 0 {
        lemma_account_slots_bounds(st, n - 1);
    }
}

/// What the push client is subscribed to.
pub struct Subscriptions {
    present: Vec<bool>,
    symbols: Vec<Vec<String>>,
    accounts: Vec<bool>,
}

impl View for Subscriptions {
    type V = SubscriptionState;

    closed spec fn view(&self) -> SubscriptionState {
        SubscriptionState {
            slots: Seq::new(
                14,
                |i: int|
                    if self.present@[i] {
                        Some(texts(self.symbols@[i]@))
                    } else {
                        None
                    },
            ),
            accounts: self.accounts@,
        }
    }
}

/// Whether `s` holds no element twice.
pub open spec fn no_repeats(s: Seq<Seq<char>>) -> bool {
    forall|a: int, b: int| 0 <= a < b < s.len() ==> s[a] != s[b]
}

/// Whether `x` is among the texts of `v`.
fn holds(v: &Vec<String>, x: &String) -> (b: bool)
    ensures
        b == texts(v@).contains(x@),
{
    let mut i: usize = 0;
    while i < v.len()
        invariant
            i <= v@.len(),
            forall|k: int| 0 <= k < i ==> v@[k]@ != x@,
        decreases v@.len() - i,
    {
        if v[i] == *x {
            assert(texts(v@)[i as int] == x@);
            return true;
        }
        i = i + 1;
    }
    assert(!texts(v@).contains(x@)) by {
        if texts(v@).contains(x@) {
            let k = choose|k: int| 0 <= k < texts(v@).len() && texts(v@)[k] == x@;
            assert(v@[k]@ == x@);
        }
    }
    false
}

/// A copy of `v`.
fn copy_strings(v: &Vec<String>) -> (r: Vec<String>)
    ensures
        texts(r@) == texts(v@),
{
    let mut r: Vec<String> = Vec::new();
    let mut i: usize = 0;
    while i < v.len()
        invariant
            i <= v@.len(),
            texts(r@) == texts(v@).take(i as int),
        decreases v@.len() - i,
    {
        let ghost before = r@;
        r.push(v[i].clone());
        assert(r@ == before.push(v@[i as int]));
        assert(texts(r@) =~= texts(before).push(v@[i as int]@));
        assert(texts(r@) =~= texts(v@).take(i + 1));
        i = i + 1;
    }
    assert(texts(v@).take(v@.len() as int) =~= texts(v@));
    r
}

impl Subscriptions {
    /// Every slot present, and no slot repeating a symbol.
    pub closed spec fn wf(&self) -> bool {
        &&& self.present@.len() == 14
        &&& self.symbols@.len() == 14
        &&& self.accounts@.len() == 14
        &&& forall|i: int| 0 <= i < 14 ==> no_repeats(#[trigger] texts(self.symbols@[i]@))
    }

    /// Nothing subscribed.
    pub fn new() -> (s: Subscriptions)
        ensures
            s@ == SubscriptionState::empty(),
            s.wf(),
    {
        let mut present: Vec<bool> = Vec::new();
        let mut symbols: Vec<Vec<String>> = Vec::new();
        let mut accounts: Vec<bool> = Vec::new();
        let mut i: usize = 0;
        while i < 14
            invariant
                i <= 14,
                present@.len() == i,
                symbols@.len() == i,
                accounts@.len() == i,
                forall|k: int| 0 <= k < i ==> !present@[k],
                forall|k: int| 0 <= k < i ==> !accounts@[k],
                forall|k: int| 0 <= k < i ==> (#[trigger] symbols@[k])@.len() == 0,
            decreases 14 - i,
        {
            present.push(false);
            symbols.push(Vec::new());
            accounts.push(false);
            i = i + 1;
        }
        let s = Subscriptions { present, symbols, accounts };
        assert forall|k: int| 0 <= k < 14 implies no_repeats(#[trigger] texts(s.symbols@[k]@)) by {
            assert(s.symbols@[k]@.len() == 0);
            assert(texts(s.symbols@[k]@).len() == 0);
        }
        assert(s@.slots =~= SubscriptionState::empty().slots);
        assert(s@.accounts =~= SubscriptionState::empty().accounts);
        s
    }

    /// Records `symbols` for `subject` (the subject is recorded even with
    /// no symbols).
    pub fn add_subscription(&mut self, subject: SubjectType, symbols: &[String])
        requires
            old(self).wf(),
        ensures
            final(self).wf(),
            final(self)@ == (SubscriptionState {
                slots: old(self)@.slots.update(
                    subject_slot(subject),
                    Some(
                        append_new(
                            match old(self)@.slots[subject_slot(subject)] {
                                Some(cur) => cur,
                                None => Seq::empty(),
                            },
                            texts(symbols@),
                        ),
                    ),
                ),
                ..old(self)@
            }),
    {
        let i = slot_of(subject);
        let ghost old_slot = old(self)@.slots[i as int];
        let mut cur: Vec<String> = if self.present[i] {
            copy_strings(&self.symbols[i])
        } else {
            Vec::new()
        };
        let ghost start = texts(cur@);
        assert(start == match old_slot {
            Some(c) => c,
            None => Seq::<Seq<char>>::empty(),
        });
        assert(texts(symbols@).skip(0) =~= texts(symbols@));
        let mut k: usize = 0;
        while k < symbols.len()
            invariant
                k <= symbols@.len(),
                no_repeats(texts(cur@)),
                append_new(texts(cur@), texts(symbols@).skip(k as int)) == append_new(
                    start,
                    texts(symbols@),
                ),
            decreases symbols@.len() - k,
        {
            let ghost rest = texts(symbols@).skip(k as int);
            assert(rest.drop_first() =~= texts(symbols@).skip(k + 1));
            assert(rest[0] == symbols@[k as int]@);
            if !holds(&cur, &symbols[k]) {
                let ghost before = texts(cur@);
                cur.push(symbols[k].clone());
                assert(texts(cur@) =~= before.push(symbols@[k as int]@));
                assert forall|a: int, b: int| 0 <= a < b < texts(cur@).len() implies texts(cur@)[a]
                    != texts(cur@)[b] by {
                    if b == before.len() {
                        assert(before[a] == texts(cur@)[a]);
                    }
                }
            }
            k = k + 1;
        }
        assert(texts(symbols@).skip(symbols@.len() as int) =~= Seq::<Seq<char>>::empty());
        self.present.set(i, true);
        self.symbols.set(i, cur);
        assert(self@.slots =~= old(self)@.slots.update(
            subject_slot(subject),
            Some(append_new(start, texts(symbols@))),
        ));
    }

    /// Drops the record of `subject` (`None`), or just `symbols` from it;
    /// a subject left with no symbol is dropped. An unrecorded subject is
    /// left alone.
    pub fn remove_subscription(&mut self, subject: SubjectType, symbols: Option<&[String]>)
        requires
            old(self).wf(),
        ensures
            final(self).wf(),
            final(self)@ == (SubscriptionState {
                slots: match symbols {
                    None => old(self)@.slots.update(subject_slot(subject), None),
                    Some(gone) => match old(self)@.slots[subject_slot(subject)] {
                        Some(cur) => {
                            let rest = without(cur, texts(gone@));
                            old(self)@.slots.update(
                                subject_slot(subject),
                                if rest.len() == 0 {
                                    None
                                } else {
                                    Some(rest)
                                },
                            )
                        },
                        None => old(self)@.slots,
                    },
                },
                ..old(self)@
            }),
    {
        let i = slot_of(subject);
        match symbols {
            None => {
                self.present.set(i, false);
                self.symbols.set(i, Vec::new());
                assert(self@.slots =~= old(self)@.slots.update(subject_slot(subject), None));
            },
            Some(gone) => {
                if !self.present[i] {
                    assert(self@.slots =~= old(self)@.slots);
                    return ;
                }
                let ghost cur_view = texts(self.symbols@[i as int]@);
                let mut kept: Vec<String> = Vec::new();
                let n = self.symbols[i].len();
                let mut k: usize = 0;
                let ghost gone_texts = texts(gone@);
                while k < n
                    invariant
                        i < 14,
                        self.symbols@.len() == 14,
                        n == self.symbols@[i as int]@.len(),
                        cur_view == texts(self.symbols@[i as int]@),
                        gone_texts == texts(gone@),
                        k <= n,
                        texts(kept@) == without(cur_view.take(k as int), gone_texts),
                        no_repeats(cur_view),
                        no_repeats(texts(kept@)),
                        forall|a: int| 0 <= a < kept@.len() ==> cur_view.take(k as int).contains(
                            #[trigger] texts(kept@)[a],
                        ),
                    decreases n - k,
                {
                    let item = &self.symbols[i][k];
                    let mut found = false;
                    let mut g: usize = 0;
                    while g < gone.len()
                        invariant
                            g <= gone@.len(),
                            gone_texts == texts(gone@),
                            found == texts(gone@).take(g as int).contains(item@),
                        decreases gone@.len() - g,
                    {
                        if gone[g] == *item {
                            assert(texts(gone@).take(g + 1)[g as int] == item@);
                            found = true;
                        }
                        assert(texts(gone@).take(g + 1) =~= texts(gone@).take(g as int).push(
                            gone@[g as int]@,
                        ));
                        g = g + 1;
                    }
                    assert(texts(gone@).take(gone@.len() as int) =~= texts(gone@));
                    assert(cur_view[k as int] == item@);
                    assert(cur_view.take(k + 1) =~= cur_view.take(k as int).push(item@));
                    assert(cur_view.take(k + 1).last() == item@);
                    assert(found == gone_texts.contains(item@));
                    proof {
                        lemma_without_push(cur_view.take(k as int), item@, gone_texts);
                    }
                    assert(cur_view.take(k + 1).drop_last() =~= cur_view.take(k as int));
                    if !found {
                        let ghost before = texts(kept@);
                        kept.push(item.clone());
                        assert(texts(kept@) =~= before.push(item@));
                        assert(texts(kept@) =~= without(cur_view.take(k + 1), gone_texts));
                        assert forall|a: int| 0 <= a < kept@.len() implies cur_view.take(k + 1).contains(
                            #[trigger] texts(kept@)[a],
                        ) by {
                            if a < before.len() {
                                assert(cur_view.take(k as int).contains(before[a]));
                                let j = choose|j: int| 0 <= j < k && cur_view.take(k as int)[j] == before[a];
                                assert(cur_view.take(k + 1)[j] == before[a]);
                            } else {
                                assert(cur_view.take(k + 1)[k as int] == item@);
                            }
                        }
                        assert forall|a: int, b: int| 0 <= a < b < texts(kept@).len() implies texts(
                            kept@,
                        )[a] != texts(kept@)[b] by {
                            if b == before.len() {
                                assert(cur_view.take(k as int).contains(before[a]));
                                let j = choose|j: int| 0 <= j < k && cur_view.take(k as int)[j] == before[a];
                                assert(cur_view[j] == before[a]);
                                assert(cur_view[k as int] == item@);
                            }
                        }
                    } else {
                        assert(texts(kept@) =~= without(cur_view.take(k + 1), gone_texts));
                        assert forall|a: int| 0 <= a < kept@.len() implies cur_view.take(k + 1).contains(
                            #[trigger] texts(kept@)[a],
                        ) by {
                            assert(cur_view.take(k as int).contains(texts(kept@)[a]));
                            let j = choose|j: int| 0 <= j < k && cur_view.take(k as int)[j] == texts(kept@)[a];
                            assert(cur_view.take(k + 1)[j] == texts(kept@)[a]);
                        }
                    }
                    k = k + 1;
                }
                assert(cur_view.take(n as int) =~= cur_view);
                let empty = kept.len() == 0;
                if empty {
                    self.present.set(i, false);
                    self.symbols.set(i, Vec::new());
                } else {
                    self.symbols.set(i, kept);
                }
                proof {
                    let rest = without(cur_view, gone_texts);
                    assert(self@.slots =~= old(self)@.slots.update(
                        subject_slot(subject),
                        if rest.len() == 0 {
                            None
                        } else {
                            Some(rest)
                        },
                    ));
                }
            },
        }
    }

    /// The subscribed subjects with their symbols, in slot order.
    pub fn get_subscriptions(&self) -> (r: Vec<(SubjectType, Vec<String>)>)
        requires
            self.wf(),
        ensures
            forall|k: int|
                0 <= k < r@.len() ==> #[trigger] self@.slots[subject_slot(r@[k].0)] == Some(
                    texts(r@[k].1@),
                ),
            forall|s: SubjectType|
                #![trigger self@.slots[subject_slot(s)]]
                self@.slots[subject_slot(s)] is Some ==> exists|k: int|
                    0 <= k < r@.len() && r@[k].0 == s,
            forall|a: int, b: int| 0 <= a < b < r@.len() ==> r@[a].0 != r@[b].0,
    {
        let mut r: Vec<(SubjectType, Vec<String>)> = Vec::new();
        let mut i: usize = 0;
        while i < 14
            invariant
                i <= 14,
                self.present@.len() == 14,
                self.symbols@.len() == 14,
                forall|k: int|
                    #![trigger r@[k]]
                    0 <= k < r@.len() ==> self@.slots[subject_slot(r@[k].0)] == Some(
                        texts(r@[k].1@),
                    ) && subject_slot(r@[k].0) < i,
                forall|j: int| 0 <= j < i && self.present@[j] ==> exists|k: int|
                    0 <= k < r@.len() && r@[k].0 == slot_subject(j),
                forall|a: int, b: int| 0 <= a < b < r@.len() ==> subject_slot(r@[a].0)
                    < subject_slot(r@[b].0),
            decreases 14 - i,
        {
            if !self.present[i] {
                assert forall|k: int| #![trigger r@[k]] 0 <= k < r@.len() implies self@.slots[subject_slot(
                    r@[k].0,
                )] == Some(texts(r@[k].1@)) && subject_slot(r@[k].0) < i + 1 by {
                }
            } else {
                let s = subject_of(i);
                proof {
                    lemma_slots(s, i as int);
                }
                let ghost before = r@;
                let copy = copy_strings(&self.symbols[i]);
                assert(self@.slots[i as int] == Some(texts(copy@)));
                r.push((s, copy));
                assert(forall|k: int| 0 <= k < before.len() ==> r@[k] == before[k]);
                assert(r@[before.len() as int].0 == s);
                assert forall|k: int| #![trigger r@[k]] 0 <= k < r@.len() implies self@.slots[subject_slot(
                    r@[k].0,
                )] == Some(texts(r@[k].1@)) && subject_slot(r@[k].0) < i + 1 by {
                    if k < before.len() {
                        assert(r@[k] == before[k]);
                        assert(self@.slots[subject_slot(before[k].0)] == Some(texts(before[k].1@)));
                    }
                }
                assert forall|a: int, b: int| 0 <= a < b < r@.len() implies subject_slot(r@[a].0)
                    < subject_slot(r@[b].0) by {
                    assert(r@[a] == before[a]);
                    if b < before.len() {
                        assert(r@[b] == before[b]);
                    } else {
                        assert(self@.slots[subject_slot(before[a].0)] == Some(texts(before[a].1@)));
                    }
                }
                assert forall|j: int| 0 <= j < i + 1 && self.present@[j] implies exists|k: int|
                    0 <= k < r@.len() && r@[k].0 == slot_subject(j) by {
                    if j < i {
                        let k = choose|k: int| 0 <= k < before.len() && before[k].0 == slot_subject(j);
                        assert(r@[k] == before[k]);
                    } else {
                        assert(r@[before.len() as int].0 == slot_subject(j));
                    }
                }
            }
            i = i + 1;
        }
        assert forall|s: SubjectType| #![trigger self@.slots[subject_slot(s)]]
            self@.slots[subject_slot(s)] is Some implies exists|k: int| 0 <= k < r@.len() && r@[k].0 == s by {
            lemma_slots(s, 0);
            assert(self.present@[subject_slot(s)]);
        }
        assert forall|a: int, b: int| 0 <= a < b < r@.len() implies r@[a].0 != r@[b].0 by {
            lemma_slots(r@[a].0, 0);
        }
        r
    }

    /// Records `subject` as subscribed for the account.
    pub fn add_account_sub(&mut self, subject: SubjectType)
        requires
            old(self).wf(),
        ensures
            final(self).wf(),
            final(self)@ == (SubscriptionState {
                accounts: old(self)@.accounts.update(subject_slot(subject), true),
                ..old(self)@
            }),
    {
        let i = slot_of(subject);
        self.accounts.set(i, true);
    }

    /// Drops `subject` from the account subscriptions.
    pub fn remove_account_sub(&mut self, subject: &SubjectType)
        requires
            old(self).wf(),
        ensures
            final(self).wf(),
            final(self)@ == (SubscriptionState {
                accounts: old(self)@.accounts.update(subject_slot(*subject), false),
                ..old(self)@
            }),
    {
        let i = slot_of(*subject);
        self.accounts.set(i, false);
    }

    /// The subjects subscribed for the account, in slot order.
    pub fn get_account_subscriptions(&self) -> (r: Vec<SubjectType>)
        requires
            self.wf(),
        ensures
            forall|s: SubjectType| r@.contains(s) <==> self@.account_subjects().contains(s),
            forall|a: int, b: int| 0 <= a < b < r@.len() ==> r@[a] != r@[b],
    {
        let mut r: Vec<SubjectType> = Vec::new();
        let mut i: usize = 0;
        while i < 14
            invariant
                i <= 14,
                self.accounts@.len() == 14,
                forall|k: int| 0 <= k < r@.len() ==> self.accounts@[subject_slot(#[trigger] r@[k])]
                    && subject_slot(r@[k]) < i,
                forall|j: int| 0 <= j < i && self.accounts@[j] ==> r@.contains(slot_subject(j)),
                forall|a: int, b: int| 0 <= a < b < r@.len() ==> subject_slot(r@[a]) < subject_slot(
                    r@[b],
                ),
            decreases 14 - i,
        {
            if self.accounts[i] {
                let s = subject_of(i);
                proof {
                    lemma_slots(s, i as int);
                }
                let ghost before = r@;
                r.push(s);
                assert forall|j: int| 0 <= j < i + 1 && self.accounts@[j] implies r@.contains(
                    slot_subject(j),
                ) by {
                    if j < i {
                        let k = choose|k: int| 0 <= k < before.len() && before[k] == slot_subject(j);
                        assert(r@[k] == before[k]);
                    } else {
                        assert(r@[before.len() as int] == slot_subject(j));
                    }
                }
            }
            i = i + 1;
        }
        assert forall|s: SubjectType| r@.contains(s) <==> self@.account_subjects().contains(s) by {
            lemma_slots(s, 0);
            if r@.contains(s) {
                let k = choose|k: int| 0 <= k < r@.len() && r@[k] == s;
                assert(self.accounts@[subject_slot(r@[k])]);
            }
        }
        assert forall|a: int, b: int| 0 <= a < b < r@.len() implies r@[a] != r@[b] by {
            lemma_slots(r@[a], 0);
        }
        r
    }

    /// The SUBSCRIBE requests that restore the record after a reconnection:
    /// one per subscribed subject with its symbols (in slot order), then one
    /// per account subject for `account`, with consecutive ids.
    pub fn replay(&self, ids: &mut RequestIds, account: &str) -> (r: Vec<Request>)
        requires
            self.wf(),
            old(ids)@ + 28 <= u32::MAX,
        ensures
            ({
                let ms = market_slots(self@, 14);
                let acs = account_slots(self@, 14);
                &&& r@.len() == ms.len() + acs.len()
                &&& final(ids)@ == old(ids)@ + r@.len()
                &&& forall|k: int|
                    0 <= k < ms.len() ==> market_request(self@, ms[k], old(ids)@ + k + 1, #[trigger] r@[k])
                &&& forall|k: int|
                    0 <= k < acs.len() ==> account_request(
                        acs[k],
                        account@,
                        old(ids)@ + ms.len() + k + 1,
                        #[trigger] r@[ms.len() + k],
                    )
            }),
    {
        let ghost st = self@;
        let ghost start = ids@;
        let mut r: Vec<Request> = Vec::new();
        let mut i: usize = 0;
        while i < 14
            invariant
                self.wf(),
                st == self@,
                i <= 14,
                r@.len() == market_slots(st, i as int).len(),
                r@.len() <= i,
                ids@ == start + r@.len(),
                start + 28 <= u32::MAX,
                forall|k: int|
                    0 <= k < r@.len() ==> market_request(
                        st,
                        market_slots(st, i as int)[k],
                        start + k + 1,
                        #[trigger] r@[k],
                    ),
            decreases 14 - i,
        {
            proof {
                lemma_market_slots_bounds(st, i as int);
            }
            if self.present[i] {
                let s = subject_of(i);
                let symbols = join_with_commas(&self.symbols[i]);
                let dt = subject_to_data_type(&s);
                let req = build_subscribe_message(ids, dt, Some(symbols.as_str()), None, None);
                let ghost before = r@;
                r.push(req);
                assert(market_slots(st, i + 1) == market_slots(st, i as int).push(i as int));
                assert forall|k: int|
                    0 <= k < r@.len() implies market_request(
                        st,
                        market_slots(st, i + 1)[k],
                        start + k + 1,
                        #[trigger] r@[k],
                    ) by {
                    if k < before.len() {
                        assert(r@[k] == before[k]);
                    }
                }
            } else {
                assert(market_slots(st, i + 1) == market_slots(st, i as int));
            }
            i = i + 1;
        }
        let ghost ms = market_slots(st, 14);
        let m = r.len();
        let mut i: usize = 0;
        while i < 14
            invariant
                self.wf(),
                st == self@,
                i <= 14,
                ms == market_slots(st, 14),
                m == ms.len(),
                m <= 14,
                r@.len() == m + account_slots(st, i as int).len(),
                account_slots(st, i as int).len() <= i,
                ids@ == start + r@.len(),
                start + 28 <= u32::MAX,
                forall|k: int|
                    0 <= k < m ==> market_request(st, ms[k], start + k + 1, #[trigger] r@[k]),
                forall|k: int|
                    0 <= k < account_slots(st, i as int).len() ==> account_request(
                        account_slots(st, i as int)[k],
                        account@,
                        start + m + k + 1,
                        #[trigger] r@[m + k],
                    ),
            decreases 14 - i,
        {
            proof {
                lemma_account_slots_bounds(st, i as int);
            }
            if self.accounts[i] {
                let s = subject_of(i);
                let dt = subject_to_data_type(&s);
                let req = build_subscribe_message(ids, dt, None, Some(account), None);
                let ghost before = r@;
                r.push(req);
                assert(account_slots(st, i + 1) == account_slots(st, i as int).push(i as int));
                assert forall|k: int| 0 <= k < m implies market_request(
                    st,
                    ms[k],
                    start + k + 1,
                    #[trigger] r@[k],
                ) by {
                    assert(r@[k] == before[k]);
                }
                assert forall|k: int|
                    0 <= k < account_slots(st, i + 1).len() implies account_request(
                        account_slots(st, i + 1)[k],
                        account@,
                        start + m + k + 1,
                        #[trigger] r@[m + k],
                    ) by {
                    if k < account_slots(st, i as int).len() {
                        assert(r@[m + k] == before[m + k]);
                    }
                }
            } else {
                assert(account_slots(st, i + 1) == account_slots(st, i as int));
            }
            i = i + 1;
        }
        r
    }
}

} // verus!
