use crate::text::same_text;
use vstd::prelude::*;

verus! {

/// A request to the key-value store: create `key` with `value` for `ttl`
/// seconds, but only if the store holds no such key. The store must do this
/// as one atomic step.
#[derive(Debug)]
pub struct SetIfAbsent {
    pub key: String,
    pub value: String,
    pub ttl: u64,
}

/// A request to the store as plain mathematical values.
pub struct SetIfAbsentView {
    pub key: Seq<char>,
    pub value: Seq<char>,
    pub ttl: u64,
}

impl View for SetIfAbsent {
    type V = SetIfAbsentView;

    open spec fn view(&self) -> SetIfAbsentView {
        SetIfAbsentView { key: self.key@, value: self.value@, ttl: self.ttl }
    }
}

/// Whether the store's reply to a `SetIfAbsent` says that this request
/// created the key: the store answers with a value where it did, and with
/// nothing where the key was already there.
pub fn created(reply: &Option<String>) -> (first: bool)
    ensures
        first == reply.is_some(),
{
    reply.is_some()
}

/// What a store keeps under a key: the value, and the second at which the
/// key lapses.
pub struct Record {
    pub value: Seq<char>,
    pub lapses: int,
}

/// Whether `key` is held at the time `now`: it was created and has not
/// lapsed yet.
pub open spec fn held(store: Map<Seq<char>, Record>, key: Seq<char>, now: int) -> bool {
    store.contains_key(key) && now < store[key].lapses
}

/// The store's answer to `request` at the time `now`: `true` where the
/// request creates the key.
pub open spec fn answer(store: Map<Seq<char>, Record>, request: SetIfAbsentView, now: int) -> bool {
    !held(store, request.key, now)
}

/// The store after `request` at the time `now`: a held key stays as it is,
/// with its old value and its old end; otherwise the key is created and
/// lapses `ttl` seconds later.
pub open spec fn after(store: Map<Seq<char>, Record>, request: SetIfAbsentView, now: int) -> Map<
    Seq<char>,
    Record,
> {
    if held(store, request.key, now) {
        store
    } else {
        store.insert(request.key, Record { value: request.value, lapses: now + request.ttl })
    }
}

/// The answers to the same request made at each of `times` in turn.
pub open spec fn answers(
    store: Map<Seq<char>, Record>,
    request: SetIfAbsentView,
    times: Seq<int>,
) -> Seq<bool>
    decreases times.len(),
{
    if times.len() == 0 {
        Seq::empty()
    } else {
        seq![answer(store, request, times[0])] + answers(
            after(store, request, times[0]),
            request,
            times.drop_first(),
        )
    }
}

/// A request made again while the key is held is refused and changes
/// nothing.
pub proof fn lemma_held_key_refuses(
    store: Map<Seq<char>, Record>,
    request: SetIfAbsentView,
    now: int,
)
    requires
        held(store, request.key, now),
    ensures
        !answer(store, request, now),
        after(store, request, now) == store,
{
}

/// However many callers make the same request within its window, exactly
/// one of them creates the key: the one the store serves first. `times` are
/// the seconds at which the store serves them, in its order.
pub proof fn lemma_exactly_one_creates(
    store: Map<Seq<char>, Record>,
    request: SetIfAbsentView,
    times: Seq<int>,
)
    requires
        times.len() > 0,
        !held(store, request.key, times[0]),
        forall|i: int| 0 <= i < times.len() ==> times[0] <= #[trigger] times[i] < times[0] + request.ttl,
    ensures
        answers(store, request, times).len() == times.len(),
        answers(store, request, times)[0],
        forall|i: int| 0 < i < times.len() ==> !#[trigger] answers(store, request, times)[i],
{
    let first = after(store, request, times[0]);
    let rest = times.drop_first();
    lemma_refused_while_held(first, request, rest, times[0] + request.ttl);
    assert forall|i: int| 0 < i < times.len() implies !#[trigger] answers(
        store,
        request,
        times,
    )[i] by {
        assert(answers(store, request, times)[i] == answers(first, request, rest)[i - 1]);
    }
}

/// While a key is held until `end`, every request for it served before
/// `end` is refused.
pub proof fn lemma_refused_while_held(
    store: Map<Seq<char>, Record>,
    request: SetIfAbsentView,
    times: Seq<int>,
    end: int,
)
    requires
        store.contains_key(request.key),
        store[request.key].lapses == end,
        forall|i: int| 0 <= i < times.len() ==> #[trigger] times[i] < end,
    ensures
        answers(store, request, times).len() == times.len(),
        forall|i: int| 0 <= i < times.len() ==> !#[trigger] answers(store, request, times)[i],
    decreases times.len(),
{
    if times.len() > 0 {
        let rest = times.drop_first();
        assert(times[0] < end);
        assert forall|i: int| 0 <= i < rest.len() implies #[trigger] rest[i] < end by {
            assert(rest[i] == times[i + 1]);
        }
        lemma_refused_while_held(store, request, rest, end);
        assert forall|i: int| 0 <= i < times.len() implies !#[trigger] answers(
            store,
            request,
            times,
        )[i] by {
            if i > 0 {
                assert(answers(store, request, times)[i] == answers(store, request, rest)[i - 1]);
            }
        }
    }
}

/// A key that is free is granted to the first caller, refused to a second
/// caller inside the window, and granted again once the window is over.
pub proof fn lemma_window(
    store: Map<Seq<char>, Record>,
    request: SetIfAbsentView,
    first: int,
    second: int,
    third: int,
)
    requires
        !held(store, request.key, first),
        first <= second < first + request.ttl,
        first + request.ttl <= third,
    ensures
        answers(store, request, seq![first, second, third]) == seq![true, false, true],
{
    let times = seq![first, second, third];
    let one = after(store, request, first);
    let two = after(one, request, second);
    assert(times.drop_first() == seq![second, third]);
    assert(seq![second, third].drop_first() == seq![third]);
    assert(seq![third].drop_first() == Seq::<int>::empty());
    assert(answers(two, request, seq![third]) == seq![answer(two, request, third)] + answers(
        after(two, request, third),
        request,
        Seq::<int>::empty(),
    ));
    assert(answers(one, request, seq![second, third]) == seq![answer(one, request, second)]
        + answers(two, request, seq![third]));
    assert(answers(store, request, times) =~= seq![true, false, true]);
}

/// One key of an in-memory store.
struct Entry {
    key: String,
    value: String,
    lapses: u128,
}

/// The record that an entry stands for.
spec fn record_of(entry: Entry) -> Record {
    Record { value: entry.value@, lapses: entry.lapses as int }
}

/// Whether no two entries share a key.
spec fn distinct_keys(entries: Seq<Entry>) -> bool {
    forall|i: int, j: int|
        0 <= i < j < entries.len() ==> (#[trigger] entries[i]).key@ != (#[trigger] entries[j]).key@
}

/// Whether some entry has the key.
spec fn has_key(entries: Seq<Entry>, key: Seq<char>) -> bool {
    exists|i: int| 0 <= i < entries.len() && (#[trigger] entries[i]).key@ == key
}

/// The index of an entry with the key.
spec fn index_of(entries: Seq<Entry>, key: Seq<char>) -> int {
    choose|i: int| 0 <= i < entries.len() && (#[trigger] entries[i]).key@ == key
}

/// The store that a list of entries stands for.
spec fn store_of(entries: Seq<Entry>) -> Map<Seq<char>, Record> {
    Map::new(
        |key: Seq<char>| has_key(entries, key),
        |key: Seq<char>| record_of(entries[index_of(entries, key)]),
    )
}

/// An entry is found under its own key.
proof fn lemma_entry_found(entries: Seq<Entry>, i: int)
    requires
        distinct_keys(entries),
        0 <= i < entries.len(),
    ensures
        store_of(entries).contains_key(entries[i].key@),
        store_of(entries)[entries[i].key@] == record_of(entries[i]),
{
    let key = entries[i].key@;
    assert(has_key(entries, key));
    let j = index_of(entries, key);
    assert(0 <= j < entries.len() && entries[j].key@ == key);
    if i < j {
        assert(entries[i].key@ != entries[j].key@);
    } else if j < i {
        assert(entries[j].key@ != entries[i].key@);
    }
}

/// A key-value store in memory that serves `SetIfAbsent` as the shared
/// store does. It stands in for that store where none is at hand.
pub struct MemoryKvs {
    entries: Vec<Entry>,
}

impl View for MemoryKvs {
    type V = Map<Seq<char>, Record>;

    closed spec fn view(&self) -> Map<Seq<char>, Record> {
        store_of(self.entries@)
    }
}

impl MemoryKvs {
    /// The invariant of the store: it keeps each key once.
    pub closed spec fn well_formed(&self) -> bool {
        distinct_keys(self.entries@)
    }

    /// A store that holds nothing.
    pub fn new() -> (store: MemoryKvs)
        ensures
            store.well_formed(),
            store@ == Map::<Seq<char>, Record>::empty(),
    {
        let store = MemoryKvs { entries: Vec::new() };
        assert(store@ =~= Map::<Seq<char>, Record>::empty());
        store
    }

    /// Serves `request` at the time `now`, in one step: creates the key and
    /// answers with a value where the key is not held, answers with nothing
    /// and changes nothing where it is.
    pub fn set_if_absent(&mut self, request: &SetIfAbsent, now: u64) -> (reply: Option<String>)
        requires
            old(self).well_formed(),
        ensures
            final(self).well_formed(),
            final(self)@ == after(old(self)@, request@, now as int),
            reply.is_some() == answer(old(self)@, request@, now as int),
            reply matches Some(text) ==> text@ == "OK"@,
    {
        let ghost before = self.entries@;
        let lapses: u128 = now as u128 + request.ttl as u128;
        let length: usize = self.entries.len();
        let mut i: usize = 0;
        while i < length
            invariant
                i <= length,
                length == self.entries.len(),
                self.entries@ == before,
                old(self)@ == store_of(before),
                lapses == now + request.ttl,
                distinct_keys(before),
                forall|j: int| 0 <= j < i ==> (#[trigger] before[j]).key@ != request.key@,
            decreases length - i,
        {
            if same_text(self.entries[i].key.as_str(), request.key.as_str()) {
                proof {
                    lemma_entry_found(before, i as int);
                }
                if (now as u128) < self.entries[i].lapses {
                    return None;
                }
                let entry = Entry {
                    key: request.key.clone(),
                    value: request.value.clone(),
                    lapses,
                };
                self.entries.set(i, entry);
                proof {
                    let now_entries = self.entries@;
                    assert(distinct_keys(now_entries)) by {
                        assert forall|a: int, b: int| 0 <= a < b < now_entries.len() implies (
                        #[trigger] now_entries[a]).key@ != (#[trigger] now_entries[b]).key@ by {
                            assert(now_entries[a].key@ == before[a].key@);
                            assert(now_entries[b].key@ == before[b].key@);
                        }
                    }
                    let expected = after(store_of(before), request@, now as int);
                    assert forall|key: Seq<char>| #[trigger]
                        store_of(now_entries).contains_key(key) == expected.contains_key(key) by {
                        if has_key(now_entries, key) {
                            let j = index_of(now_entries, key);
                            assert(before[j].key@ == key);
                        }
                        if has_key(before, key) {
                            let j = index_of(before, key);
                            assert(now_entries[j].key@ == key);
                        }
                    }
                    assert forall|key: Seq<char>| #[trigger]
                        store_of(now_entries).contains_key(key) implies store_of(now_entries)[key]
                        == expected[key] by {
                        assert(has_key(now_entries, key));
                        let j = index_of(now_entries, key);
                        lemma_entry_found(now_entries, j);
                        lemma_entry_found(before, j);
                        if j == i {
                            assert(key == request.key@);
                        } else {
                            assert(now_entries[j] == before[j]);
                            if j < i {
                                assert(before[j].key@ != before[i as int].key@);
                            } else {
                                assert(before[i as int].key@ != before[j].key@);
                            }
                        }
                    }
                    assert(store_of(now_entries) =~= expected);
                }
                return Some("OK".to_owned());
            }
            i = i + 1;
        }
        let entry = Entry { key: request.key.clone(), value: request.value.clone(), lapses };
        self.entries.push(entry);
        proof {
            let now_entries = self.entries@;
            assert(!has_key(before, request.key@));
            assert(distinct_keys(now_entries)) by {
                assert forall|a: int, b: int| 0 <= a < b < now_entries.len() implies (
                #[trigger] now_entries[a]).key@ != (#[trigger] now_entries[b]).key@ by {
                    assert(now_entries[a] == before[a]);
                    if b < before.len() {
                        assert(now_entries[b] == before[b]);
                    }
                }
            }
            let expected = after(store_of(before), request@, now as int);
            assert forall|key: Seq<char>| #[trigger]
                store_of(now_entries).contains_key(key) == expected.contains_key(key) by {
                if has_key(now_entries, key) {
                    let j = index_of(now_entries, key);
                    if j < before.len() {
                        assert(before[j].key@ == key);
                    }
                }
                if has_key(before, key) {
                    let j = index_of(before, key);
                    assert(now_entries[j].key@ == key);
                }
                if key == request.key@ {
                    assert(now_entries[before.len() as int].key@ == key);
                }
            }
            assert forall|key: Seq<char>| #[trigger]
                store_of(now_entries).contains_key(key) implies store_of(now_entries)[key]
                == expected[key] by {
                let j = index_of(now_entries, key);
                lemma_entry_found(now_entries, j);
                if j < before.len() {
                    assert(now_entries[j] == before[j]);
                    lemma_entry_found(before, j);
                }
            }
            assert(store_of(now_entries) =~= expected);
        }
        Some("OK".to_owned())
    }
}

} // verus!
