//! The tables of a specification: which sections a document defines and
//! what each of them is traced to, and which requirements there are.
//!
//! The tables are ordered maps and sets of `indexmap`. Contracts speak of
//! what a table holds, in its order, as sequences of texts.

use crate::messages::texts;
use indexmap::IndexMap;
use indexmap::IndexSet;
use vstd::prelude::*;

verus! {

/// `indexmap::IndexMap`. What a map holds is seen through `trace_entries`
/// and `requirement_entries` alone.
#[verifier::external_type_specification]
#[verifier::external_body]
#[verifier::reject_recursive_types(K)]
#[verifier::reject_recursive_types(V)]
#[verifier::reject_recursive_types(S)]
pub struct ExIndexMap<K, V, S>(IndexMap<K, V, S>);

/// `indexmap::IndexSet`. What a set holds is seen through `set_items` alone.
#[verifier::external_type_specification]
#[verifier::external_body]
#[verifier::reject_recursive_types(T)]
#[verifier::reject_recursive_types(S)]
pub struct ExIndexSet<T, S>(IndexSet<T, S>);

/// The trace table of a document: each identifier that the document defines,
/// with the targets that it is traced to.
pub type Trace = IndexMap<String, IndexSet<String>>;

/// The requirements: each identifier with the text of the feature file that
/// defines it.
pub type Requirements = IndexMap<String, String>;

/// What a trace table holds: its identifiers in the order in which they were
/// first inserted, each with its targets in their order.
pub uninterp spec fn trace_entries(trace: Trace) -> Seq<(Seq<char>, Seq<Seq<char>>)>;

/// What an ordered set of texts holds, in its order.
pub uninterp spec fn set_items(set: IndexSet<String>) -> Seq<Seq<char>>;

/// What a table of requirements holds: its identifiers in the order in which
/// they were first inserted, each with its text.
pub uninterp spec fn requirement_entries(requirements: Requirements) -> Seq<(Seq<char>, Seq<char>)>;

/// How an ordered set of texts is written out for a reader of a message: as
/// `Debug` writes the set.
pub uninterp spec fn debug_listing(items: Seq<Seq<char>>) -> Seq<char>;

/// The keys of the entries of a table, in order.
pub open spec fn keys<V>(entries: Seq<(Seq<char>, V)>) -> Seq<Seq<char>> {
    entries.map_values(|entry: (Seq<char>, V)| entry.0)
}

/// `key` is the key of one of the entries.
pub open spec fn has_key<V>(entries: Seq<(Seq<char>, V)>, key: Seq<char>) -> bool {
    exists|i: int| 0 <= i < entries.len() && (#[trigger] entries[i]).0 == key
}

/// Where `key` stands among the entries that hold it.
pub open spec fn key_index<V>(entries: Seq<(Seq<char>, V)>, key: Seq<char>) -> int {
    choose|i: int| 0 <= i < entries.len() && (#[trigger] entries[i]).0 == key
}

/// The entries after `key` was set to `value`: a key that is there keeps its
/// place and takes the value, a new key goes to the end.
pub open spec fn with_entry<V>(entries: Seq<(Seq<char>, V)>, key: Seq<char>, value: V) -> Seq<
    (Seq<char>, V),
> {
    if has_key(entries, key) {
        entries.update(key_index(entries, key), (key, value))
    } else {
        entries.push((key, value))
    }
}

/// The items of an ordered set after `item` was inserted: a new item goes to
/// the end, one that is there changes nothing.
pub open spec fn with_item(items: Seq<Seq<char>>, item: Seq<char>) -> Seq<Seq<char>> {
    if items.contains(item) {
        items
    } else {
        items.push(item)
    }
}

/// The items of an ordered set after `item` was removed by swapping: the
/// last item takes its place.
pub open spec fn without_item(items: Seq<Seq<char>>, item: Seq<char>) -> Seq<Seq<char>> {
    if items.contains(item) {
        items.update(items.index_of(item), items.last()).drop_last()
    } else {
        items
    }
}

/// The entries of a table are tidy: no identifier stands twice, and no
/// section holds a target twice.
pub open spec fn tidy(entries: Seq<(Seq<char>, Seq<Seq<char>>)>) -> bool {
    &&& keys(entries).no_duplicates()
    &&& forall|i: int| 0 <= i < entries.len() ==> (#[trigger] entries[i]).1.no_duplicates()
}

/// Setting a key keeps the keys as they are where the key is there, and
/// adds the key at the end where it is new. Either way no key stands twice
/// afterwards if none did before.
pub proof fn lemma_with_entry_keys<V>(entries: Seq<(Seq<char>, V)>, key: Seq<char>, value: V)
    ensures
        keys(with_entry(entries, key, value)) == if has_key(entries, key) {
            keys(entries)
        } else {
            keys(entries).push(key)
        },
        keys(entries).no_duplicates() ==> keys(with_entry(entries, key, value)).no_duplicates(),
{
    let after = with_entry(entries, key, value);
    if has_key(entries, key) {
        let i = key_index(entries, key);
        assert(keys(after) =~= keys(entries));
    } else {
        assert(keys(after) =~= keys(entries).push(key));
        if keys(entries).no_duplicates() {
            assert forall|i: int, j: int|
                0 <= i < keys(after).len() && 0 <= j < keys(after).len() && i != j implies keys(
                after,
            )[i] != keys(after)[j] by {
                if i < entries.len() {
                    assert(entries[i].0 == keys(entries)[i]);
                }
                if j < entries.len() {
                    assert(entries[j].0 == keys(entries)[j]);
                }
            }
        }
    }
}

/// Inserting an item into an ordered set leaves no item twice.
pub proof fn lemma_with_item_distinct(items: Seq<Seq<char>>, item: Seq<char>)
    requires
        items.no_duplicates(),
    ensures
        with_item(items, item).no_duplicates(),
{
}

/// Taking an item out of an ordered set takes out that item and no other,
/// and leaves no item twice.
pub proof fn lemma_without_item(items: Seq<Seq<char>>, item: Seq<char>)
    requires
        items.no_duplicates(),
    ensures
        without_item(items, item).no_duplicates(),
        forall|other: Seq<char>|
            #[trigger] without_item(items, item).contains(other) <==> items.contains(other)
                && other != item,
{
    let after = without_item(items, item);
    if items.contains(item) {
        let at = items.index_of(item);
        let last = items.len() - 1;
        assert(items[at] == item);
        assert forall|other: Seq<char>| #[trigger] after.contains(other) <==> items.contains(other)
            && other != item by {
            if after.contains(other) {
                let k = choose|k: int| 0 <= k < after.len() && after[k] == other;
                if k == at {
                    assert(items[last] == other);
                } else {
                    assert(items[k] == other);
                }
            }
            if items.contains(other) && other != item {
                let k = choose|k: int| 0 <= k < items.len() && items[k] == other;
                if k == last {
                    assert(after[at] == other);
                } else {
                    assert(after[k] == other);
                }
            }
        }
    }
}

/// Tidy entries stay tidy when a key is set to targets of which none stands
/// twice.
pub proof fn lemma_with_entry_tidy(
    entries: Seq<(Seq<char>, Seq<Seq<char>>)>,
    key: Seq<char>,
    value: Seq<Seq<char>>,
)
    requires
        tidy(entries),
        value.no_duplicates(),
    ensures
        tidy(with_entry(entries, key, value)),
{
    lemma_with_entry_keys(entries, key, value);
}

/// `IndexMap::new`: a table without entries.
#[verifier::external_body]
pub(crate) fn new_trace() -> (trace: Trace)
    ensures
        trace_entries(trace) == Seq::<(Seq<char>, Seq<Seq<char>>)>::empty(),
{
    IndexMap::new()
}

/// `IndexMap::len`: the number of entries.
#[verifier::external_body]
pub(crate) fn trace_len(trace: &Trace) -> (len: usize)
    ensures
        len == trace_entries(*trace).len(),
{
    trace.len()
}

/// `IndexMap::get_index`: the entry at a place in the order, if there is
/// one.
#[verifier::external_body]
pub(crate) fn trace_entry(trace: &Trace, index: usize) -> (entry: Option<
    (&String, &IndexSet<String>),
>)
    ensures
        match entry {
            Some((id, targets)) => {
                &&& index < trace_entries(*trace).len()
                &&& id@ == trace_entries(*trace)[index as int].0
                &&& set_items(*targets) == trace_entries(*trace)[index as int].1
            },
            None => index >= trace_entries(*trace).len(),
        },
{
    trace.get_index(index)
}

/// `IndexMap::contains_key`: whether an identifier is a key of the table.
#[verifier::external_body]
pub(crate) fn trace_contains(trace: &Trace, id: &str) -> (found: bool)
    ensures
        found == has_key(trace_entries(*trace), id@),
{
    trace.contains_key(id)
}

/// `IndexMap::insert`: sets a key to a value. A key that is there keeps its
/// place and the value it had is returned; a new key goes to the end.
#[verifier::external_body]
pub(crate) fn trace_insert(trace: &mut Trace, id: String, targets: IndexSet<String>) -> (previous:
    Option<IndexSet<String>>)
    ensures
        trace_entries(*final(trace)) == with_entry(
            trace_entries(*old(trace)),
            id@,
            set_items(targets),
        ),
        previous.is_some() == has_key(trace_entries(*old(trace)), id@),
{
    trace.insert(id, targets)
}

/// `IndexMap::last_mut`: the last entry, with its value open to change. What
/// the table holds afterwards is what it held, with the targets of the last
/// entry as the caller leaves them.
#[verifier::external_body]
pub(crate) fn trace_last_mut(trace: &mut Trace) -> (last: Option<(&String, &mut IndexSet<String>)>)
    ensures
        match last {
            Some((id, targets)) => {
                &&& trace_entries(*old(trace)).len() > 0
                &&& id@ == trace_entries(*old(trace)).last().0
                &&& set_items(*targets) == trace_entries(*old(trace)).last().1
                &&& trace_entries(*final(trace)) == trace_entries(*old(trace)).drop_last().push(
                    (id@, set_items(*final(targets))),
                )
            },
            None => {
                &&& trace_entries(*old(trace)).len() == 0
                &&& trace_entries(*final(trace)) == trace_entries(*old(trace))
            },
        },
{
    trace.last_mut()
}

/// `IndexSet::new`: a set without items.
#[verifier::external_body]
pub(crate) fn new_set() -> (set: IndexSet<String>)
    ensures
        set_items(set) == Seq::<Seq<char>>::empty(),
{
    IndexSet::new()
}

/// `IndexSet::insert`: a new item goes to the end and `true` is returned; an
/// item that is there changes nothing and `false` is returned.
#[verifier::external_body]
pub(crate) fn set_insert(set: &mut IndexSet<String>, item: String) -> (added: bool)
    ensures
        set_items(*final(set)) == with_item(set_items(*old(set)), item@),
        added == !set_items(*old(set)).contains(item@),
{
    set.insert(item)
}

/// `IndexSet::len`: the number of items.
#[verifier::external_body]
pub(crate) fn set_len(set: &IndexSet<String>) -> (len: usize)
    ensures
        len == set_items(*set).len(),
{
    set.len()
}

/// `IndexSet::get_index`: the item at a place in the order, if there is one.
#[verifier::external_body]
pub(crate) fn set_item(set: &IndexSet<String>, index: usize) -> (item: Option<&String>)
    ensures
        match item {
            Some(item) => index < set_items(*set).len() && item@ == set_items(*set)[index as int],
            None => index >= set_items(*set).len(),
        },
{
    set.get_index(index)
}

/// `IndexSet::swap_remove`: takes an item out and puts the last item in its
/// place. Returns whether the item was there.
#[verifier::external_body]
pub(crate) fn set_swap_remove(set: &mut IndexSet<String>, item: &str) -> (removed: bool)
    ensures
        set_items(*final(set)) == without_item(set_items(*old(set)), item@),
        removed == set_items(*old(set)).contains(item@),
{
    set.swap_remove(item)
}

/// `Debug` of `IndexSet`, as `format!` writes it: a function of the items
/// and their order.
#[verifier::external_body]
pub(crate) fn set_listing(set: &IndexSet<String>) -> (listing: String)
    ensures
        listing@ == debug_listing(set_items(*set)),
{
    format!("{:?}", set)
}

/// `IndexMap::new`: a table without entries.
#[verifier::external_body]
pub(crate) fn new_requirements() -> (requirements: Requirements)
    ensures
        requirement_entries(requirements) == Seq::<(Seq<char>, Seq<char>)>::empty(),
{
    IndexMap::new()
}

/// `IndexMap::contains_key`: whether an identifier is a key of the table.
#[verifier::external_body]
pub(crate) fn requirements_contain(requirements: &Requirements, id: &str) -> (found: bool)
    ensures
        found == has_key(requirement_entries(*requirements), id@),
{
    requirements.contains_key(id)
}

/// `IndexMap::insert`: sets a key to a value. A key that is there keeps its
/// place and the value it had is returned; a new key goes to the end.
#[verifier::external_body]
pub(crate) fn requirements_insert(requirements: &mut Requirements, id: String, text: String) -> (previous:
    Option<String>)
    ensures
        requirement_entries(*final(requirements)) == with_entry(
            requirement_entries(*old(requirements)),
            id@,
            text@,
        ),
        previous.is_some() == has_key(requirement_entries(*old(requirements)), id@),
{
    requirements.insert(id, text)
}

/// `IndexMap::keys`, collected into an `IndexSet`: the keys in the order of
/// the table, as an ordered set of their own. No key stands twice in a map,
/// so none is dropped.
#[verifier::external_body]
pub(crate) fn requirement_ids(requirements: &Requirements) -> (ids: IndexSet<String>)
    ensures
        set_items(ids) == keys(requirement_entries(*requirements)),
{
    requirements.keys().cloned().collect()
}

/// A text is the key of an entry exactly when it is among the keys.
pub proof fn lemma_has_key<V>(entries: Seq<(Seq<char>, V)>, key: Seq<char>)
    ensures
        has_key(entries, key) <==> keys(entries).contains(key),
{
    if has_key(entries, key) {
        let i = choose|i: int| 0 <= i < entries.len() && (#[trigger] entries[i]).0 == key;
        assert(keys(entries)[i] == key);
    }
    if keys(entries).contains(key) {
        let i = choose|i: int| 0 <= i < keys(entries).len() && keys(entries)[i] == key;
        assert(entries[i].0 == key);
    }
}

/// The items of an ordered set, in its order.
pub fn items_of(set: &IndexSet<String>) -> (items: Vec<&String>)
    ensures
        texts(items@) == set_items(*set),
{
    let mut items: Vec<&String> = Vec::new();
    let n = set_len(set);
    let mut i: usize = 0;
    while i < n
        invariant
            n == set_items(*set).len(),
            i <= n,
            texts(items@) == set_items(*set).take(i as int),
        decreases n - i,
    {
        if let Some(item) = set_item(set, i) {
            items.push(item);
            assert(set_items(*set).take(i + 1) =~= set_items(*set).take(i as int).push(item@));
        }
        i += 1;
    }
    items
}

/// The links of one section: a pair of the identifier and a target, for each
/// of its targets in order.
pub open spec fn entry_links(id: Seq<char>, targets: Seq<Seq<char>>) -> Seq<(Seq<char>, Seq<char>)> {
    targets.map_values(|target: Seq<char>| (id, target))
}

/// The links of a trace table: those of each section, section after section.
pub open spec fn links(entries: Seq<(Seq<char>, Seq<Seq<char>>)>) -> Seq<(Seq<char>, Seq<char>)>
    decreases entries.len(),
{
    if entries.len() == 0 {
        Seq::empty()
    } else {
        links(entries.drop_last()) + entry_links(entries.last().0, entries.last().1)
    }
}

/// Every target of every section is the target of a link of the table,
/// and the link leaves from that section.
pub proof fn lemma_links_hold(entries: Seq<(Seq<char>, Seq<Seq<char>>)>, i: int, j: int)
    requires
        0 <= i < entries.len(),
        0 <= j < entries[i].1.len(),
    ensures
        links(entries).contains((entries[i].0, entries[i].1[j])),
    decreases entries.len(),
{
    let before = links(entries.drop_last());
    let last = entry_links(entries.last().0, entries.last().1);
    if i == entries.len() - 1 {
        assert(links(entries)[before.len() + j] == last[j]);
    } else {
        lemma_links_hold(entries.drop_last(), i, j);
        let k = choose|k: int|
            0 <= k < before.len() && before[k] == (entries[i].0, entries[i].1[j]);
        assert(links(entries)[k] == before[k]);
    }
}

/// Every link of a table leaves from one of its sections and points to one
/// of the targets of that section.
pub proof fn lemma_links_come_from(entries: Seq<(Seq<char>, Seq<Seq<char>>)>, k: int)
    requires
        0 <= k < links(entries).len(),
    ensures
        exists|i: int, j: int|
            0 <= i < entries.len() && 0 <= j < entries[i].1.len() && links(entries)[k] == (
                entries[i].0,
                #[trigger] entries[i].1[j],
            ),
    decreases entries.len(),
{
    let before = links(entries.drop_last());
    if k < before.len() {
        lemma_links_come_from(entries.drop_last(), k);
        let (i, j) = choose|i: int, j: int|
            0 <= i < entries.drop_last().len() && 0 <= j < entries.drop_last()[i].1.len()
                && before[k] == (entries.drop_last()[i].0, #[trigger] entries.drop_last()[i].1[j]);
        assert(entries[i].1[j] == entries.drop_last()[i].1[j]);
    } else {
        let i = entries.len() - 1;
        let j = k - before.len();
        assert(links(entries)[k] == (entries[i].0, entries[i].1[j]));
    }
}

/// Links by their texts.
pub open spec fn link_texts(found: Seq<(&String, &String)>) -> Seq<(Seq<char>, Seq<char>)> {
    found.map_values(|link: (&String, &String)| (link.0@, link.1@))
}

/// The identifiers of a trace table, in its order.
pub fn trace_ids(trace: &Trace) -> (ids: Vec<&String>)
    ensures
        texts(ids@) == keys(trace_entries(*trace)),
{
    let mut ids: Vec<&String> = Vec::new();
    let n = trace_len(trace);
    let mut i: usize = 0;
    while i < n
        invariant
            n == trace_entries(*trace).len(),
            i <= n,
            texts(ids@) == keys(trace_entries(*trace).take(i as int)),
        decreases n - i,
    {
        if let Some((id, _)) = trace_entry(trace, i) {
            ids.push(id);
            assert(keys(trace_entries(*trace).take(i + 1)) =~= keys(
                trace_entries(*trace).take(i as int),
            ).push(id@));
        }
        i += 1;
    }
    ids
}

/// The links of a trace table: every pair of an identifier and one of its
/// targets, in the order of the table.
pub fn links_of(trace: &Trace) -> (found: Vec<(&String, &String)>)
    ensures
        link_texts(found@) == links(trace_entries(*trace)),
{
    let mut found: Vec<(&String, &String)> = Vec::new();
    let n = trace_len(trace);
    let mut i: usize = 0;
    while i < n
        invariant
            n == trace_entries(*trace).len(),
            i <= n,
            link_texts(found@) == links(trace_entries(*trace).take(i as int)),
        decreases n - i,
    {
        let ghost entries = trace_entries(*trace);
        if let Some((id, targets)) = trace_entry(trace, i) {
            let m = set_len(targets);
            let mut j: usize = 0;
            while j < m
                invariant
                    m == set_items(*targets).len(),
                    j <= m,
                    link_texts(found@) == links(entries.take(i as int)) + entry_links(
                        id@,
                        set_items(*targets).take(j as int),
                    ),
                decreases m - j,
            {
                if let Some(target) = set_item(targets, j) {
                    let ghost before = found@;
                    found.push((id, target));
                    assert(link_texts(found@) =~= link_texts(before).push((id@, target@)));
                    assert(entry_links(id@, set_items(*targets).take(j + 1)) =~= entry_links(
                        id@,
                        set_items(*targets).take(j as int),
                    ).push((id@, target@)));
                }
                j += 1;
            }
            assert(entries.take(i + 1).drop_last() =~= entries.take(i as int));
        }
        i += 1;
    }
    assert(trace_entries(*trace).take(n as int) =~= trace_entries(*trace));
    found
}

} // verus!
