//! Lists of messages: the errors that the checks find, in the order in
//! which they find them.

use vstd::prelude::*;

verus! {

/// The texts of a list of strings, owned or borrowed.
pub open spec fn texts<T: View<V = Seq<char>>>(strings: Seq<T>) -> Seq<Seq<char>> {
    strings.map_values(|string: T| string@)
}

/// The texts of a list of strings that had one more string pushed are the
/// texts of the list, and the text of that string.
pub proof fn lemma_texts_push<T: View<V = Seq<char>>>(strings: Seq<T>, string: T)
    ensures
        texts(strings.push(string)) == texts(strings).push(string@),
{
    assert(texts(strings.push(string)) =~= texts(strings).push(string@));
}

/// Adds a message to a list of messages.
pub fn report(errors: &mut Vec<String>, message: String)
    ensures
        texts(final(errors)@) == texts(old(errors)@).push(message@),
{
    proof {
        lemma_texts_push(errors@, message);
    }
    errors.push(message);
}

/// The messages that `report` gives on the items of a list, in the order of
/// the items. An item on which it gives `None` adds nothing.
pub open spec fn reports<A>(items: Seq<A>, report: spec_fn(A) -> Option<Seq<char>>) -> Seq<
    Seq<char>,
>
    decreases items.len(),
{
    if items.len() == 0 {
        Seq::empty()
    } else {
        let before = reports(items.drop_last(), report);
        match report(items.last()) {
            Some(message) => before.push(message),
            None => before,
        }
    }
}

/// The messages on the first `n + 1` items are those on the first `n`, and
/// the one on item `n` if there is one.
pub proof fn lemma_reports_take<A>(items: Seq<A>, n: int, report: spec_fn(A) -> Option<Seq<char>>)
    requires
        0 <= n < items.len(),
    ensures
        reports(items.take(n + 1), report) == match report(items[n]) {
            Some(message) => reports(items.take(n), report).push(message),
            None => reports(items.take(n), report),
        },
{
    assert(items.take(n + 1).drop_last() =~= items.take(n));
}

/// There is no message on a list exactly when there is none on any item.
pub proof fn lemma_reports_empty<A>(items: Seq<A>, report: spec_fn(A) -> Option<Seq<char>>)
    ensures
        reports(items, report).len() == 0 <==> forall|i: int|
            0 <= i < items.len() ==> report(#[trigger] items[i]).is_none(),
    decreases items.len(),
{
    if items.len() > 0 {
        lemma_reports_empty(items.drop_last(), report);
        if reports(items, report).len() == 0 {
            assert forall|i: int| 0 <= i < items.len() implies report(
                #[trigger] items[i],
            ).is_none() by {
                if i < items.len() - 1 {
                    assert(items.drop_last()[i] == items[i]);
                }
            }
        } else {
            if forall|i: int| 0 <= i < items.len() ==> report(#[trigger] items[i]).is_none() {
                assert(report(items.last()).is_none());
                assert forall|i: int| 0 <= i < items.drop_last().len() implies report(
                    #[trigger] items.drop_last()[i],
                ).is_none() by {
                    assert(items.drop_last()[i] == items[i]);
                }
            }
        }
    }
}

/// The message on any item that has one is among the messages on the list.
pub proof fn lemma_reports_contains<A>(
    items: Seq<A>,
    report: spec_fn(A) -> Option<Seq<char>>,
    i: int,
)
    requires
        0 <= i < items.len(),
        report(items[i]).is_some(),
    ensures
        reports(items, report).contains(report(items[i]).unwrap()),
    decreases items.len(),
{
    let before = reports(items.drop_last(), report);
    if i == items.len() - 1 {
        assert(reports(items, report).last() == report(items[i]).unwrap());
    } else {
        lemma_reports_contains(items.drop_last(), report, i);
        let k = choose|k: int| 0 <= k < before.len() && before[k] == report(items[i]).unwrap();
        assert(reports(items, report)[k] == before[k]);
    }
}

/// What is among the messages of one of two lists is among the messages of
/// both lists put together.
pub proof fn lemma_joined_contains(first: Seq<Seq<char>>, second: Seq<Seq<char>>, message: Seq<char>)
    ensures
        (first + second).contains(message) <==> first.contains(message) || second.contains(
            message,
        ),
{
    if first.contains(message) {
        let k = choose|k: int| 0 <= k < first.len() && first[k] == message;
        assert((first + second)[k] == message);
    }
    if second.contains(message) {
        let k = choose|k: int| 0 <= k < second.len() && second[k] == message;
        assert((first + second)[first.len() + k] == message);
    }
    if (first + second).contains(message) {
        let k = choose|k: int| 0 <= k < (first + second).len() && (first + second)[k] == message;
        if k < first.len() {
            assert(first[k] == message);
        } else {
            assert(second[k - first.len()] == message);
        }
    }
}

} // verus!
