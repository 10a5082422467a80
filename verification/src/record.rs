//! What holds of a node's record, and of sequences of attribute
//! assignments.

use crate::element::{Attr, AttrValueView, ElementDefView, EntryView, ATTR_COUNT};
use vstd::prelude::*;

verus! {

/// The node after a sequence of attribute assignments, applied in order.
pub open spec fn apply(d: ElementDefView, calls: Seq<(Attr, AttrValueView)>) -> ElementDefView
    decreases calls.len(),
{
    if calls.len() == 0 {
        d
    } else {
        apply(d, calls.drop_last()).set(calls.last().0, calls.last().1)
    }
}

/// The value that the last assignment to `attr` in `calls` gave, or nothing
/// where no assignment in `calls` is to `attr` with a value of its kind.
pub open spec fn last_value(calls: Seq<(Attr, AttrValueView)>, attr: Attr) -> Option<
    AttrValueView,
>
    decreases calls.len(),
{
    if calls.len() == 0 {
        None
    } else if calls.last().0 == attr && ElementDefView::fits(attr, calls.last().1) {
        Some(calls.last().1)
    } else {
        last_value(calls.drop_last(), attr)
    }
}

/// Whether the record holds a line for the attribute.
pub open spec fn has_line(record: Seq<EntryView>, attr: Attr) -> bool {
    exists|i: int| 0 <= i < record.len() && (#[trigger] record[i]).attr == attr
}

proof fn lemma_places()
    ensures
        forall|a: Attr| #[trigger] a.position() < ATTR_COUNT && Attr::at(a.position() as int) == a,
        forall|i: int| 0 <= i < ATTR_COUNT ==> (#[trigger] Attr::at(i)).position() == i,
{
}

proof fn lemma_entries(d: ElementDefView, n: nat)
    requires
        n <= ATTR_COUNT,
    ensures
        forall|i: int|
            0 <= i < d.entries(n).len() ==> {
                &&& (#[trigger] d.entries(n)[i]).attr.position() < n
                &&& d.get(d.entries(n)[i].attr) == Some(d.entries(n)[i].value)
            },
        forall|i: int, j: int|
            0 <= i < j < d.entries(n).len() ==> (#[trigger] d.entries(n)[i]).attr.position() < (
            #[trigger] d.entries(n)[j]).attr.position(),
        forall|a: Attr|
            a.position() < n && d.get(a) is Some ==> #[trigger] has_line(d.entries(n), a),
    decreases n,
{
    lemma_places();
    if n > 0 {
        let m = (n - 1) as nat;
        lemma_entries(d, m);
        let before = d.entries(m);
        let now = d.entries(n);
        let here = Attr::at(m as int);
        assert forall|a: Attr| a.position() < n && d.get(a) is Some implies #[trigger] has_line(
            now,
            a,
        ) by {
            if a.position() < m {
                assert(has_line(before, a));
                let i = choose|i: int| 0 <= i < before.len() && (#[trigger] before[i]).attr == a;
                assert(now[i].attr == a);
            } else {
                assert(a == here);
                assert(now[now.len() - 1].attr == a);
            }
        }
    }
}

/// The record lists exactly the attributes that are present: each line
/// holds the value that its attribute has, the lines stand in the order in
/// which a node is written out, so no attribute has two lines, and an
/// attribute has a line if and only if it is present.
pub proof fn lemma_record_lists_present_attributes(d: ElementDefView)
    ensures
        forall|i: int|
            0 <= i < d.record().len() ==> d.get((#[trigger] d.record()[i]).attr) == Some(
                d.record()[i].value,
            ),
        forall|i: int, j: int|
            0 <= i < j < d.record().len() ==> (#[trigger] d.record()[i]).attr.position() < (
            #[trigger] d.record()[j]).attr.position(),
        forall|a: Attr| d.get(a) is Some <==> #[trigger] has_line(d.record(), a),
{
    lemma_places();
    lemma_entries(d, ATTR_COUNT as nat);
}

/// Setting an attribute to a value of its kind makes that value the
/// attribute's value, whatever it was before, and leaves every other
/// attribute and the children as they were.
pub proof fn lemma_set_then_get(d: ElementDefView, attr: Attr, value: AttrValueView, other: Attr)
    requires
        ElementDefView::fits(attr, value),
    ensures
        d.set(attr, value).get(attr) == Some(value),
        other != attr ==> d.set(attr, value).get(other) == d.get(other),
        d.set(attr, value).children == d.children,
{
}

/// After any sequence of assignments, an attribute has the value that the
/// last assignment to it gave; an attribute that no assignment named has
/// what it had before.
pub proof fn lemma_last_call_wins(
    d: ElementDefView,
    calls: Seq<(Attr, AttrValueView)>,
    attr: Attr,
)
    ensures
        apply(d, calls).get(attr) == match last_value(calls, attr) {
            Some(v) => Some(v),
            None => d.get(attr),
        },
        apply(d, calls).children == d.children,
    decreases calls.len(),
{
    if calls.len() > 0 {
        lemma_last_call_wins(d, calls.drop_last(), attr);
        let (a, v) = calls.last();
        let before = apply(d, calls.drop_last());
        if ElementDefView::fits(a, v) {
            lemma_set_then_get(before, a, v, attr);
        } else {
            assert(before.set(a, v) == before);
        }
    }
}

/// In the record of a node built from a blank node by any sequence of
/// assignments, an attribute that some assignment named has one line, with
/// the value of the last such assignment; an attribute that none named has
/// no line, but for the identifier and the kind, which every node has.
pub proof fn lemma_record_after_calls(
    id: Seq<char>,
    element_type: Seq<char>,
    calls: Seq<(Attr, AttrValueView)>,
    attr: Attr,
)
    ensures
        ({
            let built = apply(ElementDefView::blank(id, element_type), calls);
            match last_value(calls, attr) {
                Some(v) => has_line(built.record(), attr) && forall|i: int|
                    0 <= i < built.record().len() && (#[trigger] built.record()[i]).attr == attr
                        ==> built.record()[i].value == v,
                None => attr != Attr::Id && attr != Attr::ElementType ==> !has_line(
                    built.record(),
                    attr,
                ),
            }
        }),
{
    let blank = ElementDefView::blank(id, element_type);
    let built = apply(blank, calls);
    lemma_last_call_wins(blank, calls, attr);
    lemma_record_lists_present_attributes(built);
}

} // verus!
