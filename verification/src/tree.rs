//! A built element: a node together with the callback identifiers that were
//! registered while it and the nodes below it were put together.

use crate::element::{Attr, AttrValue, AttrValueView, ElementDef, ElementDefView};
use crate::ident::{id_text, next_count, push_dec, IdGenerator};
use crate::registry::{id_set, CallbackRegistry};
use vstd::prelude::*;

verus! {

/// The identifier that an optional text holds, as a sequence of none or one.
pub open spec fn id_of(slot: Option<Seq<char>>) -> Seq<Seq<char>> {
    match slot {
        Some(id) => seq![id],
        None => Seq::empty(),
    }
}

/// The callback identifiers that the node's own interaction attributes
/// hold: that of the click handler, then that of the input handler.
pub open spec fn own_ids(d: ElementDefView) -> Seq<Seq<char>> {
    id_of(d.on_click) + id_of(d.on_input)
}

/// The callback identifiers that the interaction attributes of the node and
/// of all nodes below it hold: the node's own, then those of each child in
/// order.
pub open spec fn referenced_ids(d: ElementDefView) -> Seq<Seq<char>>
    decreases d, 1nat,
{
    own_ids(d) + forest_ids(d.children)
}

/// The callback identifiers that the given trees reference, tree after tree.
pub open spec fn forest_ids(nodes: Seq<ElementDefView>) -> Seq<Seq<char>>
    decreases nodes, 0nat,
{
    if nodes.len() == 0 {
        Seq::empty()
    } else {
        forest_ids(nodes.drop_last()) + referenced_ids(nodes.last())
    }
}

/// The views of a sequence of texts.
pub open spec fn text_views(texts: Seq<String>) -> Seq<Seq<char>> {
    texts.map_values(|s: String| s@)
}

/// The two kinds of interaction that a handler can be attached for.
#[derive(Clone, Copy, Debug, PartialEq, Eq, Structural)]
pub enum Interaction {
    Click,
    Input,
}

impl Interaction {
    /// The attribute that holds the identifier of a handler of this kind.
    pub open spec fn attr(self) -> Attr {
        match self {
            Interaction::Click => Attr::OnClick,
            Interaction::Input => Attr::OnInput,
        }
    }

    /// The attribute that holds the identifier of a handler of this kind.
    pub fn to_attr(self) -> (r: Attr)
        ensures
            r == self.attr(),
    {
        match self {
            Interaction::Click => Attr::OnClick,
            Interaction::Input => Attr::OnInput,
        }
    }
}

/// A built element, as specifications see it.
pub ghost struct ElementView {
    pub def: ElementDefView,
    pub callback_ids: Seq<Seq<char>>,
}

impl ElementView {
    /// Whether the tracked identifiers are exactly those that the tree
    /// references, each as often as the tree references it.
    pub open spec fn tracks_references(self) -> bool {
        self.callback_ids.to_multiset() == referenced_ids(self.def).to_multiset()
    }

    /// The element with one attribute set.
    pub open spec fn set(self, attr: Attr, value: AttrValueView) -> ElementView {
        ElementView { def: self.def.set(attr, value), ..self }
    }

    /// The element with a handler attached under `attr`: the attribute holds
    /// the handler's identifier, which is tracked after those tracked so far.
    pub open spec fn with_handler(self, attr: Attr, id: Seq<char>) -> ElementView {
        ElementView {
            def: self.def.set_text(attr, id),
            callback_ids: self.callback_ids.push(id),
        }
    }

    /// The element with `child` as its last child, and the child's tracked
    /// identifiers after its own.
    pub open spec fn with_child(self, child: ElementView) -> ElementView {
        ElementView {
            def: self.def.with_child(child.def),
            callback_ids: self.callback_ids + child.callback_ids,
        }
    }
}

/// A node without children and without handlers references no identifier.
pub proof fn lemma_blank_references_nothing(id: Seq<char>, element_type: Seq<char>)
    ensures
        referenced_ids(ElementDefView::blank(id, element_type)) == Seq::<Seq<char>>::empty(),
{
    let d = ElementDefView::blank(id, element_type);
    assert(referenced_ids(d) =~= Seq::<Seq<char>>::empty());
}

/// Setting an attribute other than the two handler attributes leaves the
/// referenced identifiers as they were.
pub proof fn lemma_set_keeps_references(d: ElementDefView, attr: Attr, value: AttrValueView)
    requires
        attr != Attr::OnClick,
        attr != Attr::OnInput,
    ensures
        referenced_ids(d.set(attr, value)) == referenced_ids(d),
{
    let e = d.set(attr, value);
    assert(e.children == d.children);
    assert(own_ids(e) == own_ids(d));
}

/// A child added after the others adds its referenced identifiers after
/// those referenced so far.
pub proof fn lemma_child_adds_references(d: ElementDefView, child: ElementDefView)
    ensures
        referenced_ids(d.with_child(child)) == referenced_ids(d) + referenced_ids(child),
{
    let e = d.with_child(child);
    assert(e.children.drop_last() =~= d.children);
    assert(own_ids(e) == own_ids(d));
    assert(referenced_ids(e) =~= referenced_ids(d) + referenced_ids(child));
}

/// Attaching a handler where none was attached keeps the tracked
/// identifiers in step with the referenced ones: no identifier is lost and
/// none is counted twice.
pub proof fn lemma_handler_keeps_track(e: ElementView, attr: Attr, id: Seq<char>)
    requires
        attr == Attr::OnClick || attr == Attr::OnInput,
        e.def.get(attr) is None,
        e.tracks_references(),
    ensures
        e.with_handler(attr, id).tracks_references(),
{
    broadcast use vstd::seq_lib::group_to_multiset_ensures;

    let d = e.def;
    let n = d.set_text(attr, id);
    let rest = forest_ids(d.children);
    assert(n.children == d.children);
    if attr == Attr::OnClick {
        assert(own_ids(n) =~= seq![id] + own_ids(d));
        assert(referenced_ids(n) =~= seq![id] + referenced_ids(d));
        vstd::seq_lib::lemma_multiset_commutative(seq![id], referenced_ids(d));
        assert(seq![id] =~= Seq::<Seq<char>>::empty().push(id));
    } else {
        assert(own_ids(n) =~= own_ids(d).push(id));
        assert(referenced_ids(n) =~= own_ids(d).push(id) + rest);
        vstd::seq_lib::lemma_multiset_commutative(own_ids(d).push(id), rest);
        vstd::seq_lib::lemma_multiset_commutative(own_ids(d), rest);
    }
    assert(e.with_handler(attr, id).callback_ids.to_multiset() =~= referenced_ids(
        n,
    ).to_multiset());
}

/// A child whose tracked identifiers are in step with its references keeps
/// the parent's in step too.
pub proof fn lemma_child_keeps_track(e: ElementView, child: ElementView)
    requires
        e.tracks_references(),
        child.tracks_references(),
    ensures
        e.with_child(child).tracks_references(),
{
    lemma_child_adds_references(e.def, child.def);
    vstd::seq_lib::lemma_multiset_commutative(e.callback_ids, child.callback_ids);
    vstd::seq_lib::lemma_multiset_commutative(referenced_ids(e.def), referenced_ids(child.def));
}

/// Where the tracked identifiers are in step with the referenced ones, both
/// hold the same identifiers, equally many, and one holds an identifier
/// twice only if the other does.
pub proof fn lemma_tracked_ids_are_the_referenced_ids(e: ElementView)
    requires
        e.tracks_references(),
    ensures
        e.callback_ids.to_set() == referenced_ids(e.def).to_set(),
        e.callback_ids.len() == referenced_ids(e.def).len(),
        e.callback_ids.no_duplicates() <==> referenced_ids(e.def).no_duplicates(),
{
    let kept = e.callback_ids;
    let referenced = referenced_ids(e.def);
    kept.to_multiset_ensures();
    referenced.to_multiset_ensures();
    assert forall|id: Seq<char>| kept.contains(id) == referenced.contains(id) by {
        assert(kept.to_multiset().count(id) == referenced.to_multiset().count(id));
    }
    assert(kept.to_set() =~= referenced.to_set());
    if kept.no_duplicates() {
        kept.lemma_multiset_has_no_duplicates();
        referenced.lemma_multiset_has_no_duplicates_conv();
    }
    if referenced.no_duplicates() {
        referenced.lemma_multiset_has_no_duplicates();
        kept.lemma_multiset_has_no_duplicates_conv();
    }
}

/// A fresh element of the given kind: blank, with the identifier made from
/// the given clock reading and count, and with no handlers.
pub open spec fn fresh(nanos: nat, count: nat, element_type: Seq<char>) -> ElementView {
    ElementView {
        def: ElementDefView::blank(id_text(nanos, count), element_type),
        callback_ids: Seq::empty(),
    }
}

/// The kind that is given, or `div` where none is given.
pub open spec fn kind_or_div(element_type: Option<String>) -> Seq<char> {
    match element_type {
        Some(t) => t@,
        None => "div"@,
    }
}

/// A built element: a node, and the identifiers of the handlers that were
/// registered for it and for the nodes below it.
#[derive(Debug)]
pub struct Element {
    pub def: ElementDef,
    callback_ids: Vec<String>,
}

impl View for Element {
    type V = ElementView;

    closed spec fn view(&self) -> ElementView {
        ElementView { def: self.def@, callback_ids: text_views(self.callback_ids@) }
    }
}

/// The text that describes an element of the given kind with the given
/// number of children.
pub open spec fn element_repr(element_type: Seq<char>, children: nat) -> Seq<char> {
    "Element(type='"@ + element_type + "', children="@ + crate::ident::dec_text(children) + ")"@
}

/// Copies of the given texts, in their order.
pub fn copy_texts(texts: &Vec<String>) -> (r: Vec<String>)
    ensures
        r@ == texts@,
{
    let mut out: Vec<String> = Vec::new();
    let mut i: usize = 0;
    while i < texts.len()
        invariant
            i <= texts.len(),
            out@ == texts@.take(i as int),
        decreases texts.len() - i,
    {
        out.push(texts[i].clone());
        assert(out@ =~= texts@.take(i + 1));
        i += 1;
    }
    assert(texts@.take(i as int) =~= texts@);
    out
}

impl Element {
    /// The node of the element.
    pub fn def(&self) -> (r: &ElementDef)
        ensures
            r@ == self@.def,
    {
        &self.def
    }

    /// An element of the given node that tracks no handler.
    pub fn from_def(def: ElementDef) -> (r: Element)
        ensures
            r@ == (ElementView { def: def@, callback_ids: Seq::empty() }),
    {
        let r = Element { def, callback_ids: Vec::new() };
        assert(r@.callback_ids =~= Seq::<Seq<char>>::empty());
        r
    }

    /// An element of the given kind, a `div` where none is given, with a
    /// fresh identifier, no attribute set, no children and no handlers.
    pub fn new(ids: &mut IdGenerator, element_type: Option<String>) -> (r: Element)
        ensures
            exists|nanos: nat|
                r@ == #[trigger] fresh(nanos, old(ids).count(), kind_or_div(element_type)),
            r@.tracks_references(),
            final(ids).count() == next_count(old(ids).count()),
    {
        let ghost count = ids.count();
        let id = ids.next_id();
        let kind = match element_type {
            Some(t) => t,
            None => String::from_str("div"),
        };
        proof {
            lemma_blank_references_nothing(id@, kind@);
        }
        let r = Element::from_def(ElementDef::with_id(id, kind));
        proof {
            let nanos = choose|nanos: nat| id@ == id_text(nanos, count);
            assert(kind@ == kind_or_div(element_type));
            assert(r@ == fresh(nanos, old(ids).count(), kind_or_div(element_type)));
        }
        r
    }

    /// The identifiers of the handlers registered for the element and for
    /// the nodes below it.
    pub fn callback_ids(&self) -> (r: &Vec<String>)
        ensures
            text_views(r@) == self@.callback_ids,
    {
        &self.callback_ids
    }

    /// A short description of the element: its kind and the number of its
    /// children.
    pub fn repr(&self) -> (r: String)
        ensures
            r@ == element_repr(self@.def.element_type, self@.def.children.len()),
    {
        let mut out = String::from_str("Element(type='");
        out.append(self.def.element_type.as_str());
        out.append("', children=");
        push_dec(&mut out, self.def.children.len() as u64);
        out.append(")");
        assert(out@ =~= element_repr(self@.def.element_type, self@.def.children.len()));
        out
    }

    /// A deep copy of the element.
    pub fn snapshot(&self) -> (r: Element)
        ensures
            r@ == self@,
    {
        Element { def: self.def.snapshot(), callback_ids: copy_texts(&self.callback_ids) }
    }

    /// Sets an attribute to a value of its kind. A value of another kind
    /// changes nothing.
    pub fn assign(&mut self, attr: Attr, value: AttrValue)
        ensures
            final(self)@ == old(self)@.set(attr, value@),
            attr != Attr::OnClick && attr != Attr::OnInput && old(self)@.tracks_references()
                ==> final(self)@.tracks_references(),
    {
        proof {
            if attr != Attr::OnClick && attr != Attr::OnInput {
                lemma_set_keeps_references(self@.def, attr, value@);
            }
        }
        self.def.assign(attr, value);
    }

    /// Attaches a handler of the given kind: the kind's attribute holds the
    /// handler's identifier, which is tracked after those tracked so far.
    pub fn attach(&mut self, kind: Interaction, id: String)
        ensures
            final(self)@ == old(self)@.with_handler(kind.attr(), id@),
            old(self)@.def.get(kind.attr()) is None && old(self)@.tracks_references()
                ==> final(self)@.tracks_references(),
    {
        let attr = kind.to_attr();
        proof {
            if self@.def.get(attr) is None && self@.tracks_references() {
                lemma_handler_keeps_track(self@, attr, id@);
            }
        }
        self.def.assign(attr, AttrValue::Text(id.clone()));
        self.callback_ids.push(id);
        assert(self@.callback_ids =~= old(self)@.callback_ids.push(id@));
    }

    /// Adds a copy of `child` as the last child, and tracks the child's
    /// handler identifiers after those tracked so far.
    pub fn add_child(&mut self, child: &Element)
        ensures
            final(self)@ == old(self)@.with_child(child@),
            old(self)@.tracks_references() && child@.tracks_references()
                ==> final(self)@.tracks_references(),
    {
        let ghost before = self.def@;
        self.def.children.push(child.def.snapshot());
        assert(self.def@.children =~= before.children.push(child.def@));
        let mut i: usize = 0;
        while i < child.callback_ids.len()
            invariant
                i <= child.callback_ids.len(),
                self.def@ == before.with_child(child.def@),
                self@.callback_ids == old(self)@.callback_ids + child@.callback_ids.take(
                    i as int,
                ),
            decreases child.callback_ids.len() - i,
        {
            let ghost so_far = self@.callback_ids;
            let id = child.callback_ids[i].clone();
            self.callback_ids.push(id);
            assert(self@.callback_ids =~= so_far.push(child@.callback_ids[i as int]));
            assert(self@.callback_ids =~= old(self)@.callback_ids + child@.callback_ids.take(
                i + 1,
            ));
            i += 1;
        }
        assert(child@.callback_ids.take(i as int) =~= child@.callback_ids);
        proof {
            if old(self)@.tracks_references() && child@.tracks_references() {
                lemma_child_keeps_track(old(self)@, child@);
            }
        }
    }

    /// Takes out of the registry the handlers whose identifiers the element
    /// tracks: the result holds those of them that the registry held, and
    /// the registry keeps the rest.
    pub fn collect_callbacks<H>(&self, registry: &mut CallbackRegistry<H>) -> (r:
        CallbackRegistry<H>)
        requires
            old(registry).wf(),
        ensures
            final(registry).wf(),
            r.wf(),
            r@ == old(registry)@.restrict(self@.callback_ids.to_set()),
            final(registry)@ == old(registry)@.remove_keys(self@.callback_ids.to_set()),
    {
        proof {
            let ids = self.callback_ids@;
            let views = self@.callback_ids;
            assert forall|k: Seq<char>| id_set(ids).contains(k) == views.to_set().contains(k) by {
                if id_set(ids).contains(k) {
                    let i = choose|i: int| 0 <= i < ids.len() && (#[trigger] ids[i])@ == k;
                    assert(views[i] == k);
                }
                if views.contains(k) {
                    let i = choose|i: int| 0 <= i < views.len() && views[i] == k;
                    assert(ids[i]@ == k);
                }
            }
            assert(id_set(ids) =~= views.to_set());
        }
        registry.collect(&self.callback_ids)
    }
}

} // verus!
