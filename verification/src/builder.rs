//! The builder: a draft of an element that attribute calls fill in, that
//! children are added to, and that handlers are attached to.
//!
//! Every call takes the draft and gives it back, so calls chain in any
//! order. A later call for an attribute replaces what an earlier call set.
//! `build` copies the draft as it stands and leaves it usable.

use crate::element::{Attr, AttrValue, AttrValueView, Number, ONE_BITS};
use crate::ident::{id_text, next_count, IdGenerator};
use crate::registry::CallbackRegistry;
use crate::tree::{element_repr, fresh, Element, ElementView, Interaction};
use vstd::prelude::*;

verus! {

/// A draft of an element.
#[derive(Debug)]
pub struct ElementBuilder {
    element: Element,
}

impl View for ElementBuilder {
    type V = ElementView;

    closed spec fn view(&self) -> ElementView {
        self.element@
    }
}

impl ElementBuilder {
    /// A draft that starts from the given element.
    pub fn from_element(element: Element) -> (r: Self)
        ensures
            r@ == element@,
    {
        ElementBuilder { element }
    }

    fn start(ids: &mut IdGenerator, element_type: &str) -> (r: Self)
        ensures
            exists|nanos: nat| r@ == #[trigger] fresh(nanos, old(ids).count(), element_type@),
            r@.tracks_references(),
            final(ids).count() == next_count(old(ids).count()),
    {
        ElementBuilder { element: Element::new(ids, Some(String::from_str(element_type))) }
    }

    fn start_with(ids: &mut IdGenerator, element_type: &str, content: String) -> (r: Self)
        ensures
            exists|nanos: nat|
                r@ == (#[trigger] fresh(nanos, old(ids).count(), element_type@)).set(
                    Attr::TextContent,
                    AttrValueView::Text(content@),
                ),
            r@.tracks_references(),
            final(ids).count() == next_count(old(ids).count()),
    {
        let mut element = Element::new(ids, Some(String::from_str(element_type)));
        let ghost blank = element@;
        element.assign(Attr::TextContent, AttrValue::Text(content));
        proof {
            let nanos = choose|nanos: nat|
                blank == #[trigger] fresh(nanos, old(ids).count(), element_type@);
            assert(element@ == fresh(nanos, old(ids).count(), element_type@).set(
                Attr::TextContent,
                AttrValueView::Text(content@),
            ));
        }
        ElementBuilder { element }
    }

    /// A draft of a container.
    pub fn div(ids: &mut IdGenerator) -> (r: Self)
        ensures
            exists|nanos: nat| r@ == #[trigger] fresh(nanos, old(ids).count(), "div"@),
            r@.tracks_references(),
            final(ids).count() == next_count(old(ids).count()),
    {
        Self::start(ids, "div")
    }

    /// A draft of a text node with the given content.
    pub fn text(ids: &mut IdGenerator, content: String) -> (r: Self)
        ensures
            exists|nanos: nat|
                r@ == (#[trigger] fresh(nanos, old(ids).count(), "text"@)).set(
                    Attr::TextContent,
                    AttrValueView::Text(content@),
                ),
            r@.tracks_references(),
            final(ids).count() == next_count(old(ids).count()),
    {
        Self::start_with(ids, "text", content)
    }

    /// A draft of a button with the given label.
    pub fn button(ids: &mut IdGenerator, label: String) -> (r: Self)
        ensures
            exists|nanos: nat|
                r@ == (#[trigger] fresh(nanos, old(ids).count(), "button"@)).set(
                    Attr::TextContent,
                    AttrValueView::Text(label@),
                ),
            r@.tracks_references(),
            final(ids).count() == next_count(old(ids).count()),
    {
        Self::start_with(ids, "button", label)
    }

    /// A draft of an image with the given source.
    pub fn image(ids: &mut IdGenerator, src: String) -> (r: Self)
        ensures
            exists|nanos: nat|
                r@ == (#[trigger] fresh(nanos, old(ids).count(), "image"@)).set(
                    Attr::TextContent,
                    AttrValueView::Text(src@),
                ),
            r@.tracks_references(),
            final(ids).count() == next_count(old(ids).count()),
    {
        Self::start_with(ids, "image", src)
    }

    /// A draft of an input field.
    pub fn input(ids: &mut IdGenerator) -> (r: Self)
        ensures
            exists|nanos: nat| r@ == #[trigger] fresh(nanos, old(ids).count(), "input"@),
            r@.tracks_references(),
            final(ids).count() == next_count(old(ids).count()),
    {
        Self::start(ids, "input")
    }

    /// Sets the width, in pixels.
    pub fn width(self, w: Number) -> (r: Self)
        ensures
            r@ == self@.set(Attr::Width, AttrValueView::Number(w)),
            self@.tracks_references() ==> r@.tracks_references(),
    {
        let mut draft = self;
        draft.element.assign(Attr::Width, AttrValue::Number(w));
        draft
    }

    /// Sets the height, in pixels.
    pub fn height(self, h: Number) -> (r: Self)
        ensures
            r@ == self@.set(Attr::Height, AttrValueView::Number(h)),
            self@.tracks_references() ==> r@.tracks_references(),
    {
        let mut draft = self;
        draft.element.assign(Attr::Height, AttrValue::Number(h));
        draft
    }

    /// Sets the width and the height, in pixels.
    pub fn size(self, w: Number, h: Number) -> (r: Self)
        ensures
            r@ == self@
                .set(Attr::Width, AttrValueView::Number(w))
                .set(Attr::Height, AttrValueView::Number(h)),
            self@.tracks_references() ==> r@.tracks_references(),
    {
        let mut draft = self;
        draft.element.assign(Attr::Width, AttrValue::Number(w));
        draft.element.assign(Attr::Height, AttrValue::Number(h));
        draft
    }

    /// Makes the node fill the space available to it.
    pub fn size_full(self) -> (r: Self)
        ensures
            r@ == self@.set(Attr::SizeFull, AttrValueView::Flag(true)),
            self@.tracks_references() ==> r@.tracks_references(),
    {
        let mut draft = self;
        draft.element.assign(Attr::SizeFull, AttrValue::Flag(true));
        draft
    }

    /// Lays the children out in a column.
    pub fn v_flex(self) -> (r: Self)
        ensures
            r@ == self@.set(Attr::FlexDirection, AttrValueView::Text("column"@)),
            self@.tracks_references() ==> r@.tracks_references(),
    {
        let mut draft = self;
        draft.element.assign(Attr::FlexDirection, AttrValue::Text(String::from_str("column")));
        draft
    }

    /// Lays the children out in a row.
    pub fn h_flex(self) -> (r: Self)
        ensures
            r@ == self@.set(Attr::FlexDirection, AttrValueView::Text("row"@)),
            self@.tracks_references() ==> r@.tracks_references(),
    {
        let mut draft = self;
        draft.element.assign(Attr::FlexDirection, AttrValue::Text(String::from_str("row")));
        draft
    }

    /// Centers the children on the cross axis.
    pub fn items_center(self) -> (r: Self)
        ensures
            r@ == self@.set(Attr::AlignItems, AttrValueView::Text("center"@)),
            self@.tracks_references() ==> r@.tracks_references(),
    {
        let mut draft = self;
        draft.element.assign(Attr::AlignItems, AttrValue::Text(String::from_str("center")));
        draft
    }

    /// Centers the children on the main axis.
    pub fn justify_center(self) -> (r: Self)
        ensures
            r@ == self@.set(Attr::JustifyContent, AttrValueView::Text("center"@)),
            self@.tracks_references() ==> r@.tracks_references(),
    {
        let mut draft = self;
        draft.element.assign(Attr::JustifyContent, AttrValue::Text(String::from_str("center")));
        draft
    }

    /// Spreads the children over the main axis, with the space between them.
    pub fn justify_between(self) -> (r: Self)
        ensures
            r@ == self@.set(Attr::JustifyContent, AttrValueView::Text("space-between"@)),
            self@.tracks_references() ==> r@.tracks_references(),
    {
        let mut draft = self;
        draft.element.assign(
            Attr::JustifyContent,
            AttrValue::Text(String::from_str("space-between")),
        );
        draft
    }

    /// Sets the gap between children.
    pub fn gap(self, g: Number) -> (r: Self)
        ensures
            r@ == self@.set(Attr::Gap, AttrValueView::Number(g)),
            self@.tracks_references() ==> r@.tracks_references(),
    {
        let mut draft = self;
        draft.element.assign(Attr::Gap, AttrValue::Number(g));
        draft
    }

    /// Sets the padding on all four edges.
    pub fn padding(self, p: Number) -> (r: Self)
        ensures
            r@ == self@.set(Attr::Padding, AttrValueView::Number(p)),
            self@.tracks_references() ==> r@.tracks_references(),
    {
        let mut draft = self;
        draft.element.assign(Attr::Padding, AttrValue::Number(p));
        draft
    }

    /// Sets the padding on all four edges; short for `padding`.
    pub fn p(self, p: Number) -> (r: Self)
        ensures
            r@ == self@.set(Attr::Padding, AttrValueView::Number(p)),
            self@.tracks_references() ==> r@.tracks_references(),
    {
        let mut draft = self;
        draft.element.assign(Attr::Padding, AttrValue::Number(p));
        draft
    }

    /// Sets the padding at the top.
    pub fn pt(self, p: Number) -> (r: Self)
        ensures
            r@ == self@.set(Attr::PaddingTop, AttrValueView::Number(p)),
            self@.tracks_references() ==> r@.tracks_references(),
    {
        let mut draft = self;
        draft.element.assign(Attr::PaddingTop, AttrValue::Number(p));
        draft
    }

    /// Sets the padding on the right.
    pub fn pr(self, p: Number) -> (r: Self)
        ensures
            r@ == self@.set(Attr::PaddingRight, AttrValueView::Number(p)),
            self@.tracks_references() ==> r@.tracks_references(),
    {
        let mut draft = self;
        draft.element.assign(Attr::PaddingRight, AttrValue::Number(p));
        draft
    }

    /// Sets the padding at the bottom.
    pub fn pb(self, p: Number) -> (r: Self)
        ensures
            r@ == self@.set(Attr::PaddingBottom, AttrValueView::Number(p)),
            self@.tracks_references() ==> r@.tracks_references(),
    {
        let mut draft = self;
        draft.element.assign(Attr::PaddingBottom, AttrValue::Number(p));
        draft
    }

    /// Sets the padding on the left.
    pub fn pl(self, p: Number) -> (r: Self)
        ensures
            r@ == self@.set(Attr::PaddingLeft, AttrValueView::Number(p)),
            self@.tracks_references() ==> r@.tracks_references(),
    {
        let mut draft = self;
        draft.element.assign(Attr::PaddingLeft, AttrValue::Number(p));
        draft
    }

    /// Sets the padding on the left and on the right.
    pub fn px(self, p: Number) -> (r: Self)
        ensures
            r@ == self@
                .set(Attr::PaddingLeft, AttrValueView::Number(p))
                .set(Attr::PaddingRight, AttrValueView::Number(p)),
            self@.tracks_references() ==> r@.tracks_references(),
    {
        let mut draft = self;
        draft.element.assign(Attr::PaddingLeft, AttrValue::Number(p));
        draft.element.assign(Attr::PaddingRight, AttrValue::Number(p));
        draft
    }

    /// Sets the padding at the top and at the bottom.
    pub fn py(self, p: Number) -> (r: Self)
        ensures
            r@ == self@
                .set(Attr::PaddingTop, AttrValueView::Number(p))
                .set(Attr::PaddingBottom, AttrValueView::Number(p)),
            self@.tracks_references() ==> r@.tracks_references(),
    {
        let mut draft = self;
        draft.element.assign(Attr::PaddingTop, AttrValue::Number(p));
        draft.element.assign(Attr::PaddingBottom, AttrValue::Number(p));
        draft
    }

    /// Sets the margin.
    pub fn margin(self, m: Number) -> (r: Self)
        ensures
            r@ == self@.set(Attr::Margin, AttrValueView::Number(m)),
            self@.tracks_references() ==> r@.tracks_references(),
    {
        let mut draft = self;
        draft.element.assign(Attr::Margin, AttrValue::Number(m));
        draft
    }

    /// Sets the margin; short for `margin`.
    pub fn m(self, m: Number) -> (r: Self)
        ensures
            r@ == self@.set(Attr::Margin, AttrValueView::Number(m)),
            self@.tracks_references() ==> r@.tracks_references(),
    {
        let mut draft = self;
        draft.element.assign(Attr::Margin, AttrValue::Number(m));
        draft
    }

    /// Sets the background color, in any notation the style target knows.
    pub fn bg(self, color: String) -> (r: Self)
        ensures
            r@ == self@.set(Attr::BackgroundColor, AttrValueView::Text(color@)),
            self@.tracks_references() ==> r@.tracks_references(),
    {
        let mut draft = self;
        draft.element.assign(Attr::BackgroundColor, AttrValue::Text(color));
        draft
    }

    /// Sets the text color.
    pub fn text_color(self, color: String) -> (r: Self)
        ensures
            r@ == self@.set(Attr::TextColor, AttrValueView::Text(color@)),
            self@.tracks_references() ==> r@.tracks_references(),
    {
        let mut draft = self;
        draft.element.assign(Attr::TextColor, AttrValue::Text(color));
        draft
    }

    /// Sets the radius of the corners.
    pub fn rounded(self, radius: Number) -> (r: Self)
        ensures
            r@ == self@.set(Attr::BorderRadius, AttrValueView::Number(radius)),
            self@.tracks_references() ==> r@.tracks_references(),
    {
        let mut draft = self;
        draft.element.assign(Attr::BorderRadius, AttrValue::Number(radius));
        draft
    }

    /// Sets the width and the color of the border.
    pub fn border(self, width: Number, color: String) -> (r: Self)
        ensures
            r@ == self@
                .set(Attr::BorderWidth, AttrValueView::Number(width))
                .set(Attr::BorderColor, AttrValueView::Text(color@)),
            self@.tracks_references() ==> r@.tracks_references(),
    {
        let mut draft = self;
        draft.element.assign(Attr::BorderWidth, AttrValue::Number(width));
        draft.element.assign(Attr::BorderColor, AttrValue::Text(color));
        draft
    }

    /// Sets a border one pixel wide in the given color.
    pub fn b(self, color: String) -> (r: Self)
        ensures
            r@ == self@
                .set(Attr::BorderWidth, AttrValueView::Number(Number { bits: ONE_BITS }))
                .set(Attr::BorderColor, AttrValueView::Text(color@)),
            self@.tracks_references() ==> r@.tracks_references(),
    {
        let mut draft = self;
        draft.element.assign(Attr::BorderWidth, AttrValue::Number(Number { bits: ONE_BITS }));
        draft.element.assign(Attr::BorderColor, AttrValue::Text(color));
        draft
    }

    /// Hides what overflows the node.
    pub fn overflow_hidden(self) -> (r: Self)
        ensures
            r@ == self@.set(Attr::Overflow, AttrValueView::Text("hidden"@)),
            self@.tracks_references() ==> r@.tracks_references(),
    {
        let mut draft = self;
        draft.element.assign(Attr::Overflow, AttrValue::Text(String::from_str("hidden")));
        draft
    }

    /// Sets the overflow mode.
    pub fn overflow(self, value: String) -> (r: Self)
        ensures
            r@ == self@.set(Attr::Overflow, AttrValueView::Text(value@)),
            self@.tracks_references() ==> r@.tracks_references(),
    {
        let mut draft = self;
        draft.element.assign(Attr::Overflow, AttrValue::Text(value));
        draft
    }

    /// Sets the text alignment.
    pub fn text_align(self, align: String) -> (r: Self)
        ensures
            r@ == self@.set(Attr::TextAlign, AttrValueView::Text(align@)),
            self@.tracks_references() ==> r@.tracks_references(),
    {
        let mut draft = self;
        draft.element.assign(Attr::TextAlign, AttrValue::Text(align));
        draft
    }

    /// Centers the text.
    pub fn text_center(self) -> (r: Self)
        ensures
            r@ == self@.set(Attr::TextAlign, AttrValueView::Text("center"@)),
            self@.tracks_references() ==> r@.tracks_references(),
    {
        let mut draft = self;
        draft.element.assign(Attr::TextAlign, AttrValue::Text(String::from_str("center")));
        draft
    }

    /// Sets the word-wrap mode.
    pub fn word_wrap(self, value: String) -> (r: Self)
        ensures
            r@ == self@.set(Attr::WordWrap, AttrValueView::Text(value@)),
            self@.tracks_references() ==> r@.tracks_references(),
    {
        let mut draft = self;
        draft.element.assign(Attr::WordWrap, AttrValue::Text(value));
        draft
    }

    /// Sets the position mode.
    pub fn position(self, value: String) -> (r: Self)
        ensures
            r@ == self@.set(Attr::Position, AttrValueView::Text(value@)),
            self@.tracks_references() ==> r@.tracks_references(),
    {
        let mut draft = self;
        draft.element.assign(Attr::Position, AttrValue::Text(value));
        draft
    }

    /// Positions the node absolutely.
    pub fn absolute(self) -> (r: Self)
        ensures
            r@ == self@.set(Attr::Position, AttrValueView::Text("absolute"@)),
            self@.tracks_references() ==> r@.tracks_references(),
    {
        let mut draft = self;
        draft.element.assign(Attr::Position, AttrValue::Text(String::from_str("absolute")));
        draft
    }

    /// Positions the node relative to its place in the flow.
    pub fn relative(self) -> (r: Self)
        ensures
            r@ == self@.set(Attr::Position, AttrValueView::Text("relative"@)),
            self@.tracks_references() ==> r@.tracks_references(),
    {
        let mut draft = self;
        draft.element.assign(Attr::Position, AttrValue::Text(String::from_str("relative")));
        draft
    }

    /// Sets the offset from the top.
    pub fn top(self, value: Number) -> (r: Self)
        ensures
            r@ == self@.set(Attr::Top, AttrValueView::Number(value)),
            self@.tracks_references() ==> r@.tracks_references(),
    {
        let mut draft = self;
        draft.element.assign(Attr::Top, AttrValue::Number(value));
        draft
    }

    /// Sets the offset from the right.
    pub fn right(self, value: Number) -> (r: Self)
        ensures
            r@ == self@.set(Attr::Right, AttrValueView::Number(value)),
            self@.tracks_references() ==> r@.tracks_references(),
    {
        let mut draft = self;
        draft.element.assign(Attr::Right, AttrValue::Number(value));
        draft
    }

    /// Sets the offset from the bottom.
    pub fn bottom(self, value: Number) -> (r: Self)
        ensures
            r@ == self@.set(Attr::Bottom, AttrValueView::Number(value)),
            self@.tracks_references() ==> r@.tracks_references(),
    {
        let mut draft = self;
        draft.element.assign(Attr::Bottom, AttrValue::Number(value));
        draft
    }

    /// Sets the offset from the left.
    pub fn left(self, value: Number) -> (r: Self)
        ensures
            r@ == self@.set(Attr::Left, AttrValueView::Number(value)),
            self@.tracks_references() ==> r@.tracks_references(),
    {
        let mut draft = self;
        draft.element.assign(Attr::Left, AttrValue::Number(value));
        draft
    }

    /// Sets the font size.
    pub fn text_size(self, size: Number) -> (r: Self)
        ensures
            r@ == self@.set(Attr::FontSize, AttrValueView::Number(size)),
            self@.tracks_references() ==> r@.tracks_references(),
    {
        let mut draft = self;
        draft.element.assign(Attr::FontSize, AttrValue::Number(size));
        draft
    }

    /// Sets the font weight: `normal`, `bold`, or `100` to `900`.
    pub fn text_weight(self, weight: String) -> (r: Self)
        ensures
            r@ == self@.set(Attr::FontWeight, AttrValueView::Text(weight@)),
            self@.tracks_references() ==> r@.tracks_references(),
    {
        let mut draft = self;
        draft.element.assign(Attr::FontWeight, AttrValue::Text(weight));
        draft
    }

    /// Sets the current value of an input.
    pub fn value(self, val: String) -> (r: Self)
        ensures
            r@ == self@.set(Attr::Value, AttrValueView::Text(val@)),
            self@.tracks_references() ==> r@.tracks_references(),
    {
        let mut draft = self;
        draft.element.assign(Attr::Value, AttrValue::Text(val));
        draft
    }

    /// Sets the placeholder text of an input.
    pub fn placeholder(self, text: String) -> (r: Self)
        ensures
            r@ == self@.set(Attr::Placeholder, AttrValueView::Text(text@)),
            self@.tracks_references() ==> r@.tracks_references(),
    {
        let mut draft = self;
        draft.element.assign(Attr::Placeholder, AttrValue::Text(text));
        draft
    }

    /// Adds a copy of a built element as the last child, and tracks the
    /// child's handler identifiers after those tracked so far.
    pub fn child(self, child: &Element) -> (r: Self)
        ensures
            r@ == self@.with_child(child@),
            self@.tracks_references() && child@.tracks_references() ==> r@.tracks_references(),
    {
        let mut draft = self;
        draft.element.add_child(child);
        draft
    }

    /// Adds a copy of what another draft holds as the last child, and tracks
    /// that draft's handler identifiers after those tracked so far.
    pub fn child_builder(self, child: &ElementBuilder) -> (r: Self)
        ensures
            r@ == self@.with_child(child@),
            self@.tracks_references() && child@.tracks_references() ==> r@.tracks_references(),
    {
        let mut draft = self;
        draft.element.add_child(&child.element);
        draft
    }

    /// Adds a fresh text node with the given content as the last child.
    pub fn child_text(self, ids: &mut IdGenerator, text: String) -> (r: Self)
        ensures
            exists|nanos: nat|
                r@ == self@.with_child(
                    (#[trigger] fresh(nanos, old(ids).count(), "text"@)).set(
                        Attr::TextContent,
                        AttrValueView::Text(text@),
                    ),
                ),
            self@.tracks_references() ==> r@.tracks_references(),
            final(ids).count() == next_count(old(ids).count()),
    {
        let leaf = Self::start_with(ids, "text", text);
        let mut draft = self;
        draft.element.add_child(&leaf.element);
        proof {
            let nanos = choose|nanos: nat|
                leaf@ == (#[trigger] fresh(nanos, old(ids).count(), "text"@)).set(
                    Attr::TextContent,
                    AttrValueView::Text(text@),
                );
            assert(draft@ == self@.with_child(
                fresh(nanos, old(ids).count(), "text"@).set(
                    Attr::TextContent,
                    AttrValueView::Text(text@),
                ),
            ));
            if self@.tracks_references() {
                assert(leaf@.tracks_references());
            }
        }
        draft
    }

    /// Attaches a handler of the given kind under the given identifier: the
    /// handler is stored in the registry under the identifier, the kind's
    /// attribute holds the identifier, and the identifier is tracked after
    /// those tracked so far.
    pub fn attach_handler<H>(
        self,
        kind: Interaction,
        id: String,
        registry: &mut CallbackRegistry<H>,
        callback: H,
    ) -> (r: Self)
        requires
            old(registry).wf(),
        ensures
            r@ == self@.with_handler(kind.attr(), id@),
            final(registry).wf(),
            final(registry)@ == old(registry)@.insert(id@, callback),
            self@.def.get(kind.attr()) is None && self@.tracks_references()
                ==> r@.tracks_references(),
    {
        let mut draft = self;
        registry.store(id.clone(), callback);
        draft.element.attach(kind, id);
        draft
    }

    /// Attaches a click handler under a fresh identifier.
    pub fn on_click<H>(
        self,
        ids: &mut IdGenerator,
        registry: &mut CallbackRegistry<H>,
        callback: H,
    ) -> (r: Self)
        requires
            old(registry).wf(),
        ensures
            exists|nanos: nat|
                r@ == self@.with_handler(Attr::OnClick, #[trigger] id_text(nanos, old(ids).count()))
                    && final(registry)@ == old(registry)@.insert(
                    id_text(nanos, old(ids).count()),
                    callback,
                ),
            final(registry).wf(),
            final(ids).count() == next_count(old(ids).count()),
            self@.def.on_click is None && self@.tracks_references() ==> r@.tracks_references(),
    {
        let id = ids.next_id();
        let ghost text = id@;
        let r = self.attach_handler(Interaction::Click, id, registry, callback);
        proof {
            let nanos = choose|nanos: nat| text == id_text(nanos, old(ids).count());
            assert(r@ == self@.with_handler(Attr::OnClick, id_text(nanos, old(ids).count())));
        }
        r
    }

    /// Attaches an input handler under a fresh identifier.
    pub fn on_input<H>(
        self,
        ids: &mut IdGenerator,
        registry: &mut CallbackRegistry<H>,
        callback: H,
    ) -> (r: Self)
        requires
            old(registry).wf(),
        ensures
            exists|nanos: nat|
                r@ == self@.with_handler(Attr::OnInput, #[trigger] id_text(nanos, old(ids).count()))
                    && final(registry)@ == old(registry)@.insert(
                    id_text(nanos, old(ids).count()),
                    callback,
                ),
            final(registry).wf(),
            final(ids).count() == next_count(old(ids).count()),
            self@.def.on_input is None && self@.tracks_references() ==> r@.tracks_references(),
    {
        let id = ids.next_id();
        let ghost text = id@;
        let r = self.attach_handler(Interaction::Input, id, registry, callback);
        proof {
            let nanos = choose|nanos: nat| text == id_text(nanos, old(ids).count());
            assert(r@ == self@.with_handler(Attr::OnInput, id_text(nanos, old(ids).count())));
        }
        r
    }

    /// A copy of the draft as it stands. The draft stays usable, and later
    /// calls on it do not reach the copy.
    pub fn build(&self) -> (r: Element)
        ensures
            r@ == self@,
    {
        self.element.snapshot()
    }

    /// A short description of the draft.
    pub fn repr(&self) -> (r: String)
        ensures
            r@ == "ElementBuilder("@ + element_repr(
                self@.def.element_type,
                self@.def.children.len(),
            ) + ")"@,
    {
        let mut out = String::from_str("ElementBuilder(");
        let inner = self.element.repr();
        out.append(inner.as_str());
        out.append(")");
        out
    }
}

/// A draft of a container.
pub fn div(ids: &mut IdGenerator) -> (r: ElementBuilder)
    ensures
        exists|nanos: nat| r@ == #[trigger] fresh(nanos, old(ids).count(), "div"@),
        r@.tracks_references(),
        final(ids).count() == next_count(old(ids).count()),
{
    ElementBuilder::div(ids)
}

/// A draft of a text node with the given content.
pub fn text(ids: &mut IdGenerator, content: String) -> (r: ElementBuilder)
    ensures
        exists|nanos: nat|
            r@ == fresh(nanos, old(ids).count(), "text"@).set(
                Attr::TextContent,
                AttrValueView::Text(content@),
            ),
        r@.tracks_references(),
        final(ids).count() == next_count(old(ids).count()),
{
    ElementBuilder::text(ids, content)
}

/// A draft of a button with the given label.
pub fn button(ids: &mut IdGenerator, label: String) -> (r: ElementBuilder)
    ensures
        exists|nanos: nat|
            r@ == fresh(nanos, old(ids).count(), "button"@).set(
                Attr::TextContent,
                AttrValueView::Text(label@),
            ),
        r@.tracks_references(),
        final(ids).count() == next_count(old(ids).count()),
{
    ElementBuilder::button(ids, label)
}

/// A draft of an input field.
pub fn input(ids: &mut IdGenerator) -> (r: ElementBuilder)
    ensures
        exists|nanos: nat| r@ == #[trigger] fresh(nanos, old(ids).count(), "input"@),
        r@.tracks_references(),
        final(ids).count() == next_count(old(ids).count()),
{
    ElementBuilder::input(ids)
}

} // verus!
