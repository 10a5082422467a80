//! The element tree: one node of a UI document, its attributes, and the
//! record that a node is written out as.
//!
//! Every attribute but the identifier and the kind is optional. An attribute
//! that was never set is absent, which is not the same as false, zero or
//! empty: the record of a node lists exactly the attributes that are
//! present.

use crate::ident::{id_text, next_count, IdGenerator};
use vstd::prelude::*;

verus! {

/// A single-precision number, carried as its IEEE 754 bit pattern. The
/// library stores and compares such numbers; it never computes with them.
#[derive(Clone, Copy, Debug, PartialEq, Eq, Structural)]
pub struct Number {
    pub bits: u32,
}

/// The bit pattern of the number one.
pub const ONE_BITS: u32 = 0x3f80_0000u32;

/// Names one attribute of a node, in the order in which a node is written
/// out.
#[derive(Clone, Copy, Debug, PartialEq, Eq, Structural)]
pub enum Attr {
    Id,
    ElementType,
    Width,
    Height,
    FlexDirection,
    AlignItems,
    JustifyContent,
    Gap,
    Padding,
    PaddingTop,
    PaddingRight,
    PaddingBottom,
    PaddingLeft,
    Margin,
    SizeFull,
    BackgroundColor,
    TextColor,
    BorderRadius,
    BorderWidth,
    BorderColor,
    Overflow,
    TextAlign,
    WordWrap,
    Position,
    Top,
    Right,
    Bottom,
    Left,
    TextContent,
    FontSize,
    FontWeight,
    OnClick,
    OnInput,
    Value,
    Placeholder,
}

/// The number of attributes that `Attr` names.
pub const ATTR_COUNT: usize = 35;

/// The value of one attribute.
#[derive(Clone, Debug, PartialEq, Eq)]
pub enum AttrValue {
    Text(String),
    Number(Number),
    Flag(bool),
}

/// The value of one attribute, as specifications see it.
pub ghost enum AttrValueView {
    Text(Seq<char>),
    Number(Number),
    Flag(bool),
}

impl View for AttrValue {
    type V = AttrValueView;

    open spec fn view(&self) -> AttrValueView {
        match self {
            AttrValue::Text(s) => AttrValueView::Text(s@),
            AttrValue::Number(n) => AttrValueView::Number(*n),
            AttrValue::Flag(b) => AttrValueView::Flag(*b),
        }
    }
}

/// One line of a node's record: an attribute that is present, and its value.
#[derive(Clone, Debug, PartialEq, Eq)]
pub struct Entry {
    pub attr: Attr,
    pub value: AttrValue,
}

/// One line of a node's record, as specifications see it.
pub ghost struct EntryView {
    pub attr: Attr,
    pub value: AttrValueView,
}

impl View for Entry {
    type V = EntryView;

    open spec fn view(&self) -> EntryView {
        EntryView { attr: self.attr, value: self.value@ }
    }
}

/// A node as it is written out: the lines of its record, then its children,
/// each written out in the same way.
#[derive(Debug, PartialEq, Eq)]
pub struct Document {
    pub entries: Vec<Entry>,
    pub children: Vec<Document>,
}

/// A written-out node, as specifications see it.
pub ghost struct DocumentView {
    pub entries: Seq<EntryView>,
    pub children: Seq<DocumentView>,
}

impl Document {
    /// The written-out node as specifications see it.
    pub open spec fn model(&self) -> DocumentView
        decreases self,
    {
        DocumentView {
            entries: self.entries@.map_values(|e: Entry| e@),
            children: Seq::new(
                self.children.len() as nat,
                |i: int|
                    if 0 <= i < self.children.len() {
                        self.children[i].model()
                    } else {
                        arbitrary()
                    },
            ),
        }
    }
}

impl View for Document {
    type V = DocumentView;

    open spec fn view(&self) -> DocumentView {
        self.model()
    }
}

/// The view of an optional text.
pub open spec fn text_view(t: Option<String>) -> Option<Seq<char>> {
    match t {
        Some(s) => Some(s@),
        None => None,
    }
}

/// The view of an optional attribute value.
pub open spec fn value_view(v: Option<AttrValue>) -> Option<AttrValueView> {
    match v {
        Some(x) => Some(x@),
        None => None,
    }
}

/// One node of a UI document.
#[derive(Debug)]
pub struct ElementDef {
    /// Unique identifier, given at construction.
    pub id: String,
    /// The kind of node: `div`, `text`, `button`, `image`, `input`.
    pub element_type: String,
    pub width: Option<Number>,
    pub height: Option<Number>,
    pub flex_direction: Option<String>,
    pub align_items: Option<String>,
    pub justify_content: Option<String>,
    pub gap: Option<Number>,
    pub padding: Option<Number>,
    pub padding_top: Option<Number>,
    pub padding_right: Option<Number>,
    pub padding_bottom: Option<Number>,
    pub padding_left: Option<Number>,
    pub margin: Option<Number>,
    /// Whether the node fills the space available to it; absent until set.
    pub size_full: Option<bool>,
    pub background_color: Option<String>,
    pub text_color: Option<String>,
    pub border_radius: Option<Number>,
    pub border_width: Option<Number>,
    pub border_color: Option<String>,
    pub overflow: Option<String>,
    pub text_align: Option<String>,
    pub word_wrap: Option<String>,
    pub position: Option<String>,
    pub top: Option<Number>,
    pub right: Option<Number>,
    pub bottom: Option<Number>,
    pub left: Option<Number>,
    /// Text shown by the node; for an image, its source.
    pub text_content: Option<String>,
    pub font_size: Option<Number>,
    pub font_weight: Option<String>,
    /// Identifier of the registered click handler.
    pub on_click: Option<String>,
    /// Identifier of the registered input handler.
    pub on_input: Option<String>,
    /// Current value of an input.
    pub value: Option<String>,
    pub placeholder: Option<String>,
    /// The child nodes, in the order in which they are shown.
    pub children: Vec<ElementDef>,
}

/// One node of a UI document, as specifications see it.
pub ghost struct ElementDefView {
    pub id: Seq<char>,
    pub element_type: Seq<char>,
    pub width: Option<Number>,
    pub height: Option<Number>,
    pub flex_direction: Option<Seq<char>>,
    pub align_items: Option<Seq<char>>,
    pub justify_content: Option<Seq<char>>,
    pub gap: Option<Number>,
    pub padding: Option<Number>,
    pub padding_top: Option<Number>,
    pub padding_right: Option<Number>,
    pub padding_bottom: Option<Number>,
    pub padding_left: Option<Number>,
    pub margin: Option<Number>,
    pub size_full: Option<bool>,
    pub background_color: Option<Seq<char>>,
    pub text_color: Option<Seq<char>>,
    pub border_radius: Option<Number>,
    pub border_width: Option<Number>,
    pub border_color: Option<Seq<char>>,
    pub overflow: Option<Seq<char>>,
    pub text_align: Option<Seq<char>>,
    pub word_wrap: Option<Seq<char>>,
    pub position: Option<Seq<char>>,
    pub top: Option<Number>,
    pub right: Option<Number>,
    pub bottom: Option<Number>,
    pub left: Option<Number>,
    pub text_content: Option<Seq<char>>,
    pub font_size: Option<Number>,
    pub font_weight: Option<Seq<char>>,
    pub on_click: Option<Seq<char>>,
    pub on_input: Option<Seq<char>>,
    pub value: Option<Seq<char>>,
    pub placeholder: Option<Seq<char>>,
    pub children: Seq<ElementDefView>,
}

impl ElementDef {
    /// The node as specifications see it: each text by its characters, each
    /// child by its own model.
    pub open spec fn model(&self) -> ElementDefView
        decreases self,
    {
        ElementDefView {
            id: self.id@,
            element_type: self.element_type@,
            width: self.width,
            height: self.height,
            flex_direction: text_view(self.flex_direction),
            align_items: text_view(self.align_items),
            justify_content: text_view(self.justify_content),
            gap: self.gap,
            padding: self.padding,
            padding_top: self.padding_top,
            padding_right: self.padding_right,
            padding_bottom: self.padding_bottom,
            padding_left: self.padding_left,
            margin: self.margin,
            size_full: self.size_full,
            background_color: text_view(self.background_color),
            text_color: text_view(self.text_color),
            border_radius: self.border_radius,
            border_width: self.border_width,
            border_color: text_view(self.border_color),
            overflow: text_view(self.overflow),
            text_align: text_view(self.text_align),
            word_wrap: text_view(self.word_wrap),
            position: text_view(self.position),
            top: self.top,
            right: self.right,
            bottom: self.bottom,
            left: self.left,
            text_content: text_view(self.text_content),
            font_size: self.font_size,
            font_weight: text_view(self.font_weight),
            on_click: text_view(self.on_click),
            on_input: text_view(self.on_input),
            value: text_view(self.value),
            placeholder: text_view(self.placeholder),
            children: Seq::new(
                self.children.len() as nat,
                |i: int|
                    if 0 <= i < self.children.len() {
                        self.children[i].model()
                    } else {
                        arbitrary()
                    },
            ),
        }
    }
}

impl View for ElementDef {
    type V = ElementDefView;

    open spec fn view(&self) -> ElementDefView {
        self.model()
    }
}

impl Attr {
    /// The place of the attribute in the order in which a node is written
    /// out, counted from zero.
    pub open spec fn position(self) -> nat {
        match self {
            Attr::Id => 0,
            Attr::ElementType => 1,
            Attr::Width => 2,
            Attr::Height => 3,
            Attr::FlexDirection => 4,
            Attr::AlignItems => 5,
            Attr::JustifyContent => 6,
            Attr::Gap => 7,
            Attr::Padding => 8,
            Attr::PaddingTop => 9,
            Attr::PaddingRight => 10,
            Attr::PaddingBottom => 11,
            Attr::PaddingLeft => 12,
            Attr::Margin => 13,
            Attr::SizeFull => 14,
            Attr::BackgroundColor => 15,
            Attr::TextColor => 16,
            Attr::BorderRadius => 17,
            Attr::BorderWidth => 18,
            Attr::BorderColor => 19,
            Attr::Overflow => 20,
            Attr::TextAlign => 21,
            Attr::WordWrap => 22,
            Attr::Position => 23,
            Attr::Top => 24,
            Attr::Right => 25,
            Attr::Bottom => 26,
            Attr::Left => 27,
            Attr::TextContent => 28,
            Attr::FontSize => 29,
            Attr::FontWeight => 30,
            Attr::OnClick => 31,
            Attr::OnInput => 32,
            Attr::Value => 33,
            Attr::Placeholder => 34,
        }
    }

    /// The attribute at the given place; beyond the last place, the last
    /// attribute.
    pub open spec fn at(i: int) -> Attr {
        if i == 0 {
            Attr::Id
        } else if i == 1 {
            Attr::ElementType
        } else if i == 2 {
            Attr::Width
        } else if i == 3 {
            Attr::Height
        } else if i == 4 {
            Attr::FlexDirection
        } else if i == 5 {
            Attr::AlignItems
        } else if i == 6 {
            Attr::JustifyContent
        } else if i == 7 {
            Attr::Gap
        } else if i == 8 {
            Attr::Padding
        } else if i == 9 {
            Attr::PaddingTop
        } else if i == 10 {
            Attr::PaddingRight
        } else if i == 11 {
            Attr::PaddingBottom
        } else if i == 12 {
            Attr::PaddingLeft
        } else if i == 13 {
            Attr::Margin
        } else if i == 14 {
            Attr::SizeFull
        } else if i == 15 {
            Attr::BackgroundColor
        } else if i == 16 {
            Attr::TextColor
        } else if i == 17 {
            Attr::BorderRadius
        } else if i == 18 {
            Attr::BorderWidth
        } else if i == 19 {
            Attr::BorderColor
        } else if i == 20 {
            Attr::Overflow
        } else if i == 21 {
            Attr::TextAlign
        } else if i == 22 {
            Attr::WordWrap
        } else if i == 23 {
            Attr::Position
        } else if i == 24 {
            Attr::Top
        } else if i == 25 {
            Attr::Right
        } else if i == 26 {
            Attr::Bottom
        } else if i == 27 {
            Attr::Left
        } else if i == 28 {
            Attr::TextContent
        } else if i == 29 {
            Attr::FontSize
        } else if i == 30 {
            Attr::FontWeight
        } else if i == 31 {
            Attr::OnClick
        } else if i == 32 {
            Attr::OnInput
        } else if i == 33 {
            Attr::Value
        } else {
            Attr::Placeholder
        }
    }

    /// The name under which the attribute is written out.
    pub open spec fn wire_name(self) -> Seq<char> {
        match self {
            Attr::Id => "id"@,
            Attr::ElementType => "element_type"@,
            Attr::Width => "width"@,
            Attr::Height => "height"@,
            Attr::FlexDirection => "flex_direction"@,
            Attr::AlignItems => "align_items"@,
            Attr::JustifyContent => "justify_content"@,
            Attr::Gap => "gap"@,
            Attr::Padding => "padding"@,
            Attr::PaddingTop => "padding_top"@,
            Attr::PaddingRight => "padding_right"@,
            Attr::PaddingBottom => "padding_bottom"@,
            Attr::PaddingLeft => "padding_left"@,
            Attr::Margin => "margin"@,
            Attr::SizeFull => "size_full"@,
            Attr::BackgroundColor => "background_color"@,
            Attr::TextColor => "text_color"@,
            Attr::BorderRadius => "border_radius"@,
            Attr::BorderWidth => "border_width"@,
            Attr::BorderColor => "border_color"@,
            Attr::Overflow => "overflow"@,
            Attr::TextAlign => "text_align"@,
            Attr::WordWrap => "word_wrap"@,
            Attr::Position => "position"@,
            Attr::Top => "top"@,
            Attr::Right => "right"@,
            Attr::Bottom => "bottom"@,
            Attr::Left => "left"@,
            Attr::TextContent => "text_content"@,
            Attr::FontSize => "font_size"@,
            Attr::FontWeight => "font_weight"@,
            Attr::OnClick => "on_click"@,
            Attr::OnInput => "on_input"@,
            Attr::Value => "value"@,
            Attr::Placeholder => "placeholder"@,
        }
    }

    /// The attribute at place `i` of the order in which a node is written
    /// out, or nothing where `i` is beyond the last place.
    pub fn nth(i: usize) -> (r: Option<Attr>)
        ensures
            match r {
                Some(attr) => i < ATTR_COUNT && attr == Attr::at(i as int) && attr.position() == i,
                None => i >= ATTR_COUNT,
            },
    {
        match i {
            0 => Some(Attr::Id),
            1 => Some(Attr::ElementType),
            2 => Some(Attr::Width),
            3 => Some(Attr::Height),
            4 => Some(Attr::FlexDirection),
            5 => Some(Attr::AlignItems),
            6 => Some(Attr::JustifyContent),
            7 => Some(Attr::Gap),
            8 => Some(Attr::Padding),
            9 => Some(Attr::PaddingTop),
            10 => Some(Attr::PaddingRight),
            11 => Some(Attr::PaddingBottom),
            12 => Some(Attr::PaddingLeft),
            13 => Some(Attr::Margin),
            14 => Some(Attr::SizeFull),
            15 => Some(Attr::BackgroundColor),
            16 => Some(Attr::TextColor),
            17 => Some(Attr::BorderRadius),
            18 => Some(Attr::BorderWidth),
            19 => Some(Attr::BorderColor),
            20 => Some(Attr::Overflow),
            21 => Some(Attr::TextAlign),
            22 => Some(Attr::WordWrap),
            23 => Some(Attr::Position),
            24 => Some(Attr::Top),
            25 => Some(Attr::Right),
            26 => Some(Attr::Bottom),
            27 => Some(Attr::Left),
            28 => Some(Attr::TextContent),
            29 => Some(Attr::FontSize),
            30 => Some(Attr::FontWeight),
            31 => Some(Attr::OnClick),
            32 => Some(Attr::OnInput),
            33 => Some(Attr::Value),
            34 => Some(Attr::Placeholder),
            _ => None,
        }
    }

    /// The name under which the attribute is written out.
    pub fn name(&self) -> (r: &'static str)
        ensures
            r@ == self.wire_name(),
    {
        match self {
            Attr::Id => "id",
            Attr::ElementType => "element_type",
            Attr::Width => "width",
            Attr::Height => "height",
            Attr::FlexDirection => "flex_direction",
            Attr::AlignItems => "align_items",
            Attr::JustifyContent => "justify_content",
            Attr::Gap => "gap",
            Attr::Padding => "padding",
            Attr::PaddingTop => "padding_top",
            Attr::PaddingRight => "padding_right",
            Attr::PaddingBottom => "padding_bottom",
            Attr::PaddingLeft => "padding_left",
            Attr::Margin => "margin",
            Attr::SizeFull => "size_full",
            Attr::BackgroundColor => "background_color",
            Attr::TextColor => "text_color",
            Attr::BorderRadius => "border_radius",
            Attr::BorderWidth => "border_width",
            Attr::BorderColor => "border_color",
            Attr::Overflow => "overflow",
            Attr::TextAlign => "text_align",
            Attr::WordWrap => "word_wrap",
            Attr::Position => "position",
            Attr::Top => "top",
            Attr::Right => "right",
            Attr::Bottom => "bottom",
            Attr::Left => "left",
            Attr::TextContent => "text_content",
            Attr::FontSize => "font_size",
            Attr::FontWeight => "font_weight",
            Attr::OnClick => "on_click",
            Attr::OnInput => "on_input",
            Attr::Value => "value",
            Attr::Placeholder => "placeholder",
        }
    }
}

impl ElementDefView {
    /// The value of an attribute, or nothing where the attribute is absent.
    pub open spec fn get(self, attr: Attr) -> Option<AttrValueView> {
        match attr {
            Attr::Id => Some(AttrValueView::Text(self.id)),
            Attr::ElementType => Some(AttrValueView::Text(self.element_type)),
            Attr::Width => match self.width {
                Some(n) => Some(AttrValueView::Number(n)),
                None => None,
            },
            Attr::Height => match self.height {
                Some(n) => Some(AttrValueView::Number(n)),
                None => None,
            },
            Attr::FlexDirection => match self.flex_direction {
                Some(s) => Some(AttrValueView::Text(s)),
                None => None,
            },
            Attr::AlignItems => match self.align_items {
                Some(s) => Some(AttrValueView::Text(s)),
                None => None,
            },
            Attr::JustifyContent => match self.justify_content {
                Some(s) => Some(AttrValueView::Text(s)),
                None => None,
            },
            Attr::Gap => match self.gap {
                Some(n) => Some(AttrValueView::Number(n)),
                None => None,
            },
            Attr::Padding => match self.padding {
                Some(n) => Some(AttrValueView::Number(n)),
                None => None,
            },
            Attr::PaddingTop => match self.padding_top {
                Some(n) => Some(AttrValueView::Number(n)),
                None => None,
            },
            Attr::PaddingRight => match self.padding_right {
                Some(n) => Some(AttrValueView::Number(n)),
                None => None,
            },
            Attr::PaddingBottom => match self.padding_bottom {
                Some(n) => Some(AttrValueView::Number(n)),
                None => None,
            },
            Attr::PaddingLeft => match self.padding_left {
                Some(n) => Some(AttrValueView::Number(n)),
                None => None,
            },
            Attr::Margin => match self.margin {
                Some(n) => Some(AttrValueView::Number(n)),
                None => None,
            },
            Attr::SizeFull => match self.size_full {
                Some(b) => Some(AttrValueView::Flag(b)),
                None => None,
            },
            Attr::BackgroundColor => match self.background_color {
                Some(s) => Some(AttrValueView::Text(s)),
                None => None,
            },
            Attr::TextColor => match self.text_color {
                Some(s) => Some(AttrValueView::Text(s)),
                None => None,
            },
            Attr::BorderRadius => match self.border_radius {
                Some(n) => Some(AttrValueView::Number(n)),
                None => None,
            },
            Attr::BorderWidth => match self.border_width {
                Some(n) => Some(AttrValueView::Number(n)),
                None => None,
            },
            Attr::BorderColor => match self.border_color {
                Some(s) => Some(AttrValueView::Text(s)),
                None => None,
            },
            Attr::Overflow => match self.overflow {
                Some(s) => Some(AttrValueView::Text(s)),
                None => None,
            },
            Attr::TextAlign => match self.text_align {
                Some(s) => Some(AttrValueView::Text(s)),
                None => None,
            },
            Attr::WordWrap => match self.word_wrap {
                Some(s) => Some(AttrValueView::Text(s)),
                None => None,
            },
            Attr::Position => match self.position {
                Some(s) => Some(AttrValueView::Text(s)),
                None => None,
            },
            Attr::Top => match self.top {
                Some(n) => Some(AttrValueView::Number(n)),
                None => None,
            },
            Attr::Right => match self.right {
                Some(n) => Some(AttrValueView::Number(n)),
                None => None,
            },
            Attr::Bottom => match self.bottom {
                Some(n) => Some(AttrValueView::Number(n)),
                None => None,
            },
            Attr::Left => match self.left {
                Some(n) => Some(AttrValueView::Number(n)),
                None => None,
            },
            Attr::TextContent => match self.text_content {
                Some(s) => Some(AttrValueView::Text(s)),
                None => None,
            },
            Attr::FontSize => match self.font_size {
                Some(n) => Some(AttrValueView::Number(n)),
                None => None,
            },
            Attr::FontWeight => match self.font_weight {
                Some(s) => Some(AttrValueView::Text(s)),
                None => None,
            },
            Attr::OnClick => match self.on_click {
                Some(s) => Some(AttrValueView::Text(s)),
                None => None,
            },
            Attr::OnInput => match self.on_input {
                Some(s) => Some(AttrValueView::Text(s)),
                None => None,
            },
            Attr::Value => match self.value {
                Some(s) => Some(AttrValueView::Text(s)),
                None => None,
            },
            Attr::Placeholder => match self.placeholder {
                Some(s) => Some(AttrValueView::Text(s)),
                None => None,
            },
        }
    }

    /// Whether a value is of the kind that the attribute holds.
    pub open spec fn fits(attr: Attr, value: AttrValueView) -> bool {
        match attr {
            Attr::Id => value is Text,
            Attr::ElementType => value is Text,
            Attr::Width => value is Number,
            Attr::Height => value is Number,
            Attr::FlexDirection => value is Text,
            Attr::AlignItems => value is Text,
            Attr::JustifyContent => value is Text,
            Attr::Gap => value is Number,
            Attr::Padding => value is Number,
            Attr::PaddingTop => value is Number,
            Attr::PaddingRight => value is Number,
            Attr::PaddingBottom => value is Number,
            Attr::PaddingLeft => value is Number,
            Attr::Margin => value is Number,
            Attr::SizeFull => value is Flag,
            Attr::BackgroundColor => value is Text,
            Attr::TextColor => value is Text,
            Attr::BorderRadius => value is Number,
            Attr::BorderWidth => value is Number,
            Attr::BorderColor => value is Text,
            Attr::Overflow => value is Text,
            Attr::TextAlign => value is Text,
            Attr::WordWrap => value is Text,
            Attr::Position => value is Text,
            Attr::Top => value is Number,
            Attr::Right => value is Number,
            Attr::Bottom => value is Number,
            Attr::Left => value is Number,
            Attr::TextContent => value is Text,
            Attr::FontSize => value is Number,
            Attr::FontWeight => value is Text,
            Attr::OnClick => value is Text,
            Attr::OnInput => value is Text,
            Attr::Value => value is Text,
            Attr::Placeholder => value is Text,
        }
    }

    /// The node with one attribute set to a value and all else unchanged. A
    /// value of the wrong kind changes nothing.
    pub open spec fn set(self, attr: Attr, value: AttrValueView) -> ElementDefView {
        match (attr, value) {
            (Attr::Id, AttrValueView::Text(s)) => ElementDefView {
                id: s,
                ..self
            },
            (Attr::ElementType, AttrValueView::Text(s)) => ElementDefView {
                element_type: s,
                ..self
            },
            (Attr::Width, AttrValueView::Number(n)) => ElementDefView {
                width: Some(n),
                ..self
            },
            (Attr::Height, AttrValueView::Number(n)) => ElementDefView {
                height: Some(n),
                ..self
            },
            (Attr::FlexDirection, AttrValueView::Text(s)) => ElementDefView {
                flex_direction: Some(s),
                ..self
            },
            (Attr::AlignItems, AttrValueView::Text(s)) => ElementDefView {
                align_items: Some(s),
                ..self
            },
            (Attr::JustifyContent, AttrValueView::Text(s)) => ElementDefView {
                justify_content: Some(s),
                ..self
            },
            (Attr::Gap, AttrValueView::Number(n)) => ElementDefView {
                gap: Some(n),
                ..self
            },
            (Attr::Padding, AttrValueView::Number(n)) => ElementDefView {
                padding: Some(n),
                ..self
            },
            (Attr::PaddingTop, AttrValueView::Number(n)) => ElementDefView {
                padding_top: Some(n),
                ..self
            },
            (Attr::PaddingRight, AttrValueView::Number(n)) => ElementDefView {
                padding_right: Some(n),
                ..self
            },
            (Attr::PaddingBottom, AttrValueView::Number(n)) => ElementDefView {
                padding_bottom: Some(n),
                ..self
            },
            (Attr::PaddingLeft, AttrValueView::Number(n)) => ElementDefView {
                padding_left: Some(n),
                ..self
            },
            (Attr::Margin, AttrValueView::Number(n)) => ElementDefView {
                margin: Some(n),
                ..self
            },
            (Attr::SizeFull, AttrValueView::Flag(b)) => ElementDefView {
                size_full: Some(b),
                ..self
            },
            (Attr::BackgroundColor, AttrValueView::Text(s)) => ElementDefView {
                background_color: Some(s),
                ..self
            },
            (Attr::TextColor, AttrValueView::Text(s)) => ElementDefView {
                text_color: Some(s),
                ..self
            },
            (Attr::BorderRadius, AttrValueView::Number(n)) => ElementDefView {
                border_radius: Some(n),
                ..self
            },
            (Attr::BorderWidth, AttrValueView::Number(n)) => ElementDefView {
                border_width: Some(n),
                ..self
            },
            (Attr::BorderColor, AttrValueView::Text(s)) => ElementDefView {
                border_color: Some(s),
                ..self
            },
            (Attr::Overflow, AttrValueView::Text(s)) => ElementDefView {
                overflow: Some(s),
                ..self
            },
            (Attr::TextAlign, AttrValueView::Text(s)) => ElementDefView {
                text_align: Some(s),
                ..self
            },
            (Attr::WordWrap, AttrValueView::Text(s)) => ElementDefView {
                word_wrap: Some(s),
                ..self
            },
            (Attr::Position, AttrValueView::Text(s)) => ElementDefView {
                position: Some(s),
                ..self
            },
            (Attr::Top, AttrValueView::Number(n)) => ElementDefView {
                top: Some(n),
                ..self
            },
            (Attr::Right, AttrValueView::Number(n)) => ElementDefView {
                right: Some(n),
                ..self
            },
            (Attr::Bottom, AttrValueView::Number(n)) => ElementDefView {
                bottom: Some(n),
                ..self
            },
            (Attr::Left, AttrValueView::Number(n)) => ElementDefView {
                left: Some(n),
                ..self
            },
            (Attr::TextContent, AttrValueView::Text(s)) => ElementDefView {
                text_content: Some(s),
                ..self
            },
            (Attr::FontSize, AttrValueView::Number(n)) => ElementDefView {
                font_size: Some(n),
                ..self
            },
            (Attr::FontWeight, AttrValueView::Text(s)) => ElementDefView {
                font_weight: Some(s),
                ..self
            },
            (Attr::OnClick, AttrValueView::Text(s)) => ElementDefView {
                on_click: Some(s),
                ..self
            },
            (Attr::OnInput, AttrValueView::Text(s)) => ElementDefView {
                on_input: Some(s),
                ..self
            },
            (Attr::Value, AttrValueView::Text(s)) => ElementDefView {
                value: Some(s),
                ..self
            },
            (Attr::Placeholder, AttrValueView::Text(s)) => ElementDefView {
                placeholder: Some(s),
                ..self
            },
            _ => self,
        }
    }

    /// The node with a text attribute set.
    pub open spec fn set_text(self, attr: Attr, text: Seq<char>) -> ElementDefView {
        self.set(attr, AttrValueView::Text(text))
    }

    /// The node with a numeric attribute set.
    pub open spec fn set_number(self, attr: Attr, number: Number) -> ElementDefView {
        self.set(attr, AttrValueView::Number(number))
    }

    /// The node with one more child after those it has.
    pub open spec fn with_child(self, child: ElementDefView) -> ElementDefView {
        ElementDefView { children: self.children.push(child), ..self }
    }

    /// A node of the given identifier and kind with no attribute set and no
    /// children.
    pub open spec fn blank(id: Seq<char>, element_type: Seq<char>) -> ElementDefView {
        ElementDefView {
            id,
            element_type,
            width: None,
            height: None,
            flex_direction: None,
            align_items: None,
            justify_content: None,
            gap: None,
            padding: None,
            padding_top: None,
            padding_right: None,
            padding_bottom: None,
            padding_left: None,
            margin: None,
            size_full: None,
            background_color: None,
            text_color: None,
            border_radius: None,
            border_width: None,
            border_color: None,
            overflow: None,
            text_align: None,
            word_wrap: None,
            position: None,
            top: None,
            right: None,
            bottom: None,
            left: None,
            text_content: None,
            font_size: None,
            font_weight: None,
            on_click: None,
            on_input: None,
            value: None,
            placeholder: None,
            children: Seq::empty(),
        }
    }

    /// The lines for the attributes at the first `n` places of the order in
    /// which a node is written out: one line for each attribute that is
    /// present, none for one that is absent.
    pub open spec fn entries(self, n: nat) -> Seq<EntryView>
        decreases n,
    {
        if n == 0 {
            Seq::empty()
        } else {
            let before = self.entries((n - 1) as nat);
            match self.get(Attr::at(n - 1)) {
                Some(value) => before.push(EntryView { attr: Attr::at(n - 1), value }),
                None => before,
            }
        }
    }

    /// The record of the node: the lines of all its attributes that are
    /// present, in the order in which a node is written out. The children
    /// follow the record and are written out in the same way.
    pub open spec fn record(self) -> Seq<EntryView> {
        self.entries(ATTR_COUNT as nat)
    }

    /// The node as it is written out: its record, then its children in
    /// order, each written out in the same way. A node without children has
    /// an empty sequence of children.
    pub open spec fn document(self) -> DocumentView
        decreases self,
    {
        DocumentView {
            entries: self.record(),
            children: Seq::new(
                self.children.len(),
                |i: int|
                    if 0 <= i < self.children.len() {
                        self.children[i].document()
                    } else {
                        arbitrary()
                    },
            ),
        }
    }
}

/// The views of a sequence of record lines.
pub open spec fn entry_views(entries: Seq<Entry>) -> Seq<EntryView> {
    entries.map_values(|e: Entry| e@)
}

/// A copy of an optional text.
pub fn copy_text(text: &Option<String>) -> (r: Option<String>)
    ensures
        text_view(r) == text_view(*text),
{
    match text {
        Some(s) => Some(s.clone()),
        None => None,
    }
}

fn text_value(text: &Option<String>) -> (r: Option<AttrValue>)
    ensures
        value_view(r) == match text_view(*text) {
            Some(s) => Some(AttrValueView::Text(s)),
            None => None,
        },
{
    match text {
        Some(s) => Some(AttrValue::Text(s.clone())),
        None => None,
    }
}

fn flag_value(flag: &Option<bool>) -> (r: Option<AttrValue>)
    ensures
        value_view(r) == match *flag {
            Some(b) => Some(AttrValueView::Flag(b)),
            None => None,
        },
{
    match flag {
        Some(b) => Some(AttrValue::Flag(*b)),
        None => None,
    }
}

fn number_value(number: &Option<Number>) -> (r: Option<AttrValue>)
    ensures
        value_view(r) == match *number {
            Some(n) => Some(AttrValueView::Number(n)),
            None => None,
        },
{
    match number {
        Some(n) => Some(AttrValue::Number(*n)),
        None => None,
    }
}

impl ElementDef {
    /// A node of the given identifier and kind with no attribute set and no
    /// children.
    pub fn with_id(id: String, element_type: String) -> (r: ElementDef)
        ensures
            r@ == ElementDefView::blank(id@, element_type@),
    {
        let r = ElementDef {
            id,
            element_type,
            width: None,
            height: None,
            flex_direction: None,
            align_items: None,
            justify_content: None,
            gap: None,
            padding: None,
            padding_top: None,
            padding_right: None,
            padding_bottom: None,
            padding_left: None,
            margin: None,
            size_full: None,
            background_color: None,
            text_color: None,
            border_radius: None,
            border_width: None,
            border_color: None,
            overflow: None,
            text_align: None,
            word_wrap: None,
            position: None,
            top: None,
            right: None,
            bottom: None,
            left: None,
            text_content: None,
            font_size: None,
            font_weight: None,
            on_click: None,
            on_input: None,
            value: None,
            placeholder: None,
            children: Vec::new(),
        };
        assert(r@.children =~= Seq::<ElementDefView>::empty());
        r
    }

    /// A `div` node with a fresh identifier, no attribute set and no
    /// children.
    pub fn default(ids: &mut IdGenerator) -> (r: ElementDef)
        ensures
            exists|nanos: nat|
                r@ == ElementDefView::blank(id_text(nanos, old(ids).count()), "div"@),
            final(ids).count() == next_count(old(ids).count()),
    {
        let id = ids.next_id();
        ElementDef::with_id(id, String::from_str("div"))
    }

    /// The value of an attribute, or nothing where the attribute is absent.
    pub fn attribute(&self, attr: Attr) -> (r: Option<AttrValue>)
        ensures
            value_view(r) == self@.get(attr),
    {
        match attr {
            Attr::Id => Some(AttrValue::Text(self.id.clone())),
            Attr::ElementType => Some(AttrValue::Text(self.element_type.clone())),
            Attr::Width => number_value(&self.width),
            Attr::Height => number_value(&self.height),
            Attr::FlexDirection => text_value(&self.flex_direction),
            Attr::AlignItems => text_value(&self.align_items),
            Attr::JustifyContent => text_value(&self.justify_content),
            Attr::Gap => number_value(&self.gap),
            Attr::Padding => number_value(&self.padding),
            Attr::PaddingTop => number_value(&self.padding_top),
            Attr::PaddingRight => number_value(&self.padding_right),
            Attr::PaddingBottom => number_value(&self.padding_bottom),
            Attr::PaddingLeft => number_value(&self.padding_left),
            Attr::Margin => number_value(&self.margin),
            Attr::SizeFull => flag_value(&self.size_full),
            Attr::BackgroundColor => text_value(&self.background_color),
            Attr::TextColor => text_value(&self.text_color),
            Attr::BorderRadius => number_value(&self.border_radius),
            Attr::BorderWidth => number_value(&self.border_width),
            Attr::BorderColor => text_value(&self.border_color),
            Attr::Overflow => text_value(&self.overflow),
            Attr::TextAlign => text_value(&self.text_align),
            Attr::WordWrap => text_value(&self.word_wrap),
            Attr::Position => text_value(&self.position),
            Attr::Top => number_value(&self.top),
            Attr::Right => number_value(&self.right),
            Attr::Bottom => number_value(&self.bottom),
            Attr::Left => number_value(&self.left),
            Attr::TextContent => text_value(&self.text_content),
            Attr::FontSize => number_value(&self.font_size),
            Attr::FontWeight => text_value(&self.font_weight),
            Attr::OnClick => text_value(&self.on_click),
            Attr::OnInput => text_value(&self.on_input),
            Attr::Value => text_value(&self.value),
            Attr::Placeholder => text_value(&self.placeholder),
        }
    }

    /// Sets an attribute to a value of its kind. A value of another kind
    /// changes nothing.
    pub fn assign(&mut self, attr: Attr, value: AttrValue)
        ensures
            final(self)@ == old(self)@.set(attr, value@),
    {
        match (attr, value) {
            (Attr::Id, AttrValue::Text(s)) => {
                self.id = s;
            },
            (Attr::ElementType, AttrValue::Text(s)) => {
                self.element_type = s;
            },
            (Attr::Width, AttrValue::Number(n)) => {
                self.width = Some(n);
            },
            (Attr::Height, AttrValue::Number(n)) => {
                self.height = Some(n);
            },
            (Attr::FlexDirection, AttrValue::Text(s)) => {
                self.flex_direction = Some(s);
            },
            (Attr::AlignItems, AttrValue::Text(s)) => {
                self.align_items = Some(s);
            },
            (Attr::JustifyContent, AttrValue::Text(s)) => {
                self.justify_content = Some(s);
            },
            (Attr::Gap, AttrValue::Number(n)) => {
                self.gap = Some(n);
            },
            (Attr::Padding, AttrValue::Number(n)) => {
                self.padding = Some(n);
            },
            (Attr::PaddingTop, AttrValue::Number(n)) => {
                self.padding_top = Some(n);
            },
            (Attr::PaddingRight, AttrValue::Number(n)) => {
                self.padding_right = Some(n);
            },
            (Attr::PaddingBottom, AttrValue::Number(n)) => {
                self.padding_bottom = Some(n);
            },
            (Attr::PaddingLeft, AttrValue::Number(n)) => {
                self.padding_left = Some(n);
            },
            (Attr::Margin, AttrValue::Number(n)) => {
                self.margin = Some(n);
            },
            (Attr::SizeFull, AttrValue::Flag(b)) => {
                self.size_full = Some(b);
            },
            (Attr::BackgroundColor, AttrValue::Text(s)) => {
                self.background_color = Some(s);
            },
            (Attr::TextColor, AttrValue::Text(s)) => {
                self.text_color = Some(s);
            },
            (Attr::BorderRadius, AttrValue::Number(n)) => {
                self.border_radius = Some(n);
            },
            (Attr::BorderWidth, AttrValue::Number(n)) => {
                self.border_width = Some(n);
            },
            (Attr::BorderColor, AttrValue::Text(s)) => {
                self.border_color = Some(s);
            },
            (Attr::Overflow, AttrValue::Text(s)) => {
                self.overflow = Some(s);
            },
            (Attr::TextAlign, AttrValue::Text(s)) => {
                self.text_align = Some(s);
            },
            (Attr::WordWrap, AttrValue::Text(s)) => {
                self.word_wrap = Some(s);
            },
            (Attr::Position, AttrValue::Text(s)) => {
                self.position = Some(s);
            },
            (Attr::Top, AttrValue::Number(n)) => {
                self.top = Some(n);
            },
            (Attr::Right, AttrValue::Number(n)) => {
                self.right = Some(n);
            },
            (Attr::Bottom, AttrValue::Number(n)) => {
                self.bottom = Some(n);
            },
            (Attr::Left, AttrValue::Number(n)) => {
                self.left = Some(n);
            },
            (Attr::TextContent, AttrValue::Text(s)) => {
                self.text_content = Some(s);
            },
            (Attr::FontSize, AttrValue::Number(n)) => {
                self.font_size = Some(n);
            },
            (Attr::FontWeight, AttrValue::Text(s)) => {
                self.font_weight = Some(s);
            },
            (Attr::OnClick, AttrValue::Text(s)) => {
                self.on_click = Some(s);
            },
            (Attr::OnInput, AttrValue::Text(s)) => {
                self.on_input = Some(s);
            },
            (Attr::Value, AttrValue::Text(s)) => {
                self.value = Some(s);
            },
            (Attr::Placeholder, AttrValue::Text(s)) => {
                self.placeholder = Some(s);
            },
            _ => {},
        }
    }

    /// The record of the node: one line for each attribute that is present,
    /// in the order in which a node is written out.
    pub fn record(&self) -> (r: Vec<Entry>)
        ensures
            entry_views(r@) == self@.record(),
    {
        let mut out: Vec<Entry> = Vec::new();
        let mut i: usize = 0;
        assert(entry_views(out@) =~= self@.entries(0));
        while i < ATTR_COUNT
            invariant
                i <= ATTR_COUNT,
                entry_views(out@) == self@.entries(i as nat),
            decreases ATTR_COUNT - i,
        {
            let ghost before = out@;
            if let Some(attr) = Attr::nth(i) {
                if let Some(value) = self.attribute(attr) {
                    let entry = Entry { attr, value };
                    out.push(entry);
                    assert(entry_views(out@) =~= entry_views(before).push(entry@));
                }
            }
            i += 1;
        }
        out
    }

    /// The node as it is written out: its record, then its children in
    /// order, each written out in the same way.
    pub fn document(&self) -> (r: Document)
        ensures
            r@ == self@.document(),
        decreases self,
    {
        let r = Document { entries: self.record(), children: documents_of(&self.children) };
        assert(r@.children =~= self@.document().children);
        r
    }

    /// A deep copy of the node and of all nodes below it.
    pub fn snapshot(&self) -> (r: ElementDef)
        ensures
            r@ == self@,
        decreases self,
    {
        let children = copy_nodes(&self.children);
        let r = ElementDef {
            id: self.id.clone(),
            element_type: self.element_type.clone(),
            width: self.width,
            height: self.height,
            flex_direction: copy_text(&self.flex_direction),
            align_items: copy_text(&self.align_items),
            justify_content: copy_text(&self.justify_content),
            gap: self.gap,
            padding: self.padding,
            padding_top: self.padding_top,
            padding_right: self.padding_right,
            padding_bottom: self.padding_bottom,
            padding_left: self.padding_left,
            margin: self.margin,
            size_full: self.size_full,
            background_color: copy_text(&self.background_color),
            text_color: copy_text(&self.text_color),
            border_radius: self.border_radius,
            border_width: self.border_width,
            border_color: copy_text(&self.border_color),
            overflow: copy_text(&self.overflow),
            text_align: copy_text(&self.text_align),
            word_wrap: copy_text(&self.word_wrap),
            position: copy_text(&self.position),
            top: self.top,
            right: self.right,
            bottom: self.bottom,
            left: self.left,
            text_content: copy_text(&self.text_content),
            font_size: self.font_size,
            font_weight: copy_text(&self.font_weight),
            on_click: copy_text(&self.on_click),
            on_input: copy_text(&self.on_input),
            value: copy_text(&self.value),
            placeholder: copy_text(&self.placeholder),
            children,
        };
        assert(r@.children =~= self@.children);
        r
    }
}

/// The given nodes as they are written out, in their order.
pub fn documents_of(nodes: &Vec<ElementDef>) -> (r: Vec<Document>)
    ensures
        r.len() == nodes.len(),
        forall|j: int| 0 <= j < nodes.len() ==> r[j]@ == nodes[j]@.document(),
    decreases nodes,
{
    let mut out: Vec<Document> = Vec::new();
    let mut i: usize = 0;
    while i < nodes.len()
        invariant
            i <= nodes.len(),
            out.len() == i,
            forall|j: int| 0 <= j < i ==> out[j]@ == nodes[j]@.document(),
        decreases nodes.len() - i,
    {
        let node = nodes[i].document();
        out.push(node);
        i += 1;
    }
    out
}

/// Deep copies of the given nodes, in their order.
pub fn copy_nodes(nodes: &Vec<ElementDef>) -> (r: Vec<ElementDef>)
    ensures
        r.len() == nodes.len(),
        forall|j: int| 0 <= j < nodes.len() ==> r[j]@ == nodes[j]@,
    decreases nodes,
{
    let mut out: Vec<ElementDef> = Vec::new();
    let mut i: usize = 0;
    while i < nodes.len()
        invariant
            i <= nodes.len(),
            out.len() == i,
            forall|j: int| 0 <= j < i ==> out[j]@ == nodes[j]@,
        decreases nodes.len() - i,
    {
        let node = nodes[i].snapshot();
        out.push(node);
        i += 1;
    }
    out
}

} // verus!
