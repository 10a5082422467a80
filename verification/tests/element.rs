use webview_ui::element::{
    copy_nodes, copy_text, documents_of, Attr, AttrValue, Document, ElementDef, Entry, Number,
    ATTR_COUNT, ONE_BITS,
};
use webview_ui::ident::IdGenerator;

fn px(value: f32) -> AttrValue {
    AttrValue::Number(Number { bits: value.to_bits() })
}

fn text(value: &str) -> AttrValue {
    AttrValue::Text(value.to_string())
}

fn blank(id: &str, kind: &str) -> ElementDef {
    ElementDef::with_id(id.to_string(), kind.to_string())
}

fn line(attr: Attr, value: AttrValue) -> Entry {
    Entry { attr, value }
}

fn attrs_of(record: &[Entry]) -> Vec<Attr> {
    record.iter().map(|e| e.attr).collect()
}

#[test]
fn blank_node_has_only_its_id_and_kind() {
    let node = blank("n1", "div");
    assert_eq!(
        node.record(),
        vec![
            line(Attr::Id, text("n1")),
            line(Attr::ElementType, text("div")),
        ]
    );
    assert_eq!(node.size_full, None);
    assert_eq!(node.attribute(Attr::SizeFull), None);
    assert!(node.children.is_empty());
}

#[test]
fn default_node_is_a_div_with_a_fresh_id() {
    let mut ids = IdGenerator::new();
    let first = ElementDef::default(&mut ids);
    let second = ElementDef::default(&mut ids);
    assert_eq!(first.element_type, "div");
    assert!(first.id.starts_with("el_"));
    assert!(first.id.ends_with("_0"));
    assert!(second.id.ends_with("_1"));
    assert_ne!(first.id, second.id);
    assert_eq!(first.record().len(), 2);
    assert!(first.children.is_empty());
    assert_eq!(first.size_full, None);
    assert_eq!(first.width, None);
    assert_eq!(first.on_click, None);
}

#[test]
fn unset_attributes_have_no_line() {
    let mut node = blank("n", "text");
    node.assign(Attr::TextContent, text("Hi"));
    node.assign(Attr::Width, px(100.0));
    let record = node.record();
    assert_eq!(
        attrs_of(&record),
        vec![Attr::Id, Attr::ElementType, Attr::Width, Attr::TextContent]
    );
    for absent in [
        Attr::Height,
        Attr::SizeFull,
        Attr::OnClick,
        Attr::Placeholder,
        Attr::Left,
        Attr::Gap,
    ] {
        assert!(record.iter().all(|e| e.attr != absent));
        assert_eq!(node.attribute(absent), None);
    }
}

#[test]
fn last_assignment_wins() {
    let mut node = blank("n", "div");
    node.assign(Attr::Width, px(10.0));
    node.assign(Attr::BackgroundColor, text("#111"));
    node.assign(Attr::Width, px(20.0));
    node.assign(Attr::BackgroundColor, text("#222"));
    node.assign(Attr::Width, px(30.0));
    assert_eq!(node.attribute(Attr::Width), Some(px(30.0)));
    assert_eq!(node.attribute(Attr::BackgroundColor), Some(text("#222")));
    let record = node.record();
    assert_eq!(record.iter().filter(|e| e.attr == Attr::Width).count(), 1);
    assert_eq!(record.iter().filter(|e| e.attr == Attr::BackgroundColor).count(), 1);
    assert!(record.contains(&line(Attr::Width, px(30.0))));
    assert!(record.contains(&line(Attr::BackgroundColor, text("#222"))));
}

#[test]
fn zero_and_empty_values_are_present_not_absent() {
    let mut node = blank("n", "div");
    node.assign(Attr::Gap, px(0.0));
    node.assign(Attr::Placeholder, text(""));
    assert_eq!(node.gap, Some(Number { bits: 0 }));
    assert_eq!(node.placeholder, Some(String::new()));
    let record = node.record();
    assert!(record.contains(&line(Attr::Gap, px(0.0))));
    assert!(record.contains(&line(Attr::Placeholder, text(""))));
    assert_eq!(record.len(), 4);
}

#[test]
fn the_fill_flag_has_a_line_only_once_it_is_set() {
    let mut node = blank("n", "div");
    assert!(node.record().iter().all(|e| e.attr != Attr::SizeFull));
    assert!(node.document().entries.iter().all(|e| e.attr != Attr::SizeFull));
    node.assign(Attr::SizeFull, AttrValue::Flag(true));
    assert_eq!(node.size_full, Some(true));
    assert_eq!(
        node.record(),
        vec![
            line(Attr::Id, text("n")),
            line(Attr::ElementType, text("div")),
            line(Attr::SizeFull, AttrValue::Flag(true)),
        ]
    );
    node.assign(Attr::SizeFull, AttrValue::Flag(false));
    assert_eq!(node.size_full, Some(false));
    assert_eq!(node.attribute(Attr::SizeFull), Some(AttrValue::Flag(false)));
    assert!(node.record().contains(&line(Attr::SizeFull, AttrValue::Flag(false))));
    assert_eq!(node.record().len(), 3);
}

#[test]
fn a_value_of_the_wrong_kind_changes_nothing() {
    let mut node = blank("n", "div");
    node.assign(Attr::Width, text("wide"));
    node.assign(Attr::BackgroundColor, px(1.0));
    node.assign(Attr::SizeFull, text("yes"));
    node.assign(Attr::Id, AttrValue::Flag(true));
    assert_eq!(node.width, None);
    assert_eq!(node.background_color, None);
    assert_eq!(node.size_full, None);
    assert_eq!(node.id, "n");
    assert_eq!(node.record().len(), 2);
}

#[test]
fn every_attribute_can_be_set_and_read_back_in_wire_order() {
    let mut node = blank("n", "div");
    for i in 0..ATTR_COUNT {
        let attr = Attr::nth(i).unwrap();
        let value = if is_text(attr) {
            text(attr.name())
        } else if attr == Attr::SizeFull {
            AttrValue::Flag(true)
        } else {
            px(i as f32)
        };
        node.assign(attr, value.clone());
        assert_eq!(node.attribute(attr), Some(value));
    }
    let record = node.record();
    assert_eq!(record.len(), ATTR_COUNT);
    for (i, entry) in record.iter().enumerate() {
        assert_eq!(Some(entry.attr), Attr::nth(i));
    }
    assert_eq!(node.id, "id");
    assert_eq!(node.element_type, "element_type");
    assert_eq!(node.font_weight, Some("font_weight".to_string()));
    assert_eq!(node.left, Some(Number { bits: 27.0f32.to_bits() }));
    assert_eq!(node.size_full, Some(true));
}

fn is_text(attr: Attr) -> bool {
    matches!(
        attr,
        Attr::Id
            | Attr::ElementType
            | Attr::FlexDirection
            | Attr::AlignItems
            | Attr::JustifyContent
            | Attr::BackgroundColor
            | Attr::TextColor
            | Attr::BorderColor
            | Attr::Overflow
            | Attr::TextAlign
            | Attr::WordWrap
            | Attr::Position
            | Attr::TextContent
            | Attr::FontWeight
            | Attr::OnClick
            | Attr::OnInput
            | Attr::Value
            | Attr::Placeholder
    )
}

#[test]
fn wire_names_are_the_field_names() {
    let names: Vec<&str> = (0..ATTR_COUNT).map(|i| Attr::nth(i).unwrap().name()).collect();
    assert_eq!(
        names,
        vec![
            "id",
            "element_type",
            "width",
            "height",
            "flex_direction",
            "align_items",
            "justify_content",
            "gap",
            "padding",
            "padding_top",
            "padding_right",
            "padding_bottom",
            "padding_left",
            "margin",
            "size_full",
            "background_color",
            "text_color",
            "border_radius",
            "border_width",
            "border_color",
            "overflow",
            "text_align",
            "word_wrap",
            "position",
            "top",
            "right",
            "bottom",
            "left",
            "text_content",
            "font_size",
            "font_weight",
            "on_click",
            "on_input",
            "value",
            "placeholder",
        ]
    );
    assert_eq!(ATTR_COUNT, 35);
    assert_eq!(Attr::nth(ATTR_COUNT), None);
    assert_eq!(Attr::nth(usize::MAX), None);
    assert_eq!(Attr::nth(0), Some(Attr::Id));
    assert_eq!(Attr::nth(34), Some(Attr::Placeholder));
}

#[test]
fn one_is_the_bit_pattern_of_one() {
    assert_eq!(ONE_BITS, 1.0f32.to_bits());
    assert_eq!(f32::from_bits(ONE_BITS), 1.0);
}

#[test]
fn snapshot_is_deep_and_independent() {
    let mut leaf = blank("leaf", "text");
    leaf.assign(Attr::TextContent, text("Hi"));
    let mut middle = blank("middle", "div");
    middle.children.push(leaf);
    let mut root = blank("root", "div");
    root.assign(Attr::Padding, px(4.0));
    root.children.push(middle);
    root.children.push(blank("second", "button"));

    let mut copy = root.snapshot();
    assert_eq!(copy.id, "root");
    assert_eq!(copy.padding, Some(Number { bits: 4.0f32.to_bits() }));
    assert_eq!(copy.children.len(), 2);
    assert_eq!(copy.children[0].id, "middle");
    assert_eq!(copy.children[0].children[0].id, "leaf");
    assert_eq!(copy.children[0].children[0].text_content, Some("Hi".to_string()));
    assert_eq!(copy.children[1].element_type, "button");
    assert_eq!(copy.record(), root.record());

    copy.children[0].children[0].assign(Attr::TextContent, text("Bye"));
    copy.children.pop();
    assert_eq!(root.children.len(), 2);
    assert_eq!(root.children[0].children[0].text_content, Some("Hi".to_string()));
}

#[test]
fn copies_of_texts_and_nodes_keep_order_and_content() {
    assert_eq!(copy_text(&None), None);
    assert_eq!(copy_text(&Some("a".to_string())), Some("a".to_string()));
    let nodes = vec![blank("a", "div"), blank("b", "text"), blank("c", "input")];
    let copies = copy_nodes(&nodes);
    let ids: Vec<&str> = copies.iter().map(|n| n.id.as_str()).collect();
    assert_eq!(ids, vec!["a", "b", "c"]);
    assert!(copy_nodes(&Vec::new()).is_empty());
}

#[test]
fn document_of_a_leaf_has_an_empty_children_sequence() {
    let mut leaf = blank("leaf", "text");
    leaf.assign(Attr::TextContent, text("Hi"));
    let document = leaf.document();
    assert_eq!(
        document,
        Document {
            entries: vec![
                line(Attr::Id, text("leaf")),
                line(Attr::ElementType, text("text")),
                line(Attr::TextContent, text("Hi")),
            ],
            children: vec![],
        }
    );
}

#[test]
fn document_writes_children_in_order_and_in_depth() {
    let mut leaf = blank("leaf", "text");
    leaf.assign(Attr::TextContent, text("Hi"));
    let mut middle = blank("middle", "div");
    middle.assign(Attr::Gap, px(2.0));
    middle.children.push(leaf);
    let mut root = blank("root", "div");
    root.children.push(middle);
    root.children.push(blank("last", "input"));

    let document = root.document();
    assert_eq!(document.entries, root.record());
    assert_eq!(document.children.len(), 2);
    assert_eq!(document.children[0].entries, root.children[0].record());
    assert!(document.children[0].entries.contains(&line(Attr::Gap, px(2.0))));
    assert_eq!(document.children[0].children.len(), 1);
    assert_eq!(document.children[0].children[0], root.children[0].children[0].document());
    assert_eq!(document.children[1].entries[0], line(Attr::Id, text("last")));
    assert!(document.children[1].children.is_empty());
    assert_eq!(documents_of(&root.children), document.children);
    assert!(documents_of(&Vec::new()).is_empty());
}
