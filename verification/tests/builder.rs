use webview_ui::builder::{button, div, input, text, ElementBuilder};
use webview_ui::element::{Attr, AttrValue, ElementDef, Number, ONE_BITS};
use webview_ui::ident::IdGenerator;
use webview_ui::registry::CallbackRegistry;
use webview_ui::tree::{Element, Interaction};

fn n(value: f32) -> Number {
    Number { bits: value.to_bits() }
}

fn s(value: &str) -> String {
    value.to_string()
}

fn some(value: &str) -> Option<String> {
    Some(value.to_string())
}

fn draft(id: &str, kind: &str) -> ElementBuilder {
    ElementBuilder::from_element(Element::from_def(ElementDef::with_id(s(id), s(kind))))
}

#[test]
fn constructors_set_kind_and_content() {
    let mut ids = IdGenerator::new();
    let d = ElementBuilder::div(&mut ids).build();
    assert_eq!(d.def.element_type, "div");
    assert_eq!(d.def.text_content, None);
    let t = ElementBuilder::text(&mut ids, s("hello")).build();
    assert_eq!(t.def.element_type, "text");
    assert_eq!(t.def.text_content, some("hello"));
    let b = ElementBuilder::button(&mut ids, s("OK")).build();
    assert_eq!(b.def.element_type, "button");
    assert_eq!(b.def.text_content, some("OK"));
    let i = ElementBuilder::image(&mut ids, s("cat.png")).build();
    assert_eq!(i.def.element_type, "image");
    assert_eq!(i.def.text_content, some("cat.png"));
    let f = ElementBuilder::input(&mut ids).build();
    assert_eq!(f.def.element_type, "input");
    assert_eq!(f.def.text_content, None);
    let all = [&d, &t, &b, &i, &f];
    for (k, e) in all.iter().enumerate() {
        assert!(e.def.id.starts_with("el_"));
        assert!(e.def.id.ends_with(&format!("_{}", k)));
        assert!(e.callback_ids().is_empty());
        assert!(e.def.children.is_empty());
    }
}

#[test]
fn free_functions_make_the_same_drafts() {
    let mut ids = IdGenerator::new();
    assert_eq!(div(&mut ids).build().def.element_type, "div");
    let t = text(&mut ids, s("x")).build();
    assert_eq!((t.def.element_type.as_str(), t.def.text_content), ("text", some("x")));
    let b = button(&mut ids, s("Go")).build();
    assert_eq!((b.def.element_type.as_str(), b.def.text_content), ("button", some("Go")));
    assert_eq!(input(&mut ids).build().def.element_type, "input");
}

#[test]
fn layout_setters_set_their_fields() {
    let e = draft("a", "div")
        .width(n(10.0))
        .height(n(20.0))
        .gap(n(3.0))
        .padding(n(4.0))
        .pt(n(5.0))
        .pr(n(6.0))
        .pb(n(7.0))
        .pl(n(8.0))
        .margin(n(9.0))
        .size_full()
        .v_flex()
        .items_center()
        .justify_center()
        .build();
    assert_eq!(e.def.width, Some(n(10.0)));
    assert_eq!(e.def.height, Some(n(20.0)));
    assert_eq!(e.def.gap, Some(n(3.0)));
    assert_eq!(e.def.padding, Some(n(4.0)));
    assert_eq!(e.def.padding_top, Some(n(5.0)));
    assert_eq!(e.def.padding_right, Some(n(6.0)));
    assert_eq!(e.def.padding_bottom, Some(n(7.0)));
    assert_eq!(e.def.padding_left, Some(n(8.0)));
    assert_eq!(e.def.margin, Some(n(9.0)));
    assert_eq!(e.def.size_full, Some(true));
    assert_eq!(e.def.flex_direction, some("column"));
    assert_eq!(e.def.align_items, some("center"));
    assert_eq!(e.def.justify_content, some("center"));
}

#[test]
fn shorthand_setters_set_what_they_stand_for() {
    let e = draft("a", "div").size(n(1.0), n(2.0)).p(n(3.0)).m(n(4.0)).px(n(5.0)).py(n(6.0)).build();
    assert_eq!(e.def.width, Some(n(1.0)));
    assert_eq!(e.def.height, Some(n(2.0)));
    assert_eq!(e.def.padding, Some(n(3.0)));
    assert_eq!(e.def.margin, Some(n(4.0)));
    assert_eq!(e.def.padding_left, Some(n(5.0)));
    assert_eq!(e.def.padding_right, Some(n(5.0)));
    assert_eq!(e.def.padding_top, Some(n(6.0)));
    assert_eq!(e.def.padding_bottom, Some(n(6.0)));
    let h = draft("b", "div").h_flex().justify_between().build();
    assert_eq!(h.def.flex_direction, some("row"));
    assert_eq!(h.def.justify_content, some("space-between"));
}

#[test]
fn style_setters_set_their_fields() {
    let e = draft("a", "div")
        .bg(s("#ff0000"))
        .text_color(s("white"))
        .rounded(n(8.0))
        .border(n(2.0), s("#333"))
        .overflow(s("scroll"))
        .text_align(s("right"))
        .word_wrap(s("break-word"))
        .position(s("sticky"))
        .top(n(1.0))
        .right(n(2.0))
        .bottom(n(3.0))
        .left(n(4.0))
        .text_size(n(14.0))
        .text_weight(s("bold"))
        .value(s("typed"))
        .placeholder(s("type here"))
        .build();
    assert_eq!(e.def.background_color, some("#ff0000"));
    assert_eq!(e.def.text_color, some("white"));
    assert_eq!(e.def.border_radius, Some(n(8.0)));
    assert_eq!(e.def.border_width, Some(n(2.0)));
    assert_eq!(e.def.border_color, some("#333"));
    assert_eq!(e.def.overflow, some("scroll"));
    assert_eq!(e.def.text_align, some("right"));
    assert_eq!(e.def.word_wrap, some("break-word"));
    assert_eq!(e.def.position, some("sticky"));
    assert_eq!(e.def.top, Some(n(1.0)));
    assert_eq!(e.def.right, Some(n(2.0)));
    assert_eq!(e.def.bottom, Some(n(3.0)));
    assert_eq!(e.def.left, Some(n(4.0)));
    assert_eq!(e.def.font_size, Some(n(14.0)));
    assert_eq!(e.def.font_weight, some("bold"));
    assert_eq!(e.def.value, some("typed"));
    assert_eq!(e.def.placeholder, some("type here"));
}

#[test]
fn fixed_value_setters_set_their_values() {
    let e = draft("a", "div").b(s("#abc")).overflow_hidden().text_center().absolute().build();
    assert_eq!(e.def.border_width, Some(Number { bits: ONE_BITS }));
    assert_eq!(e.def.border_width, Some(n(1.0)));
    assert_eq!(e.def.border_color, some("#abc"));
    assert_eq!(e.def.overflow, some("hidden"));
    assert_eq!(e.def.text_align, some("center"));
    assert_eq!(e.def.position, some("absolute"));
    let r = draft("b", "div").relative().build();
    assert_eq!(r.def.position, some("relative"));
}

#[test]
fn later_call_for_an_attribute_replaces_the_earlier() {
    let e = draft("a", "div")
        .width(n(1.0))
        .bg(s("red"))
        .absolute()
        .width(n(2.0))
        .relative()
        .bg(s("blue"))
        .size(n(3.0), n(4.0))
        .position(s("static"))
        .build();
    assert_eq!(e.def.width, Some(n(3.0)));
    assert_eq!(e.def.height, Some(n(4.0)));
    assert_eq!(e.def.background_color, some("blue"));
    assert_eq!(e.def.position, some("static"));
    let record = e.def.record();
    assert_eq!(record.iter().filter(|l| l.attr == Attr::Width).count(), 1);
    assert_eq!(record.iter().filter(|l| l.attr == Attr::Position).count(), 1);
    assert_eq!(
        e.def.attribute(Attr::BackgroundColor),
        Some(AttrValue::Text(s("blue")))
    );
    assert!(record.iter().all(|l| l.attr != Attr::Gap && l.attr != Attr::OnClick));
}

#[test]
fn children_are_kept_in_call_order() {
    let mut ids = IdGenerator::new();
    let first = draft("c1", "text").build();
    let second = draft("c2", "button");
    let parent = draft("p", "div")
        .child(&first)
        .child_builder(&second)
        .child_text(&mut ids, s("plain"))
        .child(&first)
        .build();
    let kids: Vec<&str> = parent.def.children.iter().map(|c| c.id.as_str()).collect();
    assert_eq!(kids[0], "c1");
    assert_eq!(kids[1], "c2");
    assert!(kids[2].starts_with("el_"));
    assert_eq!(kids[3], "c1");
    assert_eq!(parent.def.children[2].element_type, "text");
    assert_eq!(parent.def.children[2].text_content, some("plain"));
    assert!(parent.def.children[2].children.is_empty());
    assert!(parent.callback_ids().is_empty());
}

#[test]
fn on_click_registers_and_tracks_a_fresh_id() {
    let mut ids = IdGenerator::new();
    let mut registry: CallbackRegistry<u32> = CallbackRegistry::new();
    let e = ElementBuilder::button(&mut ids, s("Go")).on_click(&mut ids, &mut registry, 7).build();
    let id = e.def.on_click.clone().unwrap();
    assert!(id.starts_with("el_"));
    assert!(id.ends_with("_1"));
    assert_ne!(id, e.def.id);
    assert_eq!(e.callback_ids(), &vec![id.clone()]);
    assert_eq!(registry.get(&id), Some(&7));
    assert_eq!(registry.len(), 1);
    assert_eq!(e.def.on_input, None);
}

#[test]
fn on_input_registers_and_tracks_a_fresh_id() {
    let mut ids = IdGenerator::new();
    let mut registry: CallbackRegistry<&str> = CallbackRegistry::new();
    let e = ElementBuilder::input(&mut ids)
        .on_input(&mut ids, &mut registry, "typed")
        .on_click(&mut ids, &mut registry, "clicked")
        .build();
    let input_id = e.def.on_input.clone().unwrap();
    let click_id = e.def.on_click.clone().unwrap();
    assert_ne!(input_id, click_id);
    assert_eq!(e.callback_ids(), &vec![input_id.clone(), click_id.clone()]);
    assert_eq!(registry.get(&input_id), Some(&"typed"));
    assert_eq!(registry.get(&click_id), Some(&"clicked"));
}

#[test]
fn attach_handler_uses_the_given_id() {
    let mut registry: CallbackRegistry<u32> = CallbackRegistry::new();
    let e = draft("b", "button")
        .attach_handler(Interaction::Click, s("cb1"), &mut registry, 1)
        .attach_handler(Interaction::Input, s("cb2"), &mut registry, 2)
        .build();
    assert_eq!(e.def.on_click, some("cb1"));
    assert_eq!(e.def.on_input, some("cb2"));
    assert_eq!(e.callback_ids(), &vec![s("cb1"), s("cb2")]);
    assert_eq!(registry.get(&s("cb1")), Some(&1));
    assert_eq!(registry.get(&s("cb2")), Some(&2));
}

fn referenced(def: &ElementDef, out: &mut Vec<String>) {
    if let Some(id) = &def.on_click {
        out.push(id.clone());
    }
    if let Some(id) = &def.on_input {
        out.push(id.clone());
    }
    for child in &def.children {
        referenced(child, out);
    }
}

#[test]
fn child_ids_reach_the_top_without_loss_or_duplicate() {
    let mut ids = IdGenerator::new();
    let mut registry: CallbackRegistry<u32> = CallbackRegistry::new();
    let leaf = ElementBuilder::button(&mut ids, s("a")).on_click(&mut ids, &mut registry, 1);
    let field = ElementBuilder::input(&mut ids)
        .on_input(&mut ids, &mut registry, 2)
        .on_click(&mut ids, &mut registry, 3);
    let row = ElementBuilder::div(&mut ids).child_builder(&leaf).child_text(&mut ids, s("t"));
    let top = ElementBuilder::div(&mut ids)
        .on_click(&mut ids, &mut registry, 4)
        .child_builder(&row)
        .child(&field.build())
        .build();

    let mut kept: Vec<String> = top.callback_ids().clone();
    let mut reachable: Vec<String> = Vec::new();
    referenced(&top.def, &mut reachable);
    assert_eq!(kept.len(), 4);
    kept.sort();
    reachable.sort();
    assert_eq!(kept, reachable);
    let mut unique = kept.clone();
    unique.dedup();
    assert_eq!(unique.len(), 4);
    for id in &kept {
        assert!(registry.contains(id));
    }
    assert_eq!(registry.len(), 4);
}

#[test]
fn build_is_a_snapshot_and_leaves_the_draft_usable() {
    let mut registry: CallbackRegistry<u32> = CallbackRegistry::new();
    let builder = draft("a", "div").width(n(1.0)).child(&draft("c", "text").build());
    let first = builder.build();
    let builder = builder
        .width(n(2.0))
        .child(&draft("d", "text").build())
        .attach_handler(Interaction::Click, s("cb"), &mut registry, 1);
    let second = builder.build();
    assert_eq!(first.def.width, Some(n(1.0)));
    assert_eq!(first.def.children.len(), 1);
    assert!(first.callback_ids().is_empty());
    assert_eq!(first.def.on_click, None);
    assert_eq!(second.def.width, Some(n(2.0)));
    assert_eq!(second.def.children.len(), 2);
    assert_eq!(second.callback_ids(), &vec![s("cb")]);
    let third = builder.build();
    assert_eq!(third.def.record(), second.def.record());
}

#[test]
fn repr_names_kind_and_child_count() {
    let builder = draft("a", "div").child(&draft("c", "text").build()).child(&draft("d", "text").build());
    assert_eq!(builder.repr(), "ElementBuilder(Element(type='div', children=2))");
    assert_eq!(builder.build().repr(), "Element(type='div', children=2)");
    assert_eq!(draft("x", "button").build().repr(), "Element(type='button', children=0)");
    let mut many = draft("m", "div");
    let leaf = draft("l", "text").build();
    for _ in 0..12 {
        many = many.child(&leaf);
    }
    assert_eq!(many.build().repr(), "Element(type='div', children=12)");
}

#[test]
fn element_new_defaults_to_div() {
    let mut ids = IdGenerator::new();
    let plain = Element::new(&mut ids, None);
    assert_eq!(plain.def.element_type, "div");
    let custom = Element::new(&mut ids, some("image"));
    assert_eq!(custom.def.element_type, "image");
    assert_ne!(plain.def.id, custom.def.id);
    assert!(plain.callback_ids().is_empty());
}

#[test]
fn collect_callbacks_takes_only_what_the_element_tracks() {
    let mut registry: CallbackRegistry<u32> = CallbackRegistry::new();
    let mine = draft("a", "button").attach_handler(Interaction::Click, s("mine"), &mut registry, 1).build();
    let _other =
        draft("b", "button").attach_handler(Interaction::Click, s("other"), &mut registry, 2).build();
    let collected = mine.collect_callbacks(&mut registry);
    assert_eq!(collected.len(), 1);
    assert_eq!(collected.get(&s("mine")), Some(&1));
    assert_eq!(registry.len(), 1);
    assert_eq!(registry.get(&s("other")), Some(&2));
    let again = mine.collect_callbacks(&mut registry);
    assert_eq!(again.len(), 0);
    assert_eq!(registry.len(), 1);
}

#[test]
fn element_assign_and_attach_and_add_child() {
    let mut parent = Element::from_def(ElementDef::with_id(s("p"), s("div")));
    parent.assign(Attr::Gap, AttrValue::Number(n(2.0)));
    parent.attach(Interaction::Click, s("k1"));
    let mut child = Element::from_def(ElementDef::with_id(s("c"), s("input")));
    child.attach(Interaction::Input, s("k2"));
    parent.add_child(&child);
    parent.add_child(&child.snapshot());
    assert_eq!(parent.def().gap, Some(n(2.0)));
    assert_eq!(parent.def.on_click, some("k1"));
    assert_eq!(parent.def.children.len(), 2);
    assert_eq!(parent.def.children[1].on_input, some("k2"));
    assert_eq!(parent.callback_ids(), &vec![s("k1"), s("k2"), s("k2")]);
}
