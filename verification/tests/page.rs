use webview_ui::page::{
    get_initial_html, root_update_script, update_root_script, LOADING,
    PAGE_BODY, PAGE_HEAD, PAGE_TAIL,
};

#[test]
fn initial_page_holds_the_loading_notice_without_content() {
    let page = get_initial_html(None, (26, 26, 26, 255));
    assert_eq!(page, format!("{}26, 26, 26{}{}{}", PAGE_HEAD, PAGE_BODY, LOADING, PAGE_TAIL));
    assert!(page.starts_with("<!DOCTYPE html>\n<html>\n<head>"));
    assert!(page.ends_with("</body>\n</html>"));
    assert!(page.contains("background: rgb(26, 26, 26);"));
    assert!(page.contains(
        r#"<div id="root"><div style="display:flex;align-items:center;justify-content:center;height:100%;color:#666;">Loading...</div></div>"#
    ));
}

#[test]
fn initial_page_holds_the_content_in_the_root() {
    let page = get_initial_html(Some("<p>Hi</p>"), (255, 0, 7, 0));
    assert_eq!(page, format!("{}255, 0, 7{}<p>Hi</p>{}", PAGE_HEAD, PAGE_BODY, PAGE_TAIL));
    assert!(page.contains("background: rgb(255, 0, 7);"));
    assert!(page.contains(r#"<div id="root"><p>Hi</p></div>"#));
    assert!(!page.contains("Loading..."));
}

#[test]
fn initial_page_frame_has_single_braces_and_the_bridge_functions() {
    let page = get_initial_html(Some(""), (0, 0, 0, 255));
    assert!(page.contains("        * {\n            margin: 0;\n            padding: 0;\n            box-sizing: border-box;\n        }\n"));
    assert!(page.contains(".flex-row { display: flex; flex-direction: row; }"));
    assert!(page.contains("        function handleClick(callbackId) {\n            window.ipc.postMessage(JSON.stringify({\n                event_type: 'click',\n                callback_id: callbackId\n            }));\n        }\n"));
    assert!(page.contains("event_type: 'input',\n                callback_id: callbackId,\n                value: value\n"));
    assert!(!page.contains("{{"));
    assert!(!page.contains("}}"));
    assert!(page.contains(r#"<meta charset="UTF-8">"#));
    assert!(page.contains("<div id=\"root\"></div>\n    <script>"));
}

#[test]
fn update_script_takes_the_encoded_markup_as_it_is() {
    assert_eq!(
        update_root_script("\"x\""),
        "document.getElementById('root').innerHTML = \"x\";"
    );
}

#[test]
fn root_update_script_writes_the_markup_as_a_json_string() {
    assert_eq!(
        root_update_script("<p class=\"a\">1\n2\\3</p>"),
        "document.getElementById('root').innerHTML = \"<p class=\\\"a\\\">1\\n2\\\\3</p>\";"
    );
    assert_eq!(
        root_update_script("plain"),
        "document.getElementById('root').innerHTML = \"plain\";"
    );
    assert_eq!(
        root_update_script("tab\tbell\u{7}`"),
        "document.getElementById('root').innerHTML = \"tab\\tbell\\u0007`\";"
    );
    assert_eq!(root_update_script(""), "document.getElementById('root').innerHTML = \"\";");
}

#[test]
fn root_update_script_leaves_nothing_for_the_page_to_evaluate() {
    assert_eq!(
        root_update_script("${1}"),
        "document.getElementById('root').innerHTML = \"${1}\";"
    );
    assert_eq!(
        root_update_script("a`b\\n"),
        "document.getElementById('root').innerHTML = \"a`b\\\\n\";"
    );
}

fn literal_of(text: &str) -> String {
    let mut out = String::from("\"");
    for c in text.chars() {
        match c {
            '"' => out.push_str("\\\""),
            '\\' => out.push_str("\\\\"),
            '\u{8}' => out.push_str("\\b"),
            '\t' => out.push_str("\\t"),
            '\n' => out.push_str("\\n"),
            '\u{c}' => out.push_str("\\f"),
            '\r' => out.push_str("\\r"),
            c if (c as u32) < 0x20 => out.push_str(&format!("\\u00{:02x}", c as u32)),
            c => out.push(c),
        }
    }
    out.push('"');
    out
}

fn script_of(text: &str) -> String {
    format!("document.getElementById('root').innerHTML = {};", literal_of(text))
}

#[test]
fn every_character_is_written_as_the_escape_rule_says() {
    for code in 0u32..0x3000 {
        if let Some(c) = char::from_u32(code) {
            let text = c.to_string();
            assert_eq!(root_update_script(&text), script_of(&text));
        }
    }
    for code in [0xd7ffu32, 0xe000, 0xfeff, 0xffff, 0x1_0000, 0x1_f600, 0x10_ffff] {
        let text = char::from_u32(code).unwrap().to_string();
        assert_eq!(root_update_script(&text), script_of(&text));
    }
}

#[test]
fn control_characters_are_written_in_lowercase_hex() {
    assert_eq!(root_update_script("\u{0}"), script_of("\u{0}"));
    assert_eq!(
        root_update_script("\u{0}\u{1}\u{b}\u{1b}\u{1f}\u{7f}"),
        "document.getElementById('root').innerHTML = \"\\u0000\\u0001\\u000b\\u001b\\u001f\u{7f}\";"
    );
    assert_eq!(
        root_update_script("\u{8}\t\n\u{c}\r/'"),
        "document.getElementById('root').innerHTML = \"\\b\\t\\n\\f\\r/'\";"
    );
}

#[test]
fn longer_texts_are_written_character_by_character() {
    for text in ["", "<div class=\"a\">x</div>", "a\\b\"c\nd\u{1}\u{e9}\u{2028}\u{1f600}", "\"\"\\\\"] {
        assert_eq!(root_update_script(text), script_of(text));
    }
}
