//! The page that a window shows, and the scripts that change it.
//!
//! The page is a fixed frame around a root container. What the window is to
//! show is placed in the root: in the page itself when it is loaded, and by
//! a script that hands the markup over as a string literal thereafter.

use crate::color::Rgba;
use crate::ident::{dec_text, digit_char, push_dec};
use vstd::prelude::*;

verus! {

/// The page from its start to the red part of the background color.
pub const PAGE_HEAD: &'static str = r#"<!DOCTYPE html>
<html>
<head>
    <meta charset="UTF-8">
    <meta name="viewport" content="width=device-width, initial-scale=1.0">
    <style>
        * {
            margin: 0;
            padding: 0;
            box-sizing: border-box;
        }
        body {
            font-family: -apple-system, BlinkMacSystemFont, 'Segoe UI', Roboto, Oxygen, Ubuntu, sans-serif;
            background: rgb("#;

/// The page from the end of the background color to the start of the root's
/// content.
pub const PAGE_BODY: &'static str = r#");
            color: #ffffff;
            min-height: 100vh;
        }
        #root {
            width: 100%;
            height: 100vh;
        }
        .size-full {
            width: 100%;
            height: 100%;
        }
        .flex-row { display: flex; flex-direction: row; }
        .flex-col { display: flex; flex-direction: column; }
        .items-center { align-items: center; }
        .items-start { align-items: flex-start; }
        .items-end { align-items: flex-end; }
        .justify-center { justify-content: center; }
        .justify-between { justify-content: space-between; }
        .justify-start { justify-content: flex-start; }
        .justify-end { justify-content: flex-end; }
    </style>
</head>
<body>
    <div id="root">"#;

/// The page from the end of the root's content to its end.
pub const PAGE_TAIL: &'static str = r#"</div>
    <script>
        function handleClick(callbackId) {
            window.ipc.postMessage(JSON.stringify({
                event_type: 'click',
                callback_id: callbackId
            }));
        }

        function handleInput(callbackId, value) {
            window.ipc.postMessage(JSON.stringify({
                event_type: 'input',
                callback_id: callbackId,
                value: value
            }));
        }

    </script>
</body>
</html>"#;

/// What the root holds until content is set.
pub const LOADING: &'static str =
    r#"<div style="display:flex;align-items:center;justify-content:center;height:100%;color:#666;">Loading...</div>"#;

/// The text of the first page: the frame, with the background color's red,
/// green and blue in decimal, around the given content, or around the
/// loading notice where there is no content. Opacity is not written.
pub open spec fn initial_html(content: Option<Seq<char>>, background: Rgba) -> Seq<char> {
    PAGE_HEAD@ + dec_text(background.0 as nat) + ", "@ + dec_text(background.1 as nat) + ", "@
        + dec_text(background.2 as nat) + PAGE_BODY@ + (match content {
        Some(markup) => markup,
        None => LOADING@,
    }) + PAGE_TAIL@
}

/// The first page: the frame around the given content, or around the
/// loading notice.
pub fn get_initial_html(content: Option<&str>, background_color: Rgba) -> (r: String)
    ensures
        r@ == initial_html(
            match content {
                Some(markup) => Some(markup@),
                None => None,
            },
            background_color,
        ),
{
    let root_content = match content {
        Some(markup) => markup,
        None => LOADING,
    };
    let mut page = String::from_str(PAGE_HEAD);
    push_dec(&mut page, background_color.0 as u64);
    page.append(", ");
    push_dec(&mut page, background_color.1 as u64);
    page.append(", ");
    push_dec(&mut page, background_color.2 as u64);
    page.append(PAGE_BODY);
    page.append(root_content);
    page.append(PAGE_TAIL);
    page
}

/// An error of `serde_json`.
#[verifier::external_type_specification]
#[verifier::external_body]
pub struct ExJsonError(serde_json::Error);

/// How one character stands inside a JSON string literal: the quote and
/// the backslash behind a backslash, the five control characters that have
/// a short form in that form, every other character below the space as
/// `\u00` and its two lowercase hexadecimal digits, and every other
/// character as it is.
pub open spec fn json_char(c: char) -> Seq<char> {
    if c == '"' {
        seq!['\\', '"']
    } else if c == '\\' {
        seq!['\\', '\\']
    } else if c == '\u{8}' {
        seq!['\\', 'b']
    } else if c == '\t' {
        seq!['\\', 't']
    } else if c == '\n' {
        seq!['\\', 'n']
    } else if c == '\u{c}' {
        seq!['\\', 'f']
    } else if c == '\r' {
        seq!['\\', 'r']
    } else if (c as int) < 32 {
        seq!['\\', 'u', '0', '0', digit_char(c as int / 16), digit_char(c as int % 16)]
    } else {
        seq![c]
    }
}

/// The characters of a text as they stand inside a JSON string literal.
pub open spec fn json_chars(text: Seq<char>) -> Seq<char>
    decreases text.len(),
{
    if text.len() == 0 {
        Seq::empty()
    } else {
        json_chars(text.drop_last()) + json_char(text.last())
    }
}

/// The JSON string literal for a text: its characters between two quotes.
pub open spec fn json_string(text: Seq<char>) -> Seq<char> {
    seq!['"'] + json_chars(text) + seq!['"']
}

/// `serde_json::to_string` on a text. It succeeds on every text: a text is
/// no map and its serialization reports no error of its own, and the
/// output goes to memory. The result is the JSON string literal for the
/// text: a quote, each character as the crate's escape table has it, a
/// quote.
#[verifier::external_body]
fn to_json_string(text: &str) -> (r: Result<String, serde_json::Error>)
    ensures
        r is Ok,
        r matches Ok(json) ==> json@ == json_string(text@),
{
    serde_json::to_string(text)
}

/// The script that sets the content of the page's root, given the new
/// content as a JSON string literal.
pub open spec fn update_script(encoded: Seq<char>) -> Seq<char> {
    "document.getElementById('root').innerHTML = "@ + encoded + ";"@
}

/// The script that sets the content of the page's root to the given markup:
/// the update script around the markup's JSON string literal.
pub open spec fn root_update(markup: Seq<char>) -> Seq<char> {
    update_script(json_string(markup))
}

/// The script that sets the content of the page's root, given the new
/// content as a JSON string literal.
pub fn update_root_script(encoded: &str) -> (r: String)
    ensures
        r@ == update_script(encoded@),
{
    let mut script = String::from_str("document.getElementById('root').innerHTML = ");
    script.append(encoded);
    script.append(";");
    script
}

/// The script that sets the content of the page's root to the given markup.
/// The markup reaches the page as a string literal, so the page takes it as
/// it is and evaluates nothing in it.
pub fn root_update_script(markup: &str) -> (r: String)
    ensures
        r@ == root_update(markup@),
{
    match to_json_string(markup) {
        Ok(encoded) => update_root_script(encoded.as_str()),
        Err(_) => unreached(),
    }
}

} // verus!
