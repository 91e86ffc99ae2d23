//! What the jam's file server answers with: the content type of a file by
//! its extension, the page of each game, and the script that lists them.
use vstd::prelude::*;

use crate::text::str_eq;

verus! {

/// What `std::path::Path::extension` gives for a path: the part of its last
/// component after the final dot, when there is one.
pub uninterp spec fn path_extension(path: Seq<char>) -> Option<Seq<char>>;

/// `std::path::Path::extension` on `path`, read back as a string. The
/// rules by which `std` picks the last component and its extension are
/// not restated: the result is named `path_extension`.
#[verifier::external_body]
fn extension_of(path: &str) -> (r: Option<&str>)
    ensures
        r matches Some(e) ==> path_extension(path@) == Some(e@),
        r is None ==> path_extension(path@) is None,
{
    std::path::Path::new(path).extension().and_then(|e| e.to_str())
}

/// The content type served for a file with the given extension.
pub open spec fn content_type_spec(ext: Option<Seq<char>>) -> Seq<char> {
    match ext {
        Some(e) => if e == "html"@ {
            "text/html"@
        } else if e == "css"@ {
            "text/css"@
        } else if e == "js"@ {
            "text/javascript"@
        } else if e == "wasm"@ {
            "application/wasm"@
        } else {
            "application/octet-stream"@
        },
        None => "application/octet-stream"@,
    }
}

/// The content type for a file extension: HTML, CSS, JavaScript and
/// WebAssembly by name, anything else (or none) as bytes.
pub fn content_type_for_extension(ext: Option<&str>) -> (t: &'static str)
    ensures
        t@ == content_type_spec(
            match ext {
                Some(e) => Some(e@),
                None => None,
            },
        ),
{
    proof {
        reveal_strlit("html");
        reveal_strlit("css");
        reveal_strlit("js");
        reveal_strlit("wasm");
    }
    match ext {
        Some(e) => {
            if str_eq(e, "html") {
                "text/html"
            } else if str_eq(e, "css") {
                "text/css"
            } else if str_eq(e, "js") {
                "text/javascript"
            } else if str_eq(e, "wasm") {
                "application/wasm"
            } else {
                "application/octet-stream"
            }
        },
        None => "application/octet-stream",
    }
}

/// The content type served for the file at `path`, by its extension.
pub fn content_type(path: &str) -> (t: &'static str)
    ensures
        t@ == content_type_spec(path_extension(path@)),
{
    let ext = extension_of(path);
    content_type_for_extension(ext)
}

/// The page of the game in directory `name` of the games directory.
pub fn game_page(name: &str) -> (p: String)
    ensures
        p@ == "games/"@ + name@ + "/index.html"@,
{
    let mut p = String::from_str("games/");
    p.append(name);
    p.append("/index.html");
    p
}

/// The pages of the games in the directories `names`, in the same order.
pub fn game_pages(names: &Vec<String>) -> (pages: Vec<String>)
    ensures
        pages@.len() == names@.len(),
        forall|i: int|
            0 <= i < names@.len() ==> #[trigger] pages@[i]@ == "games/"@ + names@[i]@
                + "/index.html"@,
{
    let mut pages: Vec<String> = Vec::new();
    for i in 0..names.len()
        invariant
            pages@.len() == i,
            forall|j: int|
                0 <= j < i ==> #[trigger] pages@[j]@ == "games/"@ + names@[j]@ + "/index.html"@,
    {
        pages.push(game_page(names[i].as_str()));
    }
    pages
}

/// What `{:?}` writes for a list of strings: `std`'s `Debug` of a `Vec` of
/// `String`s, each quoted and escaped.
pub uninterp spec fn debug_strings(items: Seq<Seq<char>>) -> Seq<char>;

/// `format!("{:?}", items)`: the `Debug` text of the list. `std`'s quoting
/// and escaping rules are not restated: the result is named
/// `debug_strings`.
#[verifier::external_body]
fn debug_list(items: &Vec<String>) -> (r: String)
    ensures
        r@ == debug_strings(items.deep_view()),
{
    format!("{:?}", items)
}

/// The script that hands the page the list of games, given the list's text.
pub fn microgames_script(list: &str) -> (js: String)
    ensures
        js@ == "window.MICROGAMES = "@ + list@ + ";\n"@,
{
    let mut js = String::from_str("window.MICROGAMES = ");
    js.append(list);
    js.append(";\n");
    js
}

/// The script that hands the page the list of game pages.
pub fn games_js(pages: &Vec<String>) -> (js: String)
    ensures
        js@ == "window.MICROGAMES = "@ + debug_strings(pages.deep_view()) + ";\n"@,
{
    let list = debug_list(pages);
    microgames_script(list.as_str())
}

} // verus!
