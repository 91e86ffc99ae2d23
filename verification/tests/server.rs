use jam2026::server::{
    content_type, content_type_for_extension, game_page, game_pages, games_js, microgames_script,
};

#[test]
fn content_types_by_extension() {
    assert_eq!(content_type("index.html"), "text/html");
    assert_eq!(content_type("style.css"), "text/css");
    assert_eq!(content_type("pkg/game.js"), "text/javascript");
    assert_eq!(content_type("pkg/game_bg.wasm"), "application/wasm");
    assert_eq!(content_type("assets/font.png"), "application/octet-stream");
}

#[test]
fn content_type_without_extension() {
    assert_eq!(content_type("README"), "application/octet-stream");
    assert_eq!(content_type(".html"), "application/octet-stream");
    assert_eq!(content_type("dir.js/"), "text/javascript");
    assert_eq!(content_type("page.HTML"), "application/octet-stream");
    assert_eq!(content_type(""), "application/octet-stream");
}

#[test]
fn content_type_table() {
    assert_eq!(content_type_for_extension(Some("html")), "text/html");
    assert_eq!(content_type_for_extension(Some("wasm")), "application/wasm");
    assert_eq!(content_type_for_extension(Some("htm")), "application/octet-stream");
    assert_eq!(content_type_for_extension(None), "application/octet-stream");
}

#[test]
fn game_pages_and_list() {
    assert_eq!(game_page("shooter"), "games/shooter/index.html");
    let pages = game_pages(&vec!["a".to_string(), "b c".to_string()]);
    assert_eq!(pages, vec!["games/a/index.html".to_string(), "games/b c/index.html".to_string()]);
    assert_eq!(game_pages(&Vec::new()), Vec::<String>::new());
    assert_eq!(microgames_script("[]"), "window.MICROGAMES = [];\n");
    assert_eq!(games_js(&Vec::new()), "window.MICROGAMES = [];\n");
    assert_eq!(
        games_js(&pages),
        "window.MICROGAMES = [\"games/a/index.html\", \"games/b c/index.html\"];\n"
    );
    assert_eq!(games_js(&vec!["q\"x".to_string()]), "window.MICROGAMES = [\"q\\\"x\"];\n");
}
