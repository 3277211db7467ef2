use time_banner::utils::{parse_path, split_on_extension};

#[test]
fn test_split_on_extension() {
    assert_eq!(split_on_extension("file.txt"), Some(("file", "txt")));
    assert_eq!(
        split_on_extension("path/to/file.png"),
        Some(("path/to/file", "png"))
    );
    assert_eq!(split_on_extension("noextension"), None);
    assert_eq!(split_on_extension(".dotfile"), None); // dotfiles return None
    assert_eq!(split_on_extension("file."), Some(("file", "")));
    assert_eq!(
        split_on_extension("file.name.ext"),
        Some(("file.name", "ext"))
    );
}

#[test]
fn test_parse_path() {
    assert_eq!(parse_path("file.txt"), ("file", "txt"));
    assert_eq!(parse_path("path/to/file.png"), ("path/to/file", "png"));
    assert_eq!(parse_path("noextension"), ("noextension", "svg")); // default to svg
    assert_eq!(parse_path(".dotfile"), (".dotfile", "svg")); // dotfiles get svg default
    assert_eq!(parse_path("file."), ("file", ""));
}

#[test]
fn split_keeps_multibyte_characters_whole() {
    assert_eq!(split_on_extension("z\u{fc}rich.svg"), Some(("z\u{fc}rich", "svg")));
    assert_eq!(split_on_extension("\u{2212}1h.png"), Some(("\u{2212}1h", "png")));
}

#[test]
fn split_of_edge_paths() {
    assert_eq!(split_on_extension(""), None);
    assert_eq!(split_on_extension("."), None);
    assert_eq!(split_on_extension(".."), Some((".", "")));
    assert_eq!(split_on_extension("a.b."), Some(("a.b", "")));
    assert_eq!(parse_path(""), ("", "svg"));
    assert_eq!(parse_path("+1h.png"), ("+1h", "png"));
    assert_eq!(parse_path("2023.06.14.15-45-30.png"), ("2023.06.14.15-45-30", "png"));
}
