use std::path::PathBuf;
use terminal::events::MaybeNavigationTarget;
use terminal::grid::{GridPoint, GridRange};
use terminal::links::{navigation_target, FoundLink};

fn path_of(text: &str, is_url: bool) -> Option<String> {
    let p = GridPoint { line: 0, column: 0 };
    let link = FoundLink {
        text: text.to_owned(),
        is_url,
        span: GridRange { start: p, end: p },
    };
    match navigation_target(&link, Some(PathBuf::from("/work"))) {
        MaybeNavigationTarget::Url(url) => {
            assert_eq!(url, text);
            None
        }
        MaybeNavigationTarget::PathLike(target) => {
            assert_eq!(target.terminal_dir, Some(PathBuf::from("/work")));
            Some(target.maybe_path)
        }
    }
}

#[test]
fn addresses_stay_addresses() {
    assert_eq!(path_of("https://zed.dev/%20", true), None);
    assert_eq!(path_of("file:/a", true), None);
}

#[test]
fn file_addresses_become_paths() {
    assert_eq!(path_of("file:///a/b.rs:1:2", true).unwrap(), "/a/b.rs:1:2");
    assert_eq!(path_of("file:///a%20b+c", true).unwrap(), "/a b+c");
    assert_eq!(path_of("file:///%c3%A9", true).unwrap(), "/é");
    assert_eq!(path_of("file://", true).unwrap(), "");
}

#[test]
fn odd_percent_signs_stay() {
    assert_eq!(path_of("file:///%", true).unwrap(), "/%");
    assert_eq!(path_of("file:///%4", true).unwrap(), "/%4");
    assert_eq!(path_of("file:///%4g%%41", true).unwrap(), "/%4g%A");
}

#[test]
fn a_path_that_decodes_to_no_text_stays_encoded() {
    assert_eq!(path_of("file:///%ff", true).unwrap(), "/%ff");
}

#[test]
fn other_strings_are_paths_as_they_stand() {
    assert_eq!(path_of("file:///a%20b", false).unwrap(), "file:///a%20b");
    assert_eq!(path_of("src/a.rs:3", false).unwrap(), "src/a.rs:3");
}
