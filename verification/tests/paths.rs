use termpet::paths::choose_path;
use termpet::paths::expand_home;
use termpet::paths::needs_home;
use termpet::paths::DEFAULT_PET_DIR;
use termpet::paths::PATH_VARIABLE;

#[test]
fn default_path_and_variable() {
    assert_eq!(DEFAULT_PET_DIR, "~/.config/termpet/first.pet");
    assert_eq!(PATH_VARIABLE, "TPET_FILE_PATH");
}

#[test]
fn given_path_comes_first() {
    let r = choose_path(Some(String::from("/a")), Some(String::from("/b")));
    assert_eq!(r, "/a");
    let r = choose_path(Some(String::from("/a")), None);
    assert_eq!(r, "/a");
}

#[test]
fn path_from_the_environment_comes_second() {
    let r = choose_path(None, Some(String::from("/b")));
    assert_eq!(r, "/b");
}

#[test]
fn default_path_comes_last() {
    assert_eq!(choose_path(None, None), "~/.config/termpet/first.pet");
}

#[test]
fn home_is_needed_for_a_path_that_starts_with_the_mark() {
    assert!(needs_home("~"));
    assert!(needs_home("~/x"));
    assert!(needs_home("~~"));
    assert!(!needs_home(""));
    assert!(!needs_home("/~"));
    assert!(!needs_home("a~"));
    assert!(!needs_home("é~"));
}

#[test]
fn expand_replaces_the_mark() {
    assert_eq!(expand_home(String::from("~/.config/termpet/first.pet"), "/home/me"),
        "/home/me/.config/termpet/first.pet");
    assert_eq!(expand_home(String::from("~"), "/root"), "/root");
}

#[test]
fn expand_replaces_every_mark() {
    assert_eq!(expand_home(String::from("~/a~b/~"), "/h"), "/h/a/hb//h");
    assert_eq!(expand_home(String::from("~~"), "xy"), "xyxy");
}

#[test]
fn expand_leaves_other_paths_alone() {
    assert_eq!(expand_home(String::from("/tmp/~/x"), "/h"), "/tmp/~/x");
    assert_eq!(expand_home(String::from(""), "/h"), "");
    assert_eq!(expand_home(String::from("a~"), "/h"), "a~");
}

#[test]
fn expand_with_an_empty_home_drops_the_marks() {
    assert_eq!(expand_home(String::from("~/a~"), ""), "/a");
}

#[test]
fn expand_agrees_with_replace() {
    for path in ["~", "~/x", "~é/~ü", "/x/~", ""] {
        for home in ["", "/home/é", "~"] {
            let expected = if path.starts_with("~") {
                path.replace("~", home)
            } else {
                path.to_string()
            };
            assert_eq!(expand_home(path.to_string(), home), expected);
        }
    }
}
