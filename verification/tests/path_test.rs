use xcfg::path::{chars_of, dir, extension, file_name, join, last_index, same_text, starts_with};

#[test]
fn file_name_follows_the_last_separator() {
    assert_eq!(file_name("dir/cfg.toml"), "cfg.toml");
    assert_eq!(file_name("a/b/c"), "c");
    assert_eq!(file_name("cfg"), "cfg");
    assert_eq!(file_name("/cfg"), "cfg");
    assert_eq!(file_name("dir/"), "");
    assert_eq!(file_name(""), "");
    assert_eq!(file_name("/"), "");
    assert_eq!(file_name("a.d/ü.toml"), "ü.toml");
}

#[test]
fn dir_precedes_the_last_separator() {
    assert_eq!(dir("dir/cfg.toml"), "dir");
    assert_eq!(dir("a/b/c"), "a/b");
    assert_eq!(dir("cfg"), "");
    assert_eq!(dir("/cfg"), "/");
    assert_eq!(dir("/"), "/");
    assert_eq!(dir("dir/"), "dir");
    assert_eq!(dir(""), "");
    assert_eq!(dir("ä/ö/ü"), "ä/ö");
}

#[test]
fn extension_follows_the_last_dot() {
    assert_eq!(extension("cfg.toml"), Some("toml"));
    assert_eq!(extension("cfg.tar.gz"), Some("gz"));
    assert_eq!(extension("cfg."), Some(""));
    assert_eq!(extension("cfg"), None);
    assert_eq!(extension(""), None);
    assert_eq!(extension(".toml"), Some("toml"));
    assert_eq!(extension("ü.ö"), Some("ö"));
}

#[test]
fn join_puts_one_separator_between() {
    assert_eq!(join("dir", "cfg.toml"), "dir/cfg.toml");
    assert_eq!(join("dir/", "cfg.toml"), "dir/cfg.toml");
    assert_eq!(join("/", "cfg.toml"), "/cfg.toml");
    assert_eq!(join(".", "cfg.toml"), "./cfg.toml");
    assert_eq!(join("", "cfg.toml"), "cfg.toml");
    assert_eq!(join("a/b", ""), "a/b/");
}

#[test]
fn splitting_a_joined_path_gives_the_name_back() {
    for (d, n) in [("dir", "cfg.toml"), ("/", "x"), (".", "a.b.c"), ("a/b/", "ü"), ("", "y.z")] {
        let joined = join(d, n);
        assert_eq!(file_name(&joined), n);
    }
}

#[test]
fn starts_with_compares_prefixes() {
    assert!(starts_with("test.toml", "test"));
    assert!(starts_with("test.toml", "test."));
    assert!(starts_with("test.toml", "test.toml"));
    assert!(starts_with("test.toml", ""));
    assert!(starts_with("", ""));
    assert!(!starts_with("test.toml", "test.toml2"));
    assert!(!starts_with("test.toml", "tesu"));
    assert!(!starts_with("", "t"));
    assert!(starts_with("äbc", "ä"));
    assert!(!starts_with("äbc", "a"));
}

#[test]
fn same_text_compares_whole_texts() {
    assert!(same_text("toml", "toml"));
    assert!(same_text("", ""));
    assert!(!same_text("toml", "tom"));
    assert!(!same_text("toml", "tomk"));
    assert!(!same_text("", "a"));
    assert!(same_text("ü", "ü"));
}

#[test]
fn chars_of_lists_characters() {
    assert_eq!(chars_of("a/ü."), vec!['a', '/', 'ü', '.']);
    assert_eq!(chars_of(""), Vec::<char>::new());
}

#[test]
fn last_index_finds_the_last_occurrence() {
    let chars = chars_of("a.b.c");
    assert_eq!(last_index(&chars, '.'), Some(3));
    assert_eq!(last_index(&chars, 'a'), Some(0));
    assert_eq!(last_index(&chars, 'c'), Some(4));
    assert_eq!(last_index(&chars, '/'), None);
    assert_eq!(last_index(&Vec::new(), '/'), None);
}
