use xcfg::format::{load_fmt, Format, LoadFormat};

#[test]
fn test_load_fmt() {
    let path = "test.toml";
    assert_eq!(load_fmt(path), LoadFormat::Format(Format::Toml));
    let path = "test";
    assert_eq!(load_fmt(path), LoadFormat::Any);
    let path = "test.";
    assert_eq!(load_fmt(path), LoadFormat::Any);
    let path = "test.unknown";
    assert_eq!(load_fmt(path), LoadFormat::Unknown);
}

#[test]
fn known_extensions_name_their_format() {
    assert_eq!(load_fmt("a.toml"), LoadFormat::Format(Format::Toml));
    assert_eq!(load_fmt("a.yml"), LoadFormat::Format(Format::Yaml));
    assert_eq!(load_fmt("a.yaml"), LoadFormat::Format(Format::Yaml));
    assert_eq!(load_fmt("a.yml"), load_fmt("a.yaml"));
    assert_eq!(load_fmt("a.json"), LoadFormat::Format(Format::Json));
}

#[test]
fn open_and_unknown_paths() {
    assert_eq!(load_fmt("a"), LoadFormat::Any);
    assert_eq!(load_fmt("a."), LoadFormat::Any);
    assert_eq!(load_fmt(""), LoadFormat::Any);
    assert_eq!(load_fmt("a.xyz"), LoadFormat::Unknown);
    assert_eq!(load_fmt("a.bin"), LoadFormat::Unknown);
    assert_eq!(load_fmt("a.TOML"), LoadFormat::Unknown);
    assert_eq!(load_fmt("a.tom"), LoadFormat::Unknown);
    assert_eq!(load_fmt("a.tomll"), LoadFormat::Unknown);
}

#[test]
fn only_the_last_dot_of_the_file_name_counts() {
    assert_eq!(load_fmt("a.toml.json"), LoadFormat::Format(Format::Json));
    assert_eq!(load_fmt("a.json.bak"), LoadFormat::Unknown);
    assert_eq!(load_fmt("a.toml."), LoadFormat::Any);
    assert_eq!(load_fmt("dir.toml/cfg"), LoadFormat::Any);
    assert_eq!(load_fmt("dir.toml/cfg."), LoadFormat::Any);
    assert_eq!(load_fmt("dir.d/cfg.yml"), LoadFormat::Format(Format::Yaml));
    assert_eq!(load_fmt("dir.toml/cfg.xyz"), LoadFormat::Unknown);
    assert_eq!(load_fmt("./test.toml"), LoadFormat::Format(Format::Toml));
    assert_eq!(load_fmt("/etc/app/cfg.json"), LoadFormat::Format(Format::Json));
    assert_eq!(load_fmt(".toml"), LoadFormat::Format(Format::Toml));
    assert_eq!(load_fmt("dir/"), LoadFormat::Any);
}

#[test]
fn classification_reads_characters_not_bytes() {
    assert_eq!(load_fmt("grüße.toml"), LoadFormat::Format(Format::Toml));
    assert_eq!(load_fmt("配置.yaml"), LoadFormat::Format(Format::Yaml));
    assert_eq!(load_fmt("cfg.tömł"), LoadFormat::Unknown);
}

#[test]
fn match_ext_knows_each_extension() {
    assert_eq!(Format::match_ext("toml"), Some(Format::Toml));
    assert_eq!(Format::match_ext("yaml"), Some(Format::Yaml));
    assert_eq!(Format::match_ext("yml"), Some(Format::Yaml));
    assert_eq!(Format::match_ext("json"), Some(Format::Json));
    assert_eq!(Format::match_ext(""), None);
    assert_eq!(Format::match_ext("ini"), None);
    assert_eq!(Format::match_ext(".toml"), None);
    assert_eq!(Format::match_ext("toml "), None);
}
