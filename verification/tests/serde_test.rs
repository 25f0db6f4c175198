use serde_json::Value;
use xcfg::discover::Entry;
use xcfg::format::{save, File, Format, XCfg};
use xcfg::Error;

#[derive(Debug, Default, Clone, PartialEq)]
struct SubTest {
    c: Vec<String>,
}

#[derive(Debug, Default, Clone, PartialEq)]
struct Test {
    a: i32,
    b: Vec<i32>,
    sub: SubTest,
}

impl Test {
    fn new(a: i32, b: Vec<i32>, sub: SubTest) -> Self {
        Self { a, b, sub }
    }

    fn to_value(&self) -> Value {
        let mut sub = serde_json::Map::new();
        sub.insert("c".to_string(), Value::from(self.sub.c.clone()));
        let mut all = serde_json::Map::new();
        all.insert("a".to_string(), Value::from(self.a));
        all.insert("b".to_string(), Value::from(self.b.clone()));
        all.insert("sub".to_string(), Value::Object(sub));
        Value::Object(all)
    }

    fn from_value(value: &Value) -> Option<Self> {
        let a = i32::try_from(value.get("a")?.as_i64()?).ok()?;
        let mut b = Vec::new();
        for item in value.get("b")?.as_array()? {
            b.push(i32::try_from(item.as_i64()?).ok()?);
        }
        let mut c = Vec::new();
        for item in value.get("sub")?.get("c")?.as_array()? {
            c.push(item.as_str()?.to_string());
        }
        Some(Test { a, b, sub: SubTest { c } })
    }
}

impl XCfg for Test {
    fn fmt_to_string(&self, fmt: Format) -> Result<String, Error> {
        let value = self.to_value();
        match fmt {
            Format::Toml => toml::to_string(&value).map_err(|e| Error::Serialize(e.to_string())),
            Format::Yaml => serde_yml::to_string(&value).map_err(|e| Error::Serialize(e.to_string())),
            Format::Json => serde_json::to_string(&value).map_err(|e| Error::Serialize(e.to_string())),
        }
    }

    fn fmt_from_str(fmt: Format, input: &str) -> Result<Self, Error> {
        let value: Value = match fmt {
            Format::Toml => toml::from_str(input).map_err(|e| Error::Deserialize(e.to_string()))?,
            Format::Yaml => serde_yml::from_str(input).map_err(|e| Error::Deserialize(e.to_string()))?,
            Format::Json => serde_json::from_str(input).map_err(|e| Error::Deserialize(e.to_string()))?,
        };
        Test::from_value(&value).ok_or(Error::Deserialize("not a Test".to_string()))
    }
}

fn sample() -> Test {
    Test::new(1, vec![0, 1, 2], SubTest { c: vec!["ab".to_string(), "cd".to_string()] })
}

#[test]
fn toml_text_of_a_value() {
    let right = "a = 1\nb = [0, 1, 2]\n\n[sub]\nc = [\"ab\", \"cd\"]\n";
    assert_eq!(sample().fmt_to_string(Format::Toml).unwrap(), right);
    assert_eq!(Format::Toml.serialize(&sample()).unwrap(), right);
    assert_eq!(File::new("./test.toml".to_string(), sample()).unwrap().to_string().unwrap(), right);
}

#[test]
fn json_text_of_a_value() {
    let right = "{\"a\":1,\"b\":[0,1,2],\"sub\":{\"c\":[\"ab\",\"cd\"]}}";
    assert_eq!(Format::Json.serialize(&sample()).unwrap(), right);
    assert_eq!(File::new("./test.json".to_string(), sample()).unwrap().to_string().unwrap(), right);
}

#[test]
fn every_format_gives_the_value_back() {
    for fmt in [Format::Toml, Format::Yaml, Format::Json] {
        for value in [sample(), Test::default(), Test::new(-7, vec![i32::MAX, i32::MIN], SubTest { c: vec!["".to_string(), "a b".to_string(), "ü\"'".to_string()] })] {
            let text = fmt.serialize(&value).unwrap();
            assert_eq!(fmt.deserialize::<Test>(&text), Ok(value));
        }
    }
}

#[test]
fn saving_then_loading_the_same_path_gives_the_value_back() {
    for path in ["./test.toml", "./test.yaml", "./test.yml", "./test.json"] {
        let written = save(&sample(), path).unwrap();
        assert_eq!(written.path, path);
        assert_eq!(written.dir, ".");
        let loaded: File<Test> = File::locate(path, &Vec::new()).unwrap().open(Ok(written.text)).unwrap();
        assert_eq!(loaded.into_inner(), sample());
    }
}

#[test]
fn a_saved_file_is_found_again_by_its_stem() {
    let written = save(&sample(), "tmp/test.toml").unwrap();
    let entries = vec![Entry { name: "test.toml".to_string(), is_file: true }];
    for path in ["tmp/test.", "tmp/test"] {
        let at = File::locate(path, &entries).unwrap();
        assert_eq!(at.path, written.path);
        let loaded: File<Test> = at.open(Ok(written.text.clone())).unwrap();
        assert_eq!(loaded.into_inner(), sample());
    }
}

#[test]
fn json_written_by_hand_loads() {
    let text = "\n{\n    \"a\": 1,\n    \"b\": [0, 1, 2],\n    \"sub\": {\n        \"c\": [\"ab\", \"cd\"]\n    }\n}\n";
    let loaded: File<Test> = File::with_fmt("./test.json".to_string(), Format::Json, text).unwrap();
    assert_eq!(loaded.into_inner(), sample());
}

#[test]
fn a_default_value_is_replaced_by_what_is_saved() {
    let at = File::new("./test.toml".to_string(), ()).unwrap();
    let mut f: File<Test> = at.open_or_default(Err(Error::Io("not found".to_string())));
    assert_eq!(f.inner, Test::default());
    f.inner = sample();
    let written = f.save().unwrap();
    let loaded: File<Test> = File::locate("./test.toml", &Vec::new()).unwrap().open(Ok(written.text)).unwrap();
    assert_eq!(loaded.into_inner(), sample());
}

#[test]
fn a_text_of_another_format_does_not_decode() {
    let toml = Format::Toml.serialize(&sample()).unwrap();
    assert!(matches!(Format::Json.deserialize::<Test>(&toml), Err(Error::Deserialize(_))));
    let json = Format::Json.serialize(&sample()).unwrap();
    assert!(matches!(Format::Toml.deserialize::<Test>(&json), Err(Error::Deserialize(_))));
    assert!(matches!(Format::Json.deserialize::<Test>("{\"a\": 1"), Err(Error::Deserialize(_))));
    assert!(matches!(Format::Json.deserialize::<Test>("{\"a\": 1}"), Err(Error::Deserialize(_))));
}

#[test]
fn yaml_text_of_a_value() {
    let right = "a: 1\nb:\n  - 0\n  - 1\n  - 2\nsub:\n  c:\n    - ab\n    - cd";
    assert_eq!(Format::Yaml.serialize(&sample()).unwrap().trim_end(), right);
    let loaded: File<Test> = File::with_fmt("./test.yaml".to_string(), Format::Yaml, "a: 1\nb: [0, 1, 2]\nsub:\n  c: [ab, cd]\n").unwrap();
    assert_eq!(loaded.into_inner(), sample());
}

#[test]
fn a_failure_keeps_what_the_decoder_said() {
    assert_eq!(
        Format::Json.deserialize::<Test>("{\"a\": 1"),
        Err(Error::Deserialize("EOF while parsing an object at line 1 column 7".to_string()))
    );
    let said = match Format::Toml.deserialize::<Test>("a = ") {
        Err(Error::Deserialize(said)) => said,
        other => panic!("{:?}", other),
    };
    assert!(said.starts_with("TOML parse error at line 1, column 5"));
    assert_eq!(Error::Deserialize(said.clone()).to_string(), said);
    assert!(matches!(Format::Yaml.deserialize::<Test>("a: [1"), Err(Error::Deserialize(_))));
}
