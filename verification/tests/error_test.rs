use xcfg::Error;

#[test]
fn errors_in_words() {
    assert_eq!(Error::InvalidPath.to_string(), "Don't contain a valid file name");
    assert_eq!(Error::UnknownFileFormat.to_string(), "Unknown file format");
    assert_eq!(Error::Io("No such file or directory (os error 2)".to_string()).to_string(), "No such file or directory (os error 2)");
    assert_eq!(Error::Serialize("unsupported type".to_string()).to_string(), "unsupported type");
    assert_eq!(Error::Deserialize("expected `=`".to_string()).to_string(), "expected `=`");
}

#[test]
fn filing_keeps_the_words() {
    assert_eq!(Error::InvalidPath.into_serialize(), Error::Serialize("Don't contain a valid file name".to_string()));
    assert_eq!(Error::Io("x".to_string()).into_serialize(), Error::Serialize("x".to_string()));
    assert_eq!(Error::Serialize("x".to_string()).into_serialize(), Error::Serialize("x".to_string()));
    assert_eq!(Error::Deserialize("x".to_string()).into_serialize(), Error::Serialize("x".to_string()));
    assert_eq!(Error::UnknownFileFormat.into_deserialize(), Error::Deserialize("Unknown file format".to_string()));
    assert_eq!(Error::Io("y".to_string()).into_deserialize(), Error::Deserialize("y".to_string()));
    assert_eq!(Error::Deserialize("y".to_string()).into_deserialize(), Error::Deserialize("y".to_string()));
    assert_eq!(Error::Serialize("y".to_string()).into_deserialize(), Error::Deserialize("y".to_string()));
}
