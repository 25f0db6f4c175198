//! The formats a file can be stored in, how a path names one, and the
//! container that keeps a value together with its path and its format.
//!
//! The text of a value in a format is up to the value's type, through
//! [`XCfg`]. Reading and writing files is up to the caller: what was read
//! comes in as an argument, and what is to be written goes out as a
//! [`Save`].

use vstd::prelude::*;
use vstd::string::*;

use crate::discover::{discover, discovery, search_dir, search_dir_of, stem, usable_stem, Entry};
use crate::error::Error;
use crate::path::{
    dir, dir_of, extension, extension_of, file_name, file_name_of, lemma_file_name_has_no_separator,
    same_text,
};

verus! {

/// A format that a value can be stored in.
#[derive(Debug, Clone, Copy, PartialEq, Eq, Structural)]
pub enum Format {
    Toml,
    Yaml,
    Json,
}

/// What a path says about the format of its file.
#[derive(Debug, Clone, Copy, PartialEq, Eq, Structural)]
pub enum LoadFormat {
    /// The path has an extension, and it stands for no format.
    Unknown,
    /// The path leaves the format open: it has no extension, or ends in a
    /// dot.
    Any,
    /// The extension of the path stands for this format.
    Format(Format),
}

/// A type whose values can be written in, and read back from, each format.
///
/// The two methods are the encoder and the decoder that the container works
/// with. Nothing is assumed of them: what the library promises of its own
/// results, it promises for whatever they return.
pub trait XCfg: Sized {
    /// The text of `self` in `fmt`.
    fn fmt_to_string(&self, fmt: Format) -> Result<String, Error>;

    /// The value that `input` holds in `fmt`.
    fn fmt_from_str(fmt: Format, input: &str) -> Result<Self, Error>;
}

/// `out` is the outcome `raw` of an encoder as the library hands it on: the
/// text as it is, a failure filed under `Serialize`.
pub open spec fn encoder_outcome(raw: Result<String, Error>, out: Result<String, Error>) -> bool {
    match raw {
        Ok(text) => out == Ok::<String, Error>(text),
        Err(e) => out matches Err(filed) && e.filed_as_serialize(filed),
    }
}

/// `out` is the outcome `raw` of a decoder as the library hands it on: the
/// value as it is, a failure filed under `Deserialize`.
pub open spec fn decoder_outcome<T>(raw: Result<T, Error>, out: Result<T, Error>) -> bool {
    match raw {
        Ok(value) => out == Ok::<T, Error>(value),
        Err(e) => out matches Err(filed) && e.filed_as_deserialize(filed),
    }
}

/// `out` is what encoding `value` in `fmt` came to: some outcome of the
/// encoder of `T`, handed on.
pub open spec fn encodes<T: XCfg>(value: T, fmt: Format, out: Result<String, Error>) -> bool {
    exists|raw: Result<String, Error>| #[trigger]
        call_ensures(T::fmt_to_string, (&value, fmt), raw) && encoder_outcome(raw, out)
}

/// `out` is what decoding `text` in `fmt` came to: some outcome of the
/// decoder of `T` on that text, handed on.
pub open spec fn decodes<T: XCfg>(fmt: Format, text: Seq<char>, out: Result<T, Error>) -> bool {
    exists|input: &str, raw: Result<T, Error>|
        input@ == text && #[trigger] call_ensures(T::fmt_from_str, (fmt, input), raw)
            && decoder_outcome(raw, out)
}

/// Hands on the outcome of an encoder.
pub fn encoded(raw: Result<String, Error>) -> (out: Result<String, Error>)
    ensures
        encoder_outcome(raw, out),
{
    match raw {
        Ok(text) => Ok(text),
        Err(e) => Err(e.into_serialize()),
    }
}

/// Hands on the outcome of a decoder.
pub fn decoded<T>(raw: Result<T, Error>) -> (out: Result<T, Error>)
    ensures
        decoder_outcome(raw, out),
{
    match raw {
        Ok(value) => Ok(value),
        Err(e) => Err(e.into_deserialize()),
    }
}

impl Format {
    /// The extensions that stand for this format.
    pub open spec fn extensions(self) -> Set<Seq<char>> {
        match self {
            Format::Toml => set!["toml"@],
            Format::Yaml => set!["yaml"@, "yml"@],
            Format::Json => set!["json"@],
        }
    }

    /// The format that the extension `ext` stands for.
    pub open spec fn of_ext(ext: Seq<char>) -> Option<Format> {
        if ext == "toml"@ {
            Some(Format::Toml)
        } else if ext == "yaml"@ || ext == "yml"@ {
            Some(Format::Yaml)
        } else if ext == "json"@ {
            Some(Format::Json)
        } else {
            None
        }
    }

    /// Every format has an extension, and none of them is empty.
    pub proof fn lemma_has_extension(self)
        ensures
            exists|ext: Seq<char>| #[trigger] self.extensions().contains(ext),
            forall|ext: Seq<char>| #[trigger] self.extensions().contains(ext) ==> ext.len() > 0,
    {
        reveal_strlit("toml");
        reveal_strlit("yaml");
        reveal_strlit("yml");
        reveal_strlit("json");
        match self {
            Format::Toml => assert(self.extensions().contains("toml"@)),
            Format::Yaml => assert(self.extensions().contains("yaml"@)),
            Format::Json => assert(self.extensions().contains("json"@)),
        }
    }

    /// No extension stands for two formats.
    pub proof fn lemma_extensions_disjoint(self, other: Format, ext: Seq<char>)
        requires
            self.extensions().contains(ext),
            other.extensions().contains(ext),
        ensures
            self == other,
    {
        reveal_strlit("toml");
        reveal_strlit("yaml");
        reveal_strlit("yml");
        reveal_strlit("json");
        if self != other {
            assert(ext.len() >= 3);
            assert("toml"@[0] == 't' && "yaml"@[0] == 'y' && "yml"@[0] == 'y' && "json"@[0] == 'j');
        }
    }

    /// `of_ext` finds the one format that has `ext` among its extensions.
    pub proof fn lemma_of_ext(ext: Seq<char>, fmt: Format)
        ensures
            Format::of_ext(ext) == Some(fmt) <==> fmt.extensions().contains(ext),
    {
        reveal_strlit("toml");
        reveal_strlit("yaml");
        reveal_strlit("yml");
        reveal_strlit("json");
        assert("toml"@[0] == 't' && "yaml"@[0] == 'y' && "yml"@[0] == 'y' && "json"@[0] == 'j');
        assert("toml"@.len() == 4 && "yaml"@.len() == 4 && "yml"@.len() == 3 && "json"@.len() == 4);
    }

    /// The format that the extension `ext` stands for, if it stands for one.
    pub fn match_ext(ext: &str) -> (found: Option<Self>)
        ensures
            found == Self::of_ext(ext@),
    {
        if same_text(ext, "toml") {
            Some(Format::Toml)
        } else if same_text(ext, "yaml") || same_text(ext, "yml") {
            Some(Format::Yaml)
        } else if same_text(ext, "json") {
            Some(Format::Json)
        } else {
            None
        }
    }

    /// The text of `input` in this format. A failure is a `Serialize` error
    /// that holds what the encoder said.
    pub fn serialize<T: XCfg>(&self, input: &T) -> (out: Result<String, Error>)
        ensures
            encodes(*input, *self, out),
            out matches Err(e) ==> e is Serialize,
    {
        encoded(input.fmt_to_string(*self))
    }

    /// The value that `input` holds in this format. A failure is a
    /// `Deserialize` error that holds what the decoder said.
    pub fn deserialize<T: XCfg>(&self, input: &str) -> (out: Result<T, Error>)
        ensures
            decodes(*self, input@, out),
            out matches Err(e) ==> e is Deserialize,
    {
        decoded(T::fmt_from_str(*self, input))
    }
}

/// What `path` says about the format of its file. Only what follows the last
/// dot of the file name counts.
pub open spec fn classify(path: Seq<char>) -> LoadFormat {
    match extension_of(file_name_of(path)) {
        None => LoadFormat::Any,
        Some(ext) => if ext.len() == 0 {
            LoadFormat::Any
        } else {
            match Format::of_ext(ext) {
                Some(fmt) => LoadFormat::Format(fmt),
                None => LoadFormat::Unknown,
            }
        },
    }
}

/// A path says of its file what its file name alone says.
pub proof fn lemma_classify_file_name(path: Seq<char>)
    ensures
        classify(file_name_of(path)) == classify(path),
{
    lemma_file_name_has_no_separator(path);
}

/// What `path` says about the format of its file.
pub fn load_fmt(path: &str) -> (class: LoadFormat)
    ensures
        class == classify(path@),
{
    match extension(file_name(path)) {
        None => LoadFormat::Any,
        Some(ext) => {
            if same_text(ext, "") {
                proof {
                    reveal_strlit("");
                }
                LoadFormat::Any
            } else {
                proof {
                    reveal_strlit("");
                    assert(ext@.len() > 0) by {
                        if ext@.len() == 0 {
                            assert(ext@ =~= ""@);
                        }
                    }
                }
                match Format::match_ext(ext) {
                    Some(fmt) => LoadFormat::Format(fmt),
                    None => LoadFormat::Unknown,
                }
            }
        },
    }
}

/// `out` is what loading a file in `fmt` came to, given the outcome `read`
/// of reading it: a failed read as it is, and else what decoding the text
/// came to.
pub open spec fn loads<T: XCfg>(fmt: Format, read: Result<String, Error>, out: Result<T, Error>) -> bool {
    match read {
        Ok(text) => decodes(fmt, text@, out),
        Err(e) => out == Err::<T, Error>(e),
    }
}

/// `value` is what `loaded` holds, or a default value where it holds none.
pub open spec fn defaulted<T: Default>(loaded: Result<T, Error>, value: T) -> bool {
    match loaded {
        Ok(held) => value == held,
        Err(_) => call_ensures(T::default, (), value),
    }
}

/// Decoding in `fmt` gives `value` back from every text that encoding it in
/// `fmt` can give, and gives nothing else.
pub open spec fn round_trips<T: XCfg>(value: T, fmt: Format) -> bool {
    forall|text: String, input: &str, back: Result<T, Error>|
        #![trigger call_ensures(T::fmt_to_string, (&value, fmt), Ok::<String, Error>(text)), call_ensures(T::fmt_from_str, (fmt, input), back)]
        call_ensures(T::fmt_to_string, (&value, fmt), Ok::<String, Error>(text)) && input@ == text@
            && call_ensures(T::fmt_from_str, (fmt, input), back) ==> back == Ok::<T, Error>(value)
}

/// The value that a file holds in `fmt`, given the outcome `read` of reading
/// it: a failed read is handed on, a text is decoded.
pub fn load<T: XCfg>(fmt: Format, read: Result<String, Error>) -> (out: Result<T, Error>)
    ensures
        loads(fmt, read, out),
{
    match read {
        Ok(text) => fmt.deserialize(text.as_str()),
        Err(e) => Err(e),
    }
}

/// The value that was loaded, or the default value where loading failed.
pub fn or_default<T: Default>(loaded: Result<T, Error>) -> (value: T)
    ensures
        defaulted(loaded, value),
{
    match loaded {
        Ok(held) => held,
        Err(_) => T::default(),
    }
}

/// A value bound to the path of its file and to the format of that file.
///
/// The format is always one that values can be stored in: a path that names
/// none, or leaves it open, gives no container. A container of `()` stands
/// for a file that was found and not read yet.
#[derive(Debug, Clone)]
pub struct File<T> {
    pub path: String,
    pub fmt: Format,
    pub inner: T,
}

/// What is to be done to the file system to save a container: make sure that
/// `dir` exists, with the directories above it, then replace the content of
/// `path` by `text`.
#[derive(Debug, Clone, PartialEq, Eq)]
pub struct Save {
    pub dir: String,
    pub path: String,
    pub text: String,
}

impl Save {
    /// `out` is what saving at `path` asks for, given the outcome `text` of
    /// encoding the value: a failed encoding is handed on, a path without a
    /// file name is an `InvalidPath`, and else the text goes to `path`, in
    /// the directory that holds its file name.
    pub open spec fn plan(path: Seq<char>, text: Result<String, Error>, out: Result<Save, Error>) -> bool {
        match text {
            Err(e) => out == Err::<Save, Error>(e),
            Ok(text) => if file_name_of(path).len() == 0 {
                out == Err::<Save, Error>(Error::InvalidPath)
            } else {
                out matches Ok(save) && save.dir@ == dir_of(path) && save.path@ == path && save.text
                    == text
            },
        }
    }

    /// What saving at `path` asks for, given the outcome `text` of encoding
    /// the value.
    pub fn new(path: &str, text: Result<String, Error>) -> (out: Result<Save, Error>)
        ensures
            Save::plan(path@, text, out),
    {
        let text = match text {
            Ok(text) => text,
            Err(e) => {
                return Err(e);
            },
        };
        proof {
            reveal_strlit("");
        }
        let name = file_name(path);
        if same_text(name, "") {
            Err(Error::InvalidPath)
        } else {
            assert(name@.len() == 0 ==> name@ =~= ""@);
            Ok(Save { dir: String::from_str(dir(path)), path: String::from_str(path), text })
        }
    }
}

/// The directory that has to be listed before `path` can be opened, if one
/// has to be.
///
/// A path whose extension names a format needs no listing. One that leaves
/// the format open needs that of the directory in which its siblings are
/// looked for, and fails with `InvalidPath` where it has no usable file
/// name. One whose extension names no format fails with
/// `UnknownFileFormat`: nothing is asked of the file system for it.
pub fn needs_listing(path: &str) -> (dir: Result<Option<String>, Error>)
    ensures
        match classify(path@) {
            LoadFormat::Unknown => dir == Err::<Option<String>, Error>(Error::UnknownFileFormat),
            LoadFormat::Format(_) => dir == Ok::<Option<String>, Error>(None),
            LoadFormat::Any => if usable_stem(file_name_of(path@)) {
                dir matches Ok(Some(d)) && d@ == search_dir_of(path@)
            } else {
                dir == Err::<Option<String>, Error>(Error::InvalidPath)
            },
        },
{
    match load_fmt(path) {
        LoadFormat::Unknown => Err(Error::UnknownFileFormat),
        LoadFormat::Format(_) => Ok(None),
        LoadFormat::Any => match stem(path) {
            Ok(_) => Ok(Some(String::from_str(search_dir(path)))),
            Err(e) => Err(e),
        },
    }
}

impl File<()> {
    /// The file that stands for `path`, which leaves the format open, among
    /// `entries`, the listing of the directory in which its siblings are
    /// looked for. The file is bound to its own path and to the format that
    /// its name gives; its content is not read yet.
    ///
    /// Fails with `InvalidPath` where the path has no usable file name, and
    /// where no entry can stand for it.
    pub fn any_load(path: &str, entries: &Vec<Entry>) -> (found: Result<File<()>, Error>)
        ensures
            match discovery(path@, entries@) {
                Some((at, fmt)) => found matches Ok(file) && file.path@ == at && file.fmt == fmt,
                None => found == Err::<File<()>, Error>(Error::InvalidPath),
            },
    {
        match discover(path, entries) {
            Ok((path, fmt)) => Ok(File { path, fmt, inner: () }),
            Err(e) => Err(e),
        }
    }

    /// The file to open for `path`: the path itself where its extension
    /// names a format, and what `any_load` finds among `entries` where it
    /// leaves the format open. Fails with `UnknownFileFormat`, whatever the
    /// entries, where the extension names no format.
    pub fn locate(path: &str, entries: &Vec<Entry>) -> (found: Result<File<()>, Error>)
        ensures
            match classify(path@) {
                LoadFormat::Unknown => found == Err::<File<()>, Error>(Error::UnknownFileFormat),
                LoadFormat::Format(fmt) => found matches Ok(file) && file.path@ == path@ && file.fmt
                    == fmt,
                LoadFormat::Any => match discovery(path@, entries@) {
                    Some((at, fmt)) => found matches Ok(file) && file.path@ == at && file.fmt == fmt,
                    None => found == Err::<File<()>, Error>(Error::InvalidPath),
                },
            },
    {
        match load_fmt(path) {
            LoadFormat::Unknown => Err(Error::UnknownFileFormat),
            LoadFormat::Format(fmt) => Ok(File { path: String::from_str(path), fmt, inner: () }),
            LoadFormat::Any => File::any_load(path, entries),
        }
    }

    /// The container of the value that the file holds, given the outcome
    /// `read` of reading it. A failed read is handed on, and so is a failure
    /// of the decoder.
    pub fn open<T: XCfg>(self, read: Result<String, Error>) -> (out: Result<File<T>, Error>)
        ensures
            match out {
                Ok(file) => file.path == self.path && file.fmt == self.fmt && loads(
                    self.fmt,
                    read,
                    Ok::<T, Error>(file.inner),
                ),
                Err(e) => loads(self.fmt, read, Err::<T, Error>(e)),
            },
    {
        match load(self.fmt, read) {
            Ok(inner) => Ok(File { path: self.path, fmt: self.fmt, inner }),
            Err(e) => Err(e),
        }
    }

    /// The container of the value that the file holds, or of the default
    /// value where the file could not be read or its text not decoded.
    pub fn open_or_default<T: XCfg + Default>(self, read: Result<String, Error>) -> (file: File<T>)
        ensures
            file.path == self.path,
            file.fmt == self.fmt,
            exists|loaded: Result<T, Error>| #[trigger]
                loads(self.fmt, read, loaded) && defaulted(loaded, file.inner),
    {
        File { path: self.path, fmt: self.fmt, inner: or_default(load(self.fmt, read)) }
    }
}

impl<T> File<T> {
    /// Takes the value out of its container.
    pub fn into_inner(self) -> (inner: T)
        ensures
            inner == self.inner,
    {
        self.inner
    }

    /// Binds `inner` to `path` and to the format that the extension of
    /// `path` names. Fails with `UnknownFileFormat` where it names none or
    /// leaves the format open.
    pub fn new(path: String, inner: T) -> (made: Result<Self, Error>)
        ensures
            match classify(path@) {
                LoadFormat::Format(fmt) => made == Ok::<Self, Error>(File { path, fmt, inner }),
                _ => made == Err::<Self, Error>(Error::UnknownFileFormat),
            },
    {
        match load_fmt(path.as_str()) {
            LoadFormat::Format(fmt) => Ok(File { path, fmt, inner }),
            _ => Err(Error::UnknownFileFormat),
        }
    }
}

impl<T: XCfg> File<T> {
    /// Binds the value that `text` holds in `fmt` to `path` and `fmt`,
    /// whatever the extension of `path`.
    pub fn with_fmt(path: String, fmt: Format, text: &str) -> (made: Result<Self, Error>)
        ensures
            match made {
                Ok(file) => file.path == path && file.fmt == fmt && decodes(
                    fmt,
                    text@,
                    Ok::<T, Error>(file.inner),
                ),
                Err(e) => decodes(fmt, text@, Err::<T, Error>(e)),
            },
    {
        match fmt.deserialize(text) {
            Ok(inner) => Ok(File { path, fmt, inner }),
            Err(e) => Err(e),
        }
    }

    /// Replaces the value by what the file holds, given the outcome `read`
    /// of reading it. Where that fails the container is left as it was.
    pub fn load(&mut self, read: Result<String, Error>) -> (out: Result<(), Error>)
        ensures
            final(self).path == old(self).path,
            final(self).fmt == old(self).fmt,
            match out {
                Ok(()) => loads(old(self).fmt, read, Ok::<T, Error>(final(self).inner)),
                Err(e) => final(self).inner == old(self).inner && loads(
                    old(self).fmt,
                    read,
                    Err::<T, Error>(e),
                ),
            },
    {
        match load(self.fmt, read) {
            Ok(inner) => {
                self.inner = inner;
                Ok(())
            },
            Err(e) => Err(e),
        }
    }

    /// The text of the value in the format of the container.
    pub fn to_string(&self) -> (out: Result<String, Error>)
        ensures
            encodes(self.inner, self.fmt, out),
            out matches Err(e) ==> e is Serialize,
    {
        self.fmt.serialize(&self.inner)
    }

    /// What is to be written, and where, to save the container. The value
    /// is encoded first: a failure there comes before `InvalidPath`.
    pub fn save(&self) -> (out: Result<Save, Error>)
        ensures
            exists|text: Result<String, Error>| #[trigger]
                encodes(self.inner, self.fmt, text) && Save::plan(self.path@, text, out),
    {
        Save::new(self.path.as_str(), self.to_string())
    }
}

/// What is to be written to save `value` at `path`, in the format that the
/// extension of `path` names. Fails with `UnknownFileFormat`, before the
/// value is encoded, where it names none or leaves the format open.
pub fn save<T: XCfg>(value: &T, path: &str) -> (out: Result<Save, Error>)
    ensures
        match classify(path@) {
            LoadFormat::Format(fmt) => exists|text: Result<String, Error>| #[trigger]
                encodes(*value, fmt, text) && Save::plan(path@, text, out),
            _ => out == Err::<Save, Error>(Error::UnknownFileFormat),
        },
{
    match load_fmt(path) {
        LoadFormat::Format(fmt) => Save::new(path, fmt.serialize(value)),
        _ => Err(Error::UnknownFileFormat),
    }
}

/// What was encoded and then decoded in the same format is the value that
/// was encoded, where the encoder and the decoder of `T` undo each other on
/// it.
pub proof fn lemma_encode_then_decode<T: XCfg>(
    value: T,
    fmt: Format,
    text: String,
    back: Result<T, Error>,
)
    requires
        round_trips(value, fmt),
        encodes(value, fmt, Ok::<String, Error>(text)),
        decodes(fmt, text@, back),
    ensures
        back == Ok::<T, Error>(value),
{
    let raw = choose|raw: Result<String, Error>| #[trigger]
        call_ensures(T::fmt_to_string, (&value, fmt), raw) && encoder_outcome(
            raw,
            Ok::<String, Error>(text),
        );
    let (input, got) = choose|input: &str, got: Result<T, Error>|
        input@ == text@ && #[trigger] call_ensures(T::fmt_from_str, (fmt, input), got)
            && decoder_outcome(got, back);
    assert(raw == Ok::<String, Error>(text));
    assert(call_ensures(T::fmt_to_string, (&value, fmt), Ok::<String, Error>(text)));
    assert(got == Ok::<T, Error>(value));
}

/// Saving a container and loading what was written gives the value back:
/// where `file` was saved as `save` and the text of `save` was then read
/// and loaded in the format of `file`, what comes out is the value of
/// `file`, and it was written to the path of `file`. This holds where the
/// encoder and the decoder of `T` undo each other on the value.
pub proof fn lemma_save_then_load<T: XCfg>(file: File<T>, save: Save, back: Result<T, Error>)
    requires
        round_trips(file.inner, file.fmt),
        exists|text: Result<String, Error>| #[trigger]
            encodes(file.inner, file.fmt, text) && Save::plan(
                file.path@,
                text,
                Ok::<Save, Error>(save),
            ),
        loads(file.fmt, Ok::<String, Error>(save.text), back),
    ensures
        back == Ok::<T, Error>(file.inner),
        save.path@ == file.path@,
{
    let text = choose|text: Result<String, Error>| #[trigger]
        encodes(file.inner, file.fmt, text) && Save::plan(file.path@, text, Ok::<Save, Error>(save));
    assert(text == Ok::<String, Error>(save.text));
    lemma_encode_then_decode(file.inner, file.fmt, save.text, back);
}

} // verus!
