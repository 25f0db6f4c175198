//! A container that is made empty, given a path, and loaded afterwards.
//!
//! Unlike [`crate::format::File`], this one can exist before its format is
//! settled: the path may leave it open until the file is loaded, and loading
//! then binds the container to the file that was found, path and format
//! together.

use vstd::prelude::*;
use vstd::string::*;

use crate::discover::{discover, discovery, search_dir, search_dir_of, stem, usable_stem, Entry};
use crate::error::Error;
use crate::format::{classify, decodes, encodes, load_fmt, Format, LoadFormat, Save, XCfg};
use crate::path::file_name_of;

verus! {

/// What is known of the format of a container's file.
#[derive(Debug, Clone, Copy, PartialEq, Eq, Structural)]
pub enum FileType {
    /// The path names no format, or no path was given yet.
    Unknown,
    Toml,
    Yaml,
    Json,
    /// The path leaves the format open, to be settled when the file is
    /// loaded.
    Any,
}

impl FileType {
    /// The file type that a path of class `class` gives.
    pub open spec fn of_class(class: LoadFormat) -> FileType {
        match class {
            LoadFormat::Unknown => FileType::Unknown,
            LoadFormat::Any => FileType::Any,
            LoadFormat::Format(fmt) => FileType::of_format(fmt),
        }
    }

    /// The file type of a file in `fmt`.
    pub open spec fn of_format(fmt: Format) -> FileType {
        match fmt {
            Format::Toml => FileType::Toml,
            Format::Yaml => FileType::Yaml,
            Format::Json => FileType::Json,
        }
    }

    /// The format of a file of this type, where the type settles one.
    pub open spec fn format_of(self) -> Option<Format> {
        match self {
            FileType::Toml => Some(Format::Toml),
            FileType::Yaml => Some(Format::Yaml),
            FileType::Json => Some(Format::Json),
            _ => None,
        }
    }

    /// The file type of a file in `fmt`.
    pub fn from_format(fmt: Format) -> (ft: FileType)
        ensures
            ft == FileType::of_format(fmt),
            ft.format_of() == Some(fmt),
    {
        match fmt {
            Format::Toml => FileType::Toml,
            Format::Yaml => FileType::Yaml,
            Format::Json => FileType::Json,
        }
    }

    /// The format of a file of this type, where the type settles one.
    pub fn format(&self) -> (fmt: Option<Format>)
        ensures
            fmt == self.format_of(),
    {
        match self {
            FileType::Toml => Some(Format::Toml),
            FileType::Yaml => Some(Format::Yaml),
            FileType::Json => Some(Format::Json),
            _ => None,
        }
    }
}

/// The file type that `path` gives.
pub open spec fn file_type_of(path: Seq<char>) -> FileType {
    FileType::of_class(classify(path))
}

/// The file type that `path` gives.
pub fn file_type(path: &str) -> (ft: FileType)
    ensures
        ft == file_type_of(path@),
{
    match load_fmt(path) {
        LoadFormat::Unknown => FileType::Unknown,
        LoadFormat::Any => FileType::Any,
        LoadFormat::Format(fmt) => FileType::from_format(fmt),
    }
}

/// The file that stands for `spath`, which leaves the format open, among
/// `entries`, the listing of the directory in which its siblings are looked
/// for: its file type and its path.
///
/// Fails with `InvalidPath` where the path has no usable file name, and
/// where no entry can stand for it.
pub fn any_load(spath: &str, entries: &Vec<Entry>) -> (found: Result<(FileType, String), Error>)
    ensures
        match discovery(spath@, entries@) {
            Some((at, fmt)) => found matches Ok(got) && got.0 == FileType::of_format(fmt) && got.1@
                == at,
            None => found == Err::<(FileType, String), Error>(Error::InvalidPath),
        },
{
    match discover(spath, entries) {
        Ok((path, fmt)) => Ok((FileType::from_format(fmt), path)),
        Err(e) => Err(e),
    }
}

/// The value that a file of type `ft` holds, given the outcome `read` of
/// reading it. A failed read is handed on; a text is decoded in the format
/// of `ft`, and fails with `UnknownFileFormat` where `ft` settles none.
pub fn load<T: XCfg>(ft: &FileType, read: Result<String, Error>) -> (out: Result<T, Error>)
    ensures
        match read {
            Err(e) => out == Err::<T, Error>(e),
            Ok(text) => match ft.format_of() {
                Some(fmt) => decodes(fmt, text@, out),
                None => out == Err::<T, Error>(Error::UnknownFileFormat),
            },
        },
{
    let text = match read {
        Ok(text) => text,
        Err(e) => {
            return Err(e);
        },
    };
    match ft.format() {
        Some(fmt) => fmt.deserialize(text.as_str()),
        None => Err(Error::UnknownFileFormat),
    }
}

/// A value, the path of its file, and what is known of the file's format.
#[derive(Debug)]
pub struct File<T> {
    pub path: String,
    pub file_type: FileType,
    pub inner: T,
}

impl<T: Default> Default for File<T> {
    /// A container of the default value, with no path.
    fn default() -> (made: Self)
        ensures
            made.path@ == Seq::<char>::empty(),
            made.file_type == FileType::Unknown,
            call_ensures(T::default, (), made.inner),
    {
        File { path: String::new(), file_type: FileType::Unknown, inner: T::default() }
    }
}

impl<T> File<T> {
    /// Gives the container the path `path`, and the file type that `path`
    /// gives.
    pub fn path(self, path: &str) -> (made: Self)
        ensures
            made.path@ == path@,
            made.file_type == file_type_of(path@),
            made.inner == self.inner,
    {
        File { path: String::from_str(path), file_type: file_type(path), inner: self.inner }
    }

    /// The directory that has to be listed before the container can be
    /// loaded, if one has to be.
    ///
    /// A container whose format is settled needs no listing. One whose path
    /// leaves the format open needs that of the directory in which the
    /// siblings of the path are looked for, and fails with `InvalidPath`
    /// where the path has no usable file name. One whose path names no
    /// format fails with `UnknownFileFormat`.
    pub fn needs_listing(&self) -> (dir: Result<Option<String>, Error>)
        ensures
            match self.file_type {
                FileType::Unknown => dir == Err::<Option<String>, Error>(Error::UnknownFileFormat),
                FileType::Any => if usable_stem(file_name_of(self.path@)) {
                    dir matches Ok(Some(d)) && d@ == search_dir_of(self.path@)
                } else {
                    dir == Err::<Option<String>, Error>(Error::InvalidPath)
                },
                _ => dir == Ok::<Option<String>, Error>(None),
            },
    {
        match self.file_type {
            FileType::Unknown => Err(Error::UnknownFileFormat),
            FileType::Any => match stem(self.path.as_str()) {
                Ok(_) => Ok(Some(String::from_str(search_dir(self.path.as_str())))),
                Err(e) => Err(e),
            },
            _ => Ok(None),
        }
    }

    /// The file to load the container from, with its file type: its own
    /// path where the format is settled, and what `any_load` finds among
    /// `entries` where the path leaves it open. Fails with
    /// `UnknownFileFormat` where the path names no format.
    pub fn locate(&self, entries: &Vec<Entry>) -> (found: Result<(FileType, String), Error>)
        ensures
            match self.file_type {
                FileType::Unknown => found == Err::<(FileType, String), Error>(
                    Error::UnknownFileFormat,
                ),
                FileType::Any => match discovery(self.path@, entries@) {
                    Some((at, fmt)) => found matches Ok(got) && got.0 == FileType::of_format(fmt)
                        && got.1@ == at,
                    None => found == Err::<(FileType, String), Error>(Error::InvalidPath),
                },
                ft => found matches Ok(got) && got.0 == ft && got.1@ == self.path@,
            },
    {
        match self.file_type {
            FileType::Unknown => Err(Error::UnknownFileFormat),
            FileType::Any => any_load(self.path.as_str(), entries),
            ft => Ok((ft, self.path.clone())),
        }
    }
}

impl<T: XCfg> File<T> {
    /// Replaces the value by what the file `at` holds, given the outcome
    /// `read` of reading it, and binds the container to that file: path,
    /// file type and value change together, or not at all.
    ///
    /// A failed read is handed on, and so is a failure of the decoder. A
    /// file type that settles no format fails with `UnknownFileFormat`.
    pub fn load(&mut self, at: (FileType, String), read: Result<String, Error>) -> (out: Result<
        (),
        Error,
    >)
        ensures
            out is Err ==> *final(self) == *old(self),
            match read {
                Err(e) => out == Err::<(), Error>(e),
                Ok(text) => match at.0.format_of() {
                    None => out == Err::<(), Error>(Error::UnknownFileFormat),
                    Some(fmt) => match out {
                        Ok(()) => {
                            &&& final(self).path == at.1
                            &&& final(self).file_type == at.0
                            &&& decodes(fmt, text@, Ok::<T, Error>(final(self).inner))
                        },
                        Err(e) => decodes(fmt, text@, Err::<T, Error>(e)),
                    },
                },
            },
    {
        match load(&at.0, read) {
            Ok(inner) => {
                self.file_type = at.0;
                self.path = at.1;
                self.inner = inner;
                Ok(())
            },
            Err(e) => Err(e),
        }
    }

    /// The text of the value in the format of the container. Fails with
    /// `UnknownFileFormat` while the format is not settled.
    pub fn to_string(&self) -> (out: Result<String, Error>)
        ensures
            match self.file_type.format_of() {
                Some(fmt) => encodes(self.inner, fmt, out),
                None => out == Err::<String, Error>(Error::UnknownFileFormat),
            },
    {
        match self.file_type.format() {
            Some(fmt) => fmt.serialize(&self.inner),
            None => Err(Error::UnknownFileFormat),
        }
    }

    /// What is to be written, and where, to save the container. Fails with
    /// `UnknownFileFormat` while the format is not settled; a failure of
    /// the encoder comes before `InvalidPath`.
    pub fn save(&self) -> (out: Result<Save, Error>)
        ensures
            match self.file_type.format_of() {
                Some(fmt) => exists|text: Result<String, Error>| #[trigger]
                    encodes(self.inner, fmt, text) && Save::plan(self.path@, text, out),
                None => out == Err::<Save, Error>(Error::UnknownFileFormat),
            },
    {
        Save::new(self.path.as_str(), self.to_string())
    }
}

} // verus!
