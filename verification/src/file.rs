//! The file layer: the bytes that were read from a file, or why none were.

use vstd::prelude::*;

use crate::error::{displayed_as, Cause};
use vstd::std_specs::convert::FromSpecImpl;

verus! {

/// A failure of the file layer.
#[derive(Debug)]
pub enum FileError {
    /// The file could not be opened or read.
    Internal { source: std::io::Error },
}

/// The bytes of one file, as they were read: they need not be valid UTF-8.
pub struct File {
    content: Vec<u8>,
}

impl View for File {
    type V = Seq<u8>;

    closed spec fn view(&self) -> Seq<u8> {
        self.content@
    }
}

impl File {
    /// Takes what reading the file came to: the bytes that were read become
    /// the file's content, the failure of the read a failure of this layer,
    /// with the cause inside it.
    pub fn new(read: Result<Vec<u8>, std::io::Error>) -> (file: Result<File, FileError>)
        ensures
            match read {
                Ok(bytes) => file is Ok && file->Ok_0@ == bytes@,
                Err(source) => file == Err::<File, FileError>(FileError::Internal { source }),
            },
    {
        match read {
            Ok(content) => Ok(File { content }),
            Err(err) => Err(FileError::from(err)),
        }
    }

    pub fn content(&self) -> (content: &Vec<u8>)
        ensures
            content@ == self@,
    {
        &self.content
    }

    pub fn get(self) -> (content: Vec<u8>)
        ensures
            content@ == self@,
    {
        self.content
    }
}

impl FileError {
    /// The failure that this one wraps.
    pub open spec fn cause(self) -> Option<Cause<'static>> {
        match self {
            FileError::Internal { source } => Some(Cause::Io(&source)),
        }
    }

    /// The failure that this one wraps.
    pub fn source(&self) -> (cause: Option<Cause<'_>>)
        ensures
            cause == self.cause(),
    {
        match self {
            FileError::Internal { source } => Some(Cause::Io(source)),
        }
    }

    /// The text shown for the failure: a text that the failure which it wraps
    /// is displayed as.
    pub fn to_string(&self) -> (text: String)
        ensures
            displayed_as(self.cause().unwrap(), text),
    {
        match self {
            FileError::Internal { source } => source.to_string(),
        }
    }
}

impl FromSpecImpl<std::io::Error> for FileError {
    open spec fn obeys_from_spec() -> bool {
        true
    }

    open spec fn from_spec(source: std::io::Error) -> Self {
        FileError::Internal { source }
    }
}

impl From<std::io::Error> for FileError {
    fn from(source: std::io::Error) -> (error: Self)
        ensures
            error == (FileError::Internal { source }),
    {
        Self::Internal { source }
    }
}

} // verus!
