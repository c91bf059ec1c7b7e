//! Values loaded from definition files given on the command line.
//!
//! A command argument may point at a YAML or JSON file whose decoded content
//! becomes part of the command.  Reading and decoding happen at the process
//! boundary; the command itself holds a [`File`] that is either still empty
//! or carries the loaded value.  What is verified here is the decision the
//! loader takes: which decoder a file's media subtype selects, if any.

use vstd::prelude::*;

use crate::text::str_eq;

verus! {

/// A command argument backed by an optional definition file: empty until
/// the process boundary loads and decodes the file.
#[derive(Debug, Clone)]
pub enum File<T> {
    Empty,
    Loaded(T),
}

impl<T> Default for File<T> {
    /// A file argument starts out empty.
    fn default() -> (r: File<T>)
        ensures
            r matches File::Empty,
    {
        File::Empty
    }
}

/// The decoder selected for a definition file.
#[derive(Debug, Clone, Copy, PartialEq, Eq, Structural)]
pub enum Decoder {
    Yaml,
    Json,
}

/// Why no decoder could be selected for a definition file.
#[derive(Debug, Clone, PartialEq, Eq)]
pub enum FileError {
    /// The file's media subtype matches no supported decoder.
    Unsupported { subtype: String },
    /// No media type could be detected for the file at all.
    NotDetected,
}

/// The decoder a file's media subtype selects: `x-yaml` means YAML and
/// `json` means JSON.  Any other detected subtype is unsupported, and a
/// file whose media type could not be detected at all is rejected.
pub fn decoder_for(subtype: Option<&str>) -> (r: Result<Decoder, FileError>)
    ensures
        (match subtype {
            Some(s) => {
                if s@ == "x-yaml"@ {
                    r == Result::<Decoder, FileError>::Ok(Decoder::Yaml)
                } else if s@ == "json"@ {
                    r == Result::<Decoder, FileError>::Ok(Decoder::Json)
                } else {
                    r matches Err(FileError::Unsupported { subtype: t }) && t@ == s@
                }
            },
            None => r == Result::<Decoder, FileError>::Err(FileError::NotDetected),
        }),
{
    match subtype {
        Some(s) => {
            if str_eq(s, "x-yaml") {
                Ok(Decoder::Yaml)
            } else if str_eq(s, "json") {
                Ok(Decoder::Json)
            } else {
                Err(FileError::Unsupported { subtype: s.to_owned() })
            }
        },
        None => Err(FileError::NotDetected),
    }
}

} // verus!
