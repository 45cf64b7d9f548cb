use vstd::prelude::*;

verus! {

/// A fatal error that may occur while decoding a RAR file.
///
/// Any of these ends the iteration over an archive: once a size field is
/// wrong, the offsets of everything that follows cannot be trusted.
#[derive(Debug)]
pub enum Error {
    /// Tried to read after the end of the stream while decoding.
    UnexpectedEof,
    /// A block header reported a size equal to 0 or exceeding the EOF.
    CorruptHeader,
    /// Any other failure of the byte source, passed through with its description.
    Io(String),
}

/// Specialized result type for decoding RAR archives.
pub type RarResult<T> = Result<T, Error>;

impl Error {
    /// Human-readable description of the error.
    pub fn message(&self) -> (text: String)
        ensures
            match *self {
                Error::UnexpectedEof => text@ == "expected more data"@,
                Error::CorruptHeader => text@ == "header reported sizes are 0 or exceed the EOF"@,
                Error::Io(description) => text@ == description@,
            },
    {
        match self {
            Error::UnexpectedEof => "expected more data".to_owned(),
            Error::CorruptHeader => "header reported sizes are 0 or exceed the EOF".to_owned(),
            Error::Io(description) => description.clone(),
        }
    }

    /// True for the errors that report a structurally damaged archive
    /// rather than a failure of the byte source.
    pub fn is_structural(&self) -> (structural: bool)
        ensures
            structural == !(*self is Io),
    {
        match self {
            Error::Io(_) => false,
            _ => true,
        }
    }
}

} // verus!
