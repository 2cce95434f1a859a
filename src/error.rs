use vstd::prelude::*;

verus! {

/// The failures that end an extraction run.
#[derive(Clone, Copy, Debug, PartialEq, Eq, Structural)]
pub enum ExtractError {
    /// The archive could not be opened for reading.
    ArchiveOpen,
    /// The archive is not valid gzip data.
    Decompress,
    /// The decompressed stream is not a well-formed tar container.
    Unpack,
    /// A directory on the way to an output file could not be created.
    DirectoryCreate,
    /// An asset could be neither renamed nor copied to its place.
    Write,
}

} // verus!
