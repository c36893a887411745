use vstd::prelude::*;

verus! {

/// Why a dataset file could not be turned into labels and images.
#[derive(Debug, Clone, Copy, PartialEq, Eq, Structural)]
pub enum LoadError {
    /// The gzip stream around an IDX file could not be decompressed.
    Decompression,
    /// The magic number of an IDX file is not the expected one: the cache is
    /// likely corrupt and should be downloaded again.
    DataIntegrity,
    /// The data ends inside a header or inside a record.
    Truncated,
}

} // verus!
