//! The immutable settings that one filesystem instance is built with.
use vstd::prelude::*;

verus! {

/// Settings of one filesystem instance.
///
/// The read threshold is the fraction `threshold_num / threshold_den` of the
/// advertised file size.
pub struct FsConfig {
    /// Name of the single file in the root directory.
    pub file_name: String,
    /// Size that the file advertises, in bytes.
    pub file_size: u64,
    /// No read hands back more than `file_size / min_chunks` bytes.
    pub min_chunks: u64,
    pub threshold_num: u32,
    pub threshold_den: u32,
    /// How long a caller may cache attributes and lookups, in seconds.
    pub ttl_secs: u64,
}

/// Default advertised size: one mebibyte.
pub const DEFAULT_FILE_SIZE: u64 = 1048576;

/// Default number of chunks the file is cut into at the coarsest.
pub const DEFAULT_MIN_CHUNKS: u64 = 4;

/// Default threshold: 72 hundredths of the advertised size.
pub const DEFAULT_THRESHOLD_NUM: u32 = 72;

pub const DEFAULT_THRESHOLD_DEN: u32 = 100;

/// Default cache lease, in seconds.
pub const DEFAULT_TTL_SECS: u64 = 1;

impl FsConfig {
    /// The settings a read needs to be computable: a file that advertises
    /// some bytes, a positive chunk divisor and a threshold with a positive
    /// denominator.
    pub open spec fn wf(&self) -> bool {
        &&& self.file_size > 0
        &&& self.min_chunks > 0
        &&& self.threshold_den > 0
    }

    /// The usual settings, serving a file called `file_name`.
    pub fn new(file_name: String) -> (r: FsConfig)
        ensures
            r.file_name@ == file_name@,
            r.file_size == DEFAULT_FILE_SIZE,
            r.min_chunks == DEFAULT_MIN_CHUNKS,
            r.threshold_num == DEFAULT_THRESHOLD_NUM,
            r.threshold_den == DEFAULT_THRESHOLD_DEN,
            r.ttl_secs == DEFAULT_TTL_SECS,
            r.wf(),
    {
        FsConfig {
            file_name,
            file_size: DEFAULT_FILE_SIZE,
            min_chunks: DEFAULT_MIN_CHUNKS,
            threshold_num: DEFAULT_THRESHOLD_NUM,
            threshold_den: DEFAULT_THRESHOLD_DEN,
            ttl_secs: DEFAULT_TTL_SECS,
        }
    }
}

} // verus!
