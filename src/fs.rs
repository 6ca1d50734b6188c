//! The handler behind the four protocol operations: name lookup, attribute
//! queries, directory listing and reads.
use vstd::prelude::*;
use vstd::utf8::encode_utf8;
use crate::attr::{
    dir_attrs, dir_attrs_spec, file_attrs, file_attrs_spec, FileAttrs, FileKind, FILE_INO,
    ROOT_INO,
};
use crate::config::FsConfig;
use crate::engine::{
    below_threshold, below_threshold_spec, chunk_size, chunk_size_spec, filler, filler_spec,
};

verus! {

/// Why an operation failed.
#[derive(Clone, Copy, Debug, PartialEq, Eq, Structural)]
pub enum FsError {
    /// The identifier or name is not one of the two entries.
    NotFound,
    /// The read reached the threshold; the transfer is to be abandoned.
    FatalTransfer,
}

/// Attributes together with how long a caller may cache them.
#[derive(Clone, Copy, Debug, PartialEq, Eq, Structural)]
pub struct AttrReply {
    pub ttl_secs: u64,
    pub attrs: FileAttrs,
}

/// One entry of a directory listing. `next_offset` is the offset at which a
/// listing resumes right after this entry.
#[derive(Debug, PartialEq, Eq)]
pub struct DirEntry {
    pub ino: u64,
    pub next_offset: u64,
    pub kind: FileKind,
    pub name: String,
}

/// What a directory entry says, with its name as characters.
pub struct DirEntryView {
    pub ino: u64,
    pub next_offset: u64,
    pub kind: FileKind,
    pub name: Seq<char>,
}

impl View for DirEntry {
    type V = DirEntryView;

    open spec fn view(&self) -> DirEntryView {
        DirEntryView {
            ino: self.ino,
            next_offset: self.next_offset,
            kind: self.kind,
            name: self.name@,
        }
    }
}

/// Number of entries in the root directory's listing.
pub const LISTING_LEN: u64 = 3;

/// The whole listing of the root directory: itself, its parent, the file.
pub open spec fn listing_spec(cfg: FsConfig) -> Seq<DirEntryView> {
    seq![
        DirEntryView { ino: ROOT_INO, next_offset: 1, kind: FileKind::Directory, name: seq!['.'] },
        DirEntryView {
            ino: ROOT_INO,
            next_offset: 2,
            kind: FileKind::Directory,
            name: seq!['.', '.'],
        },
        DirEntryView {
            ino: FILE_INO,
            next_offset: 3,
            kind: FileKind::RegularFile,
            name: cfg.file_name@,
        },
    ]
}

/// The listing with its first `offset` entries left out.
pub open spec fn listing_from_spec(cfg: FsConfig, offset: int) -> Seq<DirEntryView> {
    if offset >= LISTING_LEN {
        Seq::empty()
    } else {
        listing_spec(cfg).skip(offset)
    }
}

/// The views of a list of directory entries.
pub open spec fn entries_view(v: Seq<DirEntry>) -> Seq<DirEntryView> {
    v.map_values(|e: DirEntry| e@)
}

/// What the listing of `ino` from `offset` gives.
pub open spec fn readdir_spec(cfg: FsConfig, ino: u64, offset: int) -> Result<
    Seq<DirEntryView>,
    FsError,
> {
    if ino == ROOT_INO {
        Ok(listing_from_spec(cfg, offset))
    } else {
        Err(FsError::NotFound)
    }
}

/// What a listing result says, with each entry as its view.
pub open spec fn listing_result_view(r: Result<Vec<DirEntry>, FsError>) -> Result<
    Seq<DirEntryView>,
    FsError,
> {
    match r {
        Ok(v) => Ok(entries_view(v@)),
        Err(e) => Err(e),
    }
}

/// The attributes of `ino`.
pub open spec fn getattr_spec(cfg: FsConfig, ino: u64) -> Result<AttrReply, FsError> {
    if ino == ROOT_INO {
        Ok(AttrReply { ttl_secs: cfg.ttl_secs, attrs: dir_attrs_spec() })
    } else if ino == FILE_INO {
        Ok(AttrReply { ttl_secs: cfg.ttl_secs, attrs: file_attrs_spec(cfg.file_size) })
    } else {
        Err(FsError::NotFound)
    }
}

/// The bytes of the file's name.
pub open spec fn name_bytes_spec(cfg: FsConfig) -> Seq<u8> {
    encode_utf8(cfg.file_name@)
}

/// What looking up the name with bytes `name` under `parent` gives.
pub open spec fn lookup_spec(cfg: FsConfig, parent: u64, name: Seq<u8>) -> Result<
    AttrReply,
    FsError,
> {
    if parent == ROOT_INO && name == name_bytes_spec(cfg) {
        Ok(AttrReply { ttl_secs: cfg.ttl_secs, attrs: file_attrs_spec(cfg.file_size) })
    } else {
        Err(FsError::NotFound)
    }
}

/// What a read of `size` bytes of `ino` at `offset` gives.
pub open spec fn read_spec(cfg: FsConfig, ino: u64, offset: int, size: int) -> Result<
    Seq<u8>,
    FsError,
> {
    if ino != FILE_INO {
        Err(FsError::NotFound)
    } else {
        let chunk = chunk_size_spec(cfg, size);
        if below_threshold_spec(cfg, offset, chunk) {
            Ok(filler_spec(chunk as nat))
        } else {
            Err(FsError::FatalTransfer)
        }
    }
}

/// What a read result says, with the bytes as a sequence.
pub open spec fn read_result_view(r: Result<Vec<u8>, FsError>) -> Result<Seq<u8>, FsError> {
    match r {
        Ok(v) => Ok(v@),
        Err(e) => Err(e),
    }
}

/// One filesystem instance.
pub struct FailFs {
    pub config: FsConfig,
}

impl FailFs {
    /// An instance with the given settings.
    pub fn new(config: FsConfig) -> (r: FailFs)
        requires
            config.wf(),
        ensures
            r.config == config,
    {
        FailFs { config }
    }

    /// The attributes of `ino`, with the cache lease; the same record on
    /// every call.
    pub fn getattr(&self, ino: u64) -> (r: Result<AttrReply, FsError>)
        ensures
            r == getattr_spec(self.config, ino),
            ino == ROOT_INO ==> r == Ok::<AttrReply, FsError>(
                AttrReply { ttl_secs: self.config.ttl_secs, attrs: dir_attrs_spec() },
            ),
            ino == FILE_INO ==> r == Ok::<AttrReply, FsError>(
                AttrReply {
                    ttl_secs: self.config.ttl_secs,
                    attrs: file_attrs_spec(self.config.file_size),
                },
            ),
            ino != ROOT_INO && ino != FILE_INO ==> r == Err::<AttrReply, FsError>(
                FsError::NotFound,
            ),
    {
        if ino == ROOT_INO {
            Ok(AttrReply { ttl_secs: self.config.ttl_secs, attrs: dir_attrs() })
        } else if ino == FILE_INO {
            Ok(AttrReply { ttl_secs: self.config.ttl_secs, attrs: file_attrs(self.config.file_size) })
        } else {
            Err(FsError::NotFound)
        }
    }

    /// Reads up to `size` bytes of `ino` at `offset`. The file hands back at
    /// most one `min_chunks`-th of its advertised size per call, as filler
    /// bytes, and only while `(offset + chunk) / file_size` stays strictly
    /// below the threshold; from there on the call fails with no bytes.
    pub fn read(&self, ino: u64, offset: i64, size: u32) -> (r: Result<Vec<u8>, FsError>)
        requires
            self.config.wf(),
        ensures
            read_result_view(r) == read_spec(self.config, ino, offset as int, size as int),
            ino != FILE_INO ==> r == Err::<Vec<u8>, FsError>(FsError::NotFound),
            ino == FILE_INO ==> (r is Ok <==> below_threshold_spec(
                self.config,
                offset as int,
                chunk_size_spec(self.config, size as int),
            )),
            r is Ok ==> r->Ok_0@ == filler_spec(
                chunk_size_spec(self.config, size as int) as nat,
            ),
            r is Err ==> (r->Err_0 == FsError::NotFound) == (ino != FILE_INO),
    {
        if ino != FILE_INO {
            return Err(FsError::NotFound);
        }
        let chunk = chunk_size(&self.config, size);
        if below_threshold(&self.config, offset, chunk) {
            Ok(filler(chunk as usize))
        } else {
            Err(FsError::FatalTransfer)
        }
    }

    /// Lists directory `ino` from `offset` on: the root's listing holds
    /// `.`, `..` and the file, in that order, and the first `offset` entries
    /// are left out. Any other identifier is not found.
    pub fn readdir(&self, ino: u64, offset: u64) -> (r: Result<Vec<DirEntry>, FsError>)
        ensures
            listing_result_view(r) == readdir_spec(self.config, ino, offset as int),
            ino != ROOT_INO ==> r is Err && r->Err_0 == FsError::NotFound,
            ino == ROOT_INO ==> r is Ok,
            r is Ok ==> r->Ok_0@.len() == (if offset < LISTING_LEN {
                LISTING_LEN - offset
            } else {
                0
            }),
            r is Ok ==> forall|j: int|
                0 <= j < r->Ok_0@.len() ==> (#[trigger] r->Ok_0@[j])@ == listing_spec(
                    self.config,
                )[offset + j],
    {
        if ino != ROOT_INO {
            return Err(FsError::NotFound);
        }
        let mut out: Vec<DirEntry> = Vec::new();
        if offset >= LISTING_LEN {
            assert(entries_view(out@) =~= Seq::<DirEntryView>::empty());
            return Ok(out);
        }
        let mut i: u64 = offset;
        while i < LISTING_LEN
            invariant
                offset <= i <= LISTING_LEN,
                entries_view(out@) =~= listing_spec(self.config).subrange(offset as int, i as int),
            decreases LISTING_LEN - i,
        {
            let e = self.listing_entry(i);
            let ghost prev = out@;
            out.push(e);
            proof {
                assert(out@ =~= prev.push(e));
                assert(entries_view(out@) =~= entries_view(prev).push(e@));
                assert(entries_view(out@) =~= listing_spec(self.config).subrange(
                    offset as int,
                    i + 1,
                ));
            }
            i = i + 1;
        }
        assert(listing_spec(self.config).subrange(offset as int, LISTING_LEN as int)
            =~= listing_from_spec(self.config, offset as int));
        assert forall|j: int| 0 <= j < out@.len() implies (#[trigger] out@[j])@ == listing_spec(
            self.config,
        )[offset + j] by {
            assert(entries_view(out@)[j] == out@[j]@);
        }
        Ok(out)
    }

    /// Entry `i` of the root directory's listing.
    fn listing_entry(&self, i: u64) -> (r: DirEntry)
        requires
            i < LISTING_LEN,
        ensures
            r@ == listing_spec(self.config)[i as int],
    {
        if i == 0 {
            let name = ".".to_owned();
            proof {
                reveal_strlit(".");
            }
            let r = DirEntry { ino: ROOT_INO, next_offset: 1, kind: FileKind::Directory, name };
            assert(r@.name =~= seq!['.']);
            r
        } else if i == 1 {
            let name = "..".to_owned();
            proof {
                reveal_strlit("..");
            }
            let r = DirEntry { ino: ROOT_INO, next_offset: 2, kind: FileKind::Directory, name };
            assert(r@.name =~= seq!['.', '.']);
            r
        } else {
            DirEntry {
                ino: FILE_INO,
                next_offset: 3,
                kind: FileKind::RegularFile,
                name: self.config.file_name.clone(),
            }
        }
    }

    /// Looks up the name with bytes `name` under `parent`: only the file's
    /// exact name under the root is found. `.` and `..` are not names that a
    /// lookup finds.
    pub fn lookup(&self, parent: u64, name: &[u8]) -> (r: Result<AttrReply, FsError>)
        ensures
            r == lookup_spec(self.config, parent, name@),
            parent == ROOT_INO && name@ == name_bytes_spec(self.config) ==> r == Ok::<
                AttrReply,
                FsError,
            >(
                AttrReply {
                    ttl_secs: self.config.ttl_secs,
                    attrs: file_attrs_spec(self.config.file_size),
                },
            ),
            !(parent == ROOT_INO && name@ == name_bytes_spec(self.config)) ==> r == Err::<
                AttrReply,
                FsError,
            >(FsError::NotFound),
    {
        if parent == ROOT_INO && bytes_equal(name, self.config.file_name.as_str().as_bytes()) {
            Ok(AttrReply { ttl_secs: self.config.ttl_secs, attrs: file_attrs(self.config.file_size) })
        } else {
            Err(FsError::NotFound)
        }
    }
}

/// Whether two byte strings are equal.
fn bytes_equal(a: &[u8], b: &[u8]) -> (r: bool)
    ensures
        r == (a@ == b@),
{
    if a.len() != b.len() {
        return false;
    }
    let mut i: usize = 0;
    while i < a.len()
        invariant
            a@.len() == b@.len(),
            i <= a@.len(),
            a@.subrange(0, i as int) =~= b@.subrange(0, i as int),
        decreases a@.len() - i,
    {
        if a[i] != b[i] {
            return false;
        }
        proof {
            assert(a@.subrange(0, i + 1) =~= b@.subrange(0, i + 1)) by {
                assert(a@.subrange(0, i + 1) =~= a@.subrange(0, i as int).push(a@[i as int]));
                assert(b@.subrange(0, i + 1) =~= b@.subrange(0, i as int).push(b@[i as int]));
            }
        }
        i = i + 1;
    }
    assert(a@ =~= a@.subrange(0, a@.len() as int));
    assert(b@ =~= b@.subrange(0, b@.len() as int));
    true
}

} // verus!
