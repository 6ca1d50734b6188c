//! Facts about the read engine that relate several reads.
use vstd::prelude::*;
use crate::attr::FILE_INO;
use crate::config::FsConfig;
use crate::engine::{chunk_size_spec, filler_spec};
use crate::fs::{read_spec, FsError};

verus! {

/// The usual knobs: a chunk is at most a quarter of the advertised size, and
/// reads fail from 72 hundredths of it on.
pub open spec fn default_knobs(cfg: FsConfig) -> bool {
    &&& cfg.wf()
    &&& cfg.min_chunks == 4
    &&& cfg.threshold_num == 72
    &&& cfg.threshold_den == 100
}

/// With the usual knobs, a read of the whole file from the start hands back
/// a quarter of it as filler: its progress is a quarter, below the threshold.
pub proof fn lemma_first_read(cfg: FsConfig)
    requires
        default_knobs(cfg),
    ensures
        read_spec(cfg, FILE_INO, 0, cfg.file_size as int) == Ok::<Seq<u8>, FsError>(
            filler_spec((cfg.file_size / 4) as nat),
        ),
{
    let s = cfg.file_size as int;
    assert(s / 4 <= s);
    assert((s / 4) * 100 < 72 * s) by (nonlinear_arith)
        requires
            s > 0,
    ;
}

/// With the usual knobs, the `k`-th of the reads that advance by a quarter
/// of the advertised size each succeeds with a quarter of filler exactly when
/// its progress, counting its own chunk, stays below 72 hundredths, and
/// otherwise fails fatally.
pub proof fn lemma_sequential_read(cfg: FsConfig, k: nat)
    requires
        default_knobs(cfg),
    ensures
        ({
            let s = cfg.file_size as int;
            let c = s / 4;
            read_spec(cfg, FILE_INO, k * c, s) == if (k * c + c) * 100 < 72 * s {
                Ok::<Seq<u8>, FsError>(filler_spec(c as nat))
            } else {
                Err::<Seq<u8>, FsError>(FsError::FatalTransfer)
            }
        }),
{
    let s = cfg.file_size as int;
    assert(s / 4 <= s);
}

/// With the usual knobs and an advertised size that is a multiple of four,
/// the reads that advance by a quarter each succeed twice, at a quarter and
/// at a half of progress, and every later one fails fatally.
pub proof fn lemma_sequential_reads_quarters(cfg: FsConfig, k: nat)
    requires
        default_knobs(cfg),
        cfg.file_size % 4 == 0,
    ensures
        ({
            let s = cfg.file_size as int;
            let c = s / 4;
            &&& k < 2 ==> read_spec(cfg, FILE_INO, k * c, s) == Ok::<Seq<u8>, FsError>(
                filler_spec(c as nat),
            )
            &&& k >= 2 ==> read_spec(cfg, FILE_INO, k * c, s) == Err::<Seq<u8>, FsError>(
                FsError::FatalTransfer,
            )
        }),
{
    lemma_sequential_read(cfg, k);
    let s = cfg.file_size as int;
    let c = s / 4;
    assert(s == 4 * c && c > 0);
    if k < 2 {
        assert((k * c + c) * 100 < 72 * s) by (nonlinear_arith)
            requires
                s == 4 * c,
                c > 0,
                k < 2,
        ;
    } else {
        assert(!((k * c + c) * 100 < 72 * s)) by (nonlinear_arith)
            requires
                s == 4 * c,
                c > 0,
                k >= 2,
        ;
    }
}

/// Once a read of `size` bytes fails fatally at some offset, a read of the
/// same size at any later offset fails fatally too.
pub proof fn lemma_fails_onward(cfg: FsConfig, o1: int, o2: int, size: int)
    requires
        cfg.wf(),
        o1 <= o2,
        read_spec(cfg, FILE_INO, o1, size) == Err::<Seq<u8>, FsError>(FsError::FatalTransfer),
    ensures
        read_spec(cfg, FILE_INO, o2, size) == Err::<Seq<u8>, FsError>(FsError::FatalTransfer),
{
    let den = cfg.threshold_den as int;
    let c = chunk_size_spec(cfg, size);
    assert((o1 + c) * den <= (o2 + c) * den) by (nonlinear_arith)
        requires
            o1 <= o2,
            den > 0,
    ;
}

/// Two successful reads of the same size hand back the same bytes, whatever
/// their offsets.
pub proof fn lemma_filler_ignores_offset(cfg: FsConfig, o1: int, o2: int, size: int)
    requires
        cfg.wf(),
        read_spec(cfg, FILE_INO, o1, size) is Ok,
        read_spec(cfg, FILE_INO, o2, size) is Ok,
    ensures
        read_spec(cfg, FILE_INO, o1, size) == read_spec(cfg, FILE_INO, o2, size),
{
}

} // verus!
