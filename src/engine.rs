//! The fault-injecting read engine: how much a read hands back, what bytes it
//! holds, and whether it fails.
use vstd::prelude::*;
use crate::config::FsConfig;

verus! {

/// Length of the filler template.
pub const TEMPLATE_LEN: usize = 11;

/// The filler template, the ASCII text `hello world`.
pub open spec fn template_spec() -> Seq<u8> {
    seq![104u8, 101u8, 108u8, 108u8, 111u8, 32u8, 119u8, 111u8, 114u8, 108u8, 100u8]
}

/// `n` bytes of the template repeated end to end.
pub open spec fn filler_spec(n: nat) -> Seq<u8> {
    Seq::new(n, |i: int| template_spec()[i % (TEMPLATE_LEN as int)])
}

/// The bytes handed back for a request of `size` bytes: at most one
/// `min_chunks`-th of the advertised size.
pub open spec fn chunk_size_spec(cfg: FsConfig, size: int) -> int {
    let cap = cfg.file_size / cfg.min_chunks;
    if size < cap { size } else { cap as int }
}

/// Whether `(offset + chunk) / file_size` lies strictly below the threshold
/// `threshold_num / threshold_den`, as exact fractions.
pub open spec fn below_threshold_spec(cfg: FsConfig, offset: int, chunk: int) -> bool {
    (offset + chunk) * cfg.threshold_den < cfg.threshold_num * cfg.file_size
}

fn template() -> (r: Vec<u8>)
    ensures
        r@ == template_spec(),
{
    let r = vec![104u8, 101u8, 108u8, 108u8, 111u8, 32u8, 119u8, 111u8, 114u8, 108u8, 100u8];
    assert(r@ =~= template_spec());
    r
}

/// `len` bytes of filler: the template repeated and cut to length. The bytes
/// depend on `len` alone.
pub fn filler(len: usize) -> (r: Vec<u8>)
    ensures
        r@ == filler_spec(len as nat),
{
    let t = template();
    let mut data: Vec<u8> = Vec::new();
    let mut i: usize = 0;
    let mut j: usize = 0;
    while i < len
        invariant
            t@ == template_spec(),
            i <= len,
            j == i % TEMPLATE_LEN,
            data@ =~= filler_spec(i as nat),
        decreases len - i,
    {
        data.push(t[j]);
        proof {
            assert(data@ =~= filler_spec((i + 1) as nat));
        }
        j = if j + 1 == TEMPLATE_LEN { 0 } else { j + 1 };
        i = i + 1;
    }
    data
}

/// The number of bytes a read of `size` bytes hands back.
pub fn chunk_size(cfg: &FsConfig, size: u32) -> (r: u32)
    requires
        cfg.wf(),
    ensures
        r == chunk_size_spec(*cfg, size as int),
{
    let cap = cfg.file_size / cfg.min_chunks;
    if (size as u64) < cap {
        size
    } else {
        cap as u32
    }
}

/// Whether a read at `offset` that hands back `chunk` bytes stays strictly
/// below the threshold, counting the chunk itself.
pub fn below_threshold(cfg: &FsConfig, offset: i64, chunk: u32) -> (r: bool)
    requires
        cfg.wf(),
    ensures
        r == below_threshold_spec(*cfg, offset as int, chunk as int),
{
    let reached: i128 = offset as i128 + chunk as i128;
    let den: i128 = cfg.threshold_den as i128;
    let num: i128 = cfg.threshold_num as i128;
    let size: i128 = cfg.file_size as i128;
    assert(-0x1_0000_0000_0000_0000 <= reached <= 0x1_0000_0000_0000_0000);
    assert(-0x1_0000_0000_0000_0000_0000_0000 <= reached * den <= 0x1_0000_0000_0000_0000_0000_0000)
        by (nonlinear_arith)
        requires
            -0x1_0000_0000_0000_0000 <= reached <= 0x1_0000_0000_0000_0000,
            0 <= den <= 0xffff_ffff,
    ;
    assert(0 <= num * size <= 0x1_0000_0000_0000_0000_0000_0000) by (nonlinear_arith)
        requires
            0 <= num <= 0xffff_ffff,
            0 <= size <= 0xffff_ffff_ffff_ffff,
    ;
    reached * den < num * size
}

} // verus!
