use failfs::attr::{FileKind, FILE_INO, ROOT_INO};
use failfs::config::FsConfig;
use failfs::engine::{below_threshold, chunk_size, filler};
use failfs::fs::{FailFs, FsError};

fn default_fs() -> FailFs {
    FailFs::new(FsConfig::new("test.txt".to_string()))
}

fn small_fs(size: u64) -> FailFs {
    FailFs::new(FsConfig {
        file_name: "data.bin".to_string(),
        file_size: size,
        min_chunks: 4,
        threshold_num: 72,
        threshold_den: 100,
        ttl_secs: 1,
    })
}

#[test]
fn lookup_finds_file_under_root() {
    let fs = default_fs();
    let r = fs.lookup(ROOT_INO, b"test.txt").unwrap();
    assert_eq!(r.ttl_secs, 1);
    assert_eq!(r.attrs.ino, FILE_INO);
    assert_eq!(r.attrs.size, 1048576);
    assert_eq!(r.attrs.kind, FileKind::RegularFile);
    assert_eq!(r.attrs.perm, 0o644);
}

#[test]
fn lookup_rejects_other_names() {
    let fs = default_fs();
    assert_eq!(fs.lookup(ROOT_INO, b"Test.txt"), Err(FsError::NotFound));
    assert_eq!(fs.lookup(ROOT_INO, b"test.tx"), Err(FsError::NotFound));
    assert_eq!(fs.lookup(ROOT_INO, b"test.txt2"), Err(FsError::NotFound));
    assert_eq!(fs.lookup(ROOT_INO, b""), Err(FsError::NotFound));
    assert_eq!(fs.lookup(ROOT_INO, b"."), Err(FsError::NotFound));
    assert_eq!(fs.lookup(ROOT_INO, b".."), Err(FsError::NotFound));
}

#[test]
fn lookup_rejects_other_parents() {
    let fs = default_fs();
    assert_eq!(fs.lookup(FILE_INO, b"test.txt"), Err(FsError::NotFound));
    assert_eq!(fs.lookup(0, b"test.txt"), Err(FsError::NotFound));
    assert_eq!(fs.lookup(99, b"test.txt"), Err(FsError::NotFound));
}

#[test]
fn readdir_root_lists_three_entries() {
    let fs = default_fs();
    let v = fs.readdir(ROOT_INO, 0).unwrap();
    let names: Vec<&str> = v.iter().map(|e| e.name.as_str()).collect();
    assert_eq!(names, vec![".", "..", "test.txt"]);
    assert_eq!(v[0].ino, ROOT_INO);
    assert_eq!(v[0].kind, FileKind::Directory);
    assert_eq!(v[1].ino, ROOT_INO);
    assert_eq!(v[1].kind, FileKind::Directory);
    assert_eq!(v[2].ino, FILE_INO);
    assert_eq!(v[2].kind, FileKind::RegularFile);
    let offsets: Vec<u64> = v.iter().map(|e| e.next_offset).collect();
    assert_eq!(offsets, vec![1, 2, 3]);
}

#[test]
fn readdir_resumes_at_offset() {
    let fs = default_fs();
    let full = fs.readdir(ROOT_INO, 0).unwrap();
    for k in 0..=3u64 {
        let v = fs.readdir(ROOT_INO, k).unwrap();
        assert_eq!(v.len(), 3 - k as usize);
        for (j, e) in v.iter().enumerate() {
            assert_eq!(e, &full[k as usize + j]);
        }
    }
    assert!(fs.readdir(ROOT_INO, 3).unwrap().is_empty());
    assert!(fs.readdir(ROOT_INO, 1000).unwrap().is_empty());
    assert!(fs.readdir(ROOT_INO, u64::MAX).unwrap().is_empty());
}

#[test]
fn readdir_other_identifiers_not_found() {
    let fs = default_fs();
    assert_eq!(fs.readdir(FILE_INO, 0), Err(FsError::NotFound));
    assert_eq!(fs.readdir(0, 0), Err(FsError::NotFound));
    assert_eq!(fs.readdir(42, 1), Err(FsError::NotFound));
}

#[test]
fn getattr_returns_fixed_records() {
    let fs = default_fs();
    let d = fs.getattr(ROOT_INO).unwrap();
    assert_eq!(d.ttl_secs, 1);
    assert_eq!(d.attrs.ino, 1);
    assert_eq!(d.attrs.kind, FileKind::Directory);
    assert_eq!(d.attrs.perm, 0o755);
    assert_eq!(d.attrs.nlink, 2);
    assert_eq!(d.attrs.size, 0);
    assert_eq!(d.attrs.uid, 501);
    assert_eq!(d.attrs.gid, 20);
    assert_eq!(d.attrs.blksize, 512);
    assert_eq!(d.attrs.mtime_secs, 0);
    let f = fs.getattr(FILE_INO).unwrap();
    assert_eq!(f.attrs.ino, 2);
    assert_eq!(f.attrs.kind, FileKind::RegularFile);
    assert_eq!(f.attrs.size, 1048576);
    assert_eq!(f.attrs.blocks, 1);
    assert_eq!(f.attrs.nlink, 1);
    assert_eq!(f.attrs.perm, 0o644);
    assert_eq!(f.attrs.atime_secs, 0);
}

#[test]
fn getattr_is_idempotent() {
    let fs = default_fs();
    for ino in [ROOT_INO, FILE_INO] {
        let a = fs.getattr(ino);
        let b = fs.getattr(ino);
        let c = fs.getattr(ino);
        assert_eq!(a, b);
        assert_eq!(b, c);
    }
}

#[test]
fn getattr_unknown_not_found() {
    let fs = default_fs();
    assert_eq!(fs.getattr(0), Err(FsError::NotFound));
    assert_eq!(fs.getattr(3), Err(FsError::NotFound));
}

#[test]
fn first_read_returns_a_quarter() {
    let fs = default_fs();
    let data = fs.read(FILE_INO, 0, 1048576).unwrap();
    assert_eq!(data.len(), 262144);
    assert_eq!(data, filler(262144));
}

#[test]
fn sequential_reads_fail_at_third_quarter() {
    let fs = default_fs();
    let q: i64 = 262144;
    assert_eq!(fs.read(FILE_INO, 0, 1048576).unwrap().len(), 262144);
    assert_eq!(fs.read(FILE_INO, q, 1048576).unwrap().len(), 262144);
    assert_eq!(fs.read(FILE_INO, 2 * q, 1048576), Err(FsError::FatalTransfer));
    assert_eq!(fs.read(FILE_INO, 3 * q, 1048576), Err(FsError::FatalTransfer));
    // Asking again at the failing offset fails again in the same way.
    assert_eq!(fs.read(FILE_INO, 2 * q, 1048576), Err(FsError::FatalTransfer));
}

#[test]
fn sequential_small_reads_fail_near_threshold() {
    let fs = default_fs();
    let step: i64 = 4096;
    let mut offset: i64 = 0;
    let mut served: u64 = 0;
    loop {
        match fs.read(FILE_INO, offset, 4096) {
            Ok(d) => {
                assert_eq!(d.len(), 4096);
                served += d.len() as u64;
                offset += step;
            }
            Err(e) => {
                assert_eq!(e, FsError::FatalTransfer);
                break;
            }
        }
    }
    // The first failing read is the one whose end reaches 72% of 1 MiB.
    assert_eq!(offset, 184 * 4096);
    assert_eq!(served, 184 * 4096);
    assert!((offset + 4096) * 100 >= 72 * 1048576);
    assert!(offset * 100 < 72 * 1048576);
}

#[test]
fn threshold_boundary_is_exclusive() {
    let fs = small_fs(100);
    // Chunk is 25 bytes; 47 + 25 = 72, exactly 72 hundredths: it fails.
    assert_eq!(fs.read(FILE_INO, 47, 1000), Err(FsError::FatalTransfer));
    assert_eq!(fs.read(FILE_INO, 46, 1000).unwrap().len(), 25);
    assert!(below_threshold(&fs.config, 46, 25));
    assert!(!below_threshold(&fs.config, 47, 25));
}

#[test]
fn chunk_is_capped_by_request_and_quarter() {
    let fs = default_fs();
    assert_eq!(chunk_size(&fs.config, 100), 100);
    assert_eq!(chunk_size(&fs.config, 262144), 262144);
    assert_eq!(chunk_size(&fs.config, 262145), 262144);
    assert_eq!(chunk_size(&fs.config, u32::MAX), 262144);
    assert_eq!(fs.read(FILE_INO, 0, 10).unwrap().len(), 10);
    assert_eq!(fs.read(FILE_INO, 0, 0).unwrap().len(), 0);
}

#[test]
fn filler_repeats_template() {
    assert_eq!(filler(0), Vec::<u8>::new());
    assert_eq!(filler(5), b"hello".to_vec());
    assert_eq!(filler(11), b"hello world".to_vec());
    assert_eq!(filler(25), b"hello worldhello worldhel".to_vec());
}

#[test]
fn filler_ignores_offset() {
    let fs = default_fs();
    let a = fs.read(FILE_INO, 0, 1000).unwrap();
    let b = fs.read(FILE_INO, 12345, 1000).unwrap();
    let c = fs.read(FILE_INO, 500000, 1000).unwrap();
    assert_eq!(a, b);
    assert_eq!(b, c);
    assert_eq!(&a[..22], b"hello worldhello world");
}

#[test]
fn read_other_identifiers_not_found() {
    let fs = default_fs();
    for ino in [0u64, ROOT_INO, 3, u64::MAX] {
        assert_eq!(fs.read(ino, 0, 4096), Err(FsError::NotFound));
        assert_eq!(fs.read(ino, 900000, 4096), Err(FsError::NotFound));
        assert_eq!(fs.read(ino, -5, 0), Err(FsError::NotFound));
    }
}

#[test]
fn read_with_negative_offset_counts_as_early() {
    let fs = default_fs();
    assert_eq!(fs.read(FILE_INO, -100, 50).unwrap(), filler(50));
    assert_eq!(fs.read(FILE_INO, i64::MAX, 50), Err(FsError::FatalTransfer));
}

#[test]
fn tiny_file_serves_empty_chunks() {
    let fs = small_fs(3);
    assert_eq!(fs.read(FILE_INO, 0, 100).unwrap().len(), 0);
    assert_eq!(fs.read(FILE_INO, 2, 100).unwrap().len(), 0);
    assert_eq!(fs.read(FILE_INO, 3, 100), Err(FsError::FatalTransfer));
}

#[test]
fn lookup_uses_configured_name() {
    let fs = small_fs(100);
    assert!(fs.lookup(ROOT_INO, b"data.bin").is_ok());
    assert_eq!(fs.lookup(ROOT_INO, b"test.txt"), Err(FsError::NotFound));
    assert_eq!(fs.readdir(ROOT_INO, 2).unwrap()[0].name, "data.bin");
    assert_eq!(fs.lookup(ROOT_INO, b"data.bin").unwrap().attrs.size, 100);
}
