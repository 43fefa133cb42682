use parallel_download::copier::{check_written, BufferedCopier};
use parallel_download::error::DownloadError;

#[test]
fn blocks_fill_then_flush() {
    let mut c = BufferedCopier::new(4);
    assert_eq!(c.space(), 4);
    assert_eq!(c.push(&[1, 2, 3]), None);
    assert_eq!(c.space(), 1);
    assert_eq!(c.push(&[4]), Some(vec![1, 2, 3, 4]));
    assert_eq!(c.space(), 4);
    assert_eq!(c.push(&[5, 6]), None);
    assert_eq!(c.push(&[]), None);
    assert_eq!(c.total_read(), 6);
    assert_eq!(c.full_flush_count(), 1);
    assert_eq!(c.finish(), Some(vec![5, 6]));
}

fn run(total: usize, capacity: usize, read: usize) -> (u64, u64, Option<Vec<u8>>, Vec<Vec<u8>>) {
    let source: Vec<u8> = (0..total).map(|i| (i % 251) as u8).collect();
    let mut c = BufferedCopier::new(capacity);
    let mut written = Vec::new();
    let mut reported = 0u64;
    let mut pos = 0;
    while pos < total {
        let n = read.min(c.space()).min(total - pos);
        reported += n as u64;
        if let Some(block) = c.push(&source[pos..pos + n]) {
            written.push(block);
        }
        pos += n;
    }
    assert_eq!(reported, c.total_read());
    let flushes = c.full_flush_count();
    let total_read = c.total_read();
    let last = c.finish();
    let mut all: Vec<u8> = written.concat();
    if let Some(b) = &last {
        all.extend_from_slice(b);
    }
    assert_eq!(all, source);
    (total_read, flushes, last, written)
}

#[test]
fn exact_multiple_has_no_final_flush() {
    let (total, flushes, last, written) = run(3 * 8, 8, 5);
    assert_eq!(total, 24);
    assert_eq!(flushes, 3);
    assert_eq!(last, None);
    assert!(written.iter().all(|b| b.len() == 8));
}

#[test]
fn remainder_is_flushed_at_end() {
    let (total, flushes, last, _) = run(2 * 16 + 5, 16, 3);
    assert_eq!(total, 37);
    assert_eq!(flushes, 2);
    assert_eq!(last.map(|b| b.len()), Some(5));
}

#[test]
fn empty_stream_flushes_nothing() {
    let (total, flushes, last, written) = run(0, 16, 3);
    assert_eq!((total, flushes), (0, 0));
    assert_eq!(last, None);
    assert!(written.is_empty());
}

#[test]
fn short_write_is_out_of_disk_space() {
    assert!(check_written(4, 4).is_ok());
    assert!(matches!(check_written(3, 4), Err(DownloadError::OutOfDiskSpace)));
}
