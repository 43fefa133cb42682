use parallel_download::chunk::{chunk_count, chunk_size_per_thread, plan_chunks, ChunkRange};

fn assert_tiles(chunks: &[ChunkRange], total: u64) {
    assert_eq!(chunks[0].start, 0);
    assert_eq!(chunks[chunks.len() - 1].end, total - 1);
    for w in chunks.windows(2) {
        assert_eq!(w[1].start, w[0].end + 1);
    }
}

#[test]
fn even_split_across_workers() {
    let chunks = plan_chunks(100, 4, 10);
    assert_eq!(
        chunks,
        vec![
            ChunkRange { start: 0, end: 24 },
            ChunkRange { start: 25, end: 49 },
            ChunkRange { start: 50, end: 74 },
            ChunkRange { start: 75, end: 99 },
        ]
    );
    assert_tiles(&chunks, 100);
}

#[test]
fn minimum_chunk_size_wins_and_last_chunk_is_clamped() {
    assert_eq!(chunk_size_per_thread(10, 3, 4), 4);
    let chunks = plan_chunks(10, 3, 4);
    assert_eq!(
        chunks,
        vec![
            ChunkRange { start: 0, end: 3 },
            ChunkRange { start: 4, end: 7 },
            ChunkRange { start: 8, end: 9 },
        ]
    );
    assert_tiles(&chunks, 10);
}

#[test]
fn more_workers_than_chunks() {
    let chunks = plan_chunks(10, 8, 5);
    assert_eq!(chunks, vec![ChunkRange { start: 0, end: 4 }, ChunkRange { start: 5, end: 9 }]);
}

#[test]
fn empty_content_gives_no_chunk() {
    assert!(plan_chunks(0, 4, 1).is_empty());
    assert_eq!(chunk_count(0, 7), 0);
}

#[test]
fn chunk_count_rounds_up() {
    assert_eq!(chunk_count(10, 4), 3);
    assert_eq!(chunk_count(12, 4), 3);
    assert_eq!(chunk_count(u64::MAX, 2), u64::MAX / 2 + 1);
}

#[test]
fn every_chunk_but_last_has_full_size() {
    for &(total, workers, min) in &[(1000u64, 7usize, 13u64), (999, 3, 500), (5, 1, 1), (64, 64, 1)] {
        let size = chunk_size_per_thread(total, workers, min);
        let chunks = plan_chunks(total, workers, min);
        assert_tiles(&chunks, total);
        for c in &chunks[..chunks.len() - 1] {
            assert_eq!(c.end - c.start + 1, size);
            assert!(size >= min.min(total));
        }
    }
}
