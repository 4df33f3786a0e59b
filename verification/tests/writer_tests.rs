use freewili_updater::catalog::Uf2File;
use freewili_updater::writer::{
    chunk_progress, chunk_spans, flash_jobs, num_chunks, progress_sequence, FlashChannel,
};

#[test]
fn chunk_count_rounds_up() {
    assert_eq!(num_chunks(0, 4), 0);
    assert_eq!(num_chunks(1, 4), 1);
    assert_eq!(num_chunks(4, 4), 1);
    assert_eq!(num_chunks(5, 4), 2);
    assert_eq!(num_chunks(8, 4), 2);
    assert_eq!(num_chunks(9, 4), 3);
    assert_eq!(num_chunks(10, 1), 10);
}

#[test]
fn chunk_spans_cover_the_payload_exactly() {
    assert_eq!(chunk_spans(10, 4), vec![(0, 4), (4, 8), (8, 10)]);
    assert_eq!(chunk_spans(8, 4), vec![(0, 4), (4, 8)]);
    assert_eq!(chunk_spans(3, 4), vec![(0, 3)]);
    assert_eq!(chunk_spans(0, 4), Vec::<(usize, usize)>::new());
    // the spans' lengths sum to the payload length, for several shapes
    for (len, chunk) in [(10usize, 4usize), (1, 1), (17, 5), (64, 64), (65, 64), (0, 3)] {
        let spans = chunk_spans(len, chunk);
        let total: usize = spans.iter().map(|(s, e)| e - s).sum();
        assert_eq!(total, len, "len={} chunk={}", len, chunk);
    }
}

#[test]
fn progress_is_the_rounded_down_percentage() {
    assert_eq!(chunk_progress(0, 3), 0);
    assert_eq!(chunk_progress(1, 3), 33);
    assert_eq!(chunk_progress(2, 3), 66);
    assert_eq!(chunk_progress(3, 3), 100);
    assert_eq!(chunk_progress(1, 2), 50);
}

#[test]
fn progress_sequence_never_decreases_and_ends_at_100() {
    assert_eq!(progress_sequence(10, 4), vec![0, 33, 66, 100]);
    assert_eq!(progress_sequence(8, 4), vec![0, 50, 100]);
    // an empty payload still emits the saturating endpoint
    assert_eq!(progress_sequence(0, 4), vec![100]);
    for (len, chunk) in [(10usize, 4usize), (1, 1), (17, 5), (100, 7), (0, 1)] {
        let ps = progress_sequence(len, chunk);
        assert!(ps.windows(2).all(|w| w[0] <= w[1]), "len={} chunk={}", len, chunk);
        assert_eq!(*ps.last().unwrap(), 100);
    }
}

#[test]
fn dual_channel_jobs_write_display_before_main() {
    let file = Uf2File::FreeWili(vec![1u8, 2], vec![3u8, 4, 5]);
    let jobs = flash_jobs(file, Some("/mnt/main".to_string()), Some("/mnt/disp".to_string()));
    assert_eq!(jobs.len(), 2);
    assert_eq!(jobs[0].channel, FlashChannel::Display);
    assert_eq!(jobs[0].path.as_deref(), Some("/mnt/disp"));
    assert_eq!(jobs[0].payload, vec![3u8, 4, 5]);
    assert_eq!(jobs[1].channel, FlashChannel::Main);
    assert_eq!(jobs[1].path.as_deref(), Some("/mnt/main"));
    assert_eq!(jobs[1].payload, vec![1u8, 2]);
}

#[test]
fn standalone_jobs_target_the_main_channel() {
    let file = Uf2File::Standalone(vec![7u8; 5]);
    let jobs = flash_jobs(file, Some("/mnt/main".to_string()), None);
    assert_eq!(jobs.len(), 1);
    assert_eq!(jobs[0].channel, FlashChannel::Main);
    assert_eq!(jobs[0].path.as_deref(), Some("/mnt/main"));
    assert_eq!(jobs[0].payload, vec![7u8; 5]);
}

#[test]
fn missing_paths_are_kept_for_the_writer_to_reject() {
    let file = Uf2File::FreeWili(vec![1u8], vec![2u8]);
    let jobs = flash_jobs(file, None, None);
    assert_eq!(jobs.len(), 2);
    assert!(jobs[0].path.is_none());
    assert!(jobs[1].path.is_none());
}
