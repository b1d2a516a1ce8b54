use lake_ingest::pipeline::batcher::{run_batcher, BatchAccumulator, FeedEvent};

fn records(names: &[&str], at_ms: u64) -> Vec<FeedEvent<String>> {
    names.iter().map(|n| FeedEvent::Record(n.to_string(), at_ms)).collect()
}

#[test]
fn seven_records_with_three_rows_per_batch_leave_as_three_three_one() {
    let feed = records(&["r1", "r2", "r3", "r4", "r5", "r6", "r7"], 0);
    let batches = run_batcher(feed, 3, 3600, 0);
    assert_eq!(
        batches,
        vec![vec!["r1", "r2", "r3"], vec!["r4", "r5", "r6"], vec!["r7"]]
    );
    let sizes: Vec<usize> = batches.iter().map(|b| b.len()).collect();
    assert_eq!(sizes, vec![3, 3, 1]);
}

#[test]
fn the_time_trigger_flushes_the_first_record_and_the_drain_the_second() {
    let feed = vec![
        FeedEvent::Record("r1".to_string(), 0),
        FeedEvent::Tick(5_000),
        FeedEvent::Record("r2".to_string(), 6_000),
    ];
    let batches = run_batcher(feed, 1000, 5, 0);
    assert_eq!(batches, vec![vec!["r1"], vec!["r2"]]);
}

#[test]
fn the_time_trigger_is_stepped_through_by_hand() {
    let mut accumulator: BatchAccumulator<&str> = BatchAccumulator::new(1000, 5, 0);
    assert_eq!(accumulator.accept("r1", 0), None);
    assert_eq!(accumulator.tick(4_999), None);
    assert_eq!(accumulator.tick(5_000), Some(vec!["r1"]));
    assert_eq!(accumulator.accept("r2", 6_000), None);
    assert_eq!(accumulator.pending_rows(), 1);
    assert_eq!(accumulator.drain(), Some(vec!["r2"]));
    assert_eq!(accumulator.drain(), None);
}

#[test]
fn without_a_tick_the_time_trigger_fires_on_the_next_record() {
    let mut accumulator: BatchAccumulator<&str> = BatchAccumulator::new(1000, 5, 0);
    assert_eq!(accumulator.accept("r1", 0), None);
    assert_eq!(accumulator.accept("r2", 6_000), Some(vec!["r1", "r2"]));
    assert_eq!(accumulator.drain(), None);
}

#[test]
fn the_triggering_record_is_in_the_batch_it_triggers() {
    let mut accumulator: BatchAccumulator<u32> = BatchAccumulator::new(3, 3600, 0);
    assert_eq!(accumulator.accept(1, 10), None);
    assert_eq!(accumulator.accept(2, 20), None);
    assert_eq!(accumulator.accept(3, 30), Some(vec![1, 2, 3]));
    assert_eq!(accumulator.pending_rows(), 0);
    assert_eq!(accumulator.accept(4, 40), None);
    assert_eq!(accumulator.pending_rows(), 1);
}

#[test]
fn a_flush_resets_the_timer() {
    let mut accumulator: BatchAccumulator<u32> = BatchAccumulator::new(2, 10, 0);
    assert_eq!(accumulator.accept(1, 1_000), None);
    assert_eq!(accumulator.accept(2, 9_000), Some(vec![1, 2]));
    assert_eq!(accumulator.accept(3, 18_999), None);
    assert_eq!(accumulator.tick(18_999), None);
    assert_eq!(accumulator.tick(19_000), Some(vec![3]));
    assert_eq!(accumulator.tick(40_000), None);
}

#[test]
fn a_tick_on_an_empty_buffer_flushes_nothing_and_keeps_the_timer() {
    let mut accumulator: BatchAccumulator<u32> = BatchAccumulator::new(10, 5, 0);
    assert_eq!(accumulator.tick(60_000), None);
    assert_eq!(accumulator.accept(1, 60_001), Some(vec![1]));
}

#[test]
fn a_clock_that_steps_back_counts_as_no_time_passed() {
    let mut accumulator: BatchAccumulator<u32> = BatchAccumulator::new(10, 5, 50_000);
    assert_eq!(accumulator.accept(1, 10_000), None);
    assert_eq!(accumulator.tick(0), None);
    assert_eq!(accumulator.tick(54_999), None);
    assert_eq!(accumulator.tick(55_000), Some(vec![1]));
}

#[test]
fn whole_seconds_are_counted() {
    let mut accumulator: BatchAccumulator<u32> = BatchAccumulator::new(10, 1, 0);
    assert_eq!(accumulator.accept(1, 999), None);
    assert_eq!(accumulator.accept(2, 1_000), Some(vec![1, 2]));
}

#[test]
fn a_size_trigger_of_one_flushes_every_record() {
    let batches = run_batcher(vec![FeedEvent::Record(1, 0), FeedEvent::Record(2, 0)], 1, 3600, 0);
    assert_eq!(batches, vec![vec![1], vec![2]]);
}

#[test]
fn a_size_trigger_of_zero_flushes_every_record() {
    let batches = run_batcher(vec![FeedEvent::Record(1, 0), FeedEvent::Record(2, 0)], 0, 3600, 0);
    assert_eq!(batches, vec![vec![1], vec![2]]);
}

#[test]
fn a_time_trigger_of_zero_flushes_every_record() {
    let batches = run_batcher(vec![FeedEvent::Record(1, 0), FeedEvent::Record(2, 0)], 100, 0, 0);
    assert_eq!(batches, vec![vec![1], vec![2]]);
}

#[test]
fn an_empty_feed_gives_no_batch() {
    let batches: Vec<Vec<u32>> = run_batcher(Vec::new(), 3, 5, 0);
    assert!(batches.is_empty());
    let ticks: Vec<Vec<u32>> =
        run_batcher(vec![FeedEvent::Tick(10_000), FeedEvent::Tick(20_000)], 3, 5, 0);
    assert!(ticks.is_empty());
}

#[test]
fn batches_hold_every_record_once_and_in_order() {
    for max_rows in [1usize, 2, 3, 5, 8, 100] {
        for max_secs in [0u64, 1, 3, 1000] {
            let mut feed = Vec::new();
            let mut expected = Vec::new();
            for i in 0..57u64 {
                if i % 7 == 3 {
                    feed.push(FeedEvent::Tick(i * 400));
                }
                feed.push(FeedEvent::Record(i, i * 400 + 1));
                expected.push(i);
            }
            let batches = run_batcher(feed, max_rows, max_secs, 0);
            let total: usize = batches.iter().map(|b| b.len()).sum();
            assert_eq!(total, 57);
            for batch in &batches {
                assert!(!batch.is_empty());
                assert!(batch.len() <= max_rows);
            }
            let flat: Vec<u64> = batches.into_iter().flatten().collect();
            assert_eq!(flat, expected);
        }
    }
}
