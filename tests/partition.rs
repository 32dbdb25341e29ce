use mandelbrot::{default_worker_budget, partition_rows, worker_budget, RowRange};

fn assert_tiles(ranges: &[RowRange], row_count: usize) {
    let mut owners = vec![0usize; row_count];
    for r in ranges {
        assert!(r.start <= r.end);
        for row in r.start..r.end {
            owners[row] += 1;
        }
    }
    assert!(owners.iter().all(|&n| n == 1));
    assert_eq!(ranges[0].start, 0);
    assert_eq!(ranges[ranges.len() - 1].end, row_count);
    for pair in ranges.windows(2) {
        assert_eq!(pair[0].end, pair[1].start);
    }
}

#[test]
fn full_hd_rows_over_sixteen_workers() {
    let ranges = partition_rows(1080, 16);
    assert_eq!(ranges.len(), 16);
    assert_tiles(&ranges, 1080);
    for (i, r) in ranges.iter().take(15).enumerate() {
        assert_eq!(*r, RowRange { start: 67 * i, end: 67 * (i + 1) });
    }
    // 1080 = 16 * 67 + 8: the last unit carries the eight extra rows.
    assert_eq!(ranges[15], RowRange { start: 1005, end: 1080 });
}

#[test]
fn fewer_rows_than_workers_go_to_the_last_unit() {
    let ranges = partition_rows(3, 5);
    assert_eq!(ranges.len(), 5);
    for r in ranges.iter().take(4) {
        assert_eq!(*r, RowRange { start: 0, end: 0 });
    }
    assert_eq!(ranges[4], RowRange { start: 0, end: 3 });
    assert_tiles(&ranges, 3);
}

#[test]
fn single_worker_takes_everything() {
    assert_eq!(partition_rows(64, 1), vec![RowRange { start: 0, end: 64 }]);
}

#[test]
fn no_rows() {
    let ranges = partition_rows(0, 4);
    assert_eq!(ranges.len(), 4);
    assert!(ranges.iter().all(|r| r.start == 0 && r.end == 0));
}

#[test]
fn many_shapes_tile() {
    for rows in 0..70usize {
        for workers in 1..20usize {
            let ranges = partition_rows(rows, workers);
            assert_eq!(ranges.len(), workers);
            assert_tiles(&ranges, rows);
        }
    }
}

#[test]
fn budget_is_four_per_cpu() {
    assert_eq!(worker_budget(0), 1);
    assert_eq!(worker_budget(1), 4);
    assert_eq!(worker_budget(6), 24);
    assert_eq!(worker_budget(usize::MAX / 2), usize::MAX);
}

#[test]
fn budget_of_this_machine() {
    let w = default_worker_budget();
    assert!(w >= 4);
    assert_eq!(w % 4, 0);
}
