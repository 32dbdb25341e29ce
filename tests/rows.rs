use mandelbrot::{
    fill_row, fill_unit, partition_rows, EvaluationFailure, RowSlots, SlotError, WorkUnit,
};

fn escape_time(cr: f64, ci: f64, threshold: f64, max_iters: usize) -> usize {
    let (mut x, mut y) = (0.0f64, 0.0f64);
    let mut c = 0;
    while x * x + y * y <= threshold && c < max_iters {
        let t = x * x - y * y + cr;
        y = 2.0 * x * y + ci;
        x = t;
        c += 1;
    }
    c
}

fn samples(start: f64, end: f64, count: usize) -> Vec<f64> {
    let step = (end - start) / (count - 1) as f64;
    (0..count).map(|i| start + step * i as f64).collect()
}

fn evaluate(width: usize, height: usize, workers: usize) -> Vec<Vec<usize>> {
    let xs = samples(-2.5, 1.0, width);
    let ys = samples(-1.0, 1.0, height);
    let mut slots = RowSlots::new(height, width);
    let units = slots.hand_out(workers);
    for mut unit in units {
        fill_unit(&mut unit, width, |x, y| escape_time(xs[x], ys[y], 4.0, 100));
        slots.give_back_unit(unit).unwrap();
    }
    slots.into_matrix().unwrap()
}

#[test]
fn fill_row_includes_the_last_column() {
    let mut row = Vec::new();
    fill_row(&mut row, 5, |x| 10 * x);
    assert_eq!(row, vec![0, 10, 20, 30, 40]);
}

#[test]
fn fill_row_appends_after_existing_entries() {
    let mut row = vec![7];
    fill_row(&mut row, 2, |x| x + 1);
    assert_eq!(row, vec![7, 1, 2]);
}

#[test]
fn fill_unit_uses_matrix_row_indices() {
    let mut unit = WorkUnit { first_row: 3, rows: vec![Vec::new(), Vec::new()] };
    fill_unit(&mut unit, 3, |x, y| 100 * y + x);
    assert_eq!(unit.first_row, 3);
    assert_eq!(unit.rows, vec![vec![300, 301, 302], vec![400, 401, 402]]);
}

#[test]
fn slot_is_handed_out_once() {
    let mut slots = RowSlots::new(2, 3);
    assert_eq!(slots.row_count(), 2);
    assert_eq!(slots.column_count(), 3);
    assert_eq!(slots.check_out(1), Some(Vec::new()));
    assert_eq!(slots.check_out(1), None);
    assert_eq!(slots.check_out(2), None);
}

#[test]
fn give_back_refusals() {
    let mut slots = RowSlots::new(2, 3);
    assert_eq!(slots.give_back(5, vec![1, 2, 3]), Err(SlotError::UnknownRow { row: 5 }));
    assert_eq!(slots.give_back(0, vec![1, 2, 3]), Err(SlotError::NotCheckedOut { row: 0 }));
    slots.check_out(0).unwrap();
    assert_eq!(slots.give_back(0, vec![1, 2]), Err(SlotError::WrongLength { row: 0, len: 2 }));
    assert_eq!(slots.give_back(0, vec![1, 2, 3]), Ok(()));
    assert_eq!(slots.give_back(0, vec![1, 2, 3]), Err(SlotError::NotCheckedOut { row: 0 }));
}

#[test]
fn matrix_needs_every_row_back() {
    let mut slots = RowSlots::new(3, 1);
    slots.check_out(0).unwrap();
    slots.check_out(1).unwrap();
    slots.give_back(0, vec![4]).unwrap();
    assert_eq!(slots.into_matrix(), Err(EvaluationFailure::RowOutstanding { row: 1 }));
}

#[test]
fn matrix_keeps_row_order() {
    let mut slots = RowSlots::new(3, 2);
    for row in [2usize, 0, 1] {
        let mut buf = slots.check_out(row).unwrap();
        buf.push(row);
        buf.push(row * 10);
        slots.give_back(row, buf).unwrap();
    }
    assert_eq!(slots.into_matrix(), Ok(vec![vec![0, 0], vec![1, 10], vec![2, 20]]));
}

#[test]
fn hand_out_follows_the_partition() {
    let mut slots = RowSlots::new(10, 4);
    let units = slots.hand_out(3);
    let ranges = partition_rows(10, 3);
    assert_eq!(units.len(), 3);
    for (unit, range) in units.iter().zip(ranges.iter()) {
        assert_eq!(unit.first_row, range.start);
        assert_eq!(unit.rows.len(), range.end - range.start);
        assert!(unit.rows.iter().all(|r| r.is_empty()));
    }
    for row in 0..10 {
        assert_eq!(slots.check_out(row), None);
    }
}

#[test]
fn give_back_unit_stops_at_first_refusal() {
    let mut slots = RowSlots::new(3, 2);
    let _units = slots.hand_out(1);
    let unit = WorkUnit { first_row: 1, rows: vec![vec![1, 1], vec![2]] };
    assert_eq!(slots.give_back_unit(unit), Err(SlotError::WrongLength { row: 2, len: 1 }));
    let unit = WorkUnit { first_row: 0, rows: vec![vec![0, 0]] };
    assert_eq!(slots.give_back_unit(unit), Ok(()));
}

#[test]
fn matrix_has_one_entry_per_pixel() {
    for (w, h, workers) in [(2usize, 2usize, 1usize), (64, 64, 16), (17, 5, 8), (3, 40, 7)] {
        let m = evaluate(w, h, workers);
        assert_eq!(m.len(), h);
        assert!(m.iter().all(|row| row.len() == w));
        assert!(m.iter().flatten().all(|&c| c <= 100));
    }
}

#[test]
fn evaluation_is_deterministic() {
    let first = evaluate(64, 64, 16);
    let second = evaluate(64, 64, 16);
    assert_eq!(first, second);
    assert_eq!(first, evaluate(64, 64, 1));
}
