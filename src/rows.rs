//! Row storage for one evaluation: an arena of row slots addressed by row
//! index. A slot is handed to exactly one worker, comes back filled, and the
//! matrix is assembled only when every slot has come back.

use vstd::prelude::*;
use crate::partition::{lemma_partition_tiles, lemma_unit_bounds, partition_rows, unit_end, unit_start};

verus! {

/// The state of one row slot.
#[derive(Debug)]
pub enum RowSlot {
    /// Not handed out yet.
    Vacant,
    /// Handed to a worker that has not returned it.
    CheckedOut,
    /// Returned with a complete row.
    Filled(Vec<usize>),
}

/// Why a returned row was refused.
#[derive(Clone, Copy, Debug, PartialEq, Eq, Structural)]
pub enum SlotError {
    /// The row index lies outside the matrix.
    UnknownRow { row: usize },
    /// The slot was not handed out, or was already returned.
    NotCheckedOut { row: usize },
    /// The row does not hold exactly one entry per column.
    WrongLength { row: usize, len: usize },
}

/// Why an evaluation produced no matrix.
#[derive(Clone, Copy, Debug, PartialEq, Eq, Structural)]
pub enum EvaluationFailure {
    /// This row (the first such) never came back from its worker.
    RowOutstanding { row: usize },
}

/// The rows of one work unit: buffers for the consecutive rows from
/// `first_row` on, handed to one worker.
#[derive(Debug)]
pub struct WorkUnit {
    pub first_row: usize,
    pub rows: Vec<Vec<usize>>,
}

/// The row slots of a `height` by `width` matrix.
pub struct RowSlots {
    slots: Vec<RowSlot>,
    width: usize,
}

impl RowSlots {
    /// Every filled slot holds a row of exactly `row_width()` entries.
    pub closed spec fn wf(&self) -> bool {
        forall|i: int|
            0 <= i < self.slots@.len() ==> (#[trigger] self.slots@[i] matches RowSlot::Filled(v)
                ==> v@.len() == self.width)
    }

    /// Number of rows.
    pub closed spec fn height(&self) -> nat {
        self.slots@.len()
    }

    /// Entries per row.
    pub closed spec fn row_width(&self) -> nat {
        self.width as nat
    }

    /// The slot of row `i`.
    pub closed spec fn slot(&self, i: int) -> RowSlot {
        self.slots@[i]
    }

    /// Every slot of the arena is filled.
    pub open spec fn complete(&self) -> bool {
        forall|i: int| 0 <= i < self.height() ==> #[trigger] self.slot(i) is Filled
    }

    /// Fresh storage: `height` vacant slots for rows of `width` entries.
    pub fn new(height: usize, width: usize) -> (r: RowSlots)
        ensures
            r.wf(),
            r.height() == height,
            r.row_width() == width,
            forall|i: int| 0 <= i < height ==> #[trigger] r.slot(i) is Vacant,
    {
        let mut slots: Vec<RowSlot> = Vec::with_capacity(height);
        let mut i: usize = 0;
        while i < height
            invariant
                i <= height,
                slots@.len() == i,
                forall|k: int| 0 <= k < i ==> #[trigger] slots@[k] is Vacant,
            decreases height - i,
        {
            slots.push(RowSlot::Vacant);
            i += 1;
        }
        RowSlots { slots, width }
    }

    /// Number of rows, as stored.
    pub fn row_count(&self) -> (r: usize)
        ensures
            r == self.height(),
    {
        self.slots.len()
    }

    /// Entries per row, as stored.
    pub fn column_count(&self) -> (r: usize)
        ensures
            r == self.row_width(),
    {
        self.width
    }

    /// Hands out the slot of `row`: an empty buffer with room for one row.
    /// Only a vacant slot is handed out, and only once.
    pub fn check_out(&mut self, row: usize) -> (r: Option<Vec<usize>>)
        requires
            old(self).wf(),
        ensures
            final(self).wf(),
            final(self).height() == old(self).height(),
            final(self).row_width() == old(self).row_width(),
            r is Some <==> (row < old(self).height() && old(self).slot(row as int) is Vacant),
            r matches Some(buf) ==> buf@.len() == 0 && final(self).slot(row as int) is CheckedOut,
            forall|i: int|
                0 <= i < old(self).height() && (r is None || i != row) ==> #[trigger] final(self).slot(i)
                    == old(self).slot(i),
    {
        if row >= self.slots.len() {
            return None;
        }
        match self.slots[row] {
            RowSlot::Vacant => {},
            _ => {
                return None;
            },
        }
        self.slots.set(row, RowSlot::CheckedOut);
        Some(Vec::with_capacity(self.width))
    }

    /// Takes back the row that the worker of `row` computed. It is stored only
    /// when the slot is checked out and the row has one entry per column;
    /// otherwise the arena is left as it was.
    pub fn give_back(&mut self, row: usize, buf: Vec<usize>) -> (r: Result<(), SlotError>)
        requires
            old(self).wf(),
        ensures
            final(self).wf(),
            final(self).height() == old(self).height(),
            final(self).row_width() == old(self).row_width(),
            row >= old(self).height() ==> r == Err::<(), SlotError>(SlotError::UnknownRow { row }),
            row < old(self).height() && !(old(self).slot(row as int) is CheckedOut) ==> r == Err::<
                (),
                SlotError,
            >(SlotError::NotCheckedOut { row }),
            row < old(self).height() && old(self).slot(row as int) is CheckedOut && buf@.len()
                != old(self).row_width() ==> r == Err::<(), SlotError>(
                SlotError::WrongLength { row, len: buf@.len() as usize },
            ),
            r is Ok <==> (row < old(self).height() && old(self).slot(row as int) is CheckedOut
                && buf@.len() == old(self).row_width()),
            r is Ok ==> final(self).slot(row as int) == RowSlot::Filled(buf),
            forall|i: int|
                0 <= i < old(self).height() && (r is Err || i != row) ==> #[trigger] final(self).slot(i)
                    == old(self).slot(i),
    {
        if row >= self.slots.len() {
            return Err(SlotError::UnknownRow { row });
        }
        match self.slots[row] {
            RowSlot::CheckedOut => {},
            _ => {
                return Err(SlotError::NotCheckedOut { row });
            },
        }
        if buf.len() != self.width {
            return Err(SlotError::WrongLength { row, len: buf.len() });
        }
        self.slots.set(row, RowSlot::Filled(buf));
        Ok(())
    }

    /// Checks out every row, grouped into the `workers` units of
    /// `partition_rows(height, workers)`: unit `i` holds one empty buffer for
    /// each of its rows. Afterwards every slot is checked out.
    pub fn hand_out(&mut self, workers: usize) -> (units: Vec<WorkUnit>)
        requires
            old(self).wf(),
            workers > 0,
            forall|i: int| 0 <= i < old(self).height() ==> #[trigger] old(self).slot(i) is Vacant,
        ensures
            final(self).wf(),
            final(self).height() == old(self).height(),
            final(self).row_width() == old(self).row_width(),
            forall|i: int| 0 <= i < old(self).height() ==> #[trigger] final(self).slot(i) is CheckedOut,
            units@.len() == workers,
            forall|i: int|
                0 <= i < workers ==> {
                    &&& #[trigger] units@[i].first_row == unit_start(
                        old(self).height(),
                        workers as nat,
                        i as nat,
                    )
                    &&& units@[i].rows@.len() == unit_end(old(self).height(), workers as nat, i as nat)
                        - unit_start(old(self).height(), workers as nat, i as nat)
                    &&& forall|k: int| 0 <= k < units@[i].rows@.len() ==> (#[trigger] units@[i].rows@[k])@.len() == 0
                },
    {
        let height = self.slots.len();
        let ghost h = height as nat;
        proof {
            lemma_partition_tiles(h, workers as nat);
        }
        let ranges = partition_rows(height, workers);
        let mut units: Vec<WorkUnit> = Vec::with_capacity(workers);
        let mut i: usize = 0;
        while i < workers
            invariant
                i <= workers,
                workers > 0,
                ranges@.len() == workers,
                h == height,
                self.wf(),
                self.height() == h,
                self.row_width() == old(self).row_width(),
                forall|k: int|
                    0 <= k < workers ==> {
                        &&& #[trigger] ranges@[k].start == unit_start(h, workers as nat, k as nat)
                        &&& ranges@[k].end == unit_end(h, workers as nat, k as nat)
                    },
                unit_start(h, workers as nat, 0) == 0,
                unit_end(h, workers as nat, (workers - 1) as nat) == h,
                forall|k: nat|
                    k + 1 < workers ==> #[trigger] unit_end(h, workers as nat, k) == unit_start(
                        h,
                        workers as nat,
                        k + 1,
                    ),
                forall|k: nat| k < workers ==> #[trigger] unit_start(h, workers as nat, k) <= unit_end(h, workers as nat, k),
                forall|r: int|
                    0 <= r < h ==> (#[trigger] self.slot(r) is CheckedOut <==> (i > 0 && r < unit_end(
                        h,
                        workers as nat,
                        (i - 1) as nat,
                    ))),
                forall|r: int| 0 <= r < h ==> (#[trigger] self.slot(r) is Vacant || self.slot(r) is CheckedOut),
                units@.len() == i,
                forall|u: int|
                    0 <= u < i ==> {
                        &&& #[trigger] units@[u].first_row == unit_start(h, workers as nat, u as nat)
                        &&& units@[u].rows@.len() == unit_end(h, workers as nat, u as nat) - unit_start(
                            h,
                            workers as nat,
                            u as nat,
                        )
                        &&& forall|k: int| 0 <= k < units@[u].rows@.len() ==> (#[trigger] units@[u].rows@[k])@.len() == 0
                    },
            decreases workers - i,
        {
            let range = ranges[i];
            proof {
                lemma_unit_bounds(h, workers as nat, i as nat);
                if i > 0 {
                    assert(unit_end(h, workers as nat, (i - 1) as nat) == unit_start(h, workers as nat, i as nat));
                }
            }
            let mut bufs: Vec<Vec<usize>> = Vec::new();
            let mut row: usize = range.start;
            while row < range.end
                invariant
                    range.start <= row <= range.end <= h,
                    range.start == unit_start(h, workers as nat, i as nat),
                    range.end == unit_end(h, workers as nat, i as nat),
                    self.wf(),
                    self.height() == h,
                    self.row_width() == old(self).row_width(),
                    forall|r: int|
                        0 <= r < h ==> (#[trigger] self.slot(r) is CheckedOut <==> r < row),
                    forall|r: int| 0 <= r < h ==> (#[trigger] self.slot(r) is Vacant || self.slot(r) is CheckedOut),
                    bufs@.len() == row - range.start,
                    forall|k: int| 0 <= k < bufs@.len() ==> (#[trigger] bufs@[k])@.len() == 0,
                decreases range.end - row,
            {
                let buf = self.check_out(row).unwrap();
                bufs.push(buf);
                row += 1;
            }
            units.push(WorkUnit { first_row: range.start, rows: bufs });
            i += 1;
        }
        units
    }

    /// The slot of `row` accepts `len` entries back.
    pub open spec fn accepts(&self, row: int, len: nat) -> bool {
        0 <= row < self.height() && self.slot(row) is CheckedOut && len == self.row_width()
    }

    /// The error with which `give_back` refuses `len` entries for `row`.
    pub open spec fn refusal(&self, row: int, len: nat) -> SlotError {
        if !(0 <= row < self.height()) {
            SlotError::UnknownRow { row: row as usize }
        } else if !(self.slot(row) is CheckedOut) {
            SlotError::NotCheckedOut { row: row as usize }
        } else {
            SlotError::WrongLength { row: row as usize, len: len as usize }
        }
    }

    /// Takes back the rows of a finished unit, in order. Stops at the first
    /// row that `give_back` refuses and returns that refusal.
    pub fn give_back_unit(&mut self, unit: WorkUnit) -> (r: Result<(), SlotError>)
        requires
            old(self).wf(),
            unit.first_row + unit.rows@.len() <= usize::MAX,
        ensures
            final(self).wf(),
            final(self).height() == old(self).height(),
            final(self).row_width() == old(self).row_width(),
            r is Ok <==> forall|k: int|
                0 <= k < unit.rows@.len() ==> old(self).accepts(
                    unit.first_row + k,
                    (#[trigger] unit.rows@[k])@.len(),
                ),
            r is Ok ==> forall|k: int|
                0 <= k < unit.rows@.len() ==> final(self).slot(unit.first_row + k) == RowSlot::Filled(
                    #[trigger] unit.rows@[k],
                ),
            r is Ok ==> forall|i: int|
                0 <= i < old(self).height() && !(unit.first_row <= i < unit.first_row
                    + unit.rows@.len()) ==> #[trigger] final(self).slot(i) == old(self).slot(i),
            r matches Err(e) ==> exists|k: int|
                0 <= k < unit.rows@.len() && !old(self).accepts(
                    unit.first_row + k,
                    (#[trigger] unit.rows@[k])@.len(),
                ) && e == old(self).refusal(unit.first_row + k, unit.rows@[k]@.len()) && forall|
                    j: int,
                |
                    0 <= j < k ==> old(self).accepts(
                        unit.first_row + j,
                        (#[trigger] unit.rows@[j])@.len(),
                    ),
    {
        let ghost start = *self;
        let ghost bufs = unit.rows@;
        let first = unit.first_row;
        let mut rows = unit.rows;
        let n = rows.len();
        let mut k: usize = 0;
        while k < n
            invariant
                k <= n,
                n == bufs.len(),
                first + n <= usize::MAX,
                start == *old(self),
                bufs == unit.rows@,
                first == unit.first_row,
                rows@.len() == n,
                forall|j: int| k <= j < n ==> #[trigger] rows@[j] == bufs[j],
                self.wf(),
                self.height() == start.height(),
                self.row_width() == start.row_width(),
                forall|j: int| 0 <= j < k ==> start.accepts(first + j, (#[trigger] bufs[j])@.len()),
                forall|j: int| 0 <= j < k ==> self.slot(first + j) == RowSlot::Filled(#[trigger] bufs[j]),
                forall|i: int|
                    0 <= i < start.height() && !(first <= i < first + k) ==> #[trigger] self.slot(i)
                        == start.slot(i),
            decreases n - k,
        {
            let mut buf: Vec<usize> = Vec::new();
            std::mem::swap(&mut buf, &mut rows[k]);
            let ghost before = *self;
            let res = self.give_back(first + k, buf);
            match res {
                Ok(()) => {},
                Err(e) => {
                    assert(!start.accepts(first + k, bufs[k as int]@.len()));
                    return Err(e);
                },
            }
            k += 1;
        }
        Ok(())
    }

    /// Assembles the matrix, row `i` being the row returned for slot `i`.
    /// Fails, naming the first such row, when a slot has not come back.
    pub fn into_matrix(self) -> (r: Result<Vec<Vec<usize>>, EvaluationFailure>)
        requires
            self.wf(),
        ensures
            r is Ok <==> self.complete(),
            r matches Ok(m) ==> {
                &&& m@.len() == self.height()
                &&& forall|i: int|
                    0 <= i < self.height() ==> #[trigger] self.slot(i) == RowSlot::Filled(m@[i])
                &&& forall|i: int| 0 <= i < self.height() ==> (#[trigger] m@[i])@.len() == self.row_width()
            },
            r matches Err(EvaluationFailure::RowOutstanding { row }) ==> {
                &&& row < self.height()
                &&& !(self.slot(row as int) is Filled)
                &&& forall|i: int| 0 <= i < row ==> #[trigger] self.slot(i) is Filled
            },
    {
        let ghost old_slots = self.slots@;
        let height = self.slots.len();
        let mut i: usize = 0;
        while i < height
            invariant
                i <= height,
                height == old_slots.len(),
                self.slots@ == old_slots,
                forall|k: int| 0 <= k < i ==> #[trigger] old_slots[k] is Filled,
            decreases height - i,
        {
            match self.slots[i] {
                RowSlot::Filled(_) => {},
                _ => {
                    return Err(EvaluationFailure::RowOutstanding { row: i });
                },
            }
            i += 1;
        }
        let width = self.width;
        let mut matrix: Vec<Vec<usize>> = Vec::with_capacity(height);
        let mut slots = self.slots;
        let mut j: usize = 0;
        while j < height
            invariant
                j <= height,
                height == old_slots.len(),
                slots@.len() == height,
                forall|k: int| j <= k < height ==> #[trigger] slots@[k] == old_slots[k],
                forall|k: int| 0 <= k < height ==> #[trigger] old_slots[k] is Filled,
                forall|k: int|
                    0 <= k < height ==> (#[trigger] old_slots[k] matches RowSlot::Filled(v)
                        ==> v@.len() == width),
                matrix@.len() == j,
                forall|k: int| 0 <= k < j ==> old_slots[k] == RowSlot::Filled(#[trigger] matrix@[k]),
            decreases height - j,
        {
            let mut taken = RowSlot::Vacant;
            std::mem::swap(&mut taken, &mut slots[j]);
            match taken {
                RowSlot::Filled(v) => {
                    matrix.push(v);
                },
                _ => {},
            }
            j += 1;
        }
        Ok(matrix)
    }
}

/// Appends to `row` the values of `eval_column` on the columns `0` up to and
/// including `width - 1`, left to right: one entry per column.
pub fn fill_row<F: Fn(usize) -> usize>(row: &mut Vec<usize>, width: usize, eval_column: F)
    requires
        forall|x: usize| x < width ==> #[trigger] eval_column.requires((x,)),
    ensures
        final(row)@.len() == old(row)@.len() + width,
        final(row)@.subrange(0, old(row)@.len() as int) == old(row)@,
        forall|x: int|
            0 <= x < width ==> eval_column.ensures(
                (x as usize,),
                #[trigger] final(row)@[old(row)@.len() + x],
            ),
{
    let ghost start = row@.len();
    let ghost before = row@;
    let mut x: usize = 0;
    while x < width
        invariant
            x <= width,
            row@.len() == start + x,
            row@.subrange(0, start as int) == before,
            forall|c: usize| c < width ==> #[trigger] eval_column.requires((c,)),
            forall|c: int| 0 <= c < x ==> eval_column.ensures((c as usize,), #[trigger] row@[start + c]),
        decreases width - x,
    {
        let value = eval_column(x);
        row.push(value);
        assert(row@.subrange(0, start as int) =~= before);
        x += 1;
    }
}

/// Computes every row of a unit: row `k` of the unit is matrix row
/// `first_row + k`, and gets the values of `eval_cell(x, first_row + k)` for
/// the columns `x` from `0` to `width - 1`.
pub fn fill_unit<F: Fn(usize, usize) -> usize>(unit: &mut WorkUnit, width: usize, eval_cell: F)
    requires
        old(unit).first_row + old(unit).rows@.len() <= usize::MAX,
        forall|x: usize, y: usize|
            x < width && old(unit).first_row <= y < old(unit).first_row + old(unit).rows@.len()
                ==> #[trigger] eval_cell.requires((x, y)),
    ensures
        final(unit).first_row == old(unit).first_row,
        final(unit).rows@.len() == old(unit).rows@.len(),
        forall|k: int|
            0 <= k < old(unit).rows@.len() ==> (#[trigger] final(unit).rows@[k])@.len() == old(
                unit,
            ).rows@[k]@.len() + width,
        forall|k: int, x: int|
            0 <= k < old(unit).rows@.len() && 0 <= x < width ==> eval_cell.ensures(
                (x as usize, (old(unit).first_row + k) as usize),
                #[trigger] final(unit).rows@[k]@[old(unit).rows@[k]@.len() + x],
            ),
{
    let first = unit.first_row;
    let n = unit.rows.len();
    let ghost before = unit.rows@;
    let mut k: usize = 0;
    while k < n
        invariant
            k <= n,
            first == unit.first_row,
            first == old(unit).first_row,
            before == old(unit).rows@,
            n == before.len(),
            unit.rows@.len() == n,
            first + n <= usize::MAX,
            forall|x: usize, y: usize|
                x < width && first <= y < first + n ==> #[trigger] eval_cell.requires((x, y)),
            forall|j: int| k <= j < n ==> #[trigger] unit.rows@[j] == before[j],
            forall|j: int| 0 <= j < k ==> (#[trigger] unit.rows@[j])@.len() == before[j]@.len() + width,
            forall|j: int, x: int|
                0 <= j < k && 0 <= x < width ==> eval_cell.ensures(
                    (x as usize, (first + j) as usize),
                    #[trigger] unit.rows@[j]@[before[j]@.len() + x],
                ),
        decreases n - k,
    {
        let y: usize = first + k;
        let mut row: Vec<usize> = Vec::new();
        std::mem::swap(&mut row, &mut unit.rows[k]);
        assert(row == before[k as int]);
        fill_row(&mut row, width, |x: usize| -> (v: usize)
            requires
                x < width,
            ensures
                eval_cell.ensures((x, y), v),
            { eval_cell(x, y) });
        std::mem::swap(&mut row, &mut unit.rows[k]);
        k += 1;
    }
}

} // verus!
