//! A plain-text table of datapoints: one line per datapoint, its id,
//! description, sha and status in columns padded to the widest cell.
use vstd::prelude::*;
use vstd::utf8::encode_utf8;
use crate::models::Datapoint;
use crate::util::{int_text, int_string, join, join_text};

verus! {

/// Number of columns of the table.
pub const COLUMNS: usize = 4;

/// The width of a cell: the length in bytes of its UTF-8 text, as `str::len`
/// gives it.
pub open spec fn cell_width(s: Seq<char>) -> int {
    encode_utf8(s).len() as usize as int
}

/// The cells of a datapoint's line.
pub open spec fn row_text(dp: Datapoint) -> Seq<Seq<char>> {
    seq![int_text(dp.id as int), dp.description@, dp.sha@, dp.status@]
}

/// The widest cell of column `i` over `rows`; 0 where there are none.
pub open spec fn column_width(rows: Seq<Seq<Seq<char>>>, i: int) -> int
    decreases rows.len(),
{
    if rows.len() == 0 {
        0
    } else {
        let before = column_width(rows.drop_last(), i);
        let w = cell_width(rows.last()[i]);
        if w > before {
            w
        } else {
            before
        }
    }
}

/// `s` followed by spaces up to `width` bytes.
pub open spec fn padded(s: Seq<char>, width: int) -> Seq<char> {
    s + Seq::new(
        if width > cell_width(s) { (width - cell_width(s)) as nat } else { 0 },
        |j: int| ' ',
    )
}

/// One line: the cells padded to their column's width, separated by ` | `.
pub open spec fn line_text(row: Seq<Seq<char>>, widths: Seq<int>) -> Seq<char> {
    join_text(Seq::new(row.len(), |i: int| padded(row[i], widths[i])), " | "@)
}

/// The table of `rows`, its lines separated by line ends.
pub open spec fn table_text(rows: Seq<Seq<Seq<char>>>) -> Seq<char> {
    let widths = Seq::new(COLUMNS as nat, |i: int| column_width(rows, i));
    join_text(Seq::new(rows.len(), |k: int| line_text(rows[k], widths)), "\n"@)
}

fn pad_string(s: &String, len: usize) -> (r: String)
    ensures
        r@ == padded(s@, len as int),
{
    let mut result = s.clone();
    let mut width: usize = s.as_str().len();
    let ghost start = width;
    let ghost spaces: nat = if len > start { (len - start) as nat } else { 0 };
    proof {
        assert(result@ =~= s@ + Seq::new(0, |j: int| ' '));
    }
    while width < len
        invariant
            start <= width,
            start == cell_width(s@),
            width <= len || width == start,
            spaces == if len > start { (len - start) as nat } else { 0 },
            result@ =~= s@ + Seq::new((width - start) as nat, |j: int| ' '),
        decreases len - width,
    {
        result.append(" ");
        proof {
            reveal_strlit(" ");
        }
        width += 1;
    }
    result
}

/// A table being built: its rows, and the width of each column so far.
pub struct DatapointsFormatter {
    column_sizes: Vec<usize>,
    rows: Vec<Vec<String>>,
}

impl DatapointsFormatter {
    /// The rows of the table.
    pub closed spec fn rows_view(&self) -> Seq<Seq<Seq<char>>> {
        Seq::new(self.rows@.len(), |k: int| self.rows@[k].deep_view())
    }

    /// Each row has one cell per column, and each column's size is its widest
    /// cell.
    pub closed spec fn well_formed(&self) -> bool {
        &&& self.column_sizes@.len() == COLUMNS
        &&& forall|k: int| 0 <= k < self.rows@.len() ==> (#[trigger] self.rows@[k]).len() == COLUMNS
        &&& forall|i: int|
            0 <= i < COLUMNS ==> self.column_sizes@[i] as int == #[trigger] column_width(
                self.rows_view(),
                i,
            )
    }

    fn new() -> (r: DatapointsFormatter)
        ensures
            r.well_formed(),
            r.rows_view() == Seq::<Seq<Seq<char>>>::empty(),
    {
        let r = DatapointsFormatter { column_sizes: vec![0, 0, 0, 0], rows: Vec::new() };
        assert(r.rows_view() =~= Seq::<Seq<Seq<char>>>::empty());
        r
    }

    fn row(dp: &Datapoint) -> (r: Vec<String>)
        ensures
            r.deep_view() == row_text(*dp),
    {
        let r = vec![int_string(dp.id), dp.description.clone(), dp.sha.clone(), dp.status.clone()];
        assert(r.deep_view() =~= row_text(*dp));
        r
    }

    fn add_datapoint(&mut self, dp: &Datapoint)
        requires
            old(self).well_formed(),
        ensures
            final(self).well_formed(),
            final(self).rows_view() == old(self).rows_view().push(row_text(*dp)),
    {
        let row = DatapointsFormatter::row(dp);
        let ghost rows = self.rows_view().push(row_text(*dp));
        let ghost old_sizes = self.column_sizes@;
        assert(row.deep_view().len() == row@.len());
        assert(rows.drop_last() =~= self.rows_view());
        let ghost old_rows = self.rows@;
        let mut i: usize = 0;
        while i < row.len()
            invariant
                row.len() == COLUMNS,
                row.deep_view() == row_text(*dp),
                rows.drop_last() == self.rows_view(),
                rows.last() == row_text(*dp),
                rows.len() > 0,
                self.rows@ == old_rows,
                forall|k: int| 0 <= k < old_rows.len() ==> (#[trigger] old_rows[k]).len() == COLUMNS,
                self.column_sizes@.len() == COLUMNS,
                forall|j: int|
                    0 <= j < i ==> self.column_sizes@[j] as int == #[trigger] column_width(rows, j),
                forall|j: int| i <= j < COLUMNS ==> self.column_sizes@[j] == old_sizes[j],
                forall|j: int|
                    0 <= j < COLUMNS ==> old_sizes[j] as int == #[trigger] column_width(
                        self.rows_view(),
                        j,
                    ),
            decreases row.len() - i,
        {
            let column_size = row[i].as_str().len();
            assert(row.deep_view()[i as int] == row[i as int]@);
            assert(column_size as int == cell_width(rows.last()[i as int]));
            assert(column_width(rows, i as int) == if cell_width(rows.last()[i as int]) > column_width(
                rows.drop_last(),
                i as int,
            ) {
                cell_width(rows.last()[i as int])
            } else {
                column_width(rows.drop_last(), i as int)
            });
            if column_size > self.column_sizes[i] {
                self.column_sizes.set(i, column_size);
            }
            i += 1;
        }
        self.rows.push(row);
        assert(self.rows_view() =~= rows);
        assert forall|k: int| 0 <= k < self.rows@.len() implies (#[trigger] self.rows@[k]).len()
            == COLUMNS by {
            if k < old_rows.len() {
                assert(self.rows@[k] == old_rows[k]);
            }
        }
    }

    /// The table of `dps`, one row per datapoint in their order.
    pub fn from_datapoints(dps: &Vec<Datapoint>) -> (r: DatapointsFormatter)
        ensures
            r.well_formed(),
            r.rows_view() == Seq::new(dps@.len(), |k: int| row_text(dps@[k])),
    {
        let mut result = DatapointsFormatter::new();
        let mut k: usize = 0;
        while k < dps.len()
            invariant
                k <= dps.len(),
                result.well_formed(),
                result.rows_view() =~= Seq::new(k as nat, |j: int| row_text(dps@[j])),
            decreases dps.len() - k,
        {
            result.add_datapoint(&dps[k]);
            k += 1;
        }
        result
    }

    /// The table as text.
    pub fn format(&self) -> (r: String)
        requires
            self.well_formed(),
        ensures
            r@ == table_text(self.rows_view()),
    {
        let ghost rows = self.rows_view();
        let ghost widths = Seq::new(COLUMNS as nat, |i: int| column_width(rows, i));
        let mut lines: Vec<String> = Vec::new();
        let mut k: usize = 0;
        while k < self.rows.len()
            invariant
                k <= self.rows.len(),
                self.well_formed(),
                rows == self.rows_view(),
                widths == Seq::new(COLUMNS as nat, |i: int| column_width(rows, i)),
                lines.deep_view() =~= Seq::new(k as nat, |j: int| line_text(rows[j], widths)),
            decreases self.rows.len() - k,
        {
            let row = &self.rows[k];
            assert(row.len() == COLUMNS);
            assert(rows[k as int] == row.deep_view());
            let mut cells: Vec<String> = Vec::new();
            let mut i: usize = 0;
            while i < row.len()
                invariant
                    i <= row.len(),
                    row.len() == COLUMNS,
                    k < self.rows@.len(),
                    *row == self.rows@[k as int],
                    rows[k as int] == row.deep_view(),
                    self.well_formed(),
                    rows == self.rows_view(),
                    widths == Seq::new(COLUMNS as nat, |c: int| column_width(rows, c)),
                    cells.deep_view() =~= Seq::new(i as nat, |c: int| padded(rows[k as int][c], widths[c])),
                decreases row.len() - i,
            {
                assert(rows[k as int][i as int] == row[i as int]@);
                assert(self.column_sizes@[i as int] as int == column_width(self.rows_view(), i as int));
                let cell = pad_string(&row[i], self.column_sizes[i]);
                assert(cell@ == padded(rows[k as int][i as int], widths[i as int]));
                let ghost prev = cells.deep_view();
                cells.push(cell);
                assert(cells.deep_view() =~= prev.push(padded(rows[k as int][i as int], widths[i as int])));
                i += 1;
            }
            let line = join(&cells, " | ");
            assert(cells.deep_view() =~= Seq::new(
                rows[k as int].len(),
                |c: int| padded(rows[k as int][c], widths[c]),
            ));
            let ghost prev_lines = lines.deep_view();
            lines.push(line);
            assert(lines.deep_view() =~= prev_lines.push(line_text(rows[k as int], widths)));
            k += 1;
        }
        join(&lines, "\n")
    }
}

} // verus!
