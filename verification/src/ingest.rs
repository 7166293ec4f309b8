//! The ingestion strategies and the statements they issue. The inline
//! strategy renders batched `INSERT INTO ... VALUES ...` statements; the
//! staged-file strategies render a uniquely named staging path and, for the
//! local-file load, the `LOAD DATA` statement that references it.

use vstd::prelude::*;
use vstd::string::StringExecFns;

use crate::table::{Column, LocalTable};
use crate::text::{int_text, i64_to_dec, join_all, join_seqs};
use crate::types::{format_cell, format_value};

verus! {

/// How a write loads its data, resolved once at writer construction.
#[derive(Clone, Copy, Debug, PartialEq, Eq, Structural)]
pub enum IngestStrategy {
    /// Batched `INSERT INTO ... VALUES ...` statements; the default.
    InlineSql,
    /// Stage the table to a local delimiter-separated file, then issue a
    /// `LOAD DATA LOCAL INPATH` statement and remove the file best-effort.
    CsvLoad,
    /// Announce a staging path for a columnar binary file and defer remote
    /// placement to an external collaborator; no data is moved.
    ParquetStage,
}

/// Rows per inline `INSERT` statement.
pub const BATCH_SIZE: usize = 100;

/// Row-count threshold above which the inline strategy surfaces a warning
/// recommending a file-based strategy.
pub const LARGE_ROW_THRESHOLD: usize = 1000;

/// The column names of the table, in schema order.
pub open spec fn col_names(cols: Seq<Column>) -> Seq<Seq<char>> {
    Seq::new(cols.len(), |i: int| cols[i].name@)
}

/// The formatted cells of one row, in schema order.
pub open spec fn row_cells(cols: Seq<Column>, row: int) -> Seq<Seq<char>> {
    Seq::new(cols.len(), |i: int| format_cell(cols[i].values@[row]))
}

/// One row as a parenthesised tuple of literals: `(v, v, ...)`.
pub open spec fn row_tuple(cols: Seq<Column>, row: int) -> Seq<char> {
    "("@ + join_seqs(row_cells(cols, row), ", "@) + ")"@
}

/// The tuples of `n` consecutive rows starting at `lo`.
pub open spec fn row_tuples(cols: Seq<Column>, lo: int, n: nat) -> Seq<Seq<char>> {
    Seq::new(n, |k: int| row_tuple(cols, lo + k))
}

/// The `INSERT` statement covering rows `lo..hi`:
/// `INSERT INTO <name> (<cols>) VALUES (<row>), (<row>), ...`.
pub open spec fn insert_sql_spec(name: Seq<char>, cols: Seq<Column>, lo: int, hi: int)
    -> Seq<char> {
    "INSERT INTO "@ + name + " ("@ + join_seqs(col_names(cols), ", "@) + ") VALUES "@ + join_seqs(
        row_tuples(cols, lo, (hi - lo) as nat),
        ", "@,
    )
}

/// How many inline statements a table of `h` rows takes: one per full or
/// partial batch.
pub open spec fn num_batches(h: nat) -> int {
    (h as int + (BATCH_SIZE - 1) as int) / (BATCH_SIZE as int)
}

/// Where batch `k` ends: a full batch past `k * BATCH_SIZE`, clipped to `h`.
pub open spec fn batch_end(h: nat, k: int) -> int {
    if k * BATCH_SIZE + BATCH_SIZE <= h {
        k * BATCH_SIZE + BATCH_SIZE
    } else {
        h as int
    }
}

/// The staging path of the delimiter-separated file for one write:
/// `/tmp/<table>_<timestamp>.csv`.
pub open spec fn csv_path_spec(name: Seq<char>, ts: int) -> Seq<char> {
    "/tmp/"@ + name + "_"@ + int_text(ts) + ".csv"@
}

/// The staging path of the columnar binary file for one write:
/// `/tmp/<table>_<timestamp>.parquet`.
pub open spec fn parquet_path_spec(name: Seq<char>, ts: int) -> Seq<char> {
    "/tmp/"@ + name + "_"@ + int_text(ts) + ".parquet"@
}

/// The bulk-load statement referencing a staged local file:
/// `LOAD DATA LOCAL INPATH '<path>' INTO TABLE <name>`.
pub open spec fn load_sql_spec(path: Seq<char>, name: Seq<char>) -> Seq<char> {
    "LOAD DATA LOCAL INPATH '"@ + path + "' INTO TABLE "@ + name
}

/// Relies on chrono's `Utc::now` and `DateTime::timestamp`: the current
/// time as whole seconds since the Unix epoch. Nothing is assumed of the
/// value; callers state what holds of every outcome.
#[verifier::external_body]
pub(crate) fn now_epoch_seconds() -> i64 {
    chrono::Utc::now().timestamp()
}

/// Builds the comma-joined column-name list of an `INSERT`.
fn render_col_names(table: &LocalTable) -> (r: String)
    ensures
        r@ == join_seqs(col_names(table.columns@), ", "@),
{
    let mut names: Vec<String> = Vec::new();
    let mut i: usize = 0;
    while i < table.columns.len()
        invariant
            i <= table.columns@.len(),
            names@.len() == i,
            forall|j: int| 0 <= j < i ==> (#[trigger] names@[j])@ == table.columns@[j].name@,
        decreases table.columns@.len() - i,
    {
        names.push(table.columns[i].name.clone());
        i = i + 1;
    }
    proof {
        assert(names@.map_values(|p: String| p@) =~~= col_names(table.columns@));
    }
    join_all(&names, ", ")
}

/// Renders the tuple of one row: `(v, v, ...)`.
fn render_row_tuple(table: &LocalTable, row: usize) -> (r: String)
    requires
        table.wf(),
        row < table.spec_height(),
    ensures
        r@ == row_tuple(table.columns@, row as int),
{
    let mut cells: Vec<String> = Vec::new();
    let mut i: usize = 0;
    while i < table.columns.len()
        invariant
            table.wf(),
            row < table.spec_height(),
            i <= table.columns@.len(),
            cells@.len() == i,
            forall|j: int|
                0 <= j < i ==> (#[trigger] cells@[j])@ == format_cell(
                    table.columns@[j].values@[row as int],
                ),
        decreases table.columns@.len() - i,
    {
        let cell = format_value(&table.columns[i].values[row]);
        cells.push(cell);
        i = i + 1;
    }
    proof {
        assert(cells@.map_values(|p: String| p@) =~~= row_cells(table.columns@, row as int));
    }
    let mut r = String::from_str("(");
    let joined = join_all(&cells, ", ");
    r.append(joined.as_str());
    r.append(")");
    r
}

/// Renders the `INSERT` statement covering rows `lo..hi`.
pub fn render_insert(table: &LocalTable, table_name: &String, lo: usize, hi: usize) -> (r: String)
    requires
        table.wf(),
        lo < hi <= table.spec_height(),
    ensures
        r@ == insert_sql_spec(table_name@, table.columns@, lo as int, hi as int),
{
    let mut tuples: Vec<String> = Vec::new();
    let mut row: usize = lo;
    while row < hi
        invariant
            table.wf(),
            lo <= row <= hi <= table.spec_height(),
            tuples@.len() == row - lo,
            forall|k: int|
                0 <= k < row - lo ==> (#[trigger] tuples@[k])@ == row_tuple(
                    table.columns@,
                    lo + k,
                ),
        decreases hi - row,
    {
        let t = render_row_tuple(table, row);
        tuples.push(t);
        row = row + 1;
    }
    proof {
        assert(tuples@.map_values(|p: String| p@) =~~= row_tuples(
            table.columns@,
            lo as int,
            (hi - lo) as nat,
        ));
    }
    let mut r = String::from_str("INSERT INTO ");
    r.append(table_name.as_str());
    r.append(" (");
    let names = render_col_names(table);
    r.append(names.as_str());
    r.append(") VALUES ");
    let values = join_all(&tuples, ", ");
    r.append(values.as_str());
    r
}

/// Renders the inline strategy's statements: the rows in fixed-size batches
/// of `BATCH_SIZE`, in row order, one `INSERT` per batch, the last batch
/// holding the remainder.
pub fn inline_insert_statements(table: &LocalTable, table_name: &String) -> (r: Vec<String>)
    requires
        table.wf(),
    ensures
        r@.len() == num_batches(table.spec_height()),
        forall|k: int|
            0 <= k < r@.len() ==> (#[trigger] r@[k])@ == insert_sql_spec(
                table_name@,
                table.columns@,
                k * BATCH_SIZE,
                batch_end(table.spec_height(), k),
            ),
{
    let h = table.row_count();
    let mut r: Vec<String> = Vec::new();
    let mut start: usize = 0;
    let ghost mut k: int = 0;
    while start < h
        invariant
            table.wf(),
            h == table.spec_height(),
            0 <= k,
            start == if k * BATCH_SIZE <= h {
                k * BATCH_SIZE as int
            } else {
                h as int
            },
            k > 0 ==> (k - 1) * BATCH_SIZE < h,
            r@.len() == k,
            forall|j: int|
                0 <= j < k ==> (#[trigger] r@[j])@ == insert_sql_spec(
                    table_name@,
                    table.columns@,
                    j * BATCH_SIZE,
                    batch_end(table.spec_height(), j),
                ),
        decreases h - start,
    {
        proof {
            assert(start == k * BATCH_SIZE);
        }
        let end = if h - start > BATCH_SIZE {
            start + BATCH_SIZE
        } else {
            h
        };
        proof {
            assert(end == batch_end(table.spec_height(), k));
        }
        let stmt = render_insert(table, table_name, start, end);
        r.push(stmt);
        proof {
            k = k + 1;
            assert(end == if k * BATCH_SIZE <= h {
                k * BATCH_SIZE as int
            } else {
                h as int
            });
        }
        start = end;
    }
    proof {
        if k == 0 {
            assert(h == 0);
            assert(num_batches(h as nat) == 0);
        } else {
            assert((k - 1) * BATCH_SIZE < h <= k * BATCH_SIZE);
            assert(k * BATCH_SIZE <= h + (BATCH_SIZE - 1) < k * BATCH_SIZE + BATCH_SIZE);
            assert(k == (h + (BATCH_SIZE - 1)) / (BATCH_SIZE as int)) by (nonlinear_arith)
                requires
                    k * BATCH_SIZE <= h + (BATCH_SIZE - 1) < k * BATCH_SIZE + BATCH_SIZE,
                    0 < (BATCH_SIZE as int),
            ;
        }
        assert(r@.len() == num_batches(table.spec_height()));
    }
    r
}

} // verus!
