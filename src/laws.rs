//! Properties of the row decoder and of the header check, proved over their
//! specifications.
use vstd::prelude::*;
use crate::data::{WorkerScoreView, WorkerStatus};
use crate::parser::{
    acc_of, code_of_status, decode_rows, expected_headers, header_without_cpu_matches, position_without_cpu, status_of_code, headers_valid, normalized_cells, pid_of, row_of, srv_of, status_of,
    table_of, u32_field, Failure, TableRowView, COLUMN_COUNT, CPU_COLUMN,
};
use crate::text::{trim_end, trim_start, trimmed};

verus! {

/// A full row whose columns each decode gives a record, and that record is
/// made of the decoded columns: the same row always gives the same record.
pub proof fn law_full_row_decodes(row: TableRowView)
    requires
        row.cells.len() == COLUMN_COUNT,
        srv_of(trimmed(row.cells[0])) is Ok,
        pid_of(trimmed(row.cells[1])) is Ok,
        acc_of(trimmed(row.cells[2])) is Ok,
        status_of(trimmed(row.cells[3])) is Ok,
        u32_field(trimmed(row.cells[5])) is Ok,
        u32_field(trimmed(row.cells[6])) is Ok,
        u32_field(trimmed(row.cells[7])) is Ok,
    ensures
        row_of(row) == Ok::<WorkerScoreView, Failure>(
            WorkerScoreView {
                pid: pid_of(trimmed(row.cells[1]))->Ok_0,
                generation: srv_of(trimmed(row.cells[0]))->Ok_0.1,
                status: status_of(trimmed(row.cells[3]))->Ok_0,
                access_counts: acc_of(trimmed(row.cells[2]))->Ok_0,
                conn_kib: trimmed(row.cells[8]),
                child_mib: trimmed(row.cells[9]),
                slot_mib: trimmed(row.cells[10]),
                request_time_ms: u32_field(trimmed(row.cells[6]))->Ok_0,
                seconds_since_s: u32_field(trimmed(row.cells[5]))->Ok_0,
                cpu: trimmed(row.cells[4]),
                request: trimmed(row.cells[14]),
                vhost: trimmed(row.cells[13]),
                protocol: trimmed(row.cells[12]),
                duration_ms: u32_field(trimmed(row.cells[7]))->Ok_0,
                client: trimmed(row.cells[11]),
            },
        ),
{
}

/// `0` has no white space to trim.
proof fn lemma_zero_is_trimmed()
    ensures
        trimmed(seq!['0']) == seq!['0'],
{
    assert(trim_start(seq!['0']) == seq!['0']);
    assert(trim_end(seq!['0']) == seq!['0']);
}

/// A row without the "CPU" column decodes as the full row that has `0` in
/// that column.
pub proof fn law_missing_cpu_column_reads_as_zero(row: TableRowView)
    requires
        row.cells.len() == COLUMN_COUNT - 1,
    ensures
        row_of(row) == row_of(
            TableRowView { cells: row.cells.insert(CPU_COLUMN as int, seq!['0']), markup: row.markup },
        ),
{
    lemma_zero_is_trimmed();
    let full = row.cells.insert(CPU_COLUMN as int, seq!['0']);
    assert(normalized_cells(row.cells) =~= normalized_cells(full));
}

/// A row with neither 14 nor 15 cells is refused with its markup.
pub proof fn law_wrong_cell_count_is_refused(row: TableRowView)
    requires
        row.cells.len() != COLUMN_COUNT,
        row.cells.len() != COLUMN_COUNT - 1,
    ensures
        row_of(row) == Err::<WorkerScoreView, Failure>(Failure::InvalidCellCount(row.markup)),
{
}

/// A header of at most 15 cells that names, in order, the first expected
/// columns passes, however many cells it has.
pub proof fn law_header_prefix_passes(cells: Seq<Seq<char>>)
    requires
        cells.len() <= COLUMN_COUNT,
        forall|i: int| 0 <= i < cells.len() ==> trimmed(#[trigger] cells[i]) == expected_headers()[i],
    ensures
        headers_valid(cells),
{
}

/// A header of 14 cells that names, in order, the expected columns but
/// "CPU" passes.
pub proof fn law_header_without_cpu_passes(cells: Seq<Seq<char>>)
    requires
        cells.len() == COLUMN_COUNT - 1,
        forall|i: int|
            0 <= i < cells.len() ==> trimmed(#[trigger] cells[i])
                == expected_headers()[position_without_cpu(i)],
    ensures
        headers_valid(cells),
{
}

/// A header with a cell that does not name the expected column at its
/// position fails, unless it is exactly the layout without "CPU".
pub proof fn law_header_mismatch_fails(cells: Seq<Seq<char>>, i: int)
    requires
        0 <= i < cells.len(),
        i < COLUMN_COUNT,
        trimmed(cells[i]) != expected_headers()[i],
        !header_without_cpu_matches(cells),
    ensures
        !headers_valid(cells),
{
}

/// Each status has its own code, and that code reads back as the status.
pub proof fn law_status_code_round_trip(st: WorkerStatus)
    ensures
        status_of_code(code_of_status(st)) == Some(st),
        status_of(seq![code_of_status(st)]) == Ok::<WorkerStatus, Failure>(st),
{
}

/// Data rows that all decode give one record per row, in row order.
pub proof fn law_records_follow_row_order(rows: Seq<TableRowView>)
    requires
        decode_rows(rows) is Ok,
    ensures
        decode_rows(rows)->Ok_0.len() == rows.len(),
        forall|i: int|
            0 <= i < rows.len() ==> #[trigger] row_of(rows[i]) == Ok::<WorkerScoreView, Failure>(
                decode_rows(rows)->Ok_0[i],
            ),
    decreases rows.len(),
{
    if rows.len() > 0 {
        let init = rows.drop_last();
        law_records_follow_row_order(init);
        assert forall|i: int| 0 <= i < rows.len() implies #[trigger] row_of(rows[i]) == Ok::<
            WorkerScoreView,
            Failure,
        >(decode_rows(rows)->Ok_0[i]) by {
            if i < rows.len() - 1 {
                assert(rows[i] == init[i]);
            }
        }
    }
}


/// Data rows that each decode make `decode_rows` succeed.
proof fn lemma_decode_rows_ok(rows: Seq<TableRowView>)
    requires
        forall|i: int| 0 <= i < rows.len() ==> #[trigger] row_of(rows[i]) is Ok,
    ensures
        decode_rows(rows) is Ok,
    decreases rows.len(),
{
    if rows.len() > 0 {
        let init = rows.drop_last();
        assert forall|i: int| 0 <= i < init.len() implies #[trigger] row_of(init[i]) is Ok by {
            assert(init[i] == rows[i]);
        }
        lemma_decode_rows_ok(init);
        assert(row_of(rows[rows.len() - 1]) is Ok);
    }
}

/// A table whose header passes and whose data rows each decode gives one
/// record per data row, in row order, each the record of its row.
pub proof fn law_table_decodes_rows_in_order(rows: Seq<TableRowView>)
    requires
        rows.len() >= 1,
        headers_valid(rows[0].cells),
        forall|i: int| 1 <= i < rows.len() ==> #[trigger] row_of(rows[i]) is Ok,
    ensures
        table_of(rows) is Ok,
        table_of(rows)->Ok_0.len() == rows.len() - 1,
        forall|i: int|
            0 <= i < rows.len() - 1 ==> row_of(rows[i + 1]) == Ok::<WorkerScoreView, Failure>(
                #[trigger] table_of(rows)->Ok_0[i],
            ),
{
    let data = rows.drop_first();
    assert forall|i: int| 0 <= i < data.len() implies #[trigger] row_of(data[i]) is Ok by {
        assert(data[i] == rows[i + 1]);
    }
    lemma_decode_rows_ok(data);
    law_records_follow_row_order(data);
    assert forall|i: int| 0 <= i < rows.len() - 1 implies row_of(rows[i + 1]) == Ok::<
        WorkerScoreView,
        Failure,
    >(#[trigger] table_of(rows)->Ok_0[i]) by {
        assert(data[i] == rows[i + 1]);
    }
}

/// A table whose header is the layout without "CPU" and whose data rows
/// have 14 cells that each decode gives one record per data row, in order,
/// each with `0` as its CPU column.
pub proof fn law_table_without_cpu_column(rows: Seq<TableRowView>)
    requires
        rows.len() >= 1,
        header_without_cpu_matches(rows[0].cells),
        forall|i: int| 1 <= i < rows.len() ==> (#[trigger] rows[i]).cells.len() == COLUMN_COUNT - 1,
        forall|i: int| 1 <= i < rows.len() ==> #[trigger] row_of(rows[i]) is Ok,
    ensures
        table_of(rows) is Ok,
        table_of(rows)->Ok_0.len() == rows.len() - 1,
        forall|i: int|
            0 <= i < rows.len() - 1 ==> (#[trigger] table_of(rows)->Ok_0[i]).cpu == seq!['0'],
{
    law_table_decodes_rows_in_order(rows);
    assert forall|i: int| 0 <= i < rows.len() - 1 implies (#[trigger] table_of(
        rows,
    )->Ok_0[i]).cpu == seq!['0'] by {
        assert(rows[i + 1].cells.len() == COLUMN_COUNT - 1);
        assert(row_of(rows[i + 1]) is Ok);
        assert(normalized_cells(rows[i + 1].cells)[CPU_COLUMN as int] == seq!['0']);
    }
}

} // verus!
