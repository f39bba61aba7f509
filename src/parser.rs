//! Decoding of the scoreboard table: header check, row decoding and the
//! parsers of the individual columns.
use vstd::prelude::*;
use crate::data::{AccessCounts, WorkerScore, WorkerScoreView, WorkerStatus};
use crate::text::{
    i32_of_text, parse_i32, parse_u32, split_at_char, split_text, trim_text, trimmed,
    u32_of_text,
};

verus! {

#[verifier::external_type_specification]
#[verifier::external_body]
pub struct ExParseFloatError(std::num::ParseFloatError);

/// Why a scoreboard table could not be decoded.
#[derive(Debug)]
pub enum WorkerScoreParseError {
    /// The header row does not name the expected columns.
    InvalidHeaders(),
    /// A row with neither 14 nor 15 cells; holds the row's markup.
    InvalidCellCount(String),
    /// The "M" column is not exactly one byte, one ASCII character, long.
    StatusCodeMustBeChar(String),
    /// The "M" column holds a character that names no status.
    InvalidStatusCode(char),
    /// The "Acc" column is not three `/`-separated counts.
    AccessCountsInvalidFieldCount(String),
    /// The "Srv" column is not two `-`-separated numbers.
    SrvFieldUnknownFormat(String),
    /// A decimal-fraction column that does not read as a number, raised where
    /// its text is converted.
    ParseFloatError(std::num::ParseFloatError),
    /// An integer column that is no integer of its type.
    ParseIntError(std::num::ParseIntError),
}

/// A `WorkerScoreParseError` with its texts as character sequences and the
/// conversion errors reduced to their kind.
pub enum Failure {
    InvalidHeaders,
    InvalidCellCount(Seq<char>),
    StatusCodeMustBeChar(Seq<char>),
    InvalidStatusCode(char),
    AccessCountsInvalidFieldCount(Seq<char>),
    SrvFieldUnknownFormat(Seq<char>),
    BadFloat,
    BadInt,
}

impl View for WorkerScoreParseError {
    type V = Failure;

    open spec fn view(&self) -> Failure {
        match self {
            WorkerScoreParseError::InvalidHeaders() => Failure::InvalidHeaders,
            WorkerScoreParseError::InvalidCellCount(s) => Failure::InvalidCellCount(s@),
            WorkerScoreParseError::StatusCodeMustBeChar(s) => Failure::StatusCodeMustBeChar(s@),
            WorkerScoreParseError::InvalidStatusCode(c) => Failure::InvalidStatusCode(*c),
            WorkerScoreParseError::AccessCountsInvalidFieldCount(s) => {
                Failure::AccessCountsInvalidFieldCount(s@)
            },
            WorkerScoreParseError::SrvFieldUnknownFormat(s) => Failure::SrvFieldUnknownFormat(s@),
            WorkerScoreParseError::ParseFloatError(_) => Failure::BadFloat,
            WorkerScoreParseError::ParseIntError(_) => Failure::BadInt,
        }
    }
}

/// A result with its error seen through the error's view.
pub open spec fn outcome<T>(r: Result<T, WorkerScoreParseError>) -> Result<T, Failure> {
    match r {
        Ok(v) => Ok(v),
        Err(e) => Err(e@),
    }
}

/// An integer column of type `i32`.
pub open spec fn i32_field(s: Seq<char>) -> Result<i32, Failure> {
    match i32_of_text(s) {
        Some(v) => Ok(v),
        None => Err(Failure::BadInt),
    }
}

/// An integer column of type `u32`.
pub open spec fn u32_field(s: Seq<char>) -> Result<u32, Failure> {
    match u32_of_text(s) {
        Some(v) => Ok(v),
        None => Err(Failure::BadInt),
    }
}

/// The "Srv" column, `<child number>-<generation>`.
pub open spec fn srv_of(s: Seq<char>) -> Result<(i32, i32), Failure> {
    let parts = split_at_char(s, '-');
    if parts.len() != 2 {
        Err(Failure::SrvFieldUnknownFormat(s))
    } else {
        match i32_field(parts[0]) {
            Err(e) => Err(e),
            Ok(child) => match i32_field(parts[1]) {
                Err(e) => Err(e),
                Ok(generation) => Ok((child, generation)),
            },
        }
    }
}

/// The "PID" column: `-` for a slot without a live process.
pub open spec fn pid_of(s: Seq<char>) -> Result<Option<i32>, Failure> {
    if s == seq!['-'] {
        Ok(None)
    } else {
        match i32_field(s) {
            Err(e) => Err(e),
            Ok(v) => Ok(Some(v)),
        }
    }
}

/// The "Acc" column, `<connection>/<child>/<slot>`.
pub open spec fn acc_of(s: Seq<char>) -> Result<AccessCounts, Failure> {
    let parts = split_at_char(s, '/');
    if parts.len() != 3 {
        Err(Failure::AccessCountsInvalidFieldCount(s))
    } else {
        match u32_field(parts[0]) {
            Err(e) => Err(e),
            Ok(connection) => match u32_field(parts[1]) {
                Err(e) => Err(e),
                Ok(child) => match u32_field(parts[2]) {
                    Err(e) => Err(e),
                    Ok(slot) => Ok(AccessCounts { connection, child, slot }),
                },
            },
        }
    }
}

/// The status that a one-character code of the "M" column names.
pub open spec fn status_of_code(c: char) -> Option<WorkerStatus> {
    if c == '_' {
        Some(WorkerStatus::Ready)
    } else if c == 'S' {
        Some(WorkerStatus::Starting)
    } else if c == 'R' {
        Some(WorkerStatus::BusyRead)
    } else if c == 'W' {
        Some(WorkerStatus::BusyWrite)
    } else if c == 'K' {
        Some(WorkerStatus::BusyKeepAlive)
    } else if c == 'L' {
        Some(WorkerStatus::BusyLog)
    } else if c == 'D' {
        Some(WorkerStatus::BusyDns)
    } else if c == 'C' {
        Some(WorkerStatus::Closing)
    } else if c == '.' {
        Some(WorkerStatus::Dead)
    } else if c == 'G' {
        Some(WorkerStatus::Graceful)
    } else if c == 'I' {
        Some(WorkerStatus::IdleKill)
    } else {
        None
    }
}

/// The code that stands for `st` in the "M" column.
pub open spec fn code_of_status(st: WorkerStatus) -> char {
    match st {
        WorkerStatus::Ready => '_',
        WorkerStatus::Starting => 'S',
        WorkerStatus::BusyRead => 'R',
        WorkerStatus::BusyWrite => 'W',
        WorkerStatus::BusyKeepAlive => 'K',
        WorkerStatus::BusyLog => 'L',
        WorkerStatus::BusyDns => 'D',
        WorkerStatus::Closing => 'C',
        WorkerStatus::Dead => '.',
        WorkerStatus::Graceful => 'G',
        WorkerStatus::IdleKill => 'I',
    }
}

/// The "M" column: exactly one byte, that is one ASCII character, naming a
/// status.
pub open spec fn status_of(s: Seq<char>) -> Result<WorkerStatus, Failure> {
    if !(s.len() == 1 && s[0] <= '\u{7f}') {
        Err(Failure::StatusCodeMustBeChar(s))
    } else {
        match status_of_code(s[0]) {
            Some(st) => Ok(st),
            None => Err(Failure::InvalidStatusCode(s[0])),
        }
    }
}

/// Decodes the "Srv" column into `(child number, generation)`.
pub fn parse_srv(s: &str) -> (r: Result<(i32, i32), WorkerScoreParseError>)
    ensures
        outcome(r) == srv_of(s@),
{
    let parts = split_text(s, '-');
    if parts.len() != 2 {
        return Err(WorkerScoreParseError::SrvFieldUnknownFormat(s.to_owned()));
    }
    let child = match parse_i32(parts[0].as_str()) {
        Ok(v) => v,
        Err(e) => return Err(WorkerScoreParseError::ParseIntError(e)),
    };
    let generation = match parse_i32(parts[1].as_str()) {
        Ok(v) => v,
        Err(e) => return Err(WorkerScoreParseError::ParseIntError(e)),
    };
    Ok((child, generation))
}

/// Decodes the "PID" column; `-` is a slot without a live process.
pub fn parse_pid(s: &str) -> (r: Result<Option<i32>, WorkerScoreParseError>)
    ensures
        outcome(r) == pid_of(s@),
{
    if s.unicode_len() == 1 && s.get_char(0) == '-' {
        assert(s@ =~= seq!['-']);
        return Ok(None);
    }
    match parse_i32(s) {
        Ok(v) => Ok(Some(v)),
        Err(e) => Err(WorkerScoreParseError::ParseIntError(e)),
    }
}

/// Decodes the "Acc" column into its three counts.
pub fn parse_acc(s: &str) -> (r: Result<AccessCounts, WorkerScoreParseError>)
    ensures
        outcome(r) == acc_of(s@),
{
    let parts = split_text(s, '/');
    if parts.len() != 3 {
        return Err(WorkerScoreParseError::AccessCountsInvalidFieldCount(s.to_owned()));
    }
    let connection = match parse_u32(parts[0].as_str()) {
        Ok(v) => v,
        Err(e) => return Err(WorkerScoreParseError::ParseIntError(e)),
    };
    let child = match parse_u32(parts[1].as_str()) {
        Ok(v) => v,
        Err(e) => return Err(WorkerScoreParseError::ParseIntError(e)),
    };
    let slot = match parse_u32(parts[2].as_str()) {
        Ok(v) => v,
        Err(e) => return Err(WorkerScoreParseError::ParseIntError(e)),
    };
    Ok(AccessCounts { connection, child, slot })
}

/// The status that a code of the "M" column names, if any.
pub fn status_from_code(c: char) -> (r: Option<WorkerStatus>)
    ensures
        r == status_of_code(c),
{
    match c {
        '_' => Some(WorkerStatus::Ready),
        'S' => Some(WorkerStatus::Starting),
        'R' => Some(WorkerStatus::BusyRead),
        'W' => Some(WorkerStatus::BusyWrite),
        'K' => Some(WorkerStatus::BusyKeepAlive),
        'L' => Some(WorkerStatus::BusyLog),
        'D' => Some(WorkerStatus::BusyDns),
        'C' => Some(WorkerStatus::Closing),
        '.' => Some(WorkerStatus::Dead),
        'G' => Some(WorkerStatus::Graceful),
        'I' => Some(WorkerStatus::IdleKill),
        _ => None,
    }
}

/// Decodes the "M" column, one character that names the worker's status.
pub fn parse_worker_status(s: &str) -> (r: Result<WorkerStatus, WorkerScoreParseError>)
    ensures
        outcome(r) == status_of(s@),
{
    if s.unicode_len() != 1 {
        return Err(WorkerScoreParseError::StatusCodeMustBeChar(s.to_owned()));
    }
    let code = s.get_char(0);
    if code > '\u{7f}' {
        return Err(WorkerScoreParseError::StatusCodeMustBeChar(s.to_owned()));
    }
    match status_from_code(code) {
        Some(st) => Ok(st),
        None => Err(WorkerScoreParseError::InvalidStatusCode(code)),
    }
}


/// One row of the scoreboard table: the text of each of its cells, in order,
/// and the row's markup, kept for diagnostics.
#[derive(Debug)]
pub struct TableRow {
    pub cells: Vec<String>,
    pub markup: String,
}

pub struct TableRowView {
    pub cells: Seq<Seq<char>>,
    pub markup: Seq<char>,
}

/// The character sequences of a sequence of strings.
pub open spec fn texts(v: Seq<String>) -> Seq<Seq<char>> {
    v.map_values(|c: String| c@)
}

impl View for TableRow {
    type V = TableRowView;

    open spec fn view(&self) -> TableRowView {
        TableRowView { cells: texts(self.cells@), markup: self.markup@ }
    }
}

/// Number of columns of the full layout.
pub const COLUMN_COUNT: usize = 15;

/// Position of the optional "CPU" column.
pub const CPU_COLUMN: usize = 4;

/// The column names of the full layout, in order.
pub open spec fn expected_headers() -> Seq<Seq<char>> {
    seq![
        "Srv"@, "PID"@, "Acc"@, "M"@, "CPU"@, "SS"@, "Req"@, "Dur"@, "Conn"@, "Child"@,
        "Slot"@, "Client"@, "Protocol"@, "VHost"@, "Request"@,
    ]
}

/// Each header cell present, trimmed, names the expected column at its
/// position; cells past the expected names, and names past the cells, are not
/// compared.
pub open spec fn header_prefix_matches(cells: Seq<Seq<char>>) -> bool {
    forall|i: int|
        0 <= i < cells.len() && i < expected_headers().len() ==> trimmed(#[trigger] cells[i])
            == expected_headers()[i]
}

/// The position, in the full layout, of the column at position `i` of the
/// layout without the "CPU" column.
pub open spec fn position_without_cpu(i: int) -> int {
    if i < CPU_COLUMN {
        i
    } else {
        i + 1
    }
}

/// The header has 14 cells which, trimmed, name the expected columns but
/// "CPU", in order.
pub open spec fn header_without_cpu_matches(cells: Seq<Seq<char>>) -> bool {
    &&& cells.len() == COLUMN_COUNT - 1
    &&& forall|i: int|
        0 <= i < cells.len() ==> trimmed(#[trigger] cells[i])
            == expected_headers()[position_without_cpu(i)]
}

/// The header row passes: it matches the full layout as far as it goes, or
/// it is exactly the layout without the "CPU" column.
pub open spec fn headers_valid(cells: Seq<Seq<char>>) -> bool {
    header_prefix_matches(cells) || header_without_cpu_matches(cells)
}

/// The name of the column at position `i` of the full layout.
pub fn expected_header(i: usize) -> (r: &'static str)
    requires
        i < COLUMN_COUNT,
    ensures
        r@ == expected_headers()[i as int],
{
    match i {
        0 => "Srv",
        1 => "PID",
        2 => "Acc",
        3 => "M",
        4 => "CPU",
        5 => "SS",
        6 => "Req",
        7 => "Dur",
        8 => "Conn",
        9 => "Child",
        10 => "Slot",
        11 => "Client",
        12 => "Protocol",
        13 => "VHost",
        _ => "Request",
    }
}

/// Whether the cells match the full layout as far as they go.
fn matches_full_layout(cells: &Vec<String>) -> (r: bool)
    ensures
        r == header_prefix_matches(texts(cells@)),
{
    let mut i: usize = 0;
    while i < cells.len() && i < COLUMN_COUNT
        invariant
            i <= cells@.len(),
            i <= COLUMN_COUNT,
            forall|j: int| 0 <= j < i ==> trimmed(#[trigger] texts(cells@)[j]) == expected_headers()[j],
        decreases COLUMN_COUNT - i,
    {
        let cell = trim_text(cells[i].as_str());
        let expected = String::from_str(expected_header(i));
        if cell != expected {
            assert(trimmed(texts(cells@)[i as int]) != expected_headers()[i as int]);
            return false;
        }
        i = i + 1;
    }
    true
}

/// Whether the cells are exactly the layout without the "CPU" column.
fn matches_layout_without_cpu(cells: &Vec<String>) -> (r: bool)
    ensures
        r == header_without_cpu_matches(texts(cells@)),
{
    if cells.len() != COLUMN_COUNT - 1 {
        return false;
    }
    let mut i: usize = 0;
    while i < cells.len()
        invariant
            i <= cells@.len(),
            cells@.len() == COLUMN_COUNT - 1,
            forall|j: int|
                0 <= j < i ==> trimmed(#[trigger] texts(cells@)[j])
                    == expected_headers()[position_without_cpu(j)],
        decreases cells@.len() - i,
    {
        let cell = trim_text(cells[i].as_str());
        let position = if i < CPU_COLUMN {
            i
        } else {
            i + 1
        };
        let expected = String::from_str(expected_header(position));
        if cell != expected {
            assert(trimmed(texts(cells@)[i as int]) != expected_headers()[position_without_cpu(
                i as int,
            )]);
            return false;
        }
        i = i + 1;
    }
    true
}

/// Checks the header row: it must name the columns of the full layout as far
/// as it goes, or be exactly the layout without the "CPU" column.
pub fn validate_headers(row: &TableRow) -> (r: Result<(), WorkerScoreParseError>)
    ensures
        r is Ok <==> headers_valid(row@.cells),
        r matches Err(e) ==> e@ == Failure::InvalidHeaders,
{
    if matches_full_layout(&row.cells) || matches_layout_without_cpu(&row.cells) {
        Ok(())
    } else {
        Err(WorkerScoreParseError::InvalidHeaders())
    }
}


/// The trimmed cells of a row, with `0` in place of a missing "CPU" column.
pub open spec fn normalized_cells(cells: Seq<Seq<char>>) -> Seq<Seq<char>> {
    let t = cells.map_values(|c: Seq<char>| trimmed(c));
    if t.len() == COLUMN_COUNT - 1 {
        t.insert(CPU_COLUMN as int, seq!['0'])
    } else {
        t
    }
}

/// The worker record that a data row decodes to, or the first failure met
/// when its columns are read in order.
pub open spec fn row_of(row: TableRowView) -> Result<WorkerScoreView, Failure> {
    if row.cells.len() != COLUMN_COUNT && row.cells.len() != COLUMN_COUNT - 1 {
        Err(Failure::InvalidCellCount(row.markup))
    } else {
        let c = normalized_cells(row.cells);
        match srv_of(c[0]) {
            Err(e) => Err(e),
            Ok(srv) => match pid_of(c[1]) {
                Err(e) => Err(e),
                Ok(pid) => match acc_of(c[2]) {
                    Err(e) => Err(e),
                    Ok(acc) => match status_of(c[3]) {
                        Err(e) => Err(e),
                        Ok(status) => match u32_field(c[5]) {
                            Err(e) => Err(e),
                            Ok(ss) => match u32_field(c[6]) {
                                Err(e) => Err(e),
                                Ok(req) => match u32_field(c[7]) {
                                    Err(e) => Err(e),
                                    Ok(dur) => Ok(
                                        WorkerScoreView {
                                            pid,
                                            generation: srv.1,
                                            status,
                                            access_counts: acc,
                                            conn_kib: c[8],
                                            child_mib: c[9],
                                            slot_mib: c[10],
                                            request_time_ms: req,
                                            seconds_since_s: ss,
                                            cpu: c[4],
                                            request: c[14],
                                            vhost: c[13],
                                            protocol: c[12],
                                            duration_ms: dur,
                                            client: c[11],
                                        },
                                    ),
                                },
                            },
                        },
                    },
                },
            },
        }
    }
}

/// A decoded record, or the error, seen through their views.
pub open spec fn score_outcome(r: Result<WorkerScore, WorkerScoreParseError>) -> Result<
    WorkerScoreView,
    Failure,
> {
    match r {
        Ok(w) => Ok(w@),
        Err(e) => Err(e@),
    }
}

/// The trimmed texts of `cells`, in order.
fn trimmed_cells(cells: &Vec<String>) -> (r: Vec<String>)
    ensures
        texts(r@) == texts(cells@).map_values(|c: Seq<char>| trimmed(c)),
{
    let mut out: Vec<String> = Vec::new();
    let mut i: usize = 0;
    while i < cells.len()
        invariant
            i <= cells@.len(),
            out@.len() == i,
            forall|j: int| 0 <= j < i ==> #[trigger] out@[j]@ == trimmed(cells@[j]@),
        decreases cells@.len() - i,
    {
        out.push(trim_text(cells[i].as_str()));
        i = i + 1;
    }
    assert(texts(out@) =~= texts(cells@).map_values(|c: Seq<char>| trimmed(c)));
    out
}

/// Decodes a u32 column.
fn parse_u32_field(s: &str) -> (r: Result<u32, WorkerScoreParseError>)
    ensures
        outcome(r) == u32_field(s@),
{
    match parse_u32(s) {
        Ok(v) => Ok(v),
        Err(e) => Err(WorkerScoreParseError::ParseIntError(e)),
    }
}

/// Decodes one data row of the scoreboard table into a worker record.
///
/// A row has 15 cells, or 14 where the page has no "CPU" column; the columns
/// are read in order and the first one that does not decode is the error.
pub fn parse_row(row: &TableRow) -> (r: Result<WorkerScore, WorkerScoreParseError>)
    ensures
        score_outcome(r) == row_of(row@),
{
    let n = row.cells.len();
    if n != COLUMN_COUNT && n != COLUMN_COUNT - 1 {
        return Err(WorkerScoreParseError::InvalidCellCount(row.markup.clone()));
    }
    let mut cols = trimmed_cells(&row.cells);
    let ghost t = texts(cols@);
    if n == COLUMN_COUNT - 1 {
        let zero = String::from_str("0");
        proof {
            reveal_strlit("0");
        }
        assert(zero@ =~= seq!['0']);
        cols.insert(CPU_COLUMN, zero);
        assert(texts(cols@) =~= t.insert(CPU_COLUMN as int, seq!['0']));
    }
    let ghost c = normalized_cells(row@.cells);
    assert(texts(cols@) =~= c);
    assert(forall|j: int| 0 <= j < COLUMN_COUNT ==> #[trigger] cols@[j]@ == c[j]);
    let generation = match parse_srv(cols[0].as_str()) {
        Ok(srv) => srv.1,
        Err(e) => return Err(e),
    };
    let pid = match parse_pid(cols[1].as_str()) {
        Ok(v) => v,
        Err(e) => return Err(e),
    };
    let access_counts = match parse_acc(cols[2].as_str()) {
        Ok(v) => v,
        Err(e) => return Err(e),
    };
    let status = match parse_worker_status(cols[3].as_str()) {
        Ok(v) => v,
        Err(e) => return Err(e),
    };
    let seconds_since_s = match parse_u32_field(cols[5].as_str()) {
        Ok(v) => v,
        Err(e) => return Err(e),
    };
    let request_time_ms = match parse_u32_field(cols[6].as_str()) {
        Ok(v) => v,
        Err(e) => return Err(e),
    };
    let duration_ms = match parse_u32_field(cols[7].as_str()) {
        Ok(v) => v,
        Err(e) => return Err(e),
    };
    Ok(
        WorkerScore {
            pid,
            generation,
            status,
            access_counts,
            conn_kib: cols[8].clone(),
            child_mib: cols[9].clone(),
            slot_mib: cols[10].clone(),
            request_time_ms,
            seconds_since_s,
            cpu: cols[4].clone(),
            request: cols[14].clone(),
            vhost: cols[13].clone(),
            protocol: cols[12].clone(),
            duration_ms,
            client: cols[11].clone(),
        },
    )
}


/// The views of a sequence of rows.
pub open spec fn row_views(rows: Seq<TableRow>) -> Seq<TableRowView> {
    rows.map_values(|r: TableRow| r@)
}

/// The records that data rows decode to, in order, or the failure of the
/// first row that does not decode.
pub open spec fn decode_rows(rows: Seq<TableRowView>) -> Result<Seq<WorkerScoreView>, Failure>
    decreases rows.len(),
{
    if rows.len() == 0 {
        Ok(Seq::empty())
    } else {
        match decode_rows(rows.drop_last()) {
            Err(e) => Err(e),
            Ok(prev) => match row_of(rows.last()) {
                Err(e) => Err(e),
                Ok(w) => Ok(prev.push(w)),
            },
        }
    }
}

/// What a whole table decodes to: the first row is the header and must pass
/// the header check before any data row is read.
pub open spec fn table_of(rows: Seq<TableRowView>) -> Result<Seq<WorkerScoreView>, Failure> {
    if rows.len() == 0 {
        Ok(Seq::empty())
    } else if !headers_valid(rows[0].cells) {
        Err(Failure::InvalidHeaders)
    } else {
        decode_rows(rows.drop_first())
    }
}

/// Once some leading rows fail to decode, rows after them change nothing.
proof fn lemma_decode_rows_error_persists(rows: Seq<TableRowView>, n: int)
    requires
        0 <= n <= rows.len(),
        decode_rows(rows.subrange(0, n)) is Err,
    ensures
        decode_rows(rows) == decode_rows(rows.subrange(0, n)),
    decreases rows.len() - n,
{
    if n < rows.len() {
        let longer = rows.subrange(0, n + 1);
        assert(longer.drop_last() =~= rows.subrange(0, n));
        lemma_decode_rows_error_persists(rows, n + 1);
    } else {
        assert(rows.subrange(0, n) =~= rows);
    }
}

/// Decoded records, or the error, seen through their views.
pub open spec fn scores_outcome(r: Result<Vec<WorkerScore>, WorkerScoreParseError>) -> Result<
    Seq<WorkerScoreView>,
    Failure,
> {
    match r {
        Ok(v) => Ok(v@.map_values(|w: WorkerScore| w@)),
        Err(e) => Err(e@),
    }
}

/// Decodes the rows of the scoreboard table: the header row first, then each
/// data row in order, stopping at the first error.
pub fn parse_table(rows: &Vec<TableRow>) -> (r: Result<Vec<WorkerScore>, WorkerScoreParseError>)
    ensures
        scores_outcome(r) == table_of(row_views(rows@)),
{
    let ghost views = row_views(rows@);
    let mut scores: Vec<WorkerScore> = Vec::new();
    if rows.len() == 0 {
        assert(scores@.map_values(|w: WorkerScore| w@) =~= Seq::<WorkerScoreView>::empty());
        return Ok(scores);
    }
    match validate_headers(&rows[0]) {
        Ok(()) => {},
        Err(e) => return Err(e),
    }
    assert(views[0] == rows@[0]@);
    assert(headers_valid(views[0].cells));
    let mut i: usize = 1;
    assert(views.subrange(1, 1) =~= Seq::<TableRowView>::empty());
    assert(scores@.map_values(|w: WorkerScore| w@) =~= Seq::<WorkerScoreView>::empty());
    while i < rows.len()
        invariant
            1 <= i <= rows@.len(),
            views == row_views(rows@),
            headers_valid(views[0].cells),
            decode_rows(views.subrange(1, i as int)) == Ok::<Seq<WorkerScoreView>, Failure>(
                scores@.map_values(|w: WorkerScore| w@),
            ),
        decreases rows@.len() - i,
    {
        let ghost before = scores@;
        let ghost done = views.subrange(1, i as int);
        assert(views.subrange(1, i + 1).drop_last() =~= done);
        assert(views.subrange(1, i + 1).last() == rows@[i as int]@);
        match parse_row(&rows[i]) {
            Ok(w) => scores.push(w),
            Err(e) => {
                proof {
                    assert(decode_rows(views.subrange(1, i + 1)) == Err::<
                        Seq<WorkerScoreView>,
                        Failure,
                    >(e@));
                    let tail = views.drop_first();
                    assert(tail.subrange(0, i as int) =~= views.subrange(1, i + 1));
                    lemma_decode_rows_error_persists(tail, i as int);
                }
                return Err(e);
            },
        }
        assert(scores@.map_values(|w: WorkerScore| w@) =~= before.map_values(
            |w: WorkerScore| w@,
        ).push(scores@.last()@));
        i = i + 1;
    }
    assert(views.subrange(1, rows@.len() as int) =~= views.drop_first());
    Ok(scores)
}


} // verus!
