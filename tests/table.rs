use scoreboard::data::{AccessCounts, WorkerStatus};
use scoreboard::html::{parse_worker_scores, table_rows};
use scoreboard::parser::{parse_row, parse_table, validate_headers, TableRow, WorkerScoreParseError};

const HEADERS: [&str; 15] = [
    "Srv", "PID", "Acc", "M", "CPU", "SS", "Req", "Dur", "Conn", "Child", "Slot", "Client",
    "Protocol", "VHost", "Request",
];

fn row(cells: &[&str]) -> TableRow {
    TableRow {
        cells: cells.iter().map(|c| c.to_string()).collect(),
        markup: format!("<tr>{}</tr>", cells.len()),
    }
}

fn full_row() -> TableRow {
    row(&[
        " 0-1 ", "4242", "3/10/20", "W", "0.15", "2", "5", "7", "1.5", "2.25", "3.0",
        "127.0.0.1", "http/1.1", "localhost:80", "GET /server-status HTTP/1.1",
    ])
}

#[test]
fn full_row_decodes_every_column() {
    let w = parse_row(&full_row()).unwrap();
    assert_eq!(w.generation, 1);
    assert_eq!(w.pid, Some(4242));
    assert_eq!(w.access_counts, AccessCounts { connection: 3, child: 10, slot: 20 });
    assert_eq!(w.status, WorkerStatus::BusyWrite);
    assert_eq!(w.cpu, "0.15");
    assert_eq!(w.seconds_since_s, 2);
    assert_eq!(w.request_time_ms, 5);
    assert_eq!(w.duration_ms, 7);
    assert_eq!(w.conn_kib, "1.5");
    assert_eq!(w.child_mib, "2.25");
    assert_eq!(w.slot_mib, "3.0");
    assert_eq!(w.client, "127.0.0.1");
    assert_eq!(w.protocol, "http/1.1");
    assert_eq!(w.vhost, "localhost:80");
    assert_eq!(w.request, "GET /server-status HTTP/1.1");
}

#[test]
fn decoding_same_row_twice_gives_same_record() {
    let a = parse_row(&full_row()).unwrap();
    let b = parse_row(&full_row()).unwrap();
    assert_eq!(format!("{:?}", a), format!("{:?}", b));
}

#[test]
fn row_without_cpu_reads_cpu_as_zero() {
    let short = row(&[
        "0-1", "-", "0/0/0", "_", "2", "5", "7", "1.5", "2.25", "3.0", "127.0.0.1", "http/1.1",
        "localhost:80", "GET / HTTP/1.1",
    ]);
    let w = parse_row(&short).unwrap();
    assert_eq!(w.cpu, "0");
    assert_eq!(w.pid, None);
    assert_eq!(w.status, WorkerStatus::Ready);
    assert_eq!(w.seconds_since_s, 2);
    assert_eq!(w.request_time_ms, 5);
    assert_eq!(w.duration_ms, 7);
    assert_eq!(w.conn_kib, "1.5");
    assert_eq!(w.request, "GET / HTTP/1.1");
}

#[test]
fn wrong_cell_counts_are_refused() {
    for n in [0usize, 1, 13, 16, 20] {
        let cells: Vec<&str> = (0..n).map(|_| "1").collect();
        match parse_row(&row(&cells)) {
            Err(WorkerScoreParseError::InvalidCellCount(m)) => {
                assert_eq!(m, format!("<tr>{}</tr>", n))
            }
            other => panic!("unexpected {:?}", other),
        }
    }
}

#[test]
fn first_bad_column_is_reported() {
    let mut r = full_row();
    r.cells[3] = "Z".to_string();
    r.cells[5] = "x".to_string();
    assert!(matches!(parse_row(&r), Err(WorkerScoreParseError::InvalidStatusCode('Z'))));
    let mut r = full_row();
    r.cells[6] = "-1".to_string();
    assert!(matches!(parse_row(&r), Err(WorkerScoreParseError::ParseIntError(_))));
}

#[test]
fn full_header_passes_twice() {
    let h = row(&HEADERS);
    assert!(validate_headers(&h).is_ok());
    assert!(validate_headers(&h).is_ok());
}

#[test]
fn truncated_matching_header_passes() {
    assert!(validate_headers(&row(&HEADERS[..6])).is_ok());
    assert!(validate_headers(&row(&[" Srv ", "PID"])).is_ok());
    assert!(validate_headers(&row(&[])).is_ok());
}

#[test]
fn truncated_mismatching_header_fails_twice() {
    let h = row(&["Srv", "Pid"]);
    assert!(matches!(validate_headers(&h), Err(WorkerScoreParseError::InvalidHeaders())));
    assert!(matches!(validate_headers(&h), Err(WorkerScoreParseError::InvalidHeaders())));
}

#[test]
fn header_without_cpu_column_passes() {
    let names: Vec<&str> = HEADERS.iter().copied().filter(|h| *h != "CPU").collect();
    assert!(validate_headers(&row(&names)).is_ok());
    assert!(validate_headers(&row(&names)).is_ok());
}

#[test]
fn header_without_cpu_column_with_extra_cell_fails() {
    let mut names: Vec<&str> = HEADERS.iter().copied().filter(|h| *h != "CPU").collect();
    names.push("Extra");
    assert!(matches!(validate_headers(&row(&names)), Err(WorkerScoreParseError::InvalidHeaders())));
    names.pop();
    names[7] = "Kids";
    assert!(matches!(validate_headers(&row(&names)), Err(WorkerScoreParseError::InvalidHeaders())));
}

#[test]
fn table_stops_at_bad_header() {
    let rows = vec![row(&["Srv", "X"]), row(&["too", "few"])];
    assert!(matches!(parse_table(&rows), Err(WorkerScoreParseError::InvalidHeaders())));
}

#[test]
fn table_stops_at_first_bad_row() {
    let rows = vec![row(&HEADERS), full_row(), row(&["bad"]), row(&["1-2"])];
    match parse_table(&rows) {
        Err(WorkerScoreParseError::InvalidCellCount(m)) => assert_eq!(m, "<tr>1</tr>"),
        other => panic!("unexpected {:?}", other),
    }
}

#[test]
fn empty_table_has_no_workers() {
    assert_eq!(parse_table(&vec![]).unwrap().len(), 0);
    assert_eq!(parse_table(&vec![row(&HEADERS)]).unwrap().len(), 0);
}

fn cells_html(tag: &str, cells: &[&str]) -> String {
    let mut s = String::from("<tr>");
    for c in cells {
        s.push_str(&format!("<{tag}>{c}</{tag}>"));
    }
    s.push_str("</tr>");
    s
}

#[test]
fn document_with_two_rows_gives_two_records_in_order() {
    let html = format!(
        "<html><body><table border=\"1\"><tr><td>other</td></tr></table><table border=\"0\">{}{}{}</table></body></html>",
        cells_html("th", &HEADERS),
        cells_html("td", &[
            "<b>0-3</b>", "100", "1/2/3", "K", "0.5", "1", "2", "3", "0.1", "0.2", "0.3", "10.0.0.1",
            "http/1.1", "a.example", "GET /a HTTP/1.1",
        ]),
        cells_html("td", &[
            "1-3", "-", "0/0/0", ".", "0.0", "9", "0", "0", "0.0", "0.0", "0.0", "?", "", "",
            "",
        ]),
    );
    let document = html.as_str();
    assert_eq!(table_rows(document).len(), 3);
    let workers = parse_worker_scores(document).unwrap();
    assert_eq!(workers.len(), 2);
    assert_eq!(workers[0].generation, 3);
    assert_eq!(workers[0].pid, Some(100));
    assert_eq!(workers[0].status, WorkerStatus::BusyKeepAlive);
    assert_eq!(workers[0].access_counts, AccessCounts { connection: 1, child: 2, slot: 3 });
    assert_eq!(workers[0].cpu, "0.5");
    assert_eq!(workers[0].client, "10.0.0.1");
    assert_eq!(workers[0].request, "GET /a HTTP/1.1");
    assert_eq!(workers[1].pid, None);
    assert_eq!(workers[1].status, WorkerStatus::Dead);
    assert_eq!(workers[1].seconds_since_s, 9);
    assert_eq!(workers[1].client, "?");
}

#[test]
fn document_with_fourteen_cell_rows_reads_cpu_as_zero() {
    let data = [
        "0-1", "7", "4/5/6", "R", "1", "2", "3", "0.1", "0.2", "0.3", "10.0.0.1", "http/1.1",
        "a.example", "GET / HTTP/1.1",
    ];
    let html = format!(
        "<table border=\"0\">{}{}{}</table>",
        cells_html("th", &HEADERS),
        cells_html("td", &data),
        cells_html("td", &data),
    );
    let workers = parse_worker_scores(html.as_str()).unwrap();
    assert_eq!(workers.len(), 2);
    assert_eq!(workers[0].cpu, "0");
    assert_eq!(workers[1].cpu, "0");
    assert_eq!(workers[1].seconds_since_s, 1);
}

#[test]
fn document_bad_row_markup_is_kept() {
    let html = format!(
        "<table border=\"0\">{}<tr><td>0-1</td></tr></table>",
        cells_html("th", &HEADERS)
    );
    match parse_worker_scores(html.as_str()) {
        Err(WorkerScoreParseError::InvalidCellCount(m)) => assert_eq!(m, "<tr><td>0-1</td></tr>"),
        other => panic!("unexpected {:?}", other),
    }
}

#[test]
fn two_border_less_tables_are_read_as_one() {
    let data = [
        "0-1", "7", "4/5/6", "R", "0.1", "1", "2", "3", "0.1", "0.2", "0.3", "10.0.0.1",
        "http/1.1", "a.example", "GET / HTTP/1.1",
    ];
    let table = format!(
        "<table border=\"0\">{}{}</table>",
        cells_html("th", &HEADERS),
        cells_html("td", &data)
    );
    let html = format!("{}{}", table, table);
    let document = html.as_str();
    assert_eq!(table_rows(document).len(), 4);
    match parse_worker_scores(document) {
        Err(WorkerScoreParseError::SrvFieldUnknownFormat(s)) => assert_eq!(s, "Srv"),
        other => panic!("unexpected {:?}", other),
    }
}

#[test]
fn table_rows_hold_cell_texts_and_markup() {
    let html = "<p><table border=\"0\"><tr><td> a </td><td><b>b</b>c</td></tr></table></p>";
    let rows = table_rows(html);
    assert_eq!(rows.len(), 1);
    assert_eq!(rows[0].cells, vec![" a ".to_string(), "bc".to_string()]);
    assert_eq!(rows[0].markup, "<tr><td> a </td><td><b>b</b>c</td></tr>");
}

#[test]
fn document_without_cpu_column_reads_cpu_as_zero() {
    let names: Vec<&str> = HEADERS.iter().copied().filter(|h| *h != "CPU").collect();
    let first = [
        "0-2", "11", "1/2/3", "W", "4", "5", "6", "0.1", "0.2", "0.3", "10.0.0.1", "http/1.1",
        "a.example", "GET /a HTTP/1.1",
    ];
    let second = [
        "1-2", "-", "0/0/0", "_", "8", "0", "0", "0.0", "0.0", "0.0", "?", "", "", "",
    ];
    let html = format!(
        "<table border=\"0\">{}{}{}</table>",
        cells_html("th", &names),
        cells_html("td", &first),
        cells_html("td", &second),
    );
    let workers = parse_worker_scores(html.as_str()).unwrap();
    assert_eq!(workers.len(), 2);
    assert_eq!(workers[0].cpu, "0");
    assert_eq!(workers[1].cpu, "0");
    assert_eq!(workers[0].generation, 2);
    assert_eq!(workers[0].pid, Some(11));
    assert_eq!(workers[0].status, WorkerStatus::BusyWrite);
    assert_eq!(workers[0].seconds_since_s, 4);
    assert_eq!(workers[0].request_time_ms, 5);
    assert_eq!(workers[0].duration_ms, 6);
    assert_eq!(workers[0].conn_kib, "0.1");
    assert_eq!(workers[0].request, "GET /a HTTP/1.1");
    assert_eq!(workers[1].pid, None);
    assert_eq!(workers[1].status, WorkerStatus::Ready);
    assert_eq!(workers[1].seconds_since_s, 8);
}
