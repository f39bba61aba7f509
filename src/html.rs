//! Locating the scoreboard table in an HTML page.
use vstd::prelude::*;
use select::document::Document;
use select::predicate::{And, Attr, Descendant, Name};
use crate::data::WorkerScore;
use crate::parser::{
    parse_table, row_views, scores_outcome, table_of, TableRow, TableRowView,
    WorkerScoreParseError,
};

verus! {

/// The rows that `select_rows` finds in the HTML text `page`: each element
/// named `row` that has an ancestor named `table` whose attribute `attr` is
/// `value`, in document order, with the texts of its child nodes and its
/// markup.
pub uninterp spec fn rows_matching(
    page: Seq<char>,
    table: Seq<char>,
    attr: Seq<char>,
    value: Seq<char>,
    row: Seq<char>,
) -> Seq<TableRowView>;

/// The rows of the border-less tables of `page`: the scoreboard table.
pub open spec fn scoreboard_rows(page: Seq<char>) -> Seq<TableRowView> {
    rows_matching(page, "table"@, "border"@, "0"@, "tr"@)
}

/// Relies on `Document::from(&str)`, which builds the tree by the HTML
/// parsing algorithm, then on `Document::find` with a
/// `Descendant(And(Name, Attr), Name)` predicate, and on `Node::children`,
/// `Node::text` and `Node::html` for each row found: the result depends on
/// the text alone.
#[verifier::external_body]
fn select_rows(page: &str, table: &str, attr: &str, value: &str, row: &str) -> (r: Vec<TableRow>)
    ensures
        row_views(r@) == rows_matching(page@, table@, attr@, value@, row@),
{
    let document = Document::from(page);
    document.find(Descendant(And(Name(table), Attr(attr, value)), Name(row))).map(
        |n| TableRow { cells: n.children().map(|c| c.text()).collect(), markup: n.html() },
    ).collect()
}

/// The rows of the border-less tables of the HTML text `page`, in document
/// order; the first is the header row.
pub fn table_rows(page: &str) -> (r: Vec<TableRow>)
    ensures
        row_views(r@) == scoreboard_rows(page@),
{
    proof {
        reveal_strlit("table");
        reveal_strlit("border");
        reveal_strlit("0");
        reveal_strlit("tr");
    }
    select_rows(page, "table", "border", "0", "tr")
}

/// Finds the scoreboard table of the HTML text `page` and decodes its rows.
pub fn parse_worker_scores(page: &str) -> (r: Result<Vec<WorkerScore>, WorkerScoreParseError>)
    ensures
        scores_outcome(r) == table_of(scoreboard_rows(page@)),
{
    let rows = table_rows(page);
    parse_table(&rows)
}

} // verus!
