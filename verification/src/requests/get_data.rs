//! Reading the register's result page: the address to ask, the table in the answer, and
//! what to do when the table is missing.

use vstd::prelude::*;
use crate::text::{
    decimal_spec, push_decimal, replace_char, replace_char_spec, trim, trim_end, trim_end_spec,
    trim_spec, views,
};
use crate::types::book::{row_views, BookRow, BookRowView};

verus! {

/// How often a source is asked before it counts as empty.
pub const MAX_RETRIES: u32 = 3;

/// How long to wait after a page without table, in milliseconds.
pub const RETRY_DELAY_MS: u64 = 5000;

/// The number of cells of a row that holds a book.
pub const ROW_CELLS: usize = 9;

/// Why a page gave no rows.
#[derive(Debug)]
pub enum ExtractError {
    /// The page has no result table.
    TableNotFound,
    /// A selector is not valid CSS. The text says which one and why.
    InvalidSelector(String),
    /// The page could not be fetched. The text is the transport's report.
    Transport(String),
}

/// What the governor asks for after an attempt.
#[derive(Debug)]
pub enum RetryAction {
    /// Wait this many milliseconds, then ask the source again.
    Wait(u64),
    /// Stop, with these rows or this error.
    Finish(Result<Vec<BookRow>, ExtractError>),
}

/// Counts the attempts made on one source.
#[derive(Debug)]
pub struct RetryGovernor {
    attempts: u32,
}

/// The fault that `scraper` finds in a selector, as text, if it finds one.
pub uninterp spec fn selector_fault(selector: Seq<char>) -> Option<Seq<char>>;

/// The text of each cell of each row of the first element that `scraper` finds in `html` for
/// the selector `table`: rows are the descendants of that element that it finds for `rows`,
/// cells the descendants of a row that it finds for `cells`, in the order in which it finds
/// them. `None` where it finds no element for `table`.
pub uninterp spec fn table_cells(
    html: Seq<char>,
    table: Seq<char>,
    rows: Seq<char>,
    cells: Seq<char>,
) -> Option<Seq<Seq<Seq<char>>>>;

/// The texts of a grid of strings.
pub open spec fn grid_view(grid: Seq<Vec<String>>) -> Seq<Seq<Seq<char>>> {
    Seq::new(grid.len(), |i: int| views(grid[i]@))
}

/// The texts of an optional grid of strings.
pub open spec fn optional_grid_view(grid: Option<Vec<Vec<String>>>) -> Option<
    Seq<Seq<Seq<char>>>,
> {
    match grid {
        Some(grid) => Some(grid_view(grid@)),
        None => None,
    }
}

/// The text of an optional string.
pub open spec fn optional_text(text: Option<String>) -> Option<Seq<char>> {
    match text {
        Some(text) => Some(text@),
        None => None,
    }
}

/// The selector of the result table.
pub open spec fn table_selector() -> Seq<char> {
    "#list_data_return table"@
}

/// The selector of the table's rows.
pub open spec fn row_selector() -> Seq<char> {
    "tbody tr"@
}

/// The selector of a row's cells.
pub open spec fn cell_selector() -> Seq<char> {
    "td"@
}

/// A query as it stands in an address: without trailing whitespace, and with `+` for each
/// space.
pub open spec fn query_text(query: Seq<char>) -> Seq<char> {
    replace_char_spec(trim_end_spec(query), ' ', '+')
}

/// The address of page `page` of the results for `query`.
pub open spec fn search_url_spec(query: Seq<char>, page: nat) -> Seq<char> {
    "https://ppdvn.gov.vn/web/guest/ke-hoach-xuat-ban?query="@ + query_text(query) + "&p="@
        + decimal_spec(page)
}

/// The book that nine cells describe: each field is one cell without surrounding whitespace,
/// in the order of the table's columns.
pub open spec fn row_of(cells: Seq<Seq<char>>) -> BookRowView {
    BookRowView {
        stt: trim_spec(cells[0]),
        isbn: trim_spec(cells[1]),
        title: trim_spec(cells[2]),
        author: trim_spec(cells[3]),
        translator: trim_spec(cells[4]),
        quantity: trim_spec(cells[5]),
        self_published: trim_spec(cells[6]),
        partner: trim_spec(cells[7]),
        registration_number: trim_spec(cells[8]),
    }
}

/// The books of a table: one for each row of exactly nine cells, in the order of the rows.
/// Rows of any other width are left out.
pub open spec fn rows_of(grid: Seq<Seq<Seq<char>>>) -> Seq<BookRowView>
    decreases grid.len(),
{
    if grid.len() == 0 {
        Seq::empty()
    } else if grid.last().len() == ROW_CELLS {
        rows_of(grid.drop_last()).push(row_of(grid.last()))
    } else {
        rows_of(grid.drop_last())
    }
}

/// What the governor decides after attempt number `attempt` (counted from 1) found no table:
/// the milliseconds to wait before the next attempt, or `None` when the source counts as
/// empty.
pub open spec fn wait_after_miss(attempt: int) -> Option<u64> {
    if attempt < MAX_RETRIES {
        Some(RETRY_DELAY_MS)
    } else {
        None
    }
}

/// Whether `action` is the governor's answer to `outcome` after `attempts` earlier attempts.
/// Rows end the work, and so does every error but a missing table. A missing table asks for
/// a wait and another attempt, until the attempt that brings the count to `MAX_RETRIES`:
/// that one ends the work with no rows and no error.
pub open spec fn is_answer(
    action: RetryAction,
    attempts: nat,
    outcome: Result<Vec<BookRow>, ExtractError>,
) -> bool {
    match outcome {
        Ok(rows) => action == RetryAction::Finish(Ok(rows)),
        Err(ExtractError::TableNotFound) => match wait_after_miss(attempts as int + 1) {
            Some(delay) => action == RetryAction::Wait(delay),
            None => action matches RetryAction::Finish(Ok(rows)) && rows@.len() == 0,
        },
        Err(error) => action == RetryAction::Finish(Err(error)),
    }
}

/// `Selector::parse` of `scraper`, reduced to its error: the fault found in the selector, in
/// the words of the error's `Display`, or `None` where the selector is valid. The result is a
/// function of the selector's text.
#[verifier::external_body]
fn find_selector_fault(selector: &str) -> (out: Option<String>)
    ensures
        optional_text(out) == selector_fault(selector@),
{
    scraper::Selector::parse(selector).err().map(|fault| fault.to_string())
}

/// `Html::parse_document`, `Html::select` and `ElementRef::select` of `scraper`, with
/// `ElementRef::text` collected for each cell: the cells of the rows of the first element that
/// matches `table`. The result is a function of the four texts. The three selectors are
/// parsed again here, which `requires` keeps from failing.
#[verifier::external_body]
fn select_cells(html: &str, table: &str, rows: &str, cells: &str) -> (out: Option<
    Vec<Vec<String>>,
>)
    requires
        selector_fault(table@).is_none(),
        selector_fault(rows@).is_none(),
        selector_fault(cells@).is_none(),
    ensures
        optional_grid_view(out) == table_cells(html@, table@, rows@, cells@),
{
    let table = scraper::Selector::parse(table).unwrap();
    let rows = scraper::Selector::parse(rows).unwrap();
    let cells = scraper::Selector::parse(cells).unwrap();
    let document = scraper::Html::parse_document(html);
    document.select(&table).next().map(|found| {
        found.select(&rows).map(|row| {
            row.select(&cells).map(|cell| cell.text().collect::<String>()).collect()
        }).collect()
    })
}

/// `query` as it stands in an address.
pub fn query_string(query: &str) -> (out: String)
    ensures
        out@ == query_text(query@),
{
    replace_char(trim_end(query).as_str(), ' ', '+')
}

/// The address of page `page` of the results for `query`.
pub fn search_url(query: &str, page: u8) -> (out: String)
    ensures
        out@ == search_url_spec(query@, page as nat),
{
    let mut out = String::from_str("https://ppdvn.gov.vn/web/guest/ke-hoach-xuat-ban?query=");
    out.append(query_string(query).as_str());
    out.append("&p=");
    push_decimal(&mut out, page as u64);
    out
}

/// The book that the nine cells of `cells` describe.
fn row_from_cells(cells: &Vec<String>) -> (row: BookRow)
    requires
        cells.len() == ROW_CELLS,
    ensures
        row@ == row_of(views(cells@)),
{
    BookRow {
        stt: trim(cells[0].as_str()),
        isbn: trim(cells[1].as_str()),
        title: trim(cells[2].as_str()),
        author: trim(cells[3].as_str()),
        translator: trim(cells[4].as_str()),
        quantity: trim(cells[5].as_str()),
        self_published: trim(cells[6].as_str()),
        partner: trim(cells[7].as_str()),
        registration_number: trim(cells[8].as_str()),
    }
}

/// The books of a table, given the text of its cells row by row.
pub fn rows_from_cells(grid: &Vec<Vec<String>>) -> (rows: Vec<BookRow>)
    ensures
        row_views(rows@) == rows_of(grid_view(grid@)),
{
    let mut rows: Vec<BookRow> = Vec::new();
    let mut i: usize = 0;
    assert(grid_view(grid@).subrange(0, 0) == Seq::<Seq<Seq<char>>>::empty());
    assert(row_views(rows@) == Seq::<BookRowView>::empty());
    while i < grid.len()
        invariant
            i <= grid.len(),
            row_views(rows@) == rows_of(grid_view(grid@).subrange(0, i as int)),
        decreases grid.len() - i,
    {
        let ghost before = grid_view(grid@).subrange(0, i as int);
        let ghost after = grid_view(grid@).subrange(0, i + 1);
        let ghost found = row_views(rows@);
        assert(after.drop_last() == before);
        assert(after.last() == views(grid@[i as int]@));
        if grid[i].len() == ROW_CELLS {
            let row = row_from_cells(&grid[i]);
            rows.push(row);
            assert(row_views(rows@) == found.push(row@));
        }
        i = i + 1;
    }
    assert(grid_view(grid@).subrange(0, grid.len() as int) == grid_view(grid@));
    rows
}

/// What a page yields, given the outcome of looking for its table: an error where a selector
/// is faulty or the table is missing, else the books of the table.
pub open spec fn page_outcome_is(
    out: Result<Vec<BookRow>, ExtractError>,
    table_fault: Option<Seq<char>>,
    row_fault: Option<Seq<char>>,
    cell_fault: Option<Seq<char>>,
    found: Option<Seq<Seq<Seq<char>>>>,
) -> bool {
    if let Some(fault) = table_fault {
        out matches Err(ExtractError::InvalidSelector(text)) && text@
            == "Invalid table selector: "@ + fault
    } else if let Some(fault) = row_fault {
        out matches Err(ExtractError::InvalidSelector(text)) && text@
            == "Invalid row selector: "@ + fault
    } else if let Some(fault) = cell_fault {
        out matches Err(ExtractError::InvalidSelector(text)) && text@
            == "Invalid cell selector: "@ + fault
    } else {
        match found {
            None => out matches Err(ExtractError::TableNotFound),
            Some(grid) => out matches Ok(rows) && row_views(rows@) == rows_of(grid),
        }
    }
}

/// The error for a faulty selector: `prefix`, then the fault.
fn selector_error(prefix: &str, fault: &str) -> (out: ExtractError)
    ensures
        out matches ExtractError::InvalidSelector(text) && text@ == prefix@ + fault@,
{
    let mut text = String::from_str(prefix);
    text.append(fault);
    ExtractError::InvalidSelector(text)
}

/// The books on a result page. The table is the first element that matches
/// `#list_data_return table`, its rows are its `tbody tr`, a row's cells its `td`.
pub fn parse_table(html: &str) -> (out: Result<Vec<BookRow>, ExtractError>)
    ensures
        page_outcome_is(
            out,
            selector_fault(table_selector()),
            selector_fault(row_selector()),
            selector_fault(cell_selector()),
            table_cells(html@, table_selector(), row_selector(), cell_selector()),
        ),
{
    if let Some(fault) = find_selector_fault("#list_data_return table") {
        return Err(selector_error("Invalid table selector: ", fault.as_str()));
    }
    if let Some(fault) = find_selector_fault("tbody tr") {
        return Err(selector_error("Invalid row selector: ", fault.as_str()));
    }
    if let Some(fault) = find_selector_fault("td") {
        return Err(selector_error("Invalid cell selector: ", fault.as_str()));
    }
    match select_cells(html, "#list_data_return table", "tbody tr", "td") {
        None => Err(ExtractError::TableNotFound),
        Some(grid) => Ok(rows_from_cells(&grid)),
    }
}

impl ExtractError {
    /// The error in words.
    pub fn message(&self) -> (out: String)
        ensures
            out@ == match *self {
                ExtractError::TableNotFound => "Table not found"@,
                ExtractError::InvalidSelector(text) => text@,
                ExtractError::Transport(text) => text@,
            },
    {
        match self {
            ExtractError::TableNotFound => String::from_str("Table not found"),
            ExtractError::InvalidSelector(text) => text.clone(),
            ExtractError::Transport(text) => text.clone(),
        }
    }

    /// Whether the error is the one that is worth another attempt.
    pub fn is_table_not_found(&self) -> (out: bool)
        ensures
            out == (*self is TableNotFound),
    {
        match self {
            ExtractError::TableNotFound => true,
            _ => false,
        }
    }
}

impl View for RetryGovernor {
    type V = nat;

    /// The number of attempts made so far.
    closed spec fn view(&self) -> nat {
        self.attempts as nat
    }
}

impl RetryGovernor {
    /// A governor for a source that has not been asked yet.
    pub fn new() -> (out: RetryGovernor)
        ensures
            out@ == 0,
    {
        RetryGovernor { attempts: 0 }
    }

    /// The number of attempts made so far.
    pub fn attempts(&self) -> (n: u32)
        ensures
            n == self@,
    {
        self.attempts
    }

    /// Takes note of an attempt's outcome and says what to do next. The count of attempts
    /// grows by one and stops at `MAX_RETRIES`.
    pub fn on_outcome(&mut self, outcome: Result<Vec<BookRow>, ExtractError>) -> (action:
        RetryAction)
        ensures
            is_answer(action, old(self)@, outcome),
            final(self)@ == if old(self)@ < MAX_RETRIES {
                old(self)@ + 1
            } else {
                old(self)@
            },
    {
        if self.attempts < MAX_RETRIES {
            self.attempts = self.attempts + 1;
        }
        match outcome {
            Ok(rows) => RetryAction::Finish(Ok(rows)),
            Err(ExtractError::TableNotFound) => {
                if self.attempts < MAX_RETRIES {
                    RetryAction::Wait(RETRY_DELAY_MS)
                } else {
                    RetryAction::Finish(Ok(Vec::new()))
                }
            },
            Err(error) => RetryAction::Finish(Err(error)),
        }
    }
}

/// A row of exactly nine cells gives exactly one book, field by field in the order of the
/// cells; a row of any other width gives none.
pub proof fn law_only_nine_cells_make_a_row(cells: Seq<Seq<char>>)
    ensures
        cells.len() == 9 ==> rows_of(seq![cells]) == seq![row_of(cells)],
        cells.len() != 9 ==> rows_of(seq![cells]) == Seq::<BookRowView>::empty(),
{
    let grid = seq![cells];
    assert(grid.drop_last() == Seq::<Seq<Seq<char>>>::empty());
    assert(grid.last() == cells);
    assert(rows_of(grid.drop_last()) == Seq::<BookRowView>::empty());
    assert(Seq::<BookRowView>::empty().push(row_of(cells)) == seq![row_of(cells)]);
}

/// The books of two tables one after the other are the books of the first, then those of the
/// second: rows keep their order and do not affect each other.
pub proof fn law_rows_in_order(first: Seq<Seq<Seq<char>>>, second: Seq<Seq<Seq<char>>>)
    ensures
        rows_of(first + second) == rows_of(first) + rows_of(second),
    decreases second.len(),
{
    if second.len() == 0 {
        assert(first + second == first);
        assert(rows_of(first) + Seq::<BookRowView>::empty() == rows_of(first));
    } else {
        law_rows_in_order(first, second.drop_last());
        assert((first + second).drop_last() == first + second.drop_last());
        assert((first + second).last() == second.last());
        if second.last().len() == ROW_CELLS {
            assert((rows_of(first) + rows_of(second.drop_last())).push(row_of(second.last()))
                == rows_of(first) + rows_of(second.drop_last()).push(row_of(second.last())));
        }
    }
}

/// Three attempts in a row that find no table cost two waits, not three, and end without
/// rows and without error: the first two answers ask for a wait of `RETRY_DELAY_MS`, the
/// third ends the work.
pub proof fn law_three_misses_wait_twice(first: RetryAction, second: RetryAction, third: RetryAction)
    requires
        is_answer(first, 0, Err(ExtractError::TableNotFound)),
        is_answer(second, 1, Err(ExtractError::TableNotFound)),
        is_answer(third, 2, Err(ExtractError::TableNotFound)),
    ensures
        first == RetryAction::Wait(RETRY_DELAY_MS),
        second == RetryAction::Wait(RETRY_DELAY_MS),
        third matches RetryAction::Finish(Ok(rows)) && rows@.len() == 0,
{
}

/// The governor is bounded and hands on what is not its business: from the attempt that
/// brings the count to `MAX_RETRIES` on, no answer is a wait; an error other than a missing
/// table is the answer at any attempt; and so are rows.
pub proof fn law_governor_is_bounded(
    action: RetryAction,
    attempts: nat,
    outcome: Result<Vec<BookRow>, ExtractError>,
)
    requires
        is_answer(action, attempts, outcome),
    ensures
        attempts + 1 >= MAX_RETRIES ==> action is Finish,
        action is Wait ==> outcome == Err::<Vec<BookRow>, ExtractError>(
            ExtractError::TableNotFound,
        ) && action == RetryAction::Wait(RETRY_DELAY_MS),
        outcome matches Err(error) ==> error is TableNotFound || action == RetryAction::Finish(
            Err(error),
        ),
        outcome matches Ok(rows) ==> action == RetryAction::Finish(Ok(rows)),
{
}

} // verus!
