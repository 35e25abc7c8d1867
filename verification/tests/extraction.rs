use vbt::requests::get_data::{
    parse_table, query_string, rows_from_cells, search_url, ExtractError, RetryAction,
    RetryGovernor, MAX_RETRIES, RETRY_DELAY_MS,
};
use vbt::types::book::BookRow;

fn cells(texts: &[&str]) -> Vec<String> {
    texts.iter().map(|t| t.to_string()).collect()
}

fn page(rows: &str) -> String {
    format!(
        "<html><body><div id=\"list_data_return\"><table><thead><tr><th>STT</th></tr></thead><tbody>{}</tbody></table></div></body></html>",
        rows
    )
}

fn html_row(texts: &[&str]) -> String {
    let mut out = String::from("<tr>");
    for text in texts {
        out.push_str("<td>");
        out.push_str(text);
        out.push_str("</td>");
    }
    out.push_str("</tr>");
    out
}

fn nine() -> BookRow {
    BookRow {
        stt: "1".to_string(),
        isbn: "123".to_string(),
        title: "Book One".to_string(),
        author: "An Author".to_string(),
        translator: "A Translator".to_string(),
        quantity: "1000".to_string(),
        self_published: "".to_string(),
        partner: "Partner".to_string(),
        registration_number: "R-1".to_string(),
    }
}

const NINE: [&str; 9] =
    [" 1 ", "123", "\n Book One\t", "An Author", "A Translator", "1000", "  ", "Partner", "R-1"];

#[test]
fn nine_cells_give_one_row_in_positional_order() {
    let rows = rows_from_cells(&vec![cells(&NINE)]);
    assert_eq!(rows, vec![nine()]);
}

#[test]
fn eight_or_ten_cells_give_no_row() {
    assert_eq!(rows_from_cells(&vec![cells(&NINE[..8])]), vec![]);
    let mut ten = NINE.to_vec();
    ten.push("extra");
    assert_eq!(rows_from_cells(&vec![cells(&ten)]), vec![]);
    assert_eq!(rows_from_cells(&vec![cells(&[])]), vec![]);
    assert_eq!(rows_from_cells(&vec![]), vec![]);
}

#[test]
fn rows_keep_their_order_and_narrow_rows_are_dropped() {
    let mut second = NINE;
    second[1] = "456";
    let grid = vec![cells(&NINE), cells(&NINE[..3]), cells(&second)];
    let rows = rows_from_cells(&grid);
    assert_eq!(rows.len(), 2);
    assert_eq!(rows[0].isbn, "123");
    assert_eq!(rows[1].isbn, "456");
}

#[test]
fn table_is_read_from_the_page() {
    let html = page(&html_row(&NINE));
    let rows = parse_table(&html).unwrap();
    assert_eq!(rows, vec![nine()]);
}

#[test]
fn cell_text_is_gathered_through_nested_markup() {
    let mut texts = NINE;
    texts[2] = "<a href=\"#\">Book <b>One</b></a> ";
    let html = page(&html_row(&texts));
    let rows = parse_table(&html).unwrap();
    assert_eq!(rows, vec![nine()]);
}

#[test]
fn rows_of_other_widths_are_skipped_on_the_page() {
    let mut ten = NINE.to_vec();
    ten.push("x");
    let mut last = NINE;
    last[0] = "2";
    let html = page(&format!(
        "{}{}{}{}",
        html_row(&NINE[..8]),
        html_row(&NINE),
        html_row(&ten),
        html_row(&last)
    ));
    let rows = parse_table(&html).unwrap();
    assert_eq!(rows.len(), 2);
    assert_eq!(rows[0].stt, "1");
    assert_eq!(rows[1].stt, "2");
}

#[test]
fn table_without_rows_gives_no_rows() {
    let rows = parse_table(&page("")).unwrap();
    assert_eq!(rows, vec![]);
}

#[test]
fn page_without_table_is_table_not_found() {
    for html in [
        "",
        "<html><body><p>nothing</p></body></html>",
        "<html><body><table><tbody><tr><td>x</td></tr></tbody></table></body></html>",
        "<html><body><div id=\"list_data_return\"></div></body></html>",
    ] {
        let outcome = parse_table(html);
        assert!(matches!(outcome, Err(ExtractError::TableNotFound)));
    }
}

#[test]
fn only_the_first_table_is_read() {
    let mut other = NINE;
    other[1] = "999";
    let html = format!(
        "<html><body><div id=\"list_data_return\"><table><tbody>{}</tbody></table><table><tbody>{}</tbody></table></div></body></html>",
        html_row(&NINE),
        html_row(&other)
    );
    let rows = parse_table(&html).unwrap();
    assert_eq!(rows, vec![nine()]);
}

#[test]
fn error_messages() {
    assert_eq!(ExtractError::TableNotFound.message(), "Table not found");
    assert_eq!(ExtractError::Transport("timed out".to_string()).message(), "timed out");
    assert_eq!(
        ExtractError::InvalidSelector("Invalid row selector: x".to_string()).message(),
        "Invalid row selector: x"
    );
    assert!(ExtractError::TableNotFound.is_table_not_found());
    assert!(!ExtractError::Transport("Table not found".to_string()).is_table_not_found());
}

#[test]
fn query_has_plus_for_spaces_and_no_trailing_whitespace() {
    assert_eq!(query_string("Book One"), "Book+One");
    assert_eq!(query_string("Book One  \n"), "Book+One");
    assert_eq!(query_string(" a  b"), "+a++b");
    assert_eq!(query_string("Hành Trình Của Elaina"), "Hành+Trình+Của+Elaina");
    assert_eq!(query_string(""), "");
}

#[test]
fn search_address_holds_query_and_page() {
    assert_eq!(
        search_url("Book One ", 1),
        "https://ppdvn.gov.vn/web/guest/ke-hoach-xuat-ban?query=Book+One&p=1"
    );
    assert_eq!(
        search_url("x", 255),
        "https://ppdvn.gov.vn/web/guest/ke-hoach-xuat-ban?query=x&p=255"
    );
    assert_eq!(search_url("", 0), "https://ppdvn.gov.vn/web/guest/ke-hoach-xuat-ban?query=&p=0");
}

#[test]
fn three_misses_give_no_rows_after_two_waits() {
    assert_eq!(MAX_RETRIES, 3);
    assert_eq!(RETRY_DELAY_MS, 5000);
    let mut governor = RetryGovernor::new();
    let mut waits = 0;
    let mut finished = None;
    for _ in 0..3 {
        match governor.on_outcome(Err(ExtractError::TableNotFound)) {
            RetryAction::Wait(delay) => {
                assert_eq!(delay, 5000);
                waits += 1;
            }
            RetryAction::Finish(result) => {
                finished = Some(result);
                break;
            }
        }
    }
    assert_eq!(waits, 2);
    assert_eq!(governor.attempts(), 3);
    let rows = finished.unwrap().unwrap();
    assert_eq!(rows, vec![]);
}

#[test]
fn rows_end_the_work_at_once() {
    let mut governor = RetryGovernor::new();
    match governor.on_outcome(Ok(vec![nine()])) {
        RetryAction::Finish(Ok(rows)) => assert_eq!(rows, vec![nine()]),
        _ => panic!("rows must finish the work"),
    }
    assert_eq!(governor.attempts(), 1);
}

#[test]
fn rows_after_a_miss_end_the_work() {
    let mut governor = RetryGovernor::new();
    assert!(matches!(governor.on_outcome(Err(ExtractError::TableNotFound)), RetryAction::Wait(5000)));
    match governor.on_outcome(Ok(vec![nine()])) {
        RetryAction::Finish(Ok(rows)) => assert_eq!(rows.len(), 1),
        _ => panic!("rows must finish the work"),
    }
    assert_eq!(governor.attempts(), 2);
}

#[test]
fn other_errors_are_handed_on_without_retry() {
    let mut governor = RetryGovernor::new();
    match governor.on_outcome(Err(ExtractError::Transport("connection refused".to_string()))) {
        RetryAction::Finish(Err(ExtractError::Transport(text))) => {
            assert_eq!(text, "connection refused")
        }
        _ => panic!("a transport error must finish the work"),
    }
    let mut second = RetryGovernor::new();
    assert!(matches!(
        second.on_outcome(Err(ExtractError::InvalidSelector("bad".to_string()))),
        RetryAction::Finish(Err(ExtractError::InvalidSelector(_)))
    ));
}

#[test]
fn governor_never_asks_for_more_after_the_last_attempt() {
    let mut governor = RetryGovernor::new();
    for _ in 0..3 {
        governor.on_outcome(Err(ExtractError::TableNotFound));
    }
    assert!(matches!(
        governor.on_outcome(Err(ExtractError::TableNotFound)),
        RetryAction::Finish(Ok(_))
    ));
    assert_eq!(governor.attempts(), 3);
}
