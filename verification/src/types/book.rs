//! Records read from the publication register.

use vstd::prelude::*;

verus! {

/// One row of the register's table. Every field is the text of one cell.
#[derive(Debug, Clone, PartialEq, Eq)]
pub struct BookRow {
    pub stt: String,
    pub isbn: String,
    pub title: String,
    pub author: String,
    pub translator: String,
    pub quantity: String,
    pub self_published: String,
    pub partner: String,
    pub registration_number: String,
}

/// The text of a `BookRow`, field by field.
pub ghost struct BookRowView {
    pub stt: Seq<char>,
    pub isbn: Seq<char>,
    pub title: Seq<char>,
    pub author: Seq<char>,
    pub translator: Seq<char>,
    pub quantity: Seq<char>,
    pub self_published: Seq<char>,
    pub partner: Seq<char>,
    pub registration_number: Seq<char>,
}

impl View for BookRow {
    type V = BookRowView;

    open spec fn view(&self) -> BookRowView {
        BookRowView {
            stt: self.stt@,
            isbn: self.isbn@,
            title: self.title@,
            author: self.author@,
            translator: self.translator@,
            quantity: self.quantity@,
            self_published: self.self_published@,
            partner: self.partner@,
            registration_number: self.registration_number@,
        }
    }
}

/// The views of the rows of `rows`, in order.
pub open spec fn row_views(rows: Seq<BookRow>) -> Seq<BookRowView> {
    Seq::new(rows.len(), |i: int| rows[i]@)
}

/// A book as it is followed over time: when it was published and the queries that found it.
#[derive(Debug, Clone, PartialEq, Eq)]
pub struct BookEntry {
    pub pub_date: String,
    pub queries: Vec<String>,
}

} // verus!
