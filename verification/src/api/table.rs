//! Table rendering of response models: a header line and rows of cells.
use crate::i18n::Lang;
use vstd::prelude::*;

verus! {

/// A response that can be shown as a table.
pub trait DisplayTable {
    fn headers(&self, lang: Lang) -> Vec<&'static str>;

    fn rows(&self, lang: Lang) -> Vec<Vec<String>>;
}

/// The cells of a row, as character sequences.
pub open spec fn row_view(row: Vec<String>) -> Seq<Seq<char>> {
    row@.map_values(|c: String| c@)
}

/// The rows of a table, as character sequences.
pub open spec fn rows_view(rows: Seq<Vec<String>>) -> Seq<Seq<Seq<char>>> {
    rows.map_values(|r: Vec<String>| row_view(r))
}

/// The header cells, as character sequences.
pub open spec fn headers_view(h: Seq<&'static str>) -> Seq<Seq<char>> {
    h.map_values(|c: &'static str| c@)
}

} // verus!
