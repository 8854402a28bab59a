//! HTML tables from rows of cells.
//!
//! The text of a cell is put between its tags as it stands; nothing is
//! escaped.

use vstd::prelude::*;
use vstd::string::StringExecFns;

verus! {

/// One cell: `<td>`, the text, `</td>`.
pub open spec fn td_tag(cell: Seq<char>) -> Seq<char> {
    "<td>"@ + cell + "</td>"@
}

/// The cells of a row, one after the other.
pub open spec fn td_tags(cells: Seq<Seq<char>>) -> Seq<char>
    decreases cells.len(),
{
    if cells.len() == 0 {
        Seq::empty()
    } else {
        td_tags(cells.drop_last()) + td_tag(cells.last())
    }
}

/// One row: `<tr>`, its cells, `</tr>` and a line feed.
pub open spec fn tr_tag(row: Seq<Seq<char>>) -> Seq<char> {
    "<tr>"@ + td_tags(row) + "</tr>\n"@
}

/// The rows of a table, one after the other.
pub open spec fn tr_tags(rows: Seq<Seq<Seq<char>>>) -> Seq<char>
    decreases rows.len(),
{
    if rows.len() == 0 {
        Seq::empty()
    } else {
        tr_tags(rows.drop_last()) + tr_tag(rows.last())
    }
}

/// A table: `<table>` and a line feed, its rows, `</table>` and a line feed.
pub open spec fn table_tag(rows: Seq<Seq<Seq<char>>>) -> Seq<char> {
    "<table>\n"@ + tr_tags(rows) + "</table>\n"@
}

/// Render strings into an HTML table tag.
pub fn html_table_tag(table: Vec<Vec<String>>) -> (html: String)
    ensures
        html@ == table_tag(table.deep_view()),
{
    let mut html = String::from_str("<table>\n");
    let rows = html_table_tr_tags(table);
    html.append(rows.as_str());
    html.append("</table>\n");
    html
}

/// Render strings into HTML table tr tags.
pub fn html_table_tr_tags(rows: Vec<Vec<String>>) -> (html: String)
    ensures
        html@ == tr_tags(rows.deep_view()),
{
    let mut html = String::new();
    let ghost all = rows.deep_view();
    for i in 0..rows.len()
        invariant
            all == rows.deep_view(),
            html@ == tr_tags(all.take(i as int)),
    {
        let cells = html_table_td_tags(&rows[i]);
        html.append("<tr>");
        html.append(cells.as_str());
        html.append("</tr>\n");
        proof {
            let done = all.take(i + 1);
            assert(done.drop_last() =~= all.take(i as int));
            assert(done.last() == rows[i as int].deep_view());
            assert(html@ =~= tr_tags(done.drop_last()) + tr_tag(done.last()));
        }
    }
    assert(all.take(rows.len() as int) =~= all);
    html
}

/// Render strings into HTML table td tags.
pub fn html_table_td_tags(cells: &Vec<String>) -> (html: String)
    ensures
        html@ == td_tags(cells.deep_view()),
{
    let mut html = String::new();
    let ghost all = cells.deep_view();
    for i in 0..cells.len()
        invariant
            all == cells.deep_view(),
            html@ == td_tags(all.take(i as int)),
    {
        html.append("<td>");
        html.append(cells[i].as_str());
        html.append("</td>");
        proof {
            let done = all.take(i + 1);
            assert(done.drop_last() =~= all.take(i as int));
            assert(done.last() == cells[i as int]@);
            assert(html@ =~= td_tags(done.drop_last()) + td_tag(done.last()));
        }
    }
    assert(all.take(cells.len() as int) =~= all);
    html
}

} // verus!
