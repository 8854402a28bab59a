use person_similarity::views::html::{html_table_tag, html_table_td_tags, html_table_tr_tags};

fn row(cells: &[&str]) -> Vec<String> {
    cells.iter().map(|cell| cell.to_string()).collect()
}

#[test]
fn td_tags_wrap_each_cell() {
    assert_eq!(html_table_td_tags(&row(&[])), "");
    assert_eq!(html_table_td_tags(&row(&["a"])), "<td>a</td>");
    assert_eq!(html_table_td_tags(&row(&["a", "", "b c"])), "<td>a</td><td></td><td>b c</td>");
}

#[test]
fn td_tags_do_not_escape() {
    assert_eq!(html_table_td_tags(&row(&["<b>&</b>"])), "<td><b>&</b></td>");
}

#[test]
fn tr_tags_wrap_each_row() {
    assert_eq!(html_table_tr_tags(vec![]), "");
    assert_eq!(html_table_tr_tags(vec![row(&[])]), "<tr></tr>\n");
    assert_eq!(
        html_table_tr_tags(vec![row(&["a", "b"]), row(&["c"])]),
        "<tr><td>a</td><td>b</td></tr>\n<tr><td>c</td></tr>\n"
    );
}

#[test]
fn table_tag_wraps_the_rows() {
    assert_eq!(html_table_tag(vec![]), "<table>\n</table>\n");
    assert_eq!(
        html_table_tag(vec![row(&["1", "Alice"]), row(&["2", "Bob"])]),
        "<table>\n<tr><td>1</td><td>Alice</td></tr>\n<tr><td>2</td><td>Bob</td></tr>\n</table>\n"
    );
}
