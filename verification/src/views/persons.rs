//! Persons as an HTML table and as an HTML form.
//!
//! A field that is absent is written as the empty text. No value is escaped.

use vstd::prelude::*;
use vstd::string::StringExecFns;
use crate::models::person::Person;
use crate::models::person::PersonView;
use crate::views::decimal::decimal;
use crate::views::decimal::decimal_text;
use crate::views::html::html_table_tag;
use crate::views::html::table_tag;
use crate::views::order::given_name_keys;
use crate::views::order::is_listing_order;
use crate::views::order::listing_order;
use crate::views::order::order_by_given_name;

verus! {

/// An optional text as a cell: empty where it is absent.
pub open spec fn text_cell(field: Option<Seq<char>>) -> Seq<char> {
    match field {
        Some(text) => text,
        None => Seq::empty(),
    }
}

/// An optional number as a cell: in decimal, empty where it is absent.
pub open spec fn number_cell(field: Option<int>) -> Seq<char> {
    match field {
        Some(number) => decimal_text(number),
        None => Seq::empty(),
    }
}

/// The cells of a person: the identifier, then the eight other fields.
pub open spec fn person_row(person: PersonView) -> Seq<Seq<char>> {
    seq![
        person.id,
        text_cell(person.given_name),
        text_cell(person.family_name),
        number_cell(person.birth_date_year),
        number_cell(person.birth_date_month),
        number_cell(person.birth_date_month_day),
        text_cell(person.primary_email),
        text_cell(person.primary_phone),
        text_cell(person.note),
    ]
}

/// The rows of `persons`, listed in `order`.
pub open spec fn rows_in_order(persons: Seq<Person>, order: Seq<usize>) -> Seq<Seq<Seq<char>>> {
    Seq::new(order.len(), |i: int| person_row(persons[order[i] as int]@))
}

/// One line of the form: a visible input with its name and value.
pub open spec fn input_line(name: Seq<char>, value: Seq<char>) -> Seq<char> {
    "<p><input name=\""@ + name + "\" value=\""@ + value + "\"></p>\n"@
}

/// The form in which a person is edited.
pub open spec fn form_text(person: PersonView) -> Seq<char> {
    "<form method=\"post\" action=\"/persons/"@ + person.id + "/form\">\n"@
        + "<input type=\"hidden\" name=\"id\" value=\""@ + person.id + "\">\n"@ + input_line(
        "given_name"@,
        text_cell(person.given_name),
    ) + input_line("family_name"@, text_cell(person.family_name)) + input_line(
        "birth_date_year"@,
        number_cell(person.birth_date_year),
    ) + input_line("birth_date_month"@, number_cell(person.birth_date_month)) + input_line(
        "birth_date_month_day"@,
        number_cell(person.birth_date_month_day),
    ) + input_line("primary_email"@, text_cell(person.primary_email)) + input_line(
        "primary_phone"@,
        text_cell(person.primary_phone),
    ) + input_line("note"@, text_cell(person.note)) + "<input type=\"submit\" value=\"Save\">\n"@
        + "</form>\n"@
}

/// The message for an identifier that no person has.
pub open spec fn not_found_text(id: Seq<char>) -> Seq<char> {
    "<p>Person id "@ + id + " not found</p>"@
}

/// Writes an optional text as a cell.
fn text_cell_of(field: &Option<String>) -> (cell: String)
    ensures
        cell@ == text_cell(crate::models::person::text_of(*field)),
{
    match field {
        Some(text) => text.clone(),
        None => String::new(),
    }
}

/// Writes an optional year as a cell.
fn year_cell_of(field: Option<i32>) -> (cell: String)
    ensures
        cell@ == number_cell(crate::models::person::year_of(field)),
{
    match field {
        Some(number) => decimal(number as i64),
        None => String::new(),
    }
}

/// Writes an optional month or day as a cell.
fn day_cell_of(field: Option<i8>) -> (cell: String)
    ensures
        cell@ == number_cell(crate::models::person::day_of(field)),
{
    match field {
        Some(number) => decimal(number as i64),
        None => String::new(),
    }
}

/// The cells of a person, for one row of the table.
pub fn person_cells(person: &Person) -> (cells: Vec<String>)
    ensures
        cells.deep_view() == person_row(person@),
{
    let mut cells: Vec<String> = Vec::new();
    cells.push(person.id.clone());
    cells.push(text_cell_of(&person.given_name));
    cells.push(text_cell_of(&person.family_name));
    cells.push(year_cell_of(person.birth_date_year));
    cells.push(day_cell_of(person.birth_date_month));
    cells.push(day_cell_of(person.birth_date_month_day));
    cells.push(text_cell_of(&person.primary_email));
    cells.push(text_cell_of(&person.primary_phone));
    cells.push(text_cell_of(&person.note));
    assert(cells.deep_view() =~= person_row(person@));
    cells
}

/// The rows of `persons`, one for each, ordered by given name; persons of
/// equal given names stay in the order in which they came.
pub fn persons_table(persons: &Vec<Person>) -> (rows: Vec<Vec<String>>)
    ensures
        rows.deep_view() == rows_in_order(persons@, listing_order(given_name_keys(persons@))),
{
    let order = order_by_given_name(persons);
    let mut rows: Vec<Vec<String>> = Vec::new();
    for i in 0..order.len()
        invariant
            is_listing_order(given_name_keys(persons@), order@),
            order@ == listing_order(given_name_keys(persons@)),
            rows@.len() == i,
            rows.deep_view() == rows_in_order(persons@, order@.take(i as int)),
    {
        let cells = person_cells(&persons[order[i]]);
        let ghost listed = rows;
        rows.push(cells);
        proof {
            let wanted = rows_in_order(persons@, order@.take(i + 1));
            assert(rows.deep_view().len() == wanted.len());
            assert forall|k: int| 0 <= k < wanted.len() implies rows.deep_view()[k]
                == wanted[k] by {
                if k < i {
                    assert(rows@[k] == listed@[k]);
                    assert(listed.deep_view()[k] == listed@[k].deep_view());
                    assert(order@.take(i as int)[k] == order@.take(i + 1)[k]);
                }
            }
            assert(rows.deep_view() =~= wanted);
        }
    }
    assert(order@.take(order@.len() as int) =~= order@);
    rows
}

/// The page that lists `persons`: the table of their rows.
pub fn persons_page(persons: &Vec<Person>) -> (html: String)
    ensures
        html@ == table_tag(rows_in_order(persons@, listing_order(given_name_keys(persons@)))),
{
    html_table_tag(persons_table(persons))
}

/// Writes one line of the form behind what `out` holds.
fn append_input_line(out: &mut String, name: &str, value: &str)
    ensures
        final(out)@ == old(out)@ + input_line(name@, value@),
{
    out.append("<p><input name=\"");
    out.append(name);
    out.append("\" value=\"");
    out.append(value);
    out.append("\"></p>\n");
    assert(out@ =~= old(out)@ + input_line(name@, value@));
}

/// The form in which `person` is edited.
pub fn person_form(person: &Person) -> (html: String)
    ensures
        html@ == form_text(person@),
{
    let mut html = String::from_str("<form method=\"post\" action=\"/persons/");
    html.append(person.id.as_str());
    html.append("/form\">\n");
    html.append("<input type=\"hidden\" name=\"id\" value=\"");
    html.append(person.id.as_str());
    html.append("\">\n");
    append_input_line(&mut html, "given_name", text_cell_of(&person.given_name).as_str());
    append_input_line(&mut html, "family_name", text_cell_of(&person.family_name).as_str());
    append_input_line(&mut html, "birth_date_year", year_cell_of(person.birth_date_year).as_str());
    append_input_line(&mut html, "birth_date_month", day_cell_of(person.birth_date_month).as_str());
    append_input_line(
        &mut html,
        "birth_date_month_day",
        day_cell_of(person.birth_date_month_day).as_str(),
    );
    append_input_line(&mut html, "primary_email", text_cell_of(&person.primary_email).as_str());
    append_input_line(&mut html, "primary_phone", text_cell_of(&person.primary_phone).as_str());
    append_input_line(&mut html, "note", text_cell_of(&person.note).as_str());
    html.append("<input type=\"submit\" value=\"Save\">\n");
    html.append("</form>\n");
    assert(html@ =~= form_text(person@));
    html
}

/// The message that no person has the identifier `id`.
pub fn person_not_found(id: &str) -> (html: String)
    ensures
        html@ == not_found_text(id@),
{
    let mut html = String::from_str("<p>Person id ");
    html.append(id);
    html.append(" not found</p>");
    html
}

/// The page for the person looked up under `id`: the form where there is
/// one, else the message that there is none.
pub fn person_form_page(person: Option<&Person>, id: &str) -> (html: String)
    ensures
        html@ == match person {
            Some(found) => form_text(found@),
            None => not_found_text(id@),
        },
{
    match person {
        Some(found) => person_form(found),
        None => person_not_found(id),
    }
}

} // verus!
