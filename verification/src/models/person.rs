//! A person record with optional fields.

use vstd::prelude::*;
use vstd::string::StringExecFns;
use crate::views::decimal::decimal;
use crate::views::decimal::decimal_text;

verus! {

/// A person. Every field but the identifier may be absent, which is not the
/// same as being present and empty.
#[derive(Debug, Clone, Eq, Hash, PartialEq)]
pub struct Person {
    pub id: String,
    pub given_name: Option<String>,
    pub family_name: Option<String>,
    pub birth_date_year: Option<i32>,
    pub birth_date_month: Option<i8>,
    pub birth_date_month_day: Option<i8>,
    pub primary_email: Option<String>,
    pub primary_phone: Option<String>,
    pub note: Option<String>,
}

/// What a [`Person`] holds, with each text as its sequence of characters and
/// each number as an integer.
pub struct PersonView {
    pub id: Seq<char>,
    pub given_name: Option<Seq<char>>,
    pub family_name: Option<Seq<char>>,
    pub birth_date_year: Option<int>,
    pub birth_date_month: Option<int>,
    pub birth_date_month_day: Option<int>,
    pub primary_email: Option<Seq<char>>,
    pub primary_phone: Option<Seq<char>>,
    pub note: Option<Seq<char>>,
}

/// The characters of an optional text.
pub open spec fn text_of(field: Option<String>) -> Option<Seq<char>> {
    match field {
        Some(text) => Some(text@),
        None => None,
    }
}

/// The value of an optional year.
pub open spec fn year_of(field: Option<i32>) -> Option<int> {
    match field {
        Some(number) => Some(number as int),
        None => None,
    }
}

/// The value of an optional month or day.
pub open spec fn day_of(field: Option<i8>) -> Option<int> {
    match field {
        Some(number) => Some(number as int),
        None => None,
    }
}

impl View for Person {
    type V = PersonView;

    open spec fn view(&self) -> PersonView {
        PersonView {
            id: self.id@,
            given_name: text_of(self.given_name),
            family_name: text_of(self.family_name),
            birth_date_year: year_of(self.birth_date_year),
            birth_date_month: day_of(self.birth_date_month),
            birth_date_month_day: day_of(self.birth_date_month_day),
            primary_email: text_of(self.primary_email),
            primary_phone: text_of(self.primary_phone),
            note: text_of(self.note),
        }
    }
}

/// What `std` writes for a text under `{:?}`: the text between double
/// quotes, with the characters that need it escaped.
pub uninterp spec fn debug_text(text: Seq<char>) -> Seq<char>;

/// Formats a text with `std`'s `Debug` for `str`. The result depends on the
/// text alone; it is named and not spelled out.
#[verifier::external_body]
fn format_debug(text: &str) -> (out: String)
    ensures
        out@ == debug_text(text@),
{
    format!("{:?}", text)
}

/// An optional text under `{:?}`.
pub open spec fn debug_optional_text(field: Option<Seq<char>>) -> Seq<char> {
    match field {
        Some(text) => "Some("@ + debug_text(text) + ")"@,
        None => "None"@,
    }
}

/// An optional number under `{:?}`.
pub open spec fn debug_optional_number(field: Option<int>) -> Seq<char> {
    match field {
        Some(number) => "Some("@ + decimal_text(number) + ")"@,
        None => "None"@,
    }
}

/// The description of a person: each field but the identifier under its
/// label. Nothing stands between the primary phone and the label of the note.
pub open spec fn description(person: PersonView) -> Seq<char> {
    "given name: "@ + debug_optional_text(person.given_name) + ", family name: "@
        + debug_optional_text(person.family_name) + ", birth date year: "@
        + debug_optional_number(person.birth_date_year) + ", birth date month: "@
        + debug_optional_number(person.birth_date_month) + ", birth date month day: "@
        + debug_optional_number(person.birth_date_month_day) + ", primary email: "@
        + debug_optional_text(person.primary_email) + ", primary phone: "@ + debug_optional_text(
        person.primary_phone,
    ) + "note: "@ + debug_optional_text(person.note)
}

/// Writes an optional text under `{:?}` behind what `out` holds.
fn append_optional_text(out: &mut String, field: &Option<String>)
    ensures
        final(out)@ == old(out)@ + debug_optional_text(text_of(*field)),
{
    match field {
        Some(text) => {
            let quoted = format_debug(text.as_str());
            out.append("Some(");
            out.append(quoted.as_str());
            out.append(")");
            assert(out@ =~= old(out)@ + debug_optional_text(text_of(*field)));
        },
        None => {
            out.append("None");
        },
    }
}

/// Writes an optional number under `{:?}` behind what `out` holds.
fn append_optional_number(out: &mut String, field: Option<i64>)
    ensures
        final(out)@ == old(out)@ + debug_optional_number(
            match field {
                Some(number) => Some(number as int),
                None => None,
            },
        ),
{
    match field {
        Some(number) => {
            let digits = decimal(number);
            out.append("Some(");
            out.append(digits.as_str());
            out.append(")");
            assert(out@ =~= old(out)@ + ("Some("@ + decimal_text(number as int) + ")"@));
        },
        None => {
            out.append("None");
        },
    }
}

/// A year as a wider number.
fn widen_year(field: Option<i32>) -> (wide: Option<i64>)
    ensures
        year_of(field) == match wide {
            Some(number) => Some(number as int),
            None => None,
        },
{
    match field {
        Some(number) => Some(number as i64),
        None => None,
    }
}

/// A month or a day as a wider number.
fn widen_day(field: Option<i8>) -> (wide: Option<i64>)
    ensures
        day_of(field) == match wide {
            Some(number) => Some(number as int),
            None => None,
        },
{
    match field {
        Some(number) => Some(number as i64),
        None => None,
    }
}

impl Person {
    /// Describes the person in one line.
    pub fn describe(&self) -> (text: String)
        ensures
            text@ == description(self@),
    {
        let mut text = String::from_str("given name: ");
        append_optional_text(&mut text, &self.given_name);
        text.append(", family name: ");
        append_optional_text(&mut text, &self.family_name);
        text.append(", birth date year: ");
        append_optional_number(&mut text, widen_year(self.birth_date_year));
        text.append(", birth date month: ");
        append_optional_number(&mut text, widen_day(self.birth_date_month));
        text.append(", birth date month day: ");
        append_optional_number(&mut text, widen_day(self.birth_date_month_day));
        text.append(", primary email: ");
        append_optional_text(&mut text, &self.primary_email);
        text.append(", primary phone: ");
        append_optional_text(&mut text, &self.primary_phone);
        text.append("note: ");
        append_optional_text(&mut text, &self.note);
        assert(text@ =~= description(self@));
        text
    }
}

} // verus!
