use person_similarity::models::person::Person;
use person_similarity::views::decimal::decimal;
use person_similarity::views::order::{given_name_le, order_by_given_name, text_le};
use person_similarity::views::persons::{
    person_cells, person_form, person_form_page, person_not_found, persons_page, persons_table,
};

fn person(id: &str, given_name: Option<&str>) -> Person {
    Person {
        id: String::from(id),
        given_name: given_name.map(String::from),
        family_name: None,
        birth_date_year: None,
        birth_date_month: None,
        birth_date_month_day: None,
        primary_email: None,
        primary_phone: None,
        note: None,
    }
}

fn alice() -> Person {
    Person {
        id: String::from("cc1143129505d87f5f0a044b7dbef236"),
        given_name: Some(String::from("Alice")),
        family_name: Some(String::from("Adams")),
        birth_date_year: Some(1999),
        birth_date_month: Some(12),
        birth_date_month_day: Some(-3),
        primary_email: Some(String::from("alice.adams@example.com")),
        primary_phone: Some(String::from("3787581685")),
        note: Some(String::from("Lorem ipsum")),
    }
}

fn text(field: &Option<String>) -> String {
    match field {
        Some(x) => x.to_string(),
        None => String::new(),
    }
}

#[test]
fn decimal_writes_as_std_does() {
    let numbers: [i64; 14] =
        [0, 1, 9, 10, 11, 99, 100, 1999, -1, -10, -128, 2147483647, i64::MAX, i64::MIN];
    for n in numbers {
        assert_eq!(decimal(n), n.to_string());
    }
    assert_eq!(decimal(0), "0");
    assert_eq!(decimal(-2022), "-2022");
    assert_eq!(decimal(1_000_000), "1000000");
}

#[test]
fn text_order_is_by_bytes() {
    assert!(text_le(b"", b""));
    assert!(text_le(b"", b"a"));
    assert!(!text_le(b"a", b""));
    assert!(text_le(b"a", b"a"));
    assert!(text_le(b"a", b"ab"));
    assert!(!text_le(b"ab", b"a"));
    assert!(text_le(b"ab", b"b"));
    assert!(text_le(b"Z", b"a"));
    assert!(!text_le(b"a", b"Z"));
    let texts = ["", "a", "A", "ab", "abc", "b", "Bob", "alice", "\u{e9}", "z", "\u{1F600}"];
    for a in texts {
        for b in texts {
            assert_eq!(text_le(a.as_bytes(), b.as_bytes()), a <= b);
        }
    }
}

#[test]
fn given_name_order_takes_absent_as_empty() {
    let none = person("0", None);
    let empty = person("1", Some(""));
    let bob = person("2", Some("Bob"));
    assert!(given_name_le(&none, &empty));
    assert!(given_name_le(&empty, &none));
    assert!(given_name_le(&none, &bob));
    assert!(!given_name_le(&bob, &none));
    assert!(given_name_le(&bob, &bob));
}

#[test]
fn listing_order_is_sorted_and_stable() {
    let persons = vec![
        person("0", Some("Carol")),
        person("1", Some("Alice")),
        person("2", None),
        person("3", Some("Bob")),
        person("4", Some("Alice")),
        person("5", Some("")),
        person("6", Some("alice")),
        person("7", Some("Al")),
    ];
    assert_eq!(order_by_given_name(&persons), vec![2, 5, 7, 1, 4, 3, 0, 6]);
    let mut sorted: Vec<usize> = (0..persons.len()).collect();
    sorted.sort_by(|a, b| {
        persons[*a]
            .given_name
            .as_deref()
            .unwrap_or("")
            .cmp(persons[*b].given_name.as_deref().unwrap_or(""))
    });
    assert_eq!(order_by_given_name(&persons), sorted);
    assert_eq!(order_by_given_name(&Vec::new()), Vec::<usize>::new());
}

#[test]
fn cells_hold_every_field_in_order() {
    assert_eq!(
        person_cells(&alice()),
        vec![
            "cc1143129505d87f5f0a044b7dbef236",
            "Alice",
            "Adams",
            "1999",
            "12",
            "-3",
            "alice.adams@example.com",
            "3787581685",
            "Lorem ipsum",
        ]
    );
    assert_eq!(person_cells(&person("7", None)), vec!["7", "", "", "", "", "", "", "", ""]);
}

#[test]
fn table_lists_by_given_name() {
    let persons = vec![person("b", Some("Bob")), person("n", None), person("a", Some("Alice"))];
    let rows = persons_table(&persons);
    assert_eq!(rows.len(), 3);
    assert_eq!(rows[0][0], "n");
    assert_eq!(rows[1][0], "a");
    assert_eq!(rows[1][1], "Alice");
    assert_eq!(rows[2][0], "b");
    assert_eq!(
        persons_page(&persons),
        "<table>\n\
         <tr><td>n</td><td></td><td></td><td></td><td></td><td></td><td></td><td></td><td></td></tr>\n\
         <tr><td>a</td><td>Alice</td><td></td><td></td><td></td><td></td><td></td><td></td><td></td></tr>\n\
         <tr><td>b</td><td>Bob</td><td></td><td></td><td></td><td></td><td></td><td></td><td></td></tr>\n\
         </table>\n"
    );
    assert_eq!(persons_page(&Vec::new()), "<table>\n</table>\n");
}

#[test]
fn form_holds_every_field() {
    let p = alice();
    let expected = format!(
        "<form method=\"post\" action=\"/persons/{}/form\">\n\
         <input type=\"hidden\" name=\"id\" value=\"{}\">\n\
         <p><input name=\"given_name\" value=\"{}\"></p>\n\
         <p><input name=\"family_name\" value=\"{}\"></p>\n\
         <p><input name=\"birth_date_year\" value=\"{}\"></p>\n\
         <p><input name=\"birth_date_month\" value=\"{}\"></p>\n\
         <p><input name=\"birth_date_month_day\" value=\"{}\"></p>\n\
         <p><input name=\"primary_email\" value=\"{}\"></p>\n\
         <p><input name=\"primary_phone\" value=\"{}\"></p>\n\
         <p><input name=\"note\" value=\"{}\"></p>\n\
         <input type=\"submit\" value=\"Save\">\n\
         </form>\n",
        &p.id,
        &p.id,
        text(&p.given_name),
        text(&p.family_name),
        "1999",
        "12",
        "-3",
        text(&p.primary_email),
        text(&p.primary_phone),
        text(&p.note),
    );
    assert_eq!(person_form(&p), expected);
    assert_eq!(person_form_page(Some(&p), "other"), expected);
}

#[test]
fn form_of_an_empty_person_has_empty_values() {
    assert_eq!(
        person_form(&person("7", None)),
        "<form method=\"post\" action=\"/persons/7/form\">\n\
         <input type=\"hidden\" name=\"id\" value=\"7\">\n\
         <p><input name=\"given_name\" value=\"\"></p>\n\
         <p><input name=\"family_name\" value=\"\"></p>\n\
         <p><input name=\"birth_date_year\" value=\"\"></p>\n\
         <p><input name=\"birth_date_month\" value=\"\"></p>\n\
         <p><input name=\"birth_date_month_day\" value=\"\"></p>\n\
         <p><input name=\"primary_email\" value=\"\"></p>\n\
         <p><input name=\"primary_phone\" value=\"\"></p>\n\
         <p><input name=\"note\" value=\"\"></p>\n\
         <input type=\"submit\" value=\"Save\">\n\
         </form>\n"
    );
}

#[test]
fn missing_person_is_reported() {
    assert_eq!(person_not_found("42"), "<p>Person id 42 not found</p>");
    assert_eq!(person_form_page(None, "42"), "<p>Person id 42 not found</p>");
}

#[test]
fn description_labels_every_field() {
    assert_eq!(
        alice().describe(),
        "given name: Some(\"Alice\"), family name: Some(\"Adams\"), birth date year: Some(1999), \
         birth date month: Some(12), birth date month day: Some(-3), \
         primary email: Some(\"alice.adams@example.com\"), \
         primary phone: Some(\"3787581685\")note: Some(\"Lorem ipsum\")"
    );
    assert_eq!(
        person("7", None).describe(),
        "given name: None, family name: None, birth date year: None, birth date month: None, \
         birth date month day: None, primary email: None, primary phone: Nonenote: None"
    );
}

#[test]
fn description_escapes_texts() {
    let p = person("7", Some("a\"b\\c\n"));
    let d = p.describe();
    assert!(d.starts_with("given name: Some(\"a\\\"b\\\\c\\n\"), family name: None"));
    assert_eq!(
        d,
        format!(
            "given name: {:?}, family name: {:?}, birth date year: {:?}, birth date month: {:?}, \
             birth date month day: {:?}, primary email: {:?}, primary phone: {:?}note: {:?}",
            p.given_name,
            p.family_name,
            p.birth_date_year,
            p.birth_date_month,
            p.birth_date_month_day,
            p.primary_email,
            p.primary_phone,
            p.note,
        )
    );
}
