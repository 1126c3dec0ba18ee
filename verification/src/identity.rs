use crate::date::Date;
use crate::engine::{
    bindings_view, is_plain, names_of, plain, render_with_minijinja, rendered_template,
};
use crate::error::Error;
use crate::text::{decimal, decimal_text, signed_decimal, signed_decimal_text};
use vstd::prelude::*;

verus! {

/// A new version 7 UUID in its usual text form: `uuid::Uuid::now_v7`, then
/// `to_string`. Which one comes back depends on the clock and on chance, so
/// the contract claims only the form that `uuid` gives every UUID: 36
/// characters, with hyphens after the 8th, 12th, 16th and 20th digit. `uuid`
/// panics where the clock stands before 1970.
#[verifier::external_body]
fn fresh_uuid() -> (text: String)
    ensures
        text@.len() == 36,
        text@[8] == '-',
        text@[13] == '-',
        text@[18] == '-',
        text@[23] == '-',
{
    uuid::Uuid::now_v7().to_string()
}

/// A new key for a record: a version 7 UUID, which sorts by the time of its
/// making, in its text form of 36 characters.
pub fn uuid_v7() -> (key: String)
    ensures
        key@.len() == 36,
        key@[8] == '-',
        key@[13] == '-',
        key@[18] == '-',
        key@[23] == '-',
{
    fresh_uuid()
}

/// What the names of an identifier template stand for on a given day and
/// for a given counter: `year`, `month` and `day` for the numbers of the date,
/// and `counter` for the counter's text.
pub open spec fn bindings(date: Date, counter: Seq<char>) -> Seq<(Seq<char>, Seq<char>)> {
    seq![
        ("year"@, signed_decimal(date.year as int)),
        ("month"@, decimal(date.month as nat)),
        ("day"@, decimal(date.day as nat)),
        ("counter"@, counter),
    ]
}

/// The identifier that a template yields on a given day for a given counter:
/// the template rendered with its names standing for the numbers of the date
/// and the counter's text. A template that is not plain, one in which a `{`
/// opens anything but `{{ year }}`, `{{ month }}`, `{{ day }}` or
/// `{{ counter }}`, yields none.
pub open spec fn identifier(template: Seq<char>, date: Date, counter: Seq<char>) -> Option<
    Seq<char>,
> {
    if plain(template, names_of(bindings(date, counter))) {
        rendered_template(template, bindings(date, counter))
    } else {
        None
    }
}

/// Renders an identifier template for a given day and counter. Fails with
/// `Identifier` exactly where the template yields no identifier; a template
/// that is not plain is not handed to the engine, and the error then holds
/// the template.
pub fn render_id(template: &str, date: &Date, counter: &str) -> (result: Result<String, Error>)
    ensures
        match identifier(template@, *date, counter@) {
            Some(id) => result matches Ok(text) && text@ == id,
            None => result matches Err(Error::Identifier(_)),
        },
        !plain(template@, names_of(bindings(*date, counter@))) ==> (result matches Err(
            Error::Identifier(detail),
        ) && detail@ == template@),
{
    let mut names: Vec<(String, String)> = Vec::new();
    names.push(("year".to_owned(), signed_decimal_text(date.year)));
    names.push(("month".to_owned(), decimal_text(date.month as u64)));
    names.push(("day".to_owned(), decimal_text(date.day as u64)));
    names.push(("counter".to_owned(), counter.to_owned()));
    assert(bindings_view(names@) =~= bindings(*date, counter@));
    if !is_plain(template, &names) {
        return Err(Error::Identifier(template.to_owned()));
    }
    match render_with_minijinja(template, &names) {
        Ok(id) => Ok(id),
        Err(detail) => Err(Error::Identifier(detail)),
    }
}

/// Renders an identifier template for today and a given counter: the result
/// is what [`render_id`] gives for some date with a month from 1 to 12 and a
/// day from 1 to 31.
pub fn render_id_template(template: &str, counter: &str) -> (result: Result<String, Error>)
    ensures
        exists|today: Date|
            1 <= today.month <= 12 && 1 <= today.day <= 31 && match #[trigger] identifier(
                template@,
                today,
                counter@,
            ) {
                Some(id) => result matches Ok(text) && text@ == id,
                None => result matches Err(Error::Identifier(_)),
            },
{
    let today = Date::today();
    render_id(template, &today, counter)
}

} // verus!
