use actix_web::error::QueryPayloadError;
use actix_web::ResponseError;
use hello_service::query::{HelloQuery, QueryError};
use serde::de::Error;

fn pairs(items: &[(&str, &str)]) -> Vec<(String, String)> {
    items.iter().map(|(k, v)| (k.to_string(), v.to_string())).collect()
}

#[test]
fn from_pairs_takes_the_one_name() {
    let read = HelloQuery::from_pairs(&pairs(&[("name", "world")])).unwrap();
    assert_eq!(read.name, "world");
    let read = HelloQuery::from_pairs(&pairs(&[("a", "1"), ("name", ""), ("b", "2")])).unwrap();
    assert_eq!(read.name, "");
    let read = HelloQuery::from_pairs(&pairs(&[("", "x"), ("name", "name"), ("Name", "y")])).unwrap();
    assert_eq!(read.name, "name");
}

#[test]
fn from_pairs_without_a_name() {
    assert_eq!(HelloQuery::from_pairs(&pairs(&[])).unwrap_err(), QueryError::MissingField);
    assert_eq!(
        HelloQuery::from_pairs(&pairs(&[("nam", "x"), ("names", "y"), ("x", "name")])).unwrap_err(),
        QueryError::MissingField
    );
}

#[test]
fn from_pairs_with_two_names() {
    assert_eq!(
        HelloQuery::from_pairs(&pairs(&[("name", "a"), ("name", "b")])).unwrap_err(),
        QueryError::DuplicateField
    );
    assert_eq!(
        HelloQuery::from_pairs(&pairs(&[("name", "a"), ("x", "1"), ("name", "a"), ("y", "2")]))
            .unwrap_err(),
        QueryError::DuplicateField
    );
}

#[test]
fn from_query_reads_the_pairs() {
    assert_eq!(HelloQuery::from_query("name=world").unwrap().name, "world");
    assert_eq!(HelloQuery::from_query("x=1&name=a+b%21").unwrap().name, "a b!");
    assert_eq!(HelloQuery::from_query("").unwrap_err(), QueryError::MissingField);
    assert_eq!(HelloQuery::from_query("x=1").unwrap_err(), QueryError::MissingField);
    assert_eq!(HelloQuery::from_query("name=1&name=2").unwrap_err(), QueryError::DuplicateField);
}

#[test]
fn from_query_is_lenient_with_bad_escapes() {
    assert_eq!(HelloQuery::from_query("name=100%").unwrap().name, "100%");
    assert_eq!(HelloQuery::from_query("name=%zz").unwrap().name, "%zz");
    assert_eq!(HelloQuery::from_query("name=%ff").unwrap().name, "\u{fffd}");
}

#[test]
fn from_query_agrees_with_the_form_decoder() {
    for query in ["name=world", "a=1&name=x%20y&b", "name=%E2%82%AC+%F0%9F%98%80", "name=&x=%26"] {
        let decoded: Vec<(String, String)> =
            serde_urlencoded::from_str(query).unwrap();
        let expected = HelloQuery::from_pairs(&decoded).unwrap();
        assert_eq!(HelloQuery::from_query(query).unwrap().name, expected.name, "{query}");
    }
}

#[test]
fn error_messages() {
    assert_eq!(QueryError::MissingField.message(), "Query deserialize error: missing field `name`");
    assert_eq!(
        QueryError::DuplicateField.message(),
        "Query deserialize error: duplicate field `name`"
    );
}

#[test]
fn error_messages_are_those_of_the_framework() {
    let missing = QueryPayloadError::Deserialize(serde::de::value::Error::missing_field("name"));
    assert_eq!(missing.to_string(), QueryError::MissingField.message());
    assert_eq!(missing.status_code().as_u16(), hello_service::http::BAD_REQUEST);
    let duplicate =
        QueryPayloadError::Deserialize(serde::de::value::Error::duplicate_field("name"));
    assert_eq!(duplicate.to_string(), QueryError::DuplicateField.message());
    assert_eq!(duplicate.status_code().as_u16(), hello_service::http::BAD_REQUEST);
}
