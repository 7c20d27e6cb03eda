use librus_export::client::SynergiaClient;
use librus_export::decimal::parse_id;
use librus_export::error::ApiError;
use librus_export::json::Json;
use librus_export::messages::{ContentFields, MessageType};

fn object(members: Vec<(&str, Json)>) -> Json {
    Json::Object(members.into_iter().map(|(k, v)| (k.to_string(), v)).collect())
}

fn listing(ids: &[&str]) -> Json {
    let data = ids
        .iter()
        .map(|id| object(vec![("messageId", Json::Str(id.to_string())), ("topic", Json::Null)]))
        .collect();
    object(vec![("total", Json::Int(ids.len() as i64)), ("data", Json::Array(data))])
}

fn client() -> SynergiaClient {
    SynergiaClient::new(10, ContentFields::standard())
}

#[test]
fn sent_folder_lists_ids_in_order() {
    let c = client();
    let probe = listing(&["101"]);
    let probe = match probe {
        Json::Object(mut members) => {
            members[0].1 = Json::Int(3);
            Json::Object(members)
        }
        other => other,
    };
    let total = c.get_message_count(&probe).unwrap();
    assert_eq!(total, 3);
    assert_eq!(
        c.messages_url(false, MessageType::Sent, total),
        "https://wiadomosci.librus.pl/api/outbox/messages?page=1&limit=3"
    );
    let handles = c.get_messages(false, MessageType::Sent, &listing(&["101", "102", "103"])).unwrap();
    let ids: Vec<i64> = handles.iter().map(|h| h.id).collect();
    assert_eq!(ids, vec![101, 102, 103]);
    assert!(handles.iter().all(|h| h.message_type == MessageType::Sent && !h.in_archive));
}

#[test]
fn empty_folder_lists_nothing() {
    let c = client();
    let empty = listing(&[]);
    assert_eq!(c.get_message_count(&empty).unwrap(), 0);
    assert_eq!(
        c.messages_url(true, MessageType::Inbox, 0),
        "https://wiadomosci.librus.pl/api/archive/inbox/messages?page=1&limit=0"
    );
    let handles = c.get_messages(true, MessageType::Inbox, &empty).unwrap();
    assert!(handles.is_empty());
}

#[test]
fn probe_without_total_is_rejected() {
    let c = client();
    let probe = object(vec![("data", Json::Array(vec![]))]);
    match c.get_message_count(&probe) {
        Err(ApiError::Deserialization(f)) => assert_eq!(f, "total"),
        _ => panic!("expected a missing total"),
    }
    let fractional = object(vec![("total", Json::OtherNumber)]);
    assert!(c.get_message_count(&fractional).is_err());
}

#[test]
fn non_numeric_id_aborts_the_listing() {
    let c = client();
    match c.get_messages(false, MessageType::Inbox, &listing(&["1", "x2", "3"])) {
        Err(ApiError::Parse(t)) => assert_eq!(t, "x2"),
        _ => panic!("expected a parse error"),
    }
}

#[test]
fn missing_id_aborts_the_listing() {
    let c = client();
    let data = Json::Array(vec![object(vec![("topic", Json::Str("t".to_string()))])]);
    let l = object(vec![("total", Json::Int(1)), ("data", data)]);
    match c.get_messages(false, MessageType::Trash, &l) {
        Err(ApiError::Deserialization(f)) => assert_eq!(f, "messageId"),
        _ => panic!("expected a missing id"),
    }
}

#[test]
fn listing_without_data_is_rejected() {
    let c = client();
    let l = object(vec![("total", Json::Int(0))]);
    match c.get_messages(false, MessageType::Trash, &l) {
        Err(ApiError::Deserialization(f)) => assert_eq!(f, "data"),
        _ => panic!("expected missing data"),
    }
}

#[test]
fn ids_parse_like_i64() {
    assert_eq!(parse_id("101"), Some(101));
    assert_eq!(parse_id("+7"), Some(7));
    assert_eq!(parse_id("-12"), Some(-12));
    assert_eq!(parse_id("0042"), Some(42));
    assert_eq!(parse_id("9223372036854775807"), Some(i64::MAX));
    assert_eq!(parse_id("-9223372036854775808"), Some(i64::MIN));
    assert_eq!(parse_id("9223372036854775808"), None);
    assert_eq!(parse_id("99999999999999999999999"), None);
    assert_eq!(parse_id(""), None);
    assert_eq!(parse_id("-"), None);
    assert_eq!(parse_id("+"), None);
    assert_eq!(parse_id("1 2"), None);
    assert_eq!(parse_id("١٢"), None);
}
