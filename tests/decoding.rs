use serde_json::Value;
use truesocks::command::{read_reply, read_status, Command, Exchange};
use truesocks::decode::{
    blacklist_field, connect_info_field, empty_string_as_none, ip_field, zipcode_field, FromJson,
};
use truesocks::json::{Json, JsonNumber};
use truesocks::models::{
    AccountStatusResult, ApiError, BlacklistType, ConnectionType, ListHistoryResult, ListInfo,
    ListOnlineResult, ProxyInfo, PurchaseResult,
};

fn to_json(v: Value) -> Json {
    match v {
        Value::Null => Json::Null,
        Value::Bool(b) => Json::Bool(b),
        Value::Number(n) => Json::Number(if let Some(u) = n.as_u64() {
            JsonNumber::Unsigned(u)
        } else if let Some(i) = n.as_i64() {
            JsonNumber::Negative(i)
        } else {
            JsonNumber::Float(n.to_string())
        }),
        Value::String(s) => Json::Str(s),
        Value::Array(a) => Json::Array(a.into_iter().map(to_json).collect()),
        Value::Object(o) => Json::Object(o.into_iter().map(|(k, v)| (k, to_json(v))).collect()),
    }
}

fn json(text: &str) -> Json {
    to_json(serde_json::from_str(text).unwrap())
}

fn proxy_text(ip: &str, zip: &str, blacklist: &str) -> String {
    format!(
        r#"{{"ProxyID":7,"CostBuy":12,"CostRent":3,"IsFresh":false,"IP":{ip},
        "Hostname":"h.example","ISP":"isp","CountryCode":"US","Country":"United States",
        "Region":"NY","City":"New York","ZipCode":{zip},"Timezone":"-05:00",
        "Connect":"DSL","Ping":12.5,"Speed":2048,"UpTimeQuality":90,
        "Blacklist":{blacklist}}}"#
    )
}

fn entry_text(note: &str) -> String {
    format!(
        r#"{{"HistoryID":1254511,"ConnectInfo":false,"ProxyInfo":{},"LastBought":100,
        "RemainingTime":3725,"IsOnline":true,"IsFresh":false,"IsRented":false,
        "RefundAvailable":true,"RenewEnabled":false,"RenewCountRemaining":2,
        "IPHasChanged":false,"Note":{note}}}"#,
        proxy_text("false", "\"-\"", "false")
    )
}

fn answered(body: &str) -> Exchange {
    Exchange::Answered { http_status: 200, body: Some(json(body)) }
}

#[test]
fn ip_false_is_absent() {
    assert_eq!(ip_field(&Json::Bool(false)).unwrap(), None);
}

#[test]
fn ip_string_is_kept() {
    let ip = ip_field(&Json::Str("203.0.113.5".to_string())).unwrap();
    assert_eq!(ip.as_deref(), Some("203.0.113.5"));
}

#[test]
fn ip_number_fails() {
    assert!(ip_field(&Json::Number(JsonNumber::Unsigned(42))).is_err());
    assert!(ip_field(&Json::Bool(true)).is_err());
    assert!(ip_field(&Json::Null).is_err());
}

#[test]
fn zip_dash_is_absent() {
    assert_eq!(zipcode_field(&Json::Str("-".to_string())).unwrap(), None);
}

#[test]
fn zip_code_is_kept() {
    let zip = zipcode_field(&Json::Str("10001".to_string())).unwrap();
    assert_eq!(zip.as_deref(), Some("10001"));
    assert!(zipcode_field(&Json::Bool(false)).is_err());
    assert!(zipcode_field(&Json::Number(JsonNumber::Unsigned(10001))).is_err());
}

#[test]
fn empty_string_is_absent() {
    assert_eq!(empty_string_as_none(&Json::Str(String::new())).unwrap(), None);
    let note = empty_string_as_none(&Json::Str("share_lol".to_string())).unwrap();
    assert_eq!(note.as_deref(), Some("share_lol"));
    assert!(empty_string_as_none(&Json::Null).is_err());
    assert!(empty_string_as_none(&Json::Bool(false)).is_err());
}

#[test]
fn blacklist_false_is_absent() {
    assert!(blacklist_field(&Json::Bool(false)).unwrap().is_none());
}

#[test]
fn blacklist_entry_with_empty_link() {
    let j = json(r#"[{"ID":"1","Name":"x","Type":"Open Proxy","Desc":"d","Link":""}]"#);
    let list = blacklist_field(&j).unwrap().unwrap();
    assert_eq!(list.len(), 1);
    assert_eq!(list[0].id, "1");
    assert_eq!(list[0].name, "x");
    assert_eq!(list[0].blacklist_type, BlacklistType::OpenProxy);
    assert_eq!(list[0].desc, "d");
    assert!(list[0].link.is_none());
}

#[test]
fn blacklist_other_shapes_fail() {
    assert!(blacklist_field(&Json::Bool(true)).is_err());
    assert!(blacklist_field(&Json::Str("none".to_string())).is_err());
    let j = json(r#"[{"ID":"1","Name":"x","Type":"Spam","Desc":"d","Link":""}]"#);
    assert!(blacklist_field(&j).is_err());
}

#[test]
fn connect_info_false_is_absent() {
    assert!(connect_info_field(&Json::Bool(false)).unwrap().is_none());
    let j = json(r#"{"ConnectIP":"198.51.100.1","ConnectPort":8080,"ConnectSessionID":"s1"}"#);
    let info = connect_info_field(&j).unwrap().unwrap();
    assert_eq!(info.connect_ip, "198.51.100.1");
    assert_eq!(info.connect_port, 8080);
    assert_eq!(info.connect_session_id, "s1");
    let too_big = json(r#"{"ConnectIP":"x","ConnectPort":70000,"ConnectSessionID":"s1"}"#);
    assert!(connect_info_field(&too_big).is_err());
    assert!(connect_info_field(&Json::Null).is_err());
}

#[test]
fn proxy_record_decodes() {
    let p = ProxyInfo::from_json(&json(&proxy_text("\"203.0.113.5\"", "\"10001\"", "false")))
        .unwrap();
    assert_eq!(p.proxy_id, 7);
    assert_eq!(p.rent_cost, 12);
    assert_eq!(p.private_rent_cost, 3);
    assert!(!p.is_fresh);
    assert_eq!(p.ip.as_deref(), Some("203.0.113.5"));
    assert_eq!(p.zip_code.as_deref(), Some("10001"));
    assert_eq!(p.connection_type, ConnectionType::DSL);
    assert!(matches!(p.ping, JsonNumber::Float(ref t) if t == "12.5"));
    assert_eq!(p.speed, 2048);
    assert!(p.blacklist.is_none());
    assert!(p.distance.is_none());
}

#[test]
fn proxy_record_sentinels() {
    let p = ProxyInfo::from_json(&json(&proxy_text("false", "\"-\"", "false"))).unwrap();
    assert!(p.ip.is_none());
    assert!(p.zip_code.is_none());
}

#[test]
fn proxy_record_bad_ip_fails() {
    assert!(ProxyInfo::from_json(&json(&proxy_text("42", "\"-\"", "false"))).is_err());
}

#[test]
fn proxy_record_missing_field_fails() {
    let j = json(r#"{"ProxyID":7}"#);
    assert!(ProxyInfo::from_json(&j).is_err());
}

#[test]
fn connection_type_names() {
    let names = [
        ("Mobile", ConnectionType::Mobile),
        ("DSL", ConnectionType::DSL),
        ("Hosting", ConnectionType::Hosting),
        ("Unknown", ConnectionType::Unknown),
        ("N/A", ConnectionType::NotAvailable),
    ];
    for (name, kind) in names {
        assert_eq!(ConnectionType::from_json(&Json::Str(name.to_string())).unwrap(), kind);
    }
    assert!(ConnectionType::from_json(&Json::Str("NotAvailable".to_string())).is_err());
}

#[test]
fn note_empty_reads_as_absent() {
    let e = ListInfo::from_json(&json(&entry_text("\"\""))).unwrap();
    assert!(e.note.is_none());
    assert!(e.connect_info.is_none());
}

#[test]
fn note_text_reads_back_unchanged() {
    let e = ListInfo::from_json(&json(&entry_text("\"share_lol\""))).unwrap();
    assert_eq!(e.note.as_deref(), Some("share_lol"));
    assert_eq!(e.history_id, 1254511);
}

#[test]
fn remaining_time_text() {
    let mut e = ListInfo::from_json(&json(&entry_text("\"\""))).unwrap();
    assert_eq!(e.formatted_remaining_time(), "1 Hours 2 Minutes 5 Seconds");
    e.remaining_time = 125;
    assert_eq!(e.formatted_remaining_time(), "2 Minutes 5 Seconds");
    e.remaining_time = 0;
    assert_eq!(e.formatted_remaining_time(), "0 Seconds");
}

#[test]
fn history_list_decodes() {
    let body = format!(
        r#"{{"status":{{"code":0,"message":"ok"}},"result":{{"ServerTime":5,"HistoryCount":1,
        "HistoryEntriesPerPage":10,"HistoryCurrentPage":1,"HistoryMaxPages":1,
        "HistoryList":[{}]}}}}"#,
        entry_text("\"n\"")
    );
    let r = read_reply::<ListHistoryResult>(Command::ListHistory, &answered(&body)).unwrap();
    assert_eq!(r.status.code, 0);
    assert_eq!(r.result.history_list.len(), 1);
    assert_eq!(r.result.history_list[0].note.as_deref(), Some("n"));
}

#[test]
fn purchase_result_optional_fields() {
    let r = PurchaseResult::from_json(&json(r#"{"ServerTime":null,"CreditsLeft":4}"#)).unwrap();
    assert!(r.server_time.is_none());
    assert_eq!(r.credits_left, Some(4));
    assert!(r.history_entry.is_none());
    assert!(PurchaseResult::from_json(&json(r#"{"CreditsLeft":"4"}"#)).is_err());
}

#[test]
fn status_zero_succeeds_for_every_command() {
    let body = r#"{"status":{"code":0,"message":"ok"},"result":true}"#;
    assert!(read_reply::<bool>(Command::Ping, &answered(body)).unwrap().result);
    assert!(read_status(Command::AccountStatus, &answered(body)).is_ok());
    assert!(read_status(Command::HistoryEntryChangeNote, &answered(body)).is_ok());
}

#[test]
fn stale_listing_only_for_online_list() {
    let body = r#"{"status":{"code":209,"message":"stale"},
        "result":{"LastUpdate":1,"ProxyCount":0,"ProxyList":[]}}"#;
    let r = read_reply::<ListOnlineResult>(Command::ListOnline, &answered(body)).unwrap();
    assert_eq!(r.status.code, 209);
    assert_eq!(r.result.proxy_count, 0);
    match read_status(Command::ListHistory, &answered(body)) {
        Err(ApiError::RequestError(s)) => {
            assert_eq!(s.code, 209);
            assert_eq!(s.message, "stale");
        }
        other => panic!("unexpected: {:?}", other),
    }
}

#[test]
fn nonzero_status_is_api_error() {
    let body = r#"{"status":{"code":5,"message":"no credits"},"result":null}"#;
    match read_reply::<AccountStatusResult>(Command::AccountStatus, &answered(body)) {
        Err(ApiError::RequestError(s)) => {
            assert_eq!(s.code, 5);
            assert_eq!(s.message, "no credits");
        }
        other => panic!("unexpected: {:?}", other),
    }
}

#[test]
fn transport_and_http_failures() {
    assert!(matches!(
        read_status(Command::Ping, &Exchange::Unsent),
        Err(ApiError::StatusError(418))
    ));
    let refused = Exchange::Answered { http_status: 503, body: None };
    assert!(matches!(read_status(Command::Ping, &refused), Err(ApiError::StatusError(503))));
    let unreadable = Exchange::Answered { http_status: 200, body: None };
    assert!(matches!(read_status(Command::Ping, &unreadable), Err(ApiError::StatusError(418))));
}

#[test]
fn malformed_payload_is_unexpected() {
    let body = r#"{"status":{"code":0,"message":"ok"},"result":{"Created":"soon"}}"#;
    assert!(matches!(
        read_reply::<AccountStatusResult>(Command::AccountStatus, &answered(body)),
        Err(ApiError::StatusError(418))
    ));
    let no_status = r#"{"result":true}"#;
    assert!(matches!(
        read_reply::<bool>(Command::Ping, &answered(no_status)),
        Err(ApiError::StatusError(418))
    ));
}

#[test]
fn account_status_decodes() {
    let body = r#"{"status":{"code":0,"message":"ok"},"result":{"Created":1000,"UserID":"u1",
        "Email":"a@example.com","Active":true,"Plan":"basic","Expires":2000,"Credits":30}}"#;
    let r = read_reply::<AccountStatusResult>(Command::AccountStatus, &answered(body)).unwrap();
    assert_eq!(r.result.user_id, "u1");
    assert_eq!(r.result.credits, 30);
    assert!(r.result.active);
}
