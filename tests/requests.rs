use truesocks::command::{
    bought_proxy_renew_disable_request, bought_proxy_renew_enable_request,
    check_purchased_proxy_request, fresh_proxy_private_rent_request, fresh_proxy_rent_request,
    history_entry_change_note_request, list_history_request, list_zip_search_request,
    merge_values, query_pairs, refund_purchased_proxy_request, regular_proxy_private_rent_request,
    regular_proxy_rent_request, request_url, Command, Request, API_BASE,
};
use truesocks::json::JsonNumber;
use truesocks::models::{ApiError, ConnectionType, ProxyInfo};
use truesocks::text::to_decimal;

fn proxy(is_fresh: bool, private_rent_cost: u32) -> ProxyInfo {
    ProxyInfo {
        proxy_id: 4711,
        rent_cost: 10,
        private_rent_cost,
        is_fresh,
        ip: None,
        hostname: "h".to_string(),
        isp: "i".to_string(),
        country_code: "US".to_string(),
        country: "United States".to_string(),
        region: "NY".to_string(),
        city: "New York".to_string(),
        zip_code: None,
        timezone: "-05:00".to_string(),
        connection_type: ConnectionType::Hosting,
        ping: JsonNumber::Unsigned(20),
        speed: 100,
        uptime_quality: 99,
        blacklist: None,
        distance: None,
    }
}

fn pairs(v: &[(&str, &str)]) -> Vec<(String, String)> {
    v.iter().map(|(k, x)| (k.to_string(), x.to_string())).collect()
}

fn is_bad_request<T>(r: &Result<T, ApiError>) -> bool {
    matches!(r, Err(ApiError::StatusError(400)))
}

#[test]
fn decimal_text() {
    assert_eq!(to_decimal(0), "0");
    assert_eq!(to_decimal(1254511), "1254511");
    assert_eq!(to_decimal(u64::MAX), "18446744073709551615");
}

#[test]
fn fresh_purchase_of_regular_proxy_refused() {
    assert!(is_bad_request(&fresh_proxy_rent_request(&proxy(false, 5))));
    assert!(is_bad_request(&fresh_proxy_private_rent_request(&proxy(false, 5))));
}

#[test]
fn regular_purchase_of_fresh_proxy_refused() {
    assert!(is_bad_request(&regular_proxy_rent_request(&proxy(true, 5))));
    assert!(is_bad_request(&regular_proxy_private_rent_request(&proxy(true, 5))));
}

#[test]
fn private_rent_without_price_refused() {
    assert!(is_bad_request(&regular_proxy_private_rent_request(&proxy(false, 0))));
    assert!(is_bad_request(&fresh_proxy_private_rent_request(&proxy(true, 0))));
}

#[test]
fn matching_purchases_build_requests() {
    let r = regular_proxy_rent_request(&proxy(false, 0)).unwrap();
    assert_eq!(r.command, Command::RegularProxyBuy);
    assert_eq!(r.params, pairs(&[("proxyid", "4711")]));
    let r = regular_proxy_private_rent_request(&proxy(false, 5)).unwrap();
    assert_eq!(r.command, Command::RegularProxyRent);
    let r = fresh_proxy_rent_request(&proxy(true, 0)).unwrap();
    assert_eq!(r.command, Command::FreshProxyBuy);
    let r = fresh_proxy_private_rent_request(&proxy(true, 5)).unwrap();
    assert_eq!(r.command, Command::FreshProxyRent);
    assert_eq!(r.params, pairs(&[("proxyid", "4711")]));
}

#[test]
fn check_and_refund_requests() {
    let r = check_purchased_proxy_request(&proxy(true, 0));
    assert_eq!(r.command, Command::BoughtProxyCheck);
    assert_eq!(r.params, pairs(&[("proxyid", "4711")]));
    let r = refund_purchased_proxy_request(&proxy(false, 0));
    assert_eq!(r.command, Command::BoughtProxyRefund);
    assert_eq!(r.params, pairs(&[("proxyid", "4711")]));
}

#[test]
fn renewal_requests() {
    let r = bought_proxy_renew_enable_request(99);
    assert_eq!(r.command, Command::BoughtProxyRenewEnable);
    assert_eq!(r.params, pairs(&[("historyid", "99")]));
    let r = bought_proxy_renew_disable_request(99);
    assert_eq!(r.command, Command::BoughtProxyRenewDisable);
    assert_eq!(r.params, pairs(&[("historyid", "99")]));
}

#[test]
fn zip_search_request_params() {
    let r = list_zip_search_request("US", "10001", None, None);
    assert_eq!(r.command, Command::ListZipSearch);
    assert_eq!(r.params, pairs(&[("countrycode", "US"), ("zipcode", "10001")]));
    let r = list_zip_search_request("US", "10001", Some("km"), Some(25));
    assert_eq!(
        r.params,
        pairs(&[("countrycode", "US"), ("zipcode", "10001"), ("units", "km"), ("range", "25")])
    );
}

#[test]
fn history_request_params() {
    assert!(list_history_request(None, None).params.is_empty());
    let r = list_history_request(Some(1), Some(3));
    assert_eq!(r.command, Command::ListHistory);
    assert_eq!(r.params, pairs(&[("onlyactive", "1"), ("page", "3")]));
}

#[test]
fn note_change_params() {
    let r = history_entry_change_note_request(1254511, Some("share_lol"));
    assert_eq!(r.command, Command::HistoryEntryChangeNote);
    assert_eq!(r.params, pairs(&[("historyid", "1254511"), ("note", "share_lol")]));
    let r = history_entry_change_note_request(1254511, None);
    assert_eq!(r.params, pairs(&[("historyid", "1254511")]));
    let r = history_entry_change_note_request(1254511, Some(""));
    assert_eq!(r.params, pairs(&[("historyid", "1254511"), ("note", "")]));
}

#[test]
fn merge_overwrites_by_name() {
    let base = pairs(&[("key", "k"), ("cmd", "Ping"), ("page", "1")]);
    let extra = pairs(&[("page", "2"), ("note", "n")]);
    assert_eq!(
        merge_values(&base, &extra),
        pairs(&[("key", "k"), ("cmd", "Ping"), ("page", "2"), ("note", "n")])
    );
    assert_eq!(merge_values(&base, &Vec::new()), base);
}

#[test]
fn query_carries_key_and_command() {
    let r = Request::new(Command::AccountStatus);
    assert_eq!(query_pairs("SECRET-REDACTED", &r), pairs(&[("key", "SECRET-REDACTED"), ("cmd", "AccountStatus")]));
    let r = bought_proxy_renew_enable_request(5);
    assert_eq!(
        query_pairs("abc", &r),
        pairs(&[("key", "abc"), ("cmd", "BoughtProxyRenewEnable"), ("historyid", "5")])
    );
}

#[test]
fn url_encodes_query() {
    let r = list_zip_search_request("US", "10001", Some("mi les"), None);
    let url = request_url("abc", &r).unwrap();
    assert!(url.starts_with(API_BASE));
    assert_eq!(
        url,
        "https://api.truesocks.net/?key=abc&cmd=ListZipSearch&countrycode=US&zipcode=10001&units=mi+les"
    );
}
