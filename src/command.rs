use crate::decode::{decodes_at, DecodeError, FromJson};
use crate::json::{member, Json};
use crate::models::{ApiError, ApiResponse, ProxyInfo, Status, BAD_REQUEST, UNEXPECTED_RESPONSE};
use crate::text::{decimal, to_decimal};
use vstd::prelude::*;

verus! {

/// The endpoint that every command is sent to.
pub const API_BASE: &'static str = "https://api.truesocks.net/";

/// The envelope code that marks a stale but usable online listing.
pub const STALE_LISTING: u64 = 209;

/// How many times a transient failure is retried before it is reported.
pub const MAX_RETRIES: u32 = 3;

/// How long a connection may take to open, in milliseconds.
pub const CONNECT_TIMEOUT_MS: u64 = 3000;

/// The commands that the service understands.
#[derive(Debug, PartialEq, Eq, Structural, Clone, Copy)]
pub enum Command {
    Ping,
    ListOnline,
    ListZipSearch,
    ListHistory,
    RegularProxyBuy,
    RegularProxyRent,
    FreshProxyBuy,
    FreshProxyRent,
    BoughtProxyCheck,
    BoughtProxyRefund,
    BoughtProxyRenewEnable,
    BoughtProxyRenewDisable,
    HistoryEntryChangeNote,
    AccountStatus,
}

pub open spec fn command_name(c: Command) -> Seq<char> {
    match c {
        Command::Ping => "Ping"@,
        Command::ListOnline => "ListOnline"@,
        Command::ListZipSearch => "ListZipSearch"@,
        Command::ListHistory => "ListHistory"@,
        Command::RegularProxyBuy => "RegularProxyBuy"@,
        Command::RegularProxyRent => "RegularProxyRent"@,
        Command::FreshProxyBuy => "FreshProxyBuy"@,
        Command::FreshProxyRent => "FreshProxyRent"@,
        Command::BoughtProxyCheck => "BoughtProxyCheck"@,
        Command::BoughtProxyRefund => "BoughtProxyRefund"@,
        Command::BoughtProxyRenewEnable => "BoughtProxyRenewEnable"@,
        Command::BoughtProxyRenewDisable => "BoughtProxyRenewDisable"@,
        Command::HistoryEntryChangeNote => "HistoryEntryChangeNote"@,
        Command::AccountStatus => "AccountStatus"@,
    }
}

impl Command {
    /// The name under which the service knows this command.
    pub fn name(self) -> (r: &'static str)
        ensures
            r@ == command_name(self),
    {
        match self {
            Command::Ping => "Ping",
            Command::ListOnline => "ListOnline",
            Command::ListZipSearch => "ListZipSearch",
            Command::ListHistory => "ListHistory",
            Command::RegularProxyBuy => "RegularProxyBuy",
            Command::RegularProxyRent => "RegularProxyRent",
            Command::FreshProxyBuy => "FreshProxyBuy",
            Command::FreshProxyRent => "FreshProxyRent",
            Command::BoughtProxyCheck => "BoughtProxyCheck",
            Command::BoughtProxyRefund => "BoughtProxyRefund",
            Command::BoughtProxyRenewEnable => "BoughtProxyRenewEnable",
            Command::BoughtProxyRenewDisable => "BoughtProxyRenewDisable",
            Command::HistoryEntryChangeNote => "HistoryEntryChangeNote",
            Command::AccountStatus => "AccountStatus",
        }
    }
}

/// Whether an envelope code lets a reply to `command` through.
pub open spec fn status_accepted(command: Command, code: u64) -> bool {
    code == 0 || (code == STALE_LISTING && command == Command::ListOnline)
}

/// Lets an envelope status through, or turns it into the service's own error.
pub fn check_status(command: Command, status: &Status) -> (r: Result<(), ApiError>)
    ensures
        status_accepted(command, status.code) ==> r is Ok,
        !status_accepted(command, status.code) ==> r == Err::<(), ApiError>(
            ApiError::RequestError(*status),
        ),
        status.code == 0 ==> r is Ok,
        status.code == STALE_LISTING ==> (r is Ok <==> command == Command::ListOnline),
        status.code != 0 && status.code != STALE_LISTING ==> r == Err::<(), ApiError>(
            ApiError::RequestError(*status),
        ),
{
    if status.code == 0 || (status.code == STALE_LISTING && command == Command::ListOnline) {
        Ok(())
    } else {
        Err(ApiError::RequestError(status.duplicate()))
    }
}

/// Whether an HTTP status code reports success.
pub open spec fn http_success(code: u16) -> bool {
    200 <= code < 300
}

pub fn is_http_success(code: u16) -> (r: bool)
    ensures
        r == http_success(code),
{
    200 <= code && code < 300
}

/// What the transport delivered for one request.
#[derive(Debug)]
pub enum Exchange {
    /// The request could not be sent, or no answer came.
    Unsent,
    /// An answer came; `body` is its JSON document, `None` when it was not
    /// read or could not be parsed.
    Answered { http_status: u16, body: Option<Json> },
}

/// What reading the envelope of a reply to `command` gives, with body `b`.
pub open spec fn envelope_outcome(command: Command, b: Json, r: Result<Status, ApiError>) -> bool {
    match r {
        Ok(s) => decodes_at(b, "status"@, s) && status_accepted(command, s.code),
        Err(ApiError::RequestError(s)) => decodes_at(b, "status"@, s) && !status_accepted(
            command,
            s.code,
        ),
        Err(ApiError::StatusError(c)) => c == UNEXPECTED_RESPONSE && forall|s: Status|
            !#[trigger] decodes_at(b, "status"@, s),
    }
}

/// What reading the status of `exchange`, an exchange for `command`, gives.
pub open spec fn status_outcome(command: Command, exchange: Exchange, r: Result<Status, ApiError>) -> bool {
    match exchange {
        Exchange::Unsent => r == Err::<Status, ApiError>(ApiError::StatusError(UNEXPECTED_RESPONSE)),
        Exchange::Answered { http_status, body } => if !http_success(http_status) {
            r == Err::<Status, ApiError>(ApiError::StatusError(http_status))
        } else {
            match body {
                None => r == Err::<Status, ApiError>(ApiError::StatusError(UNEXPECTED_RESPONSE)),
                Some(b) => envelope_outcome(command, b, r),
            }
        },
    }
}

/// Reads the status of a reply to `command`: the HTTP status first, then
/// the envelope.
pub fn read_status(command: Command, exchange: &Exchange) -> (r: Result<Status, ApiError>)
    ensures
        status_outcome(command, *exchange, r),
{
    match exchange {
        Exchange::Unsent => Err(ApiError::StatusError(UNEXPECTED_RESPONSE)),
        Exchange::Answered { http_status, body } => {
            if !is_http_success(*http_status) {
                return Err(ApiError::StatusError(*http_status));
            }
            match body {
                None => Err(ApiError::StatusError(UNEXPECTED_RESPONSE)),
                Some(b) => {
                    let status = match b.get("status") {
                        Some(m) => Status::from_json(m),
                        None => Err(DecodeError),
                    };
                    match status {
                        Ok(s) => match check_status(command, &s) {
                            Ok(()) => Ok(s),
                            Err(e) => Err(e),
                        },
                        Err(_) => Err(ApiError::StatusError(UNEXPECTED_RESPONSE)),
                    }
                },
            }
        },
    }
}

/// The payload of body `b` read as `v`; a missing payload reads as `null`.
pub open spec fn result_decodes<T: FromJson>(b: Json, v: T) -> bool {
    match member(b, "result"@) {
        Some(m) => T::decodes_to(m, v),
        None => T::decodes_to(Json::Null, v),
    }
}

pub open spec fn exchange_result_decodes<T: FromJson>(exchange: Exchange, v: T) -> bool {
    match exchange {
        Exchange::Answered { body: Some(b), .. } => result_decodes(b, v),
        _ => false,
    }
}

/// Whether the status of `exchange` lets its payload through.
pub open spec fn status_passes(command: Command, exchange: Exchange) -> bool {
    exists|s: Status| #[trigger] status_outcome(command, exchange, Ok(s))
}

/// Reads a whole reply to `command`: its status, then its payload as a `T`.
pub fn read_reply<T: FromJson>(command: Command, exchange: &Exchange) -> (r: Result<ApiResponse<T>, ApiError>)
    ensures
        match r {
            Ok(resp) => status_outcome(command, *exchange, Ok(resp.status))
                && exchange_result_decodes(*exchange, resp.result),
            Err(e) => status_outcome(command, *exchange, Err(e)) || (status_passes(
                command,
                *exchange,
            ) && e == ApiError::StatusError(UNEXPECTED_RESPONSE) && forall|v: T|
                !#[trigger] exchange_result_decodes(*exchange, v)),
        },
{
    let status = match read_status(command, exchange) {
        Ok(s) => s,
        Err(e) => return Err(e),
    };
    assert(status_passes(command, *exchange));
    match exchange {
        Exchange::Answered { body: Some(b), .. } => {
            let decoded = match b.get("result") {
                Some(m) => T::from_json(m),
                None => T::from_json(&Json::Null),
            };
            match decoded {
                Ok(result) => Ok(ApiResponse { status, result }),
                Err(_) => Err(ApiError::StatusError(UNEXPECTED_RESPONSE)),
            }
        },
        _ => Err(ApiError::StatusError(UNEXPECTED_RESPONSE)),
    }
}

/// A query parameter as text: its name and its value.
pub open spec fn pairs_view(s: Seq<(String, String)>) -> Seq<(Seq<char>, Seq<char>)> {
    s.map_values(|p: (String, String)| (p.0@, p.1@))
}

pub open spec fn has_key(s: Seq<(Seq<char>, Seq<char>)>, k: Seq<char>) -> bool {
    exists|i: int| 0 <= i < s.len() && #[trigger] s[i].0 == k
}

/// The entries of `base` whose names `extra` does not hold, in order.
pub open spec fn without_keys(
    base: Seq<(Seq<char>, Seq<char>)>,
    extra: Seq<(Seq<char>, Seq<char>)>,
) -> Seq<(Seq<char>, Seq<char>)>
    decreases base.len(),
{
    if base.len() == 0 {
        seq![]
    } else {
        let rest = without_keys(base.drop_last(), extra);
        if has_key(extra, base.last().0) {
            rest
        } else {
            rest.push(base.last())
        }
    }
}

/// `base` with the entries of `extra` written over it, by name.
pub open spec fn merged(
    base: Seq<(Seq<char>, Seq<char>)>,
    extra: Seq<(Seq<char>, Seq<char>)>,
) -> Seq<(Seq<char>, Seq<char>)> {
    without_keys(base, extra) + extra
}

fn contains_key(s: &Vec<(String, String)>, key: &String) -> (r: bool)
    ensures
        r == has_key(pairs_view(s@), key@),
{
    let mut i: usize = 0;
    while i < s.len()
        invariant
            i <= s@.len(),
            forall|j: int| 0 <= j < i ==> s@[j].0@ != key@,
        decreases s@.len() - i,
    {
        if s[i].0 == *key {
            assert(pairs_view(s@)[i as int].0 == key@);
            return true;
        }
        i = i + 1;
    }
    assert forall|j: int| 0 <= j < pairs_view(s@).len() implies #[trigger] pairs_view(s@)[j].0
        != key@ by {
        assert(s@[j].0@ != key@);
    }
    false
}

fn copy_pair(p: &(String, String)) -> (r: (String, String))
    ensures
        r.0@ == p.0@,
        r.1@ == p.1@,
{
    (p.0.clone(), p.1.clone())
}

/// Writes the parameters of `extra` over those of `base`: an entry of `base`
/// stays unless `extra` holds one of the same name.
pub fn merge_values(base: &Vec<(String, String)>, extra: &Vec<(String, String)>) -> (r: Vec<
    (String, String),
>)
    ensures
        pairs_view(r@) == merged(pairs_view(base@), pairs_view(extra@)),
{
    let mut out: Vec<(String, String)> = Vec::new();
    let mut i: usize = 0;
    while i < base.len()
        invariant
            i <= base@.len(),
            pairs_view(out@) == without_keys(pairs_view(base@.take(i as int)), pairs_view(extra@)),
        decreases base@.len() - i,
    {
        assert(pairs_view(base@.take(i + 1)).drop_last() =~= pairs_view(base@.take(i as int)));
        let keep = !contains_key(extra, &base[i].0);
        if keep {
            out.push(copy_pair(&base[i]));
        }
        assert(pairs_view(out@) =~= without_keys(
            pairs_view(base@.take(i + 1)),
            pairs_view(extra@),
        ));
        i = i + 1;
    }
    assert(base@.take(base@.len() as int) =~= base@);
    let ghost kept = pairs_view(out@);
    let mut j: usize = 0;
    while j < extra.len()
        invariant
            j <= extra@.len(),
            pairs_view(out@) =~= kept + pairs_view(extra@.take(j as int)),
        decreases extra@.len() - j,
    {
        let ghost prev = out@;
        out.push(copy_pair(&extra[j]));
        assert(extra@.take(j + 1) =~= extra@.take(j as int).push(extra@[j as int]));
        assert(pairs_view(out@) =~= pairs_view(prev).push((extra@[j as int].0@, extra@[j as int].1@)));
        assert(pairs_view(extra@.take(j + 1)) =~= pairs_view(extra@.take(j as int)).push(
            (extra@[j as int].0@, extra@[j as int].1@),
        ));
        assert(pairs_view(out@) =~= kept + pairs_view(extra@.take(j + 1)));
        j = j + 1;
    }
    assert(extra@.take(extra@.len() as int) =~= extra@);
    out
}

/// A command and the parameters that go with it.
#[derive(Debug)]
pub struct Request {
    pub command: Command,
    pub params: Vec<(String, String)>,
}

impl Request {
    /// A command without parameters of its own.
    pub fn new(command: Command) -> (r: Request)
        ensures
            r.command == command,
            r.params@.len() == 0,
    {
        Request { command, params: Vec::new() }
    }
}

fn pair(name: &str, value: String) -> (r: (String, String))
    ensures
        r.0@ == name@,
        r.1@ == value@,
{
    (String::from_str(name), value)
}

/// The parameters of every request: the key, the command, then its own.
pub open spec fn query_spec(api_key: Seq<char>, request: Request) -> Seq<(Seq<char>, Seq<char>)> {
    merged(
        seq![("key"@, api_key), ("cmd"@, command_name(request.command))],
        pairs_view(request.params@),
    )
}

pub fn query_pairs(api_key: &str, request: &Request) -> (r: Vec<(String, String)>)
    ensures
        pairs_view(r@) == query_spec(api_key@, *request),
{
    let mut base: Vec<(String, String)> = Vec::new();
    base.push(pair("key", String::from_str(api_key)));
    base.push(pair("cmd", String::from_str(request.command.name())));
    assert(pairs_view(base@) =~= seq![
        ("key"@, api_key@),
        ("cmd"@, command_name(request.command)),
    ]);
    merge_values(&base, &request.params)
}

/// What `base` with the query `params` appended reads as, when it parses
/// as a URL.
pub uninterp spec fn url_with_params(base: Seq<char>, params: Seq<(Seq<char>, Seq<char>)>) -> Option<Seq<char>>;

/// Relies on `reqwest::Url::parse_with_params`, which parses `base` and
/// appends `params` to it as an encoded query.
#[verifier::external_body]
fn parse_with_params(base: &str, params: &Vec<(String, String)>) -> (r: Option<String>)
    ensures
        match r {
            Some(u) => url_with_params(base@, pairs_view(params@)) == Some(u@),
            None => url_with_params(base@, pairs_view(params@)) is None,
        },
{
    reqwest::Url::parse_with_params(base, params.iter()).ok().map(String::from)
}

/// The URL that sends `request` with `api_key`.
pub fn request_url(api_key: &str, request: &Request) -> (r: Option<String>)
    ensures
        match r {
            Some(u) => url_with_params(API_BASE@, query_spec(api_key@, *request)) == Some(u@),
            None => url_with_params(API_BASE@, query_spec(api_key@, *request)) is None,
        },
{
    let pairs = query_pairs(api_key, request);
    parse_with_params(API_BASE, &pairs)
}

/// An optional parameter: present only when it has a value.
pub open spec fn optional_pair(name: Seq<char>, value: Option<Seq<char>>) -> Seq<(Seq<char>, Seq<char>)> {
    match value {
        Some(v) => seq![(name, v)],
        None => seq![],
    }
}

pub open spec fn decimal_opt(n: Option<u32>) -> Option<Seq<char>> {
    match n {
        Some(v) => Some(decimal(v as nat)),
        None => None,
    }
}

pub open spec fn str_opt(s: Option<&str>) -> Option<Seq<char>> {
    match s {
        Some(v) => Some(v@),
        None => None,
    }
}

/// Searches for proxies near a zip code.
pub fn list_zip_search_request(
    country_code: &str,
    zip_code: &str,
    units: Option<&str>,
    range: Option<u32>,
) -> (r: Request)
    ensures
        r.command == Command::ListZipSearch,
        pairs_view(r.params@) == seq![("countrycode"@, country_code@), ("zipcode"@, zip_code@)]
            + optional_pair("units"@, str_opt(units)) + optional_pair(
            "range"@,
            decimal_opt(range),
        ),
{
    let mut params: Vec<(String, String)> = Vec::new();
    params.push(pair("countrycode", String::from_str(country_code)));
    params.push(pair("zipcode", String::from_str(zip_code)));
    let ghost fixed = pairs_view(params@);
    if let Some(u) = units {
        params.push(pair("units", String::from_str(u)));
    }
    let ghost with_units = pairs_view(params@);
    if let Some(n) = range {
        params.push(pair("range", to_decimal(n as u64)));
    }
    assert(pairs_view(params@) =~= seq![
        ("countrycode"@, country_code@),
        ("zipcode"@, zip_code@),
    ] + optional_pair("units"@, str_opt(units)) + optional_pair("range"@, decimal_opt(range)));
    Request { command: Command::ListZipSearch, params }
}

/// Lists the purchase history, one page at a time.
pub fn list_history_request(only_active: Option<u32>, page: Option<u32>) -> (r: Request)
    ensures
        r.command == Command::ListHistory,
        pairs_view(r.params@) == optional_pair("onlyactive"@, decimal_opt(only_active))
            + optional_pair("page"@, decimal_opt(page)),
{
    let mut params: Vec<(String, String)> = Vec::new();
    if let Some(n) = only_active {
        params.push(pair("onlyactive", to_decimal(n as u64)));
    }
    if let Some(n) = page {
        params.push(pair("page", to_decimal(n as u64)));
    }
    assert(pairs_view(params@) =~= optional_pair("onlyactive"@, decimal_opt(only_active))
        + optional_pair("page"@, decimal_opt(page)));
    Request { command: Command::ListHistory, params }
}

/// A request whose one parameter is `name`, written in decimal.
fn id_request(command: Command, name: &str, id: u64) -> (r: Request)
    ensures
        r.command == command,
        pairs_view(r.params@) == seq![(name@, decimal(id as nat))],
{
    let mut params: Vec<(String, String)> = Vec::new();
    params.push(pair(name, to_decimal(id)));
    assert(pairs_view(params@) =~= seq![(name@, decimal(id as nat))]);
    Request { command, params }
}

/// The parameters that name `proxy`.
pub open spec fn proxy_params(proxy: ProxyInfo) -> Seq<(Seq<char>, Seq<char>)> {
    seq![("proxyid"@, decimal(proxy.proxy_id as nat))]
}

/// A purchase of `proxy` by `command`, sent only when `allowed`.
fn purchase_request(command: Command, allowed: bool, proxy: &ProxyInfo) -> (r: Result<Request, ApiError>)
    ensures
        allowed ==> (r matches Ok(req) && req.command == command && pairs_view(req.params@)
            == proxy_params(*proxy)),
        !allowed ==> r == Err::<Request, ApiError>(ApiError::StatusError(BAD_REQUEST)),
{
    if allowed {
        Ok(id_request(command, "proxyid", proxy.proxy_id as u64))
    } else {
        Err(ApiError::StatusError(BAD_REQUEST))
    }
}

/// Buys a regular proxy; refused for a fresh one.
pub fn regular_proxy_rent_request(proxy: &ProxyInfo) -> (r: Result<Request, ApiError>)
    ensures
        proxy.is_fresh ==> r == Err::<Request, ApiError>(ApiError::StatusError(BAD_REQUEST)),
        !proxy.is_fresh ==> (r matches Ok(req) && req.command == Command::RegularProxyBuy
            && pairs_view(req.params@) == proxy_params(*proxy)),
{
    purchase_request(Command::RegularProxyBuy, !proxy.is_fresh, proxy)
}

/// Rents a regular proxy privately; refused for a fresh one, and for one
/// that has no private rental price.
pub fn regular_proxy_private_rent_request(proxy: &ProxyInfo) -> (r: Result<Request, ApiError>)
    ensures
        proxy.is_fresh || proxy.private_rent_cost == 0 ==> r == Err::<Request, ApiError>(
            ApiError::StatusError(BAD_REQUEST),
        ),
        !proxy.is_fresh && proxy.private_rent_cost > 0 ==> (r matches Ok(req) && req.command
            == Command::RegularProxyRent && pairs_view(req.params@) == proxy_params(*proxy)),
{
    purchase_request(
        Command::RegularProxyRent,
        !proxy.is_fresh && proxy.private_rent_cost > 0,
        proxy,
    )
}

/// Buys a fresh proxy; refused for a regular one.
pub fn fresh_proxy_rent_request(proxy: &ProxyInfo) -> (r: Result<Request, ApiError>)
    ensures
        !proxy.is_fresh ==> r == Err::<Request, ApiError>(ApiError::StatusError(BAD_REQUEST)),
        proxy.is_fresh ==> (r matches Ok(req) && req.command == Command::FreshProxyBuy
            && pairs_view(req.params@) == proxy_params(*proxy)),
{
    purchase_request(Command::FreshProxyBuy, proxy.is_fresh, proxy)
}

/// Rents a fresh proxy privately; refused for a regular one, and for one
/// that has no private rental price.
pub fn fresh_proxy_private_rent_request(proxy: &ProxyInfo) -> (r: Result<Request, ApiError>)
    ensures
        !proxy.is_fresh || proxy.private_rent_cost == 0 ==> r == Err::<Request, ApiError>(
            ApiError::StatusError(BAD_REQUEST),
        ),
        proxy.is_fresh && proxy.private_rent_cost > 0 ==> (r matches Ok(req) && req.command
            == Command::FreshProxyRent && pairs_view(req.params@) == proxy_params(*proxy)),
{
    purchase_request(
        Command::FreshProxyRent,
        proxy.is_fresh && proxy.private_rent_cost > 0,
        proxy,
    )
}

/// Tests a purchased proxy.
pub fn check_purchased_proxy_request(proxy: &ProxyInfo) -> (r: Request)
    ensures
        r.command == Command::BoughtProxyCheck,
        pairs_view(r.params@) == proxy_params(*proxy),
{
    id_request(Command::BoughtProxyCheck, "proxyid", proxy.proxy_id as u64)
}

/// Tests a purchased proxy and asks for a refund if it fails.
pub fn refund_purchased_proxy_request(proxy: &ProxyInfo) -> (r: Request)
    ensures
        r.command == Command::BoughtProxyRefund,
        pairs_view(r.params@) == proxy_params(*proxy),
{
    id_request(Command::BoughtProxyRefund, "proxyid", proxy.proxy_id as u64)
}

/// Turns automatic renewal of a history entry on.
pub fn bought_proxy_renew_enable_request(history_id: u32) -> (r: Request)
    ensures
        r.command == Command::BoughtProxyRenewEnable,
        pairs_view(r.params@) == seq![("historyid"@, decimal(history_id as nat))],
{
    id_request(Command::BoughtProxyRenewEnable, "historyid", history_id as u64)
}

/// Turns automatic renewal of a history entry off.
pub fn bought_proxy_renew_disable_request(history_id: u32) -> (r: Request)
    ensures
        r.command == Command::BoughtProxyRenewDisable,
        pairs_view(r.params@) == seq![("historyid"@, decimal(history_id as nat))],
{
    id_request(Command::BoughtProxyRenewDisable, "historyid", history_id as u64)
}

/// Changes the note of a history entry: `None` leaves the note out of the
/// request, an empty note clears it, any other note replaces it.
pub fn history_entry_change_note_request(history_id: u64, note: Option<&str>) -> (r: Request)
    ensures
        r.command == Command::HistoryEntryChangeNote,
        pairs_view(r.params@) == seq![("historyid"@, decimal(history_id as nat))] + optional_pair(
            "note"@,
            str_opt(note),
        ),
{
    let mut r = id_request(Command::HistoryEntryChangeNote, "historyid", history_id);
    let ghost before = pairs_view(r.params@);
    if let Some(n) = note {
        r.params.push(pair("note", String::from_str(n)));
    }
    assert(pairs_view(r.params@) =~= before + optional_pair("note"@, str_opt(note)));
    r
}

} // verus!
