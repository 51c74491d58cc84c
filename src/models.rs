use crate::json::JsonNumber;
use vstd::prelude::*;

verus! {

/// The status code reported when a request could not be sent or its reply
/// could not be read as the expected shape.
pub const UNEXPECTED_RESPONSE: u16 = 418;

/// The status code reported when a request is refused before it is sent.
pub const BAD_REQUEST: u16 = 400;

/// Why a call failed.
#[derive(Debug, Clone)]
pub enum ApiError {
    /// The service answered with a nonzero status code in its envelope.
    RequestError(Status),
    /// A transport, HTTP or decoding failure, or a refused precondition,
    /// classified by a status code.
    StatusError(u16),
}

impl From<u16> for ApiError {
    fn from(status: u16) -> (r: Self)
        ensures
            r == ApiError::StatusError(status),
    {
        ApiError::StatusError(status)
    }
}

impl vstd::std_specs::convert::FromSpecImpl<u16> for ApiError {
    open spec fn obeys_from_spec() -> bool {
        true
    }

    open spec fn from_spec(status: u16) -> Self {
        ApiError::StatusError(status)
    }
}

impl From<Status> for ApiError {
    fn from(status: Status) -> (r: Self)
        ensures
            r == ApiError::RequestError(status),
    {
        ApiError::RequestError(status)
    }
}

impl vstd::std_specs::convert::FromSpecImpl<Status> for ApiError {
    open spec fn obeys_from_spec() -> bool {
        true
    }

    open spec fn from_spec(status: Status) -> Self {
        ApiError::RequestError(status)
    }
}

/// The status envelope that wraps every reply.
#[derive(Debug, Clone)]
pub struct Status {
    pub code: u64,
    pub message: String,
}

impl Status {
    /// An equal copy of this status.
    pub fn duplicate(&self) -> (r: Status)
        ensures
            r == *self,
    {
        Status { code: self.code, message: self.message.clone() }
    }
}

/// A whole reply: its status and its command-specific payload.
#[derive(Debug, Clone)]
pub struct ApiResponse<T> {
    pub status: Status,
    pub result: T,
}

#[derive(Debug, PartialEq, Eq, Structural, Clone, Copy)]
pub enum BlacklistType {
    OpenProxy,
    WebAbuse,
    EmailSpam,
}

/// One blacklist that a proxy's address appears on.
#[derive(Debug, Clone)]
pub struct BlacklistInfo {
    pub id: String,
    pub name: String,
    pub blacklist_type: BlacklistType,
    pub desc: String,
    /// Link to the blacklist's own documentation.
    pub link: Option<String>,
}

#[derive(Debug, PartialEq, Eq, Structural, Clone, Copy)]
pub enum ConnectionType {
    Mobile,
    DSL,
    Hosting,
    Unknown,
    NotAvailable,
}

/// A proxy as the service lists it.
#[derive(Debug, Clone)]
pub struct ProxyInfo {
    pub proxy_id: u32,
    pub rent_cost: u32,
    pub private_rent_cost: u32,
    pub is_fresh: bool,
    pub ip: Option<String>,
    pub hostname: String,
    pub isp: String,
    pub country_code: String,
    pub country: String,
    pub region: String,
    pub city: String,
    pub zip_code: Option<String>,
    pub timezone: String,
    pub connection_type: ConnectionType,
    /// Latency, as the number the service sent.
    pub ping: JsonNumber,
    pub speed: u32,
    pub uptime_quality: u32,
    pub blacklist: Option<Vec<BlacklistInfo>>,
    /// Distance from the searched place, only present in proximity searches.
    pub distance: Option<JsonNumber>,
}

/// How to reach a proxy that is currently assigned.
#[derive(Debug, Clone)]
pub struct ConnectInfo {
    pub connect_ip: String,
    pub connect_port: u16,
    pub connect_session_id: String,
}

/// One entry of the purchase and rental history.
#[derive(Debug, Clone)]
pub struct ListInfo {
    pub history_id: u64,
    pub connect_info: Option<ConnectInfo>,
    pub proxy_info: ProxyInfo,
    pub last_bought: u64,
    pub remaining_time: u64,
    pub is_online: bool,
    pub is_fresh: bool,
    pub is_rented: bool,
    pub refund_available: bool,
    pub renew_enabled: bool,
    pub renew_count_remaining: u64,
    pub ip_has_changed: bool,
    pub note: Option<String>,
}

#[derive(Debug, Clone)]
pub struct ListOnlineResult {
    pub last_update: u64,
    pub proxy_count: u32,
    pub proxy_list: Vec<ProxyInfo>,
}

#[derive(Debug, Clone)]
pub struct ListZipSearchResult {
    pub server_time: u64,
    pub search_country_code: String,
    pub search_units: String,
    pub search_range: u32,
    pub search_zip_code: String,
    pub proxy_count: u32,
    pub proxy_list: Vec<ProxyInfo>,
}

#[derive(Debug, Clone)]
pub struct ListHistoryResult {
    pub server_time: u64,
    pub history_count: u32,
    pub history_entries_per_page: u32,
    pub history_current_page: u32,
    pub history_max_pages: u32,
    pub history_list: Vec<ListInfo>,
}

#[derive(Debug, Clone)]
pub struct PurchaseResult {
    pub server_time: Option<u64>,
    pub credits_left: Option<u32>,
    pub history_entry: Option<ListInfo>,
}

#[derive(Debug, Clone)]
pub struct ProxyCheckResult {
    pub tests_passed: u32,
    pub tests_total: u32,
    pub test_result: String,
    pub test_result_long: String,
}

#[derive(Debug, Clone)]
pub struct TestAndRefundResult {
    pub tests_passed: u32,
    pub tests_total: u32,
    pub test_result: String,
    pub test_result_long: String,
    pub refund_result: String,
    pub refund_result_long: String,
}

#[derive(Debug, Clone)]
pub struct EnableProxyRenewalResult {
    pub history_id: u32,
    pub enabled: bool,
    pub credits_left: u32,
    pub cost: u32,
}

#[derive(Debug, Clone)]
pub struct DisableProxyRenewalResult {
    pub history_id: u32,
    pub enabled: bool,
}

#[derive(Debug, Clone)]
pub struct AccountStatusResult {
    /// Account creation time, in milliseconds since the Unix epoch.
    pub created: u64,
    pub user_id: String,
    pub email: String,
    pub active: bool,
    pub plan: String,
    /// When the credits expire, in milliseconds since the Unix epoch.
    pub expires: u64,
    /// Credits left on the account.
    pub credits: u32,
}

} // verus!
