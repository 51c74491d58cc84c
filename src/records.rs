use crate::decode::{
    decodes_at, false_or_at, field, field_false_or, field_optional, field_text_unless,
    optional_at, text_unless_at, DecodeError, FromJson,
};
use crate::json::{member, Json, JsonNumber};
use crate::models::{
    AccountStatusResult, BlacklistInfo, BlacklistType, ConnectInfo, ConnectionType,
    DisableProxyRenewalResult, EnableProxyRenewalResult, ListHistoryResult, ListInfo,
    ListOnlineResult, ListZipSearchResult, ProxyCheckResult, ProxyInfo, PurchaseResult, Status,
    TestAndRefundResult,
};
use vstd::prelude::*;

verus! {

/// The blacklist category that the service writes as `name`.
pub open spec fn blacklist_type_named(name: Seq<char>) -> Option<BlacklistType> {
    if name == "Open Proxy"@ {
        Some(BlacklistType::OpenProxy)
    } else if name == "Web Abuse"@ {
        Some(BlacklistType::WebAbuse)
    } else if name == "Email Spam"@ {
        Some(BlacklistType::EmailSpam)
    } else {
        None
    }
}

/// The connection type that the service writes as `name`.
pub open spec fn connection_type_named(name: Seq<char>) -> Option<ConnectionType> {
    if name == "Mobile"@ {
        Some(ConnectionType::Mobile)
    } else if name == "DSL"@ {
        Some(ConnectionType::DSL)
    } else if name == "Hosting"@ {
        Some(ConnectionType::Hosting)
    } else if name == "Unknown"@ {
        Some(ConnectionType::Unknown)
    } else if name == "N/A"@ {
        Some(ConnectionType::NotAvailable)
    } else {
        None
    }
}

impl FromJson for BlacklistType {
    open spec fn decodes_to(j: Json, v: BlacklistType) -> bool {
        match j {
            Json::Str(s) => blacklist_type_named(s@) == Some(v),
            _ => false,
        }
    }

    fn from_json(j: &Json) -> (r: Result<BlacklistType, DecodeError>) {
        match j {
            Json::Str(s) => {
                if *s == String::from_str("Open Proxy") {
                    Ok(BlacklistType::OpenProxy)
                } else if *s == String::from_str("Web Abuse") {
                    Ok(BlacklistType::WebAbuse)
                } else if *s == String::from_str("Email Spam") {
                    Ok(BlacklistType::EmailSpam)
                } else {
                    Err(DecodeError)
                }
            },
            _ => Err(DecodeError),
        }
    }
}

impl FromJson for ConnectionType {
    open spec fn decodes_to(j: Json, v: ConnectionType) -> bool {
        match j {
            Json::Str(s) => connection_type_named(s@) == Some(v),
            _ => false,
        }
    }

    fn from_json(j: &Json) -> (r: Result<ConnectionType, DecodeError>) {
        match j {
            Json::Str(s) => {
                if *s == String::from_str("Mobile") {
                    Ok(ConnectionType::Mobile)
                } else if *s == String::from_str("DSL") {
                    Ok(ConnectionType::DSL)
                } else if *s == String::from_str("Hosting") {
                    Ok(ConnectionType::Hosting)
                } else if *s == String::from_str("Unknown") {
                    Ok(ConnectionType::Unknown)
                } else if *s == String::from_str("N/A") {
                    Ok(ConnectionType::NotAvailable)
                } else {
                    Err(DecodeError)
                }
            },
            _ => Err(DecodeError),
        }
    }
}

impl FromJson for Status {
    open spec fn decodes_to(j: Json, v: Status) -> bool {
        &&& decodes_at(j, "code"@, v.code)
        &&& decodes_at(j, "message"@, v.message)
    }

    fn from_json(j: &Json) -> (r: Result<Status, DecodeError>) {
        Ok(Status { code: field(j, "code")?, message: field(j, "message")? })
    }
}

impl FromJson for BlacklistInfo {
    open spec fn decodes_to(j: Json, v: BlacklistInfo) -> bool {
        &&& decodes_at(j, "ID"@, v.id)
        &&& decodes_at(j, "Name"@, v.name)
        &&& decodes_at(j, "Type"@, v.blacklist_type)
        &&& decodes_at(j, "Desc"@, v.desc)
        &&& text_unless_at(j, "Link"@, ""@) == Some(v.link)
    }

    fn from_json(j: &Json) -> (r: Result<BlacklistInfo, DecodeError>) {
        Ok(
            BlacklistInfo {
                id: field(j, "ID")?,
                name: field(j, "Name")?,
                blacklist_type: field(j, "Type")?,
                desc: field(j, "Desc")?,
                link: field_text_unless(j, "Link", "")?,
            },
        )
    }
}

impl FromJson for ConnectInfo {
    open spec fn decodes_to(j: Json, v: ConnectInfo) -> bool {
        &&& decodes_at(j, "ConnectIP"@, v.connect_ip)
        &&& decodes_at(j, "ConnectPort"@, v.connect_port)
        &&& decodes_at(j, "ConnectSessionID"@, v.connect_session_id)
    }

    fn from_json(j: &Json) -> (r: Result<ConnectInfo, DecodeError>) {
        Ok(
            ConnectInfo {
                connect_ip: field(j, "ConnectIP")?,
                connect_port: field(j, "ConnectPort")?,
                connect_session_id: field(j, "ConnectSessionID")?,
            },
        )
    }
}

impl FromJson for ProxyInfo {
    open spec fn decodes_to(j: Json, v: ProxyInfo) -> bool {
        &&& decodes_at(j, "ProxyID"@, v.proxy_id)
        &&& decodes_at(j, "CostBuy"@, v.rent_cost)
        &&& decodes_at(j, "CostRent"@, v.private_rent_cost)
        &&& decodes_at(j, "IsFresh"@, v.is_fresh)
        &&& false_or_at(j, "IP"@, v.ip)
        &&& decodes_at(j, "Hostname"@, v.hostname)
        &&& decodes_at(j, "ISP"@, v.isp)
        &&& decodes_at(j, "CountryCode"@, v.country_code)
        &&& decodes_at(j, "Country"@, v.country)
        &&& decodes_at(j, "Region"@, v.region)
        &&& decodes_at(j, "City"@, v.city)
        &&& text_unless_at(j, "ZipCode"@, "-"@) == Some(v.zip_code)
        &&& decodes_at(j, "Timezone"@, v.timezone)
        &&& decodes_at(j, "Connect"@, v.connection_type)
        &&& decodes_at(j, "Ping"@, v.ping)
        &&& decodes_at(j, "Speed"@, v.speed)
        &&& decodes_at(j, "UpTimeQuality"@, v.uptime_quality)
        &&& false_or_at(j, "Blacklist"@, v.blacklist)
        &&& optional_at(j, "Distance"@, v.distance)
    }

    fn from_json(j: &Json) -> (r: Result<ProxyInfo, DecodeError>) {
        Ok(
            ProxyInfo {
                proxy_id: field(j, "ProxyID")?,
                rent_cost: field(j, "CostBuy")?,
                private_rent_cost: field(j, "CostRent")?,
                is_fresh: field(j, "IsFresh")?,
                ip: field_false_or(j, "IP")?,
                hostname: field(j, "Hostname")?,
                isp: field(j, "ISP")?,
                country_code: field(j, "CountryCode")?,
                country: field(j, "Country")?,
                region: field(j, "Region")?,
                city: field(j, "City")?,
                zip_code: field_text_unless(j, "ZipCode", "-")?,
                timezone: field(j, "Timezone")?,
                connection_type: field(j, "Connect")?,
                ping: field::<JsonNumber>(j, "Ping")?,
                speed: field(j, "Speed")?,
                uptime_quality: field(j, "UpTimeQuality")?,
                blacklist: field_false_or(j, "Blacklist")?,
                distance: field_optional(j, "Distance")?,
            },
        )
    }
}

impl FromJson for ListInfo {
    open spec fn decodes_to(j: Json, v: ListInfo) -> bool {
        &&& decodes_at(j, "HistoryID"@, v.history_id)
        &&& false_or_at(j, "ConnectInfo"@, v.connect_info)
        &&& decodes_at(j, "ProxyInfo"@, v.proxy_info)
        &&& decodes_at(j, "LastBought"@, v.last_bought)
        &&& decodes_at(j, "RemainingTime"@, v.remaining_time)
        &&& decodes_at(j, "IsOnline"@, v.is_online)
        &&& decodes_at(j, "IsFresh"@, v.is_fresh)
        &&& decodes_at(j, "IsRented"@, v.is_rented)
        &&& decodes_at(j, "RefundAvailable"@, v.refund_available)
        &&& decodes_at(j, "RenewEnabled"@, v.renew_enabled)
        &&& decodes_at(j, "RenewCountRemaining"@, v.renew_count_remaining)
        &&& decodes_at(j, "IPHasChanged"@, v.ip_has_changed)
        &&& text_unless_at(j, "Note"@, ""@) == Some(v.note)
    }

    fn from_json(j: &Json) -> (r: Result<ListInfo, DecodeError>) {
        Ok(
            ListInfo {
                history_id: field(j, "HistoryID")?,
                connect_info: field_false_or(j, "ConnectInfo")?,
                proxy_info: field(j, "ProxyInfo")?,
                last_bought: field(j, "LastBought")?,
                remaining_time: field(j, "RemainingTime")?,
                is_online: field(j, "IsOnline")?,
                is_fresh: field(j, "IsFresh")?,
                is_rented: field(j, "IsRented")?,
                refund_available: field(j, "RefundAvailable")?,
                renew_enabled: field(j, "RenewEnabled")?,
                renew_count_remaining: field(j, "RenewCountRemaining")?,
                ip_has_changed: field(j, "IPHasChanged")?,
                note: field_text_unless(j, "Note", "")?,
            },
        )
    }
}

/// A note written as the empty string reads back as no note at all; any other
/// note reads back unchanged.
pub proof fn note_round_trip(j: Json, entry: ListInfo, note: String)
    requires
        member(j, "Note"@) == Some(Json::Str(note)),
        ListInfo::decodes_to(j, entry),
    ensures
        note@.len() == 0 ==> entry.note is None,
        note@.len() > 0 ==> entry.note == Some(note),
{
    reveal_strlit("");
    if note@.len() == 0 {
        assert(note@ =~= ""@);
    }
}

impl FromJson for ListOnlineResult {
    open spec fn decodes_to(j: Json, v: ListOnlineResult) -> bool {
        &&& decodes_at(j, "LastUpdate"@, v.last_update)
        &&& decodes_at(j, "ProxyCount"@, v.proxy_count)
        &&& decodes_at(j, "ProxyList"@, v.proxy_list)
    }

    fn from_json(j: &Json) -> (r: Result<ListOnlineResult, DecodeError>) {
        Ok(
            ListOnlineResult {
                last_update: field(j, "LastUpdate")?,
                proxy_count: field(j, "ProxyCount")?,
                proxy_list: field(j, "ProxyList")?,
            },
        )
    }
}

impl FromJson for ListZipSearchResult {
    open spec fn decodes_to(j: Json, v: ListZipSearchResult) -> bool {
        &&& decodes_at(j, "ServerTime"@, v.server_time)
        &&& decodes_at(j, "SearchCountryCode"@, v.search_country_code)
        &&& decodes_at(j, "SearchUnits"@, v.search_units)
        &&& decodes_at(j, "SearchRange"@, v.search_range)
        &&& decodes_at(j, "SearchZipCode"@, v.search_zip_code)
        &&& decodes_at(j, "ProxyCount"@, v.proxy_count)
        &&& decodes_at(j, "ProxyList"@, v.proxy_list)
    }

    fn from_json(j: &Json) -> (r: Result<ListZipSearchResult, DecodeError>) {
        Ok(
            ListZipSearchResult {
                server_time: field(j, "ServerTime")?,
                search_country_code: field(j, "SearchCountryCode")?,
                search_units: field(j, "SearchUnits")?,
                search_range: field(j, "SearchRange")?,
                search_zip_code: field(j, "SearchZipCode")?,
                proxy_count: field(j, "ProxyCount")?,
                proxy_list: field(j, "ProxyList")?,
            },
        )
    }
}

impl FromJson for ListHistoryResult {
    open spec fn decodes_to(j: Json, v: ListHistoryResult) -> bool {
        &&& decodes_at(j, "ServerTime"@, v.server_time)
        &&& decodes_at(j, "HistoryCount"@, v.history_count)
        &&& decodes_at(j, "HistoryEntriesPerPage"@, v.history_entries_per_page)
        &&& decodes_at(j, "HistoryCurrentPage"@, v.history_current_page)
        &&& decodes_at(j, "HistoryMaxPages"@, v.history_max_pages)
        &&& decodes_at(j, "HistoryList"@, v.history_list)
    }

    fn from_json(j: &Json) -> (r: Result<ListHistoryResult, DecodeError>) {
        Ok(
            ListHistoryResult {
                server_time: field(j, "ServerTime")?,
                history_count: field(j, "HistoryCount")?,
                history_entries_per_page: field(j, "HistoryEntriesPerPage")?,
                history_current_page: field(j, "HistoryCurrentPage")?,
                history_max_pages: field(j, "HistoryMaxPages")?,
                history_list: field(j, "HistoryList")?,
            },
        )
    }
}

impl FromJson for PurchaseResult {
    open spec fn decodes_to(j: Json, v: PurchaseResult) -> bool {
        &&& optional_at(j, "ServerTime"@, v.server_time)
        &&& optional_at(j, "CreditsLeft"@, v.credits_left)
        &&& optional_at(j, "HistoryEntry"@, v.history_entry)
    }

    fn from_json(j: &Json) -> (r: Result<PurchaseResult, DecodeError>) {
        Ok(
            PurchaseResult {
                server_time: field_optional(j, "ServerTime")?,
                credits_left: field_optional(j, "CreditsLeft")?,
                history_entry: field_optional(j, "HistoryEntry")?,
            },
        )
    }
}

impl FromJson for ProxyCheckResult {
    open spec fn decodes_to(j: Json, v: ProxyCheckResult) -> bool {
        &&& decodes_at(j, "tests_passed"@, v.tests_passed)
        &&& decodes_at(j, "tests_total"@, v.tests_total)
        &&& decodes_at(j, "tests_result"@, v.test_result)
        &&& decodes_at(j, "tests_result_str"@, v.test_result_long)
    }

    fn from_json(j: &Json) -> (r: Result<ProxyCheckResult, DecodeError>) {
        Ok(
            ProxyCheckResult {
                tests_passed: field(j, "tests_passed")?,
                tests_total: field(j, "tests_total")?,
                test_result: field(j, "tests_result")?,
                test_result_long: field(j, "tests_result_str")?,
            },
        )
    }
}

impl FromJson for TestAndRefundResult {
    open spec fn decodes_to(j: Json, v: TestAndRefundResult) -> bool {
        &&& decodes_at(j, "tests_passed"@, v.tests_passed)
        &&& decodes_at(j, "tests_total"@, v.tests_total)
        &&& decodes_at(j, "tests_result"@, v.test_result)
        &&& decodes_at(j, "tests_result_str"@, v.test_result_long)
        &&& decodes_at(j, "refund_result"@, v.refund_result)
        &&& decodes_at(j, "refund_result_str"@, v.refund_result_long)
    }

    fn from_json(j: &Json) -> (r: Result<TestAndRefundResult, DecodeError>) {
        Ok(
            TestAndRefundResult {
                tests_passed: field(j, "tests_passed")?,
                tests_total: field(j, "tests_total")?,
                test_result: field(j, "tests_result")?,
                test_result_long: field(j, "tests_result_str")?,
                refund_result: field(j, "refund_result")?,
                refund_result_long: field(j, "refund_result_str")?,
            },
        )
    }
}

impl FromJson for EnableProxyRenewalResult {
    open spec fn decodes_to(j: Json, v: EnableProxyRenewalResult) -> bool {
        &&& decodes_at(j, "HistoryID"@, v.history_id)
        &&& decodes_at(j, "Enabled"@, v.enabled)
        &&& decodes_at(j, "CreditsLeft"@, v.credits_left)
        &&& decodes_at(j, "Cost"@, v.cost)
    }

    fn from_json(j: &Json) -> (r: Result<EnableProxyRenewalResult, DecodeError>) {
        Ok(
            EnableProxyRenewalResult {
                history_id: field(j, "HistoryID")?,
                enabled: field(j, "Enabled")?,
                credits_left: field(j, "CreditsLeft")?,
                cost: field(j, "Cost")?,
            },
        )
    }
}

impl FromJson for DisableProxyRenewalResult {
    open spec fn decodes_to(j: Json, v: DisableProxyRenewalResult) -> bool {
        &&& decodes_at(j, "HistoryID"@, v.history_id)
        &&& decodes_at(j, "Enabled"@, v.enabled)
    }

    fn from_json(j: &Json) -> (r: Result<DisableProxyRenewalResult, DecodeError>) {
        Ok(
            DisableProxyRenewalResult {
                history_id: field(j, "HistoryID")?,
                enabled: field(j, "Enabled")?,
            },
        )
    }
}

impl FromJson for AccountStatusResult {
    open spec fn decodes_to(j: Json, v: AccountStatusResult) -> bool {
        &&& decodes_at(j, "Created"@, v.created)
        &&& decodes_at(j, "UserID"@, v.user_id)
        &&& decodes_at(j, "Email"@, v.email)
        &&& decodes_at(j, "Active"@, v.active)
        &&& decodes_at(j, "Plan"@, v.plan)
        &&& decodes_at(j, "Expires"@, v.expires)
        &&& decodes_at(j, "Credits"@, v.credits)
    }

    fn from_json(j: &Json) -> (r: Result<AccountStatusResult, DecodeError>) {
        Ok(
            AccountStatusResult {
                created: field(j, "Created")?,
                user_id: field(j, "UserID")?,
                email: field(j, "Email")?,
                active: field(j, "Active")?,
                plan: field(j, "Plan")?,
                expires: field(j, "Expires")?,
                credits: field(j, "Credits")?,
            },
        )
    }
}

} // verus!
