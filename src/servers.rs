//! The bundled list of servers and the front-ends' default settings.

use crate::types::ServerInfo;
use vstd::prelude::*;

verus! {

/// `s` is the bundled entry with these fields and no latency measured yet.
/// Its public key is a placeholder that must be replaced with the server's
/// real key before deployment; a connection made with it fails.
pub open spec fn lists(
    s: ServerInfo,
    id: Seq<char>,
    country: Seq<char>,
    flag: Seq<char>,
    city: Seq<char>,
    address: Seq<char>,
) -> bool {
    &&& s.id@ == id
    &&& s.country@ == country
    &&& s.country_flag@ == flag
    &&& s.city@ == city
    &&& s.address@ == address
    &&& s.public_key@ == "REPLACE_WITH_REAL_PUBLIC_KEY="@
    &&& s.ping_ms is None
}

fn entry(id: &str, country: &str, flag: &str, city: &str, address: &str) -> (r: ServerInfo)
    ensures
        lists(r, id@, country@, flag@, city@, address@),
{
    ServerInfo {
        id: String::from_str(id),
        country: String::from_str(country),
        country_flag: String::from_str(flag),
        city: String::from_str(city),
        address: String::from_str(address),
        public_key: String::from_str("REPLACE_WITH_REAL_PUBLIC_KEY="),
        ping_ms: None,
    }
}

/// The bundled list of servers, in the order shown.
pub fn builtin_servers() -> (r: Vec<ServerInfo>)
    ensures
        r@.len() == 5,
        lists(r@[0], "us-ny-1"@, "United States"@, "🇺🇸"@, "New York"@, "us-ny-1.nysvpb.example:51820"@),
        lists(r@[1], "de-fra-1"@, "Germany"@, "🇩🇪"@, "Frankfurt"@, "de-fra-1.nysvpb.example:51820"@),
        lists(r@[2], "jp-tyo-1"@, "Japan"@, "🇯🇵"@, "Tokyo"@, "jp-tyo-1.nysvpb.example:51820"@),
        lists(r@[3], "gb-lon-1"@, "United Kingdom"@, "🇬🇧"@, "London"@, "gb-lon-1.nysvpb.example:51820"@),
        lists(r@[4], "sg-sin-1"@, "Singapore"@, "🇸🇬"@, "Singapore"@, "sg-sin-1.nysvpb.example:51820"@),
{
    let mut r: Vec<ServerInfo> = Vec::new();
    r.push(entry("us-ny-1", "United States", "🇺🇸", "New York", "us-ny-1.nysvpb.example:51820"));
    r.push(entry("de-fra-1", "Germany", "🇩🇪", "Frankfurt", "de-fra-1.nysvpb.example:51820"));
    r.push(entry("jp-tyo-1", "Japan", "🇯🇵", "Tokyo", "jp-tyo-1.nysvpb.example:51820"));
    r.push(entry("gb-lon-1", "United Kingdom", "🇬🇧", "London", "gb-lon-1.nysvpb.example:51820"));
    r.push(entry("sg-sin-1", "Singapore", "🇸🇬", "Singapore", "sg-sin-1.nysvpb.example:51820"));
    r
}

/// Settings a front-end keeps between runs.
#[derive(Clone, Debug)]
pub struct AppSettings {
    pub kill_switch: bool,
    pub auto_connect: bool,
    pub dns_leak_protection: bool,
    pub launch_at_login: bool,
    pub protocol: String,
    pub selected_server_id: Option<String>,
}

impl Default for AppSettings {
    /// Leak protection on, everything else off, WireGuard, no server chosen.
    fn default() -> (r: Self)
        ensures
            !r.kill_switch,
            !r.auto_connect,
            r.dns_leak_protection,
            !r.launch_at_login,
            r.protocol@ == "wireguard"@,
            r.selected_server_id is None,
    {
        AppSettings {
            kill_switch: false,
            auto_connect: false,
            dns_leak_protection: true,
            launch_at_login: false,
            protocol: String::from_str("wireguard"),
            selected_server_id: None,
        }
    }
}

} // verus!
