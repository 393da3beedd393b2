//! Small shared formatters: transfer speed, uptime, and failure text.

use vstd::prelude::*;
use vstd::string::StringExecFns;

use crate::decimal::{dec_rep, u64_to_string};
use crate::error::RouterError;
use crate::ubus::WifiClient;
use crate::wifi_mode::WifiMode;

verus! {

/// A rate of `bps` bits per second in whole megabits per second, halves
/// rounded up.
pub open spec fn spec_speed_mbps(bps: u64) -> nat {
    if (bps as nat) % 1000000 >= 500000 {
        (bps as nat) / 1000000 + 1
    } else {
        (bps as nat) / 1000000
    }
}

/// What `format_speed` prints for a rate of `bps` bits per second.
pub open spec fn spec_format_speed(bps: u64) -> Seq<char> {
    dec_rep(spec_speed_mbps(bps)) + " Mbps"@
}

/// Renders a transfer rate in whole megabits per second.
pub fn format_speed(bps: u64) -> (r: String)
    ensures
        r@ == spec_format_speed(bps),
{
    let whole = bps / 1000000;
    let rem = bps % 1000000;
    let rounded = if rem >= 500000 {
        whole + 1
    } else {
        whole
    };
    u64_to_string(rounded).concat(" Mbps")
}

/// Returns the wireless-generation label of a connected client.
pub fn wifi_mode(client: &WifiClient) -> (r: &'static str)
    ensures
        r@ == WifiMode::spec_from_client(client).spec_as_str(),
{
    WifiMode::from_client(client).as_str()
}

/// What `format_uptime` prints for an uptime of `seconds`: days, hours and
/// minutes, omitting the leading units that are zero.
pub open spec fn spec_format_uptime(seconds: u64) -> Seq<char> {
    let days = (seconds as nat) / 86400;
    let hours = ((seconds as nat) % 86400) / 3600;
    let minutes = ((seconds as nat) % 3600) / 60;
    if days > 0 {
        dec_rep(days) + "d "@ + dec_rep(hours) + "h "@ + dec_rep(minutes) + "m"@
    } else if hours > 0 {
        dec_rep(hours) + "h "@ + dec_rep(minutes) + "m"@
    } else {
        dec_rep(minutes) + "m"@
    }
}

/// Renders an uptime in days, hours and minutes.
pub fn format_uptime(seconds: u64) -> (r: String)
    ensures
        r@ == spec_format_uptime(seconds),
{
    let days = seconds / 86400;
    let hours = (seconds % 86400) / 3600;
    let minutes = (seconds % 3600) / 60;
    if days > 0 {
        u64_to_string(days).concat("d ").concat(u64_to_string(hours).as_str()).concat(
            "h ",
        ).concat(u64_to_string(minutes).as_str()).concat("m")
    } else if hours > 0 {
        u64_to_string(hours).concat("h ").concat(u64_to_string(minutes).as_str()).concat("m")
    } else {
        u64_to_string(minutes).concat("m")
    }
}

/// What `format_error` prints for a failed query: the fixed marker, then the
/// failure's description.
pub open spec fn spec_format_error(error: &RouterError) -> Seq<char> {
    "Error: "@ + error.spec_message()
}

/// Renders a failed query for the user.
pub fn format_error(error: &RouterError) -> (r: String)
    ensures
        r@ == spec_format_error(error),
{
    "Error: ".to_owned().concat(error.message().as_str())
}

} // verus!
