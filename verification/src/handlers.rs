//! The command handlers: pure functions from a command's query results to
//! the response text. Ping and Help need no query; the others take the
//! outcome of the router queries the command calls for, so a query failure
//! becomes response text here and never reaches the transport.

use vstd::prelude::*;

use crate::error::RouterError;
use crate::formatters::{
    format_status, format_wifi_clients, format_wifi_status, spec_clients_total,
    spec_format_status, spec_format_wifi_clients, spec_format_wifi_status, spec_interface_count,
};
use crate::ubus::{HostapdClients, RouterStatus, WirelessStatus};

verus! {

/// What Ping answers: always this fixed text, every time.
pub open spec fn spec_ping_response() -> Seq<char> {
    "pong"@
}

/// Answers Ping with the fixed acknowledgement.
pub fn ping_response() -> (r: String)
    ensures
        r@ == spec_ping_response(),
{
    "pong".to_owned()
}

/// What Help answers: always this fixed list of the available commands,
/// every time.
pub open spec fn spec_help_response() -> Seq<char> {
    "Available commands:\n/ping\n/status\n/wifi\n/clients\n/help"@
}

/// Answers Help with the fixed command list.
pub fn help_response() -> (r: String)
    ensures
        r@ == spec_help_response(),
{
    "Available commands:\n/ping\n/status\n/wifi\n/clients\n/help".to_owned()
}

/// Answers Status from the outcome of the status query: the formatted
/// report on success, the failure text otherwise.
pub fn status_response(result: &Result<RouterStatus, RouterError>) -> (r: String)
    requires
        result matches Ok(status) ==> status.system.memory.wf(),
    ensures
        r@ == spec_format_status(result),
{
    format_status(result)
}

/// Answers Wifi from the outcome of the wireless query: the formatted
/// report on success, the failure text otherwise.
pub fn wifi_response(result: &Result<WirelessStatus, RouterError>) -> (r: String)
    ensures
        r@ == spec_format_wifi_status(result),
{
    format_wifi_status(result)
}

/// Answers Clients from the outcome of the wireless query and of one client
/// query per interface, in report order: the formatted report on success,
/// the failure text otherwise.
pub fn clients_response(
    result: &Result<WirelessStatus, RouterError>,
    clients_results: &Vec<Result<HostapdClients, RouterError>>,
) -> (r: String)
    requires
        result matches Ok(wireless) ==> clients_results@.len() == spec_interface_count(wireless)
            && spec_clients_total(wireless, clients_results@) <= usize::MAX,
    ensures
        r@ == spec_format_wifi_clients(result, clients_results@),
{
    format_wifi_clients(result, clients_results)
}

} // verus!
