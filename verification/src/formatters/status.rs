//! The system-status report: board identification, uptime, memory and load.

use vstd::prelude::*;
use vstd::string::StringExecFns;

use crate::decimal::{dec_rep, dec_two_digits, u64_to_string, u64_to_two_digits};
use crate::error::RouterError;
use crate::formatters::utils::{format_error, format_uptime, spec_format_error, spec_format_uptime};
use crate::ubus::{MemoryInfo, RouterStatus};

verus! {

/// What `format_memory` prints: used and total memory in whole megabytes, and
/// the used share in whole percent.
pub open spec fn spec_format_memory(mem: &MemoryInfo) -> Seq<char>
    recommends
        mem.wf(),
{
    let used = mem.total - mem.available;
    let used_mb = used / 1048576;
    let total_mb = (mem.total as int) / 1048576;
    let percent = used * 100 / (mem.total as int);
    "RAM: "@ + dec_rep(used_mb as nat) + " / "@ + dec_rep(total_mb as nat) + " MB ("@ + dec_rep(
        percent as nat,
    ) + "%)"@
}

/// Renders the memory line of the status report.
pub fn format_memory(mem: &MemoryInfo) -> (r: String)
    requires
        mem.wf(),
    ensures
        r@ == spec_format_memory(mem),
{
    let used: u64 = mem.total - mem.available;
    let used_mb: u64 = used / 1048576;
    let total_mb: u64 = mem.total / 1048576;
    let wide: u128 = (used as u128) * 100 / (mem.total as u128);
    proof {
        assert((used as int) * 100 / (mem.total as int) <= 100) by (nonlinear_arith)
            requires
                0 <= used as int <= mem.total as int,
                0 < mem.total as int,
        ;
    }
    let percent: u64 = wide as u64;
    "RAM: ".to_owned().concat(u64_to_string(used_mb).as_str()).concat(" / ").concat(
        u64_to_string(total_mb).as_str(),
    ).concat(" MB (").concat(u64_to_string(percent).as_str()).concat("%)")
}

/// What one load average prints as: the hundredths value as a fixed-point
/// number with two decimal places.
pub open spec fn spec_load_value(l: u32) -> Seq<char> {
    dec_rep((l as nat) / 100) + "."@ + dec_two_digits((l as nat) % 100)
}

/// What `format_load` prints: the three load averages, space-separated.
pub open spec fn spec_format_load(load: Seq<u32>) -> Seq<char>
    recommends
        load.len() == 3,
{
    spec_load_value(load[0]) + " "@ + spec_load_value(load[1]) + " "@ + spec_load_value(load[2])
}

/// Renders one load average, reported in hundredths, with two decimal places.
fn load_value(l: u32) -> (r: String)
    ensures
        r@ == spec_load_value(l),
{
    u64_to_string((l / 100) as u64).concat(".").concat(u64_to_two_digits((l % 100) as u64).as_str())
}

/// Renders the load line of the status report.
pub fn format_load(load: &[u32; 3]) -> (r: String)
    ensures
        r@ == spec_format_load(load@),
{
    load_value(load[0]).concat(" ").concat(load_value(load[1]).as_str()).concat(" ").concat(
        load_value(load[2]).as_str(),
    )
}

/// What `format_router_status` prints: the board header, then uptime, memory
/// and load.
pub open spec fn spec_router_status(status: &RouterStatus) -> Seq<char>
    recommends
        status.system.memory.wf(),
{
    "["@ + status.board.hostname@ + "]\n"@ + status.board.release.distribution@ + " | "@
        + status.board.release.version@ + "\n"@ + status.board.model@ + "\n\nUptime: "@
        + spec_format_uptime(status.system.uptime) + "\n"@ + spec_format_memory(
        &status.system.memory,
    ) + "\nLoad: "@ + spec_format_load(status.system.load@)
}

/// Renders the full status report for one successful query.
pub fn format_router_status(status: &RouterStatus) -> (r: String)
    requires
        status.system.memory.wf(),
    ensures
        r@ == spec_router_status(status),
{
    let uptime = format_uptime(status.system.uptime);
    let memory = format_memory(&status.system.memory);
    let load = format_load(&status.system.load);
    "[".to_owned().concat(status.board.hostname.as_str()).concat("]\n").concat(
        status.board.release.distribution.as_str(),
    ).concat(" | ").concat(status.board.release.version.as_str()).concat("\n").concat(
        status.board.model.as_str(),
    ).concat("\n\nUptime: ").concat(uptime.as_str()).concat("\n").concat(memory.as_str()).concat(
        "\nLoad: ",
    ).concat(load.as_str())
}

/// What `format_status` prints: the status report on success, the failure
/// text otherwise.
pub open spec fn spec_format_status(result: &Result<RouterStatus, RouterError>) -> Seq<char>
    recommends
        result matches Ok(status) ==> status.system.memory.wf(),
{
    match result {
        Ok(status) => spec_router_status(status),
        Err(error) => spec_format_error(error),
    }
}

/// Renders the outcome of a status query: the report on success, the failure
/// text otherwise, never an error raised to the caller.
pub fn format_status(result: &Result<RouterStatus, RouterError>) -> (r: String)
    requires
        result matches Ok(status) ==> status.system.memory.wf(),
    ensures
        r@ == spec_format_status(result),
{
    match result {
        Ok(status) => format_router_status(status),
        Err(error) => format_error(error),
    }
}

} // verus!
