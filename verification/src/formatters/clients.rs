//! The connected-clients report: a total, then one block per interface that
//! has clients, each block a header line and one line per client.
//!
//! The per-interface client lists come from one query per interface. The
//! caller makes those queries, one for every interface of every radio in
//! report order, and hands the outcomes over as one list; an interface whose
//! query failed, or that has no clients, contributes no block.

use vstd::prelude::*;
use vstd::string::StringExecFns;

use crate::decimal::{dec_int_rep, dec_rep, i64_to_string, u64_to_string};
use crate::error::RouterError;
use crate::formatters::utils::{
    format_error, format_speed, spec_format_error, spec_format_speed, wifi_mode,
};
use crate::ubus::{HostapdClients, RadioInfo, WifiClient, WifiInterface, WirelessStatus};
use crate::wifi_mode::WifiMode;

verus! {

/// A vector of strings, seen as the sequence of their character sequences.
pub open spec fn views_of(v: Seq<String>) -> Seq<Seq<char>> {
    v.map_values(|s: String| s@)
}

/// A string vector's deep view is exactly its elements' views.
proof fn lemma_deep_view_is_views(v: &Vec<String>)
    ensures
        v.deep_view() == views_of(v@),
{
    let dv = v.deep_view();
    let mp = views_of(v@);
    assert forall|i: int| 0 <= i < dv.len() implies dv[i] == mp[i] by {}
    assert(dv =~= mp);
}

/// The line shown for one connected client.
pub open spec fn spec_client_line(mac: Seq<char>, client: WifiClient) -> Seq<char> {
    "\n  "@ + mac + "\n    "@ + spec_format_speed(client.rate.tx) + " | "@
        + WifiMode::spec_from_client(&client).spec_as_str() + " | "@ + dec_int_rep(
        client.signal as int,
    ) + "dBm"@
}

/// Renders the line for one connected client.
pub fn format_client_info(mac: &str, client: &WifiClient) -> (r: String)
    ensures
        r@ == spec_client_line(mac@, *client),
{
    let speed = format_speed(client.rate.tx);
    let mode = wifi_mode(client);
    let signal = i64_to_string(client.signal as i64);
    "\n  ".to_owned().concat(mac).concat("\n    ").concat(speed.as_str()).concat(" | ").concat(
        mode,
    ).concat(" | ").concat(signal.as_str()).concat("dBm")
}

/// The header line of one interface's block.
pub open spec fn spec_iface_header(ssid: Seq<char>, band: Seq<char>, count: nat) -> Seq<char> {
    "\n"@ + ssid + " ("@ + band + ") - "@ + dec_rep(count) + " devices"@
}

/// The line each client of an interface contributes.
pub open spec fn client_line_of(p: (String, WifiClient)) -> Seq<char> {
    spec_client_line(p.0@, p.1)
}

/// The lines of one interface's block, given the outcome of its client
/// query: nothing for a failed query or an interface without clients,
/// otherwise the header and one line per client, in report order.
pub open spec fn spec_block_lines(
    iface: WifiInterface,
    band: Seq<char>,
    result: Result<HostapdClients, RouterError>,
) -> Seq<Seq<char>> {
    match result {
        Err(_) => Seq::empty(),
        Ok(info) => if info.clients.len() == 0 {
            Seq::empty()
        } else {
            seq![spec_iface_header(iface.config.ssid@, band, info.clients@.len())]
                + info.clients@.map_values(|p: (String, WifiClient)| client_line_of(p))
        },
    }
}

/// How many clients one interface's block counts: its clients on success,
/// none for a failed query.
pub open spec fn spec_block_count(result: Result<HostapdClients, RouterError>) -> nat {
    match result {
        Err(_) => 0,
        Ok(info) => info.clients@.len(),
    }
}

/// Renders one interface's block: `None` for a failed query or an interface
/// without clients, otherwise the block's lines and its client count.
pub fn collect_interface_clients(
    iface: &WifiInterface,
    band: &str,
    result: &Result<HostapdClients, RouterError>,
) -> (r: Option<(Vec<String>, usize)>)
    ensures
        (r is Some) == (spec_block_lines(*iface, band@, *result).len() > 0),
        r matches Some(p) ==> p.0.deep_view() == spec_block_lines(*iface, band@, *result)
            && p.1 as nat == spec_block_count(*result),
        r is None ==> spec_block_count(*result) == 0,
{
    match result {
        Err(_) => None,
        Ok(info) => {
            let count = info.clients.len();
            if count == 0 {
                None
            } else {
                let mut lines: Vec<String> = Vec::new();
                let header = "\n".to_owned().concat(iface.config.ssid.as_str()).concat(
                    " (",
                ).concat(band).concat(") - ").concat(u64_to_string(count as u64).as_str()).concat(
                    " devices",
                );
                proof {
                    assert(header@ == spec_iface_header(iface.config.ssid@, band@, count as nat));
                }
                lines.push(header);
                let mut j: usize = 0;
                while j < count
                    invariant
                        j <= count,
                        count == info.clients.len(),
                        views_of(lines@) =~= seq![
                            spec_iface_header(iface.config.ssid@, band@, count as nat),
                        ] + info.clients@.take(j as int).map_values(
                            |p: (String, WifiClient)| client_line_of(p),
                        ),
                    decreases count - j,
                {
                    let entry = &info.clients[j];
                    let line = format_client_info(entry.0.as_str(), &entry.1);
                    let ghost pre = lines@;
                    lines.push(line);
                    proof {
                        let post = info.clients@.take(j as int + 1);
                        assert(post.drop_last() =~= info.clients@.take(j as int));
                        assert(post.last() == info.clients@[j as int]);
                        assert(views_of(lines@) =~= views_of(pre).push(line@));
                        assert(post.map_values(|p: (String, WifiClient)| client_line_of(p))
                            =~= post.drop_last().map_values(
                            |p: (String, WifiClient)| client_line_of(p),
                        ).push(client_line_of(post.last())));
                        assert(views_of(lines@) =~= seq![
                            spec_iface_header(iface.config.ssid@, band@, count as nat),
                        ] + post.map_values(|p: (String, WifiClient)| client_line_of(p)));
                    }
                    j += 1;
                }
                proof {
                    assert(info.clients@.take(count as int) =~= info.clients@);
                    lemma_deep_view_is_views(&lines);
                }
                Some((lines, count))
            }
        },
    }
}

/// How many interfaces the radios from index `i` on carry.
pub open spec fn spec_count_from(radios: Seq<(String, RadioInfo)>, i: int) -> nat
    decreases radios.len() - i,
{
    if i < 0 || i >= radios.len() {
        0
    } else {
        radios[i].1.interfaces@.len() + spec_count_from(radios, i + 1)
    }
}

/// How many interfaces the report names, over all radios: the number of
/// client queries the report calls for.
pub open spec fn spec_interface_count(wireless: &WirelessStatus) -> nat {
    spec_count_from(wireless.0@, 0)
}

/// Counts the interfaces of the report, over all radios.
pub fn interface_count(wireless: &WirelessStatus) -> (n: usize)
    requires
        spec_interface_count(wireless) <= usize::MAX,
    ensures
        n as nat == spec_interface_count(wireless),
{
    let radios = &wireless.0;
    let mut n: usize = 0;
    let mut i: usize = 0;
    while i < radios.len()
        invariant
            i <= radios.len(),
            n as nat + spec_count_from(radios@, i as int) == spec_count_from(radios@, 0),
            spec_count_from(radios@, 0) <= usize::MAX,
        decreases radios.len() - i,
    {
        n += radios[i].1.interfaces.len();
        i += 1;
    }
    n
}

/// The remaining client blocks, starting with radio `i`, interface `j` of
/// that radio, and query outcome `k`.
pub open spec fn spec_lines_from(
    radios: Seq<(String, RadioInfo)>,
    results: Seq<Result<HostapdClients, RouterError>>,
    i: int,
    j: int,
    k: int,
) -> Seq<Seq<char>>
    decreases radios.len() - i, radios[i].1.interfaces@.len() - j,
{
    if i < 0 || i >= radios.len() || j < 0 {
        Seq::empty()
    } else if j >= radios[i].1.interfaces@.len() {
        spec_lines_from(radios, results, i + 1, 0, k)
    } else {
        spec_block_lines(radios[i].1.interfaces@[j], radios[i].1.config.band@, results[k])
            + spec_lines_from(radios, results, i, j + 1, k + 1)
    }
}

/// The remaining client total, counted the same way.
pub open spec fn spec_total_from(
    radios: Seq<(String, RadioInfo)>,
    results: Seq<Result<HostapdClients, RouterError>>,
    i: int,
    j: int,
    k: int,
) -> nat
    decreases radios.len() - i, radios[i].1.interfaces@.len() - j,
{
    if i < 0 || i >= radios.len() || j < 0 {
        0
    } else if j >= radios[i].1.interfaces@.len() {
        spec_total_from(radios, results, i + 1, 0, k)
    } else {
        spec_block_count(results[k]) + spec_total_from(radios, results, i, j + 1, k + 1)
    }
}

/// All client blocks of the report: for each interface of each radio, in
/// report order, the block its query outcome yields.
pub open spec fn spec_client_blocks(
    wireless: &WirelessStatus,
    results: Seq<Result<HostapdClients, RouterError>>,
) -> Seq<Seq<char>> {
    spec_lines_from(wireless.0@, results, 0, 0, 0)
}

/// The total number of clients the report counts.
pub open spec fn spec_clients_total(
    wireless: &WirelessStatus,
    results: Seq<Result<HostapdClients, RouterError>>,
) -> nat {
    spec_total_from(wireless.0@, results, 0, 0, 0)
}

/// Gathers the client blocks of the whole report and the client total.
///
/// `results` holds one query outcome per interface, over all radios in
/// report order.
pub fn collect_clients_info(
    wireless: &WirelessStatus,
    results: &Vec<Result<HostapdClients, RouterError>>,
) -> (r: (Vec<String>, usize))
    requires
        results@.len() == spec_interface_count(wireless),
        spec_clients_total(wireless, results@) <= usize::MAX,
    ensures
        r.0.deep_view() == spec_client_blocks(wireless, results@),
        r.1 as nat == spec_clients_total(wireless, results@),
{
    let radios = &wireless.0;
    let n_results = results.len();
    let mut lines: Vec<String> = Vec::new();
    let mut total: usize = 0;
    let mut k: usize = 0;
    let mut i: usize = 0;
    while i < radios.len()
        invariant
            i <= radios.len(),
            n_results == results@.len(),
            results@.len() == spec_count_from(radios@, 0),
            spec_total_from(radios@, results@, 0, 0, 0) <= usize::MAX,
            k as nat + spec_count_from(radios@, i as int) == spec_count_from(radios@, 0),
            views_of(lines@) + spec_lines_from(radios@, results@, i as int, 0, k as int)
                =~= spec_lines_from(radios@, results@, 0, 0, 0),
            total as nat + spec_total_from(radios@, results@, i as int, 0, k as int)
                == spec_total_from(radios@, results@, 0, 0, 0),
        decreases radios.len() - i,
    {
        let radio = &radios[i].1;
        let mut j: usize = 0;
        while j < radio.interfaces.len()
            invariant
                i < radios.len(),
                j <= radio.interfaces.len(),
                radio == &radios@[i as int].1,
                n_results == results@.len(),
                results@.len() == spec_count_from(radios@, 0),
                spec_total_from(radios@, results@, 0, 0, 0) <= usize::MAX,
                k as nat + (radio.interfaces@.len() - j as int) + spec_count_from(
                    radios@,
                    i as int + 1,
                ) == spec_count_from(radios@, 0),
                views_of(lines@) + spec_lines_from(radios@, results@, i as int, j as int, k as int)
                    =~= spec_lines_from(radios@, results@, 0, 0, 0),
                total as nat + spec_total_from(radios@, results@, i as int, j as int, k as int)
                    == spec_total_from(radios@, results@, 0, 0, 0),
            decreases radio.interfaces.len() - j,
        {
            let iface = &radio.interfaces[j];
            let outcome = &results[k];
            let ghost pre = lines@;
            let block_result = collect_interface_clients(
                iface,
                radio.config.band.as_str(),
                outcome,
            );
            proof {
                assert(spec_total_from(radios@, results@, i as int, j as int, k as int)
                    == spec_block_count(results@[k as int]) + spec_total_from(
                    radios@,
                    results@,
                    i as int,
                    j as int + 1,
                    k as int + 1,
                ));
            }
            if let Some((mut block, count)) = block_result {
                proof {
                    lemma_deep_view_is_views(&block);
                }
                lines.append(&mut block);
                proof {
                    assert(views_of(lines@) =~= views_of(pre) + spec_block_lines(
                        radios@[i as int].1.interfaces@[j as int],
                        radios@[i as int].1.config.band@,
                        results@[k as int],
                    ));
                }
                total += count;
            } else {
                proof {
                    assert(spec_block_lines(
                        radios@[i as int].1.interfaces@[j as int],
                        radios@[i as int].1.config.band@,
                        results@[k as int],
                    ) =~= Seq::<Seq<char>>::empty());
                }
            }
            proof {
                assert(views_of(lines@) + spec_lines_from(
                    radios@,
                    results@,
                    i as int,
                    j as int + 1,
                    k as int + 1,
                ) =~= spec_lines_from(radios@, results@, 0, 0, 0));
            }
            j += 1;
            k += 1;
        }
        i += 1;
    }
    proof {
        lemma_deep_view_is_views(&lines);
        assert(views_of(lines@) =~= views_of(lines@) + spec_lines_from(
            radios@,
            results@,
            i as int,
            0,
            k as int,
        ));
    }
    (lines, total)
}

/// The given lines, one after the other.
pub open spec fn spec_cat_lines(lines: Seq<Seq<char>>) -> Seq<char>
    decreases lines.len(),
{
    if lines.len() == 0 {
        Seq::empty()
    } else {
        spec_cat_lines(lines.drop_last()) + lines.last()
    }
}

/// What `format_clients_output` prints: the fixed header; then, with no
/// client counted, exactly the fixed no-devices message and nothing else;
/// otherwise the total and every block line.
pub open spec fn spec_clients_output(blocks: Seq<Seq<char>>, total: nat) -> Seq<char> {
    "Connected devices"@ + if total == 0 {
        "\n\nNo connected devices"@
    } else {
        "\nTotal: "@ + dec_rep(total) + spec_cat_lines(blocks)
    }
}

/// Renders the gathered client blocks as one report.
pub fn format_clients_output(lines: Vec<String>, total: usize) -> (r: String)
    ensures
        r@ == spec_clients_output(views_of(lines@), total as nat),
{
    let mut result: String = "Connected devices".to_owned();
    if total == 0 {
        result.append("\n\nNo connected devices");
        result
    } else {
        result.append("\nTotal: ");
        result.append(u64_to_string(total as u64).as_str());
        let n = lines.len();
        let mut m: usize = 0;
        while m < n
            invariant
                m <= n,
                n == lines.len(),
                0 < total,
                result@ == "Connected devices"@ + "\nTotal: "@ + dec_rep(total as nat)
                    + spec_cat_lines(views_of(lines@).take(m as int)),
            decreases n - m,
        {
            result.append(lines[m].as_str());
            proof {
                let post = views_of(lines@).take(m as int + 1);
                assert(post.drop_last() =~= views_of(lines@).take(m as int));
                assert(post.last() == views_of(lines@)[m as int]);
                assert(result@ =~= "Connected devices"@ + "\nTotal: "@ + dec_rep(total as nat)
                    + spec_cat_lines(post));
            }
            m += 1;
        }
        proof {
            assert(views_of(lines@).take(n as int) =~= views_of(lines@));
        }
        result
    }
}

/// What `format_wifi_clients` prints: the failure text when the wireless
/// query failed, the full clients report otherwise.
pub open spec fn spec_format_wifi_clients(
    result: &Result<WirelessStatus, RouterError>,
    clients: Seq<Result<HostapdClients, RouterError>>,
) -> Seq<char> {
    match result {
        Err(error) => spec_format_error(error),
        Ok(wireless) => spec_clients_output(
            spec_client_blocks(wireless, clients),
            spec_clients_total(wireless, clients),
        ),
    }
}

/// Renders the outcome of the clients queries: the failure text when the
/// wireless query failed, the full report otherwise, never an error raised
/// to the caller.
///
/// `clients_results` holds one query outcome per interface of the wireless
/// report, over all radios in report order.
pub fn format_wifi_clients(
    result: &Result<WirelessStatus, RouterError>,
    clients_results: &Vec<Result<HostapdClients, RouterError>>,
) -> (r: String)
    requires
        result matches Ok(wireless) ==> clients_results@.len() == spec_interface_count(wireless)
            && spec_clients_total(wireless, clients_results@) <= usize::MAX,
    ensures
        r@ == spec_format_wifi_clients(result, clients_results@),
{
    match result {
        Err(error) => format_error(error),
        Ok(wireless) => {
            let (lines, total) = collect_clients_info(wireless, clients_results);
            proof {
                lemma_deep_view_is_views(&lines);
            }
            format_clients_output(lines, total)
        },
    }
}

} // verus!
