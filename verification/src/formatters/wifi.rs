//! The wireless-status report: one block per radio, one line per interface.

use vstd::prelude::*;
use vstd::string::StringExecFns;

use crate::error::RouterError;
use crate::formatters::utils::{format_error, spec_format_error};
use crate::ubus::{RadioInfo, WifiInterface, WirelessStatus};

verus! {

/// Whether a radio is shown as running.
pub open spec fn spec_radio_on(radio: &RadioInfo) -> bool {
    radio.up && !radio.disabled
}

/// The label shown for a radio's state.
pub open spec fn spec_status_label(radio: &RadioInfo) -> Seq<char> {
    if spec_radio_on(radio) {
        "ON"@
    } else {
        "OFF"@
    }
}

/// The line shown for one interface of a radio.
pub open spec fn spec_iface_line(name: Seq<char>, radio: &RadioInfo, iface: WifiInterface) -> Seq<
    char,
> {
    "\n["@ + spec_status_label(radio) + "] "@ + iface.config.ssid@ + " ("@ + radio.config.band@
        + ")\n    Radio: "@ + name + " | Channel: "@ + radio.config.channel@
}

/// The lines shown for the first `ifaces` interfaces of a radio, in order.
pub open spec fn spec_iface_lines(name: Seq<char>, radio: &RadioInfo, ifaces: Seq<WifiInterface>)
    -> Seq<char>
    decreases ifaces.len(),
{
    if ifaces.len() == 0 {
        Seq::empty()
    } else {
        spec_iface_lines(name, radio, ifaces.drop_last()) + spec_iface_line(
            name,
            radio,
            ifaces.last(),
        )
    }
}

/// What `format_radio_status` prints for the radio called `name`.
pub open spec fn spec_radio_status(name: Seq<char>, radio: &RadioInfo) -> Seq<char> {
    spec_iface_lines(name, radio, radio.interfaces@)
}

/// Renders one radio's block of the wireless report.
pub fn format_radio_status(name: &str, radio: &RadioInfo) -> (r: String)
    ensures
        r@ == spec_radio_status(name@, radio),
{
    let status: &str = if radio.up && !radio.disabled {
        "ON"
    } else {
        "OFF"
    };
    let mut result = String::new();
    let n = radio.interfaces.len();
    let mut i: usize = 0;
    while i < n
        invariant
            i <= n,
            n == radio.interfaces.len(),
            status@ == spec_status_label(radio),
            result@ == spec_iface_lines(name@, radio, radio.interfaces@.take(i as int)),
        decreases n - i,
    {
        let iface = &radio.interfaces[i];
        result.append("\n[");
        result.append(status);
        result.append("] ");
        result.append(iface.config.ssid.as_str());
        result.append(" (");
        result.append(radio.config.band.as_str());
        result.append(")\n    Radio: ");
        result.append(name);
        result.append(" | Channel: ");
        result.append(radio.config.channel.as_str());
        proof {
            let post = radio.interfaces@.take(i as int + 1);
            assert(post.drop_last() =~= radio.interfaces@.take(i as int));
            assert(post.last() == radio.interfaces@[i as int]);
            assert(result@ =~= spec_iface_lines(name@, radio, post));
        }
        i += 1;
    }
    proof {
        assert(radio.interfaces@.take(n as int) =~= radio.interfaces@);
    }
    result
}

/// The blocks shown for the given radios, in order.
pub open spec fn spec_radio_sections(radios: Seq<(String, RadioInfo)>) -> Seq<char>
    decreases radios.len(),
{
    if radios.len() == 0 {
        Seq::empty()
    } else {
        spec_radio_sections(radios.drop_last()) + spec_radio_status(
            radios.last().0@,
            &radios.last().1,
        )
    }
}

/// What `format_wireless_status` prints: the fixed header, then every radio's
/// block, in report order.
pub open spec fn spec_wireless_status(wireless: &WirelessStatus) -> Seq<char> {
    "WiFi Status"@ + spec_radio_sections(wireless.0@)
}

/// Renders the wireless report for one successful query.
pub fn format_wireless_status(wireless: &WirelessStatus) -> (r: String)
    ensures
        r@ == spec_wireless_status(wireless),
{
    let mut result: String = "WiFi Status".to_owned();
    let n = wireless.0.len();
    let mut i: usize = 0;
    while i < n
        invariant
            i <= n,
            n == wireless.0.len(),
            result@ == "WiFi Status"@ + spec_radio_sections(wireless.0@.take(i as int)),
        decreases n - i,
    {
        let entry = &wireless.0[i];
        let section = format_radio_status(entry.0.as_str(), &entry.1);
        result.append(section.as_str());
        proof {
            let post = wireless.0@.take(i as int + 1);
            assert(post.drop_last() =~= wireless.0@.take(i as int));
            assert(post.last() == wireless.0@[i as int]);
            assert(result@ =~= "WiFi Status"@ + spec_radio_sections(post));
        }
        i += 1;
    }
    proof {
        assert(wireless.0@.take(n as int) =~= wireless.0@);
    }
    result
}

/// What `format_wifi_status` prints: the wireless report on success, the
/// failure text otherwise.
pub open spec fn spec_format_wifi_status(result: &Result<WirelessStatus, RouterError>) -> Seq<
    char,
> {
    match result {
        Ok(wireless) => spec_wireless_status(wireless),
        Err(error) => spec_format_error(error),
    }
}

/// Renders the outcome of a wireless query: the report on success, the
/// failure text otherwise, never an error raised to the caller.
pub fn format_wifi_status(result: &Result<WirelessStatus, RouterError>) -> (r: String)
    ensures
        r@ == spec_format_wifi_status(result),
{
    match result {
        Ok(wireless) => format_wireless_status(wireless),
        Err(error) => format_error(error),
    }
}

} // verus!
