//! Formatting of router data into the strings a user sees.
//!
//! Pure functions from reported data to text, shared by every messaging
//! platform. Each has a specification that pins the exact character sequence
//! it produces.

mod clients;
mod status;
mod utils;
mod wifi;

pub use clients::{
    collect_clients_info, collect_interface_clients, format_client_info, format_clients_output,
    format_wifi_clients, interface_count, spec_client_blocks, spec_clients_output,
    spec_clients_total, spec_format_wifi_clients, spec_interface_count, views_of,
};
pub use status::{
    format_load, format_memory, format_router_status, format_status, spec_format_load,
    spec_format_memory, spec_format_status, spec_router_status,
};
pub use utils::{
    format_error, format_speed, format_uptime, spec_format_error, spec_format_speed,
    spec_format_uptime, spec_speed_mbps, wifi_mode,
};
pub use wifi::{
    format_radio_status, format_wifi_status, format_wireless_status, spec_format_wifi_status,
    spec_radio_status, spec_wireless_status,
};
