//! Core of a router-management chat bot: command parsing, the per-message
//! dispatch pipeline, response formatting, and the supervisor protocol that
//! coordinates concurrent bot tasks and their cooperative shutdown.

mod auth;
mod commands;
mod config;
mod decimal;
mod dispatch;
mod error;
mod formatters;
mod handlers;
mod manager;
mod messenger;
mod router;
mod text;
mod ubus;
mod wifi_mode;

pub use auth::UserWhitelist;
pub use commands::Command;
pub use config::{Config, ConfigError};
pub use dispatch::{
    dispatch, lemma_authorized_command_dispatched, lemma_authorized_non_command_ignored,
    lemma_unauthorized_rejected, log_line, DispatchDecision, InboundMessage, MessageSender,
};
pub use error::RouterError;
pub use formatters::{
    collect_clients_info, collect_interface_clients, format_client_info, format_clients_output,
    format_error, format_load, format_memory, format_radio_status, format_router_status,
    format_speed, format_status, format_uptime, format_wifi_clients, format_wifi_status,
    format_wireless_status, interface_count, wifi_mode,
};
pub use handlers::{clients_response, help_response, ping_response, status_response, wifi_response};
pub use manager::{
    lemma_finish_only_after_all_joined, lemma_no_bots_finishes_immediately, BotManager, BotSpec,
    Supervisor, SupervisorAction, TelegramBotSpec,
};
pub use messenger::{AuthFilter, ChatId, MessageId, UserId};
pub use router::OpenWrtRouter;
pub use ubus::{
    BoardInfo, ClientRate, ClientTraffic, HostapdClients, MemoryInfo, RadioConfig, RadioInfo,
    ReleaseInfo, RouterStatus, StorageInfo, SwapInfo, SystemInfo, WifiClient, WifiInterface,
    WifiInterfaceConfig, WirelessStatus,
};
pub use wifi_mode::WifiMode;
