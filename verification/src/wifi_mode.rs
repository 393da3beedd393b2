//! The wireless generation a client negotiated, read off its capability bits.

use vstd::prelude::*;

use crate::ubus::WifiClient;

verus! {

/// Wireless generation of a connected client.
#[derive(Debug, Clone, Copy, PartialEq, Eq, Structural)]
pub enum WifiMode {
    Wifi6,
    Wifi5,
    Wifi4,
    Legacy,
}

impl WifiMode {
    /// The generation that a client's capability bits name: the newest
    /// capability wins.
    pub open spec fn spec_from_client(client: &WifiClient) -> WifiMode {
        if client.he {
            WifiMode::Wifi6
        } else if client.vht {
            WifiMode::Wifi5
        } else if client.ht {
            WifiMode::Wifi4
        } else {
            WifiMode::Legacy
        }
    }

    /// Classifies a client by its capability bits.
    pub fn from_client(client: &WifiClient) -> (r: Self)
        ensures
            r == Self::spec_from_client(client),
    {
        match (client.he, client.vht, client.ht) {
            (true, _, _) => Self::Wifi6,
            (_, true, _) => Self::Wifi5,
            (_, _, true) => Self::Wifi4,
            _ => Self::Legacy,
        }
    }

    /// The label shown for this generation.
    pub open spec fn spec_as_str(&self) -> Seq<char> {
        match self {
            WifiMode::Wifi6 => "WiFi 6"@,
            WifiMode::Wifi5 => "WiFi 5"@,
            WifiMode::Wifi4 => "WiFi 4"@,
            WifiMode::Legacy => "Legacy"@,
        }
    }

    /// Returns the label shown for this generation.
    pub fn as_str(&self) -> (r: &'static str)
        ensures
            r@ == self.spec_as_str(),
    {
        match self {
            Self::Wifi6 => "WiFi 6",
            Self::Wifi5 => "WiFi 5",
            Self::Wifi4 => "WiFi 4",
            Self::Legacy => "Legacy",
        }
    }
}

} // verus!
