//! Fixed settings of the appliance.

use vstd::prelude::*;
use crate::timestamp::UtcOffset;

verus! {

/// Name of the time server that is asked by default.
pub const DEFAULT_NTP_SERVER: &'static str = "pool.ntp.org";

/// Seconds between two queries once the clock is synchronised.
pub const DEFAULT_QUERY_PERIOD: u64 = 300;

/// Seconds until the next query after one that failed.
pub const DEFAULT_RETRY_PERIOD: u64 = 10;

/// Seconds to wait before the link is brought up again.
pub const DEFAULT_RECONNECT_TIMEOUT: u64 = 5;

/// Seconds that local time is ahead of UTC.
pub const DEFAULT_TIMEZONE: i32 = 7200;

/// Access to the wireless network.
#[derive(Clone, Copy, Debug)]
pub struct WiFiConfig {
    ssid: &'static str,
    password: &'static str,
    reconnect_timeout: u64,
}

impl WiFiConfig {
    /// Name of the network.
    pub closed spec fn ssid_spec(&self) -> &'static str {
        self.ssid
    }

    /// Passphrase of the network.
    pub closed spec fn password_spec(&self) -> &'static str {
        self.password
    }

    /// Seconds to wait before the link is brought up again.
    pub closed spec fn reconnect_timeout_spec(&self) -> u64 {
        self.reconnect_timeout
    }

    /// Access to the network `ssid` with the passphrase `password` and the
    /// default reconnect timeout.
    pub fn new(ssid: &'static str, password: &'static str) -> (r: WiFiConfig)
        ensures
            r.ssid_spec() == ssid,
            r.password_spec() == password,
            r.reconnect_timeout_spec() == DEFAULT_RECONNECT_TIMEOUT,
    {
        WiFiConfig { ssid, password, reconnect_timeout: DEFAULT_RECONNECT_TIMEOUT }
    }

    /// Name of the network.
    #[verifier::when_used_as_spec(ssid_spec)]
    pub fn ssid(&self) -> (r: &'static str)
        ensures
            r == self.ssid_spec(),
    {
        self.ssid
    }

    /// Passphrase of the network.
    #[verifier::when_used_as_spec(password_spec)]
    pub fn password(&self) -> (r: &'static str)
        ensures
            r == self.password_spec(),
    {
        self.password
    }

    /// Seconds to wait before the link is brought up again.
    #[verifier::when_used_as_spec(reconnect_timeout_spec)]
    pub fn reconnect_timeout(&self) -> (r: u64)
        ensures
            r == self.reconnect_timeout_spec(),
    {
        self.reconnect_timeout
    }
}

/// Settings of the time synchronisation worker.
#[derive(Clone, Copy, Debug)]
pub struct NtpClientConfig {
    server: &'static str,
    query_period: u64,
    retry_period: u64,
}

impl NtpClientConfig {
    /// Name of the time server.
    pub closed spec fn server_spec(&self) -> &'static str {
        self.server
    }

    /// Seconds between two queries once the clock is synchronised.
    pub closed spec fn query_period_spec(&self) -> u64 {
        self.query_period
    }

    /// Seconds until the next query after one that failed.
    pub closed spec fn retry_period_spec(&self) -> u64 {
        self.retry_period
    }

    /// Settings for the server `server`, asked every `query_period` seconds
    /// and again after `retry_period` seconds where a query failed.
    pub fn new(server: &'static str, query_period: u64, retry_period: u64) -> (r:
        NtpClientConfig)
        ensures
            r.server_spec() == server,
            r.query_period_spec() == query_period,
            r.retry_period_spec() == retry_period,
    {
        NtpClientConfig { server, query_period, retry_period }
    }

    /// Name of the time server.
    #[verifier::when_used_as_spec(server_spec)]
    pub fn server(&self) -> (r: &'static str)
        ensures
            r == self.server_spec(),
    {
        self.server
    }

    /// Seconds between two queries once the clock is synchronised.
    #[verifier::when_used_as_spec(query_period_spec)]
    pub fn query_period(&self) -> (r: u64)
        ensures
            r == self.query_period_spec(),
    {
        self.query_period
    }

    /// Seconds until the next query after one that failed.
    #[verifier::when_used_as_spec(retry_period_spec)]
    pub fn retry_period(&self) -> (r: u64)
        ensures
            r == self.retry_period_spec(),
    {
        self.retry_period
    }
}

impl Default for NtpClientConfig {
    /// The default server, asked every five minutes, and again after ten
    /// seconds where a query failed.
    fn default() -> (r: NtpClientConfig)
        ensures
            r.server_spec() == DEFAULT_NTP_SERVER,
            r.query_period_spec() == DEFAULT_QUERY_PERIOD,
            r.retry_period_spec() == DEFAULT_RETRY_PERIOD,
    {
        NtpClientConfig {
            server: DEFAULT_NTP_SERVER,
            query_period: DEFAULT_QUERY_PERIOD,
            retry_period: DEFAULT_RETRY_PERIOD,
        }
    }
}

/// All settings of the appliance.
#[derive(Clone, Copy, Debug)]
pub struct Config {
    wifi: WiFiConfig,
    ntp_client: NtpClientConfig,
    timezone: UtcOffset,
}

impl Config {
    /// Access to the wireless network.
    pub closed spec fn wifi_spec(&self) -> &WiFiConfig {
        &self.wifi
    }

    /// Settings of the time synchronisation worker.
    pub closed spec fn ntp_client_spec(&self) -> &NtpClientConfig {
        &self.ntp_client
    }

    /// Offset of local time.
    pub closed spec fn timezone_spec(&self) -> UtcOffset {
        self.timezone
    }

    /// The settings the appliance runs with: the given network, the default
    /// time server and periods, and local time two hours ahead of UTC.
    pub fn get(ssid: &'static str, password: &'static str) -> (r: Config)
        ensures
            r.wifi_spec().ssid_spec() == ssid,
            r.wifi_spec().password_spec() == password,
            r.wifi_spec().reconnect_timeout_spec() == DEFAULT_RECONNECT_TIMEOUT,
            r.ntp_client_spec().server_spec() == DEFAULT_NTP_SERVER,
            r.ntp_client_spec().query_period_spec() == DEFAULT_QUERY_PERIOD,
            r.ntp_client_spec().retry_period_spec() == DEFAULT_RETRY_PERIOD,
            r.timezone_spec()@ == DEFAULT_TIMEZONE,
    {
        let timezone = UtcOffset::east(DEFAULT_TIMEZONE);
        Config {
            wifi: WiFiConfig::new(ssid, password),
            ntp_client: NtpClientConfig::default(),
            timezone: timezone.unwrap(),
        }
    }

    /// Access to the wireless network.
    #[verifier::when_used_as_spec(wifi_spec)]
    pub fn wifi(&self) -> (r: &WiFiConfig)
        ensures
            r == self.wifi_spec(),
    {
        &self.wifi
    }

    /// Settings of the time synchronisation worker.
    #[verifier::when_used_as_spec(ntp_client_spec)]
    pub fn ntp_client(&self) -> (r: &NtpClientConfig)
        ensures
            r == self.ntp_client_spec(),
    {
        &self.ntp_client
    }

    /// Offset of local time.
    #[verifier::when_used_as_spec(timezone_spec)]
    pub fn timezone(&self) -> (r: UtcOffset)
        ensures
            r == self.timezone_spec(),
            r.is_valid(),
    {
        let zone = self.timezone;
        proof {
            use_type_invariant(zone);
        }
        zone
    }
}

} // verus!
