//! Settings of the gateway and of its three sinks.

use crate::text::{decimal, decimal_string};
use vstd::prelude::*;

verus! {

/// Where the gateway listens for requests.
#[derive(Clone, Debug, PartialEq, Eq)]
pub struct ServerConfig {
    pub host: String,
    pub port: u16,
}

/// How the relational store is reached.
#[derive(Clone, Debug, PartialEq, Eq)]
pub struct MariaDbConfig {
    pub host: String,
    pub port: u16,
    pub database: String,
    pub username: String,
    pub password: String,
}

/// How the time-series store is reached.
#[derive(Clone, Debug, PartialEq, Eq)]
pub struct InfluxDbConfig {
    pub url: String,
    pub database: String,
    pub username: Option<String>,
    pub password: Option<String>,
}

/// How the broker is reached.
#[derive(Clone, Debug, PartialEq, Eq)]
pub struct KafkaConfig {
    pub brokers: String,
    pub topic: String,
    pub client_id: String,
}

/// All settings of the gateway.
#[derive(Clone, Debug, PartialEq, Eq)]
pub struct AppConfig {
    pub server: ServerConfig,
    pub mariadb: MariaDbConfig,
    pub influxdb: InfluxDbConfig,
    pub kafka: KafkaConfig,
}

impl ServerConfig {
    /// The address to listen on: host, a colon, the port in decimal.
    pub open spec fn spec_address(self) -> Seq<char> {
        self.host@ + ":"@ + decimal(self.port as nat)
    }

    /// The address to listen on.
    pub fn address(&self) -> (address: String)
        ensures
            address@ == self.spec_address(),
    {
        let mut address = self.host.clone();
        address.append(":");
        address.append(decimal_string(self.port as u64).as_str());
        address
    }
}

impl MariaDbConfig {
    /// The connection URL: scheme, credentials, host, port in decimal, and
    /// database. Nothing is escaped.
    pub open spec fn spec_url(self) -> Seq<char> {
        "mysql://"@ + self.username@ + ":"@ + self.password@ + "@"@ + self.host@ + ":"@ + decimal(
            self.port as nat,
        ) + "/"@ + self.database@
    }

    /// The connection URL.
    pub fn url(&self) -> (url: String)
        ensures
            url@ == self.spec_url(),
    {
        let mut url = String::from_str("mysql://");
        url.append(self.username.as_str());
        url.append(":");
        url.append(self.password.as_str());
        url.append("@");
        url.append(self.host.as_str());
        url.append(":");
        url.append(decimal_string(self.port as u64).as_str());
        url.append("/");
        url.append(self.database.as_str());
        url
    }
}

impl AppConfig {
    /// Whether these are the settings used where nothing else is configured.
    pub open spec fn is_default(self) -> bool {
        &&& self.server.host@ == "127.0.0.1"@
        &&& self.server.port == 8080
        &&& self.mariadb.host@ == "localhost"@
        &&& self.mariadb.port == 3306
        &&& self.mariadb.database@ == "ps_v2"@
        &&& self.mariadb.username@ == "pike"@
        &&& self.mariadb.password@ == "pike"@
        &&& self.influxdb.url@ == "http://192.168.5.199:8086"@
        &&& self.influxdb.database@ == "device_signals"@
        &&& self.influxdb.username is None
        &&& self.influxdb.password is None
        &&& self.kafka.brokers@ == "192.168.5.199:9092"@
        &&& self.kafka.topic@ == "device-signals"@
        &&& self.kafka.client_id@ == "tauri-device-gateway"@
    }

    /// The settings used where nothing else is configured.
    pub fn defaults() -> (config: AppConfig)
        ensures
            config.is_default(),
    {
        AppConfig {
            server: ServerConfig { host: String::from_str("127.0.0.1"), port: 8080 },
            mariadb: MariaDbConfig {
                host: String::from_str("localhost"),
                port: 3306,
                database: String::from_str("ps_v2"),
                username: String::from_str("pike"),
                password: String::from_str("pike"),
            },
            influxdb: InfluxDbConfig {
                url: String::from_str("http://192.168.5.199:8086"),
                database: String::from_str("device_signals"),
                username: None,
                password: None,
            },
            kafka: KafkaConfig {
                brokers: String::from_str("192.168.5.199:9092"),
                topic: String::from_str("device-signals"),
                client_id: String::from_str("tauri-device-gateway"),
            },
        }
    }

    /// The connection URL of the relational store.
    pub fn mariadb_url(&self) -> (url: String)
        ensures
            url@ == self.mariadb.spec_url(),
    {
        self.mariadb.url()
    }
}

} // verus!
