//! A client for the agent of a Consul-compatible service registry.
//!
//! The crate decides what is sent and what an answer means; it does no
//! input or output itself. A call is made in three steps. A function of
//! [`request`] or a method of [`agent::Agent`] gives the
//! [`request::Request`] to send. The caller sends it and gathers the
//! [`request::Response`]. Then [`request::read_value`],
//! [`request::read_values`] or [`request::write_value`] says what came of
//! it, with the caller's decoder for the body; [`request::read_reply`] and
//! [`request::write_reply`] say the same and leave the body as bytes.
//!
//! [`lifecycle`] and [`services`] say what the agent does with a check and
//! with its services, as far as a client may rely on it.

#![allow(non_snake_case)]

pub mod agent;
pub mod decimal;
pub mod errors;
pub mod health;
pub mod lifecycle;
pub mod params;
pub mod request;
pub mod services;
pub mod text;

use crate::decimal::{decimal_text, format_decimal};
use crate::text::{join, starts_with};
use std::time::Duration;
use vstd::prelude::*;
use vstd::string::StringExecFns;

verus! {

/// Who calls, and where: the agent's address and the defaults that every
/// call shares. Nothing changes it once it is made.
#[derive(Clone, Debug)]
pub struct Config {
    pub address: String,
    pub datacenter: Option<String>,
    pub token: Option<String>,
    pub wait_time: Option<Duration>,
}

/// The address to call, given what the environment holds under
/// `CONSUL_HTTP_ADDR`: that value, with `http://` before it unless it begins
/// with `http`; the local agent where the variable is not set.
pub open spec fn address_from_env(addr: Option<String>) -> Seq<char> {
    match addr {
        Some(value) => if "http"@.is_prefix_of(value@) {
            value@
        } else {
            "http://"@ + value@
        },
        None => "http://127.0.0.1:8500"@,
    }
}

/// The variable of the environment that holds the agent's address.
pub const ADDR_VARIABLE: &'static str = "CONSUL_HTTP_ADDR";

/// The variable of the environment that holds the token.
pub const TOKEN_VARIABLE: &'static str = "CONSUL_HTTP_TOKEN";

/// The port to call where none is given.
pub const DEFAULT_PORT: u16 = 8500;

/// The address of the agent at `host`, on `port` or else on the default
/// port.
pub open spec fn address_of_host(host: Seq<char>, port: Option<u16>) -> Seq<char> {
    host + ":"@ + decimal_text(
        match port {
            Some(p) => p as nat,
            None => DEFAULT_PORT as nat,
        },
    )
}

impl Config {
    /// The agent on this machine, without datacenter, token or wait.
    pub fn new() -> (config: Config)
        ensures
            config.address@ == "http://localhost:8500"@,
            config.datacenter is None,
            config.token is None,
            config.wait_time is None,
    {
        Config {
            address: String::from_str("http://localhost:8500"),
            datacenter: None,
            token: None,
            wait_time: None,
        }
    }

    /// The configuration that the environment asks for. `addr` and `token`
    /// are the values of `CONSUL_HTTP_ADDR` and `CONSUL_HTTP_TOKEN`, `None`
    /// for a variable that is not set.
    pub fn new_from_env(addr: Option<String>, token: Option<String>) -> (config: Config)
        ensures
            config.address@ == address_from_env(addr),
            config.datacenter is None,
            config.token == token,
            config.wait_time is None,
    {
        let address = match addr {
            Some(value) => {
                if starts_with(value.as_str(), "http") {
                    value
                } else {
                    join("http://", value.as_str())
                }
            },
            None => String::from_str("http://127.0.0.1:8500"),
        };
        Config { address, datacenter: None, token, wait_time: None }
    }

    /// The agent at `host`, on `port` or else on the default port.
    pub fn new_from_consul_host(
        host: &str,
        port: Option<u16>,
        token: Option<String>,
    ) -> (config: Config)
        ensures
            config.address@ == address_of_host(host@, port),
            config.datacenter is None,
            config.token == token,
            config.wait_time is None,
    {
        let port: u16 = match port {
            Some(p) => p,
            None => DEFAULT_PORT,
        };
        let address = join(host, ":").concat(format_decimal(port as u64).as_str());
        Config { address, datacenter: None, token, wait_time: None }
    }

    /// The agent at `addr`.
    pub fn new_from_addr(addr: &str, token: Option<String>) -> (config: Config)
        ensures
            config.address@ == addr@,
            config.datacenter is None,
            config.token == token,
            config.wait_time is None,
    {
        Config { address: String::from_str(addr), datacenter: None, token, wait_time: None }
    }
}

/// A client of one agent: the configuration, bound once and shared by every
/// call.
#[derive(Clone, Debug)]
pub struct Client {
    config: Config,
}

impl View for Client {
    type V = Config;

    closed spec fn view(&self) -> Config {
        self.config
    }
}

impl Client {
    /// The client that calls as `config` says.
    pub fn new(config: Config) -> (client: Client)
        ensures
            client@ == config,
    {
        Client { config }
    }

    /// The configuration that the client was made with.
    pub fn config(&self) -> (config: &Config)
        ensures
            *config == self@,
    {
        &self.config
    }
}

/// What a read may ask for beyond its path and parameters.
#[derive(Clone, Debug, Default)]
pub struct QueryOptions {
    /// Takes the place of the configured datacenter.
    pub datacenter: Option<String>,
    /// Answer once the state has moved past this index.
    pub wait_index: Option<u64>,
    /// Answer after this long at the latest, changed or not.
    pub wait_time: Option<Duration>,
}

/// What a read tells beside its payload.
#[derive(Clone, Copy, Debug)]
pub struct QueryMeta {
    /// The consistency index that the agent reported, if it reported one.
    pub last_index: Option<u64>,
    /// How long the call took.
    pub request_time: Duration,
}

impl QueryOptions {
    /// The options of the next read where reads follow one another to
    /// watch for changes: these options, waiting for the index that the
    /// last read reported, changed or not, and for none where it reported
    /// none.
    pub fn following(&self, meta: &QueryMeta) -> (next: QueryOptions)
        ensures
            next.datacenter == self.datacenter,
            next.wait_index == meta.last_index,
            next.wait_time == self.wait_time,
    {
        let datacenter = match &self.datacenter {
            Some(dc) => Some(dc.clone()),
            None => None,
        };
        QueryOptions { datacenter, wait_index: meta.last_index, wait_time: self.wait_time }
    }
}

/// What a write may ask for beyond its path, body and parameters.
#[derive(Clone, Debug, Default)]
pub struct WriteOptions {
    /// Takes the place of the configured datacenter.
    pub datacenter: Option<String>,
}

/// What a write tells beside its payload.
#[derive(Clone, Copy, Debug)]
pub struct WriteMeta {
    /// How long the call took.
    pub request_time: Duration,
}

} // verus!
