//! Configuring a client.

use crate::client::{ClientView, ModbusTCPClient};
use crate::error::{ErrorView, ModbusTCPError};
use crate::ipv4::{is_dotted, parse_ipv4, Ipv4Address, SocketAddress};
use crate::worker::WorkerConfig;
use vstd::prelude::*;
use vstd::std_specs::convert::*;
use vstd::string::*;

verus! {

/// How often a failed try of a command is repeated unless the builder is told otherwise.
pub const DEFAULT_RETRY_COUNT: usize = 1;

/// How long a try waits for the response unless the builder is told otherwise, in milliseconds.
pub const DEFAULT_RETRY_TIMEOUT_MILLIS: u64 = 100;

/// Collects what a client needs to know.
pub struct ModbusTCPClientBuilder {
    ip: Option<String>,
    port: Option<u16>,
    reconnect_timeout: Option<usize>,
    retry_timeout: Option<u64>,
    retry_count: Option<usize>,
}

/// What a builder has been told so far.
pub struct BuilderView {
    /// The peer's address in dotted decimal notation.
    pub ip: Option<Seq<char>>,
    /// The peer's port.
    pub port: Option<u16>,
    /// The pause before a lost connection is sought again, in seconds.
    pub reconnect_timeout: Option<usize>,
    /// How long a try waits for the response, in milliseconds.
    pub retry_timeout: Option<u64>,
    /// How often a failed try of a command is repeated.
    pub retry_count: Option<usize>,
}

impl View for ModbusTCPClientBuilder {
    type V = BuilderView;

    closed spec fn view(&self) -> BuilderView {
        BuilderView {
            ip: match self.ip {
                Some(ip) => Some(ip@),
                None => None,
            },
            port: self.port,
            reconnect_timeout: self.reconnect_timeout,
            retry_timeout: self.retry_timeout,
            retry_count: self.retry_count,
        }
    }
}

impl BuilderView {
    /// A builder that has been told nothing.
    pub open spec fn empty() -> BuilderView {
        BuilderView {
            ip: None,
            port: None,
            reconnect_timeout: None,
            retry_timeout: None,
            retry_count: None,
        }
    }

    /// The address, where one is set, is in dotted decimal notation.
    pub open spec fn wf(self) -> bool {
        self.ip matches Some(ip) ==> is_dotted(ip)
    }

    /// The builder once it has been told the address `ip`; anything else than dotted decimal
    /// notation passes it by.
    pub open spec fn with_ip(self, ip: Seq<char>) -> BuilderView {
        if is_dotted(ip) {
            BuilderView { ip: Some(ip), ..self }
        } else {
            self
        }
    }

    /// The builder once it has been told a port, or something that is none, which passes it by.
    pub open spec fn with_port<E>(self, port: Result<u16, E>) -> BuilderView {
        match port {
            Ok(port) => BuilderView { port: Some(port), ..self },
            Err(_) => self,
        }
    }

    /// What the worker of the client is told.
    pub open spec fn config(self) -> WorkerConfig {
        WorkerConfig {
            reconnect_timeout: match self.reconnect_timeout {
                Some(seconds) => Some(seconds as u64),
                None => None,
            },
            retry_count: self.retry_count.unwrap_or(DEFAULT_RETRY_COUNT),
            retry_interval: self.retry_timeout.unwrap_or(DEFAULT_RETRY_TIMEOUT_MILLIS),
        }
    }

    /// What the builder makes of what it has been told: `result` is a client that has never been
    /// connected, or says what is missing, the address first.
    pub open spec fn builds(self, result: Result<ClientView, ErrorView>) -> bool {
        match (self.ip, self.port) {
            (None, _) => result == Err::<ClientView, ErrorView>(ErrorView::InvalidIpAddr),
            (Some(_), None) => result == Err::<ClientView, ErrorView>(ErrorView::InvalidPort),
            (Some(text), Some(port)) => if is_dotted(text) {
                exists|ip: Ipv4Address|
                    text == #[trigger] ip.dotted() && result == Ok::<_, ErrorView>(
                        ClientView::fresh(SocketAddress { ip, port }, self.config()),
                    )
            } else {
                result == Err::<ClientView, ErrorView>(ErrorView::InvalidIpAddr)
            },
        }
    }
}

/// What an attempt to build a client gave.
pub open spec fn build_view(result: Result<ModbusTCPClient, ModbusTCPError>) -> Result<
    ClientView,
    ErrorView,
> {
    match result {
        Ok(client) => Ok(client@),
        Err(error) => Err(error@),
    }
}

impl ModbusTCPClientBuilder {
    /// A builder with nothing set.
    pub fn new() -> (builder: Self)
        ensures
            builder@ == BuilderView::empty(),
    {
        Self { ip: None, port: None, reconnect_timeout: None, retry_count: None, retry_timeout: None }
    }

    /// Sets the peer's address, given in dotted decimal notation. Anything else is passed over.
    pub fn ip(&mut self, ip: &str) -> (builder: &mut Self)
        ensures
            builder@ == old(self)@.with_ip(ip@),
            *final(self) == *final(builder),
    {
        if parse_ipv4(ip).is_some() {
            self.ip = Some(ip.to_string());
        }
        self
    }

    /// Sets the peer's port. What does not fit a port is passed over.
    pub fn port<P>(&mut self, port: P) -> (builder: &mut Self) where P: TryInto<u16>
        ensures
            exists|number: Result<u16, P::Error>|
                #[trigger] call_ensures(P::try_into, (port,), number) && builder@ == old(
                    self,
                )@.with_port(number),
            *final(self) == *final(builder),
    {
        if let Ok(number) = port.try_into() {
            self.port = Some(number);
        }
        self
    }

    /// Has a lost connection sought again, with pauses of `seconds`.
    pub fn reconnect_timeout(&mut self, seconds: usize) -> (builder: &mut Self)
        ensures
            builder@ == (BuilderView { reconnect_timeout: Some(seconds), ..old(self)@ }),
            *final(self) == *final(builder),
    {
        self.reconnect_timeout = Some(seconds);
        self
    }

    /// Sets how long a try waits for the response, in milliseconds.
    pub fn retry_timeout(&mut self, milli_seconds: u64) -> (builder: &mut Self)
        ensures
            builder@ == (BuilderView { retry_timeout: Some(milli_seconds), ..old(self)@ }),
            *final(self) == *final(builder),
    {
        self.retry_timeout = Some(milli_seconds);
        self
    }

    /// Sets how often a failed try of a command is repeated.
    pub fn retry_count(&mut self, count: usize) -> (builder: &mut Self)
        ensures
            builder@ == (BuilderView { retry_count: Some(count), ..old(self)@ }),
            *final(self) == *final(builder),
    {
        self.retry_count = Some(count);
        self
    }

    /// Makes a client, if address and port are known.
    pub fn build(self) -> (client: Result<ModbusTCPClient, ModbusTCPError>)
        ensures
            self@.builds(build_view(client)),
    {
        let text = match self.ip {
            Some(text) => text,
            None => {
                return Err(ModbusTCPError::InvalidIpAddr);
            },
        };
        let port: u16 = match self.port {
            Some(port) => port,
            None => {
                return Err(ModbusTCPError::InvalidPort);
            },
        };
        let ip = match parse_ipv4(text.as_str()) {
            Some(ip) => ip,
            None => {
                return Err(ModbusTCPError::InvalidIpAddr);
            },
        };
        let reconnect_timeout: Option<u64> = match self.reconnect_timeout {
            Some(seconds) => Some(seconds as u64),
            None => None,
        };
        let config = WorkerConfig {
            reconnect_timeout,
            retry_count: self.retry_count.unwrap_or(DEFAULT_RETRY_COUNT),
            retry_interval: self.retry_timeout.unwrap_or(DEFAULT_RETRY_TIMEOUT_MILLIS),
        };
        Ok(ModbusTCPClient::fresh(SocketAddress { ip, port }, config))
    }
}

} // verus!
