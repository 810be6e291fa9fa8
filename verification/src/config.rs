//! Server configuration: an immutable settings record with builder-style
//! setters, a validation rule, and the rendering of the bind address.

use vstd::prelude::*;
use vstd::string::StringExecFns;

use crate::text::dec_digits;
use crate::text::u16_to_dec_string;

verus! {

/// Server configuration.
#[derive(Debug)]
pub struct ServerConfig {
    pub host: String,
    pub port: u16,
    pub log_dir: Option<String>,
    pub log_level: Option<String>,
    pub max_payload_size: usize,
    pub request_timeout_secs: u64,
}

fn default_max_payload_size() -> (r: usize)
    ensures
        r == 536870912,
{
    536870912  // 512 MiB
}

fn default_request_timeout() -> (r: u64)
    ensures
        r == 1800,
{
    1800  // 30 minutes
}

/// The configuration a fresh `ServerConfig` starts from.
pub open spec fn is_default_config(c: ServerConfig) -> bool {
    &&& c.host@ == "0.0.0.0"@
    &&& c.port == 3000
    &&& c.log_dir is None
    &&& c.log_level is None
    &&& c.max_payload_size == 536870912
    &&& c.request_timeout_secs == 1800
}

/// A configuration the server may start with: a usable port, a named host,
/// and a positive payload ceiling.
pub open spec fn is_valid_config(c: ServerConfig) -> bool {
    &&& c.port != 0
    &&& c.host@.len() != 0
    &&& c.max_payload_size != 0
}

impl Default for ServerConfig {
    fn default() -> (r: Self)
        ensures
            is_default_config(r),
    {
        ServerConfig {
            host: "0.0.0.0".to_owned(),
            port: 3000,
            log_dir: None,
            log_level: None,
            max_payload_size: default_max_payload_size(),
            request_timeout_secs: default_request_timeout(),
        }
    }
}

impl Clone for ServerConfig {
    fn clone(&self) -> (r: Self)
        ensures
            r == *self,
    {
        ServerConfig {
            host: self.host.clone(),
            port: self.port,
            log_dir: match &self.log_dir {
                Some(d) => Some(d.clone()),
                None => None,
            },
            log_level: match &self.log_level {
                Some(l) => Some(l.clone()),
                None => None,
            },
            max_payload_size: self.max_payload_size,
            request_timeout_secs: self.request_timeout_secs,
        }
    }
}

impl ServerConfig {
    pub fn new() -> (r: Self)
        ensures
            is_default_config(r),
    {
        Self::default()
    }

    /// The bind address, `host:port`, with the port in decimal.
    pub fn addr(&self) -> (r: String)
        ensures
            r@ == self.host@ + ":"@ + dec_digits(self.port as nat),
    {
        let mut s = self.host.clone();
        s.append(":");
        let p = u16_to_dec_string(self.port);
        s.append(p.as_str());
        s
    }

    pub fn host(self, host: String) -> (r: Self)
        ensures
            r.host == host,
            r.port == self.port,
            r.log_dir == self.log_dir,
            r.log_level == self.log_level,
            r.max_payload_size == self.max_payload_size,
            r.request_timeout_secs == self.request_timeout_secs,
    {
        ServerConfig { host, ..self }
    }

    pub fn port(self, port: u16) -> (r: Self)
        ensures
            r.port == port,
            r.host == self.host,
            r.log_dir == self.log_dir,
            r.log_level == self.log_level,
            r.max_payload_size == self.max_payload_size,
            r.request_timeout_secs == self.request_timeout_secs,
    {
        ServerConfig { port, ..self }
    }

    pub fn log_dir(self, dir: String) -> (r: Self)
        ensures
            r.log_dir == Some(dir),
            r.host == self.host,
            r.port == self.port,
            r.log_level == self.log_level,
            r.max_payload_size == self.max_payload_size,
            r.request_timeout_secs == self.request_timeout_secs,
    {
        ServerConfig { log_dir: Some(dir), ..self }
    }

    pub fn log_level(self, level: String) -> (r: Self)
        ensures
            r.log_level == Some(level),
            r.host == self.host,
            r.port == self.port,
            r.log_dir == self.log_dir,
            r.max_payload_size == self.max_payload_size,
            r.request_timeout_secs == self.request_timeout_secs,
    {
        ServerConfig { log_level: Some(level), ..self }
    }

    pub fn max_payload_size(self, size: usize) -> (r: Self)
        ensures
            r.max_payload_size == size,
            r.host == self.host,
            r.port == self.port,
            r.log_dir == self.log_dir,
            r.log_level == self.log_level,
            r.request_timeout_secs == self.request_timeout_secs,
    {
        ServerConfig { max_payload_size: size, ..self }
    }

    pub fn request_timeout_secs(self, secs: u64) -> (r: Self)
        ensures
            r.request_timeout_secs == secs,
            r.host == self.host,
            r.port == self.port,
            r.log_dir == self.log_dir,
            r.log_level == self.log_level,
            r.max_payload_size == self.max_payload_size,
    {
        ServerConfig { request_timeout_secs: secs, ..self }
    }

    /// Validates the configuration: accepts it exactly when the port is
    /// nonzero, the host is nonempty and the payload ceiling is positive,
    /// naming the first rule broken otherwise.
    pub fn validate(&self) -> (r: Result<(), String>)
        ensures
            r is Ok <==> is_valid_config(*self),
            self.port == 0 ==> (r matches Err(m) && m@ == "Port must be greater than 0"@),
            self.port != 0 && self.host@.len() == 0 ==> (r matches Err(m) && m@
                == "Host cannot be empty"@),
            self.port != 0 && self.host@.len() != 0 && self.max_payload_size == 0 ==> (r matches Err(
                m,
            ) && m@ == "Max payload size must be greater than 0"@),
    {
        if self.port == 0 {
            return Err("Port must be greater than 0".to_owned());
        }
        if self.host.as_str().is_empty() {
            return Err("Host cannot be empty".to_owned());
        }
        if self.max_payload_size == 0 {
            return Err("Max payload size must be greater than 0".to_owned());
        }
        Ok(())
    }
}

} // verus!
