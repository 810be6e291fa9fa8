//! Application-wide shared dependencies/config live here.

use vstd::prelude::*;
use vstd::string::StringExecFns;

use crate::config::ServerConfig;

verus! {

/// The process-wide dependency container, built once at startup and shared
/// read-only by every request handler.
#[derive(Debug, Clone)]
pub struct AppContext {
    pub server_config: ServerConfig,
}

/// A required builder field was left unset; holds that field's name.
#[derive(Debug)]
pub struct AppContextBuildError(pub &'static str);

impl AppContextBuildError {
    /// The human-readable description of the failure.
    pub fn message(&self) -> (r: String)
        ensures
            r@ == "Missing required field: "@ + self.0@,
    {
        let mut s = "Missing required field: ".to_owned();
        s.append(self.0);
        s
    }
}

pub struct AppContextBuilder {
    pub server_config: Option<ServerConfig>,
}

impl AppContext {
    pub fn builder() -> (r: AppContextBuilder)
        ensures
            r.server_config is None,
    {
        AppContextBuilder::new()
    }

    /// Minimal entry point: build context from config.
    pub fn from_config(server_config: ServerConfig) -> (r: Self)
        ensures
            r.server_config == server_config,
    {
        AppContext { server_config }
    }
}

impl Default for AppContextBuilder {
    fn default() -> (r: Self)
        ensures
            r.server_config is None,
    {
        Self::new()
    }
}

impl AppContextBuilder {
    pub fn new() -> (r: Self)
        ensures
            r.server_config is None,
    {
        AppContextBuilder { server_config: None }
    }

    pub fn server_config(self, server_config: ServerConfig) -> (r: Self)
        ensures
            r.server_config == Some(server_config),
    {
        AppContextBuilder { server_config: Some(server_config) }
    }

    /// Finishes the build: succeeds exactly when a server configuration was
    /// supplied, and carries it over unchanged.
    pub fn build(self) -> (r: Result<AppContext, AppContextBuildError>)
        ensures
            self.server_config matches Some(c) ==> (r matches Ok(ctx) && ctx.server_config == c),
            self.server_config is None ==> (r matches Err(e) && e.0@ == "server_config"@),
    {
        match self.server_config {
            Some(server_config) => Ok(AppContext { server_config }),
            None => Err(AppContextBuildError("server_config")),
        }
    }
}

} // verus!
