//! Configuration of the server.

use vstd::prelude::*;

verus! {

/// The environment that the server runs in.
#[derive(Debug, Clone, Copy, PartialEq, Eq, Structural)]
pub enum Environment {
    Production,
    Development,
}

/// How much the server logs.
#[derive(Debug, Clone, Copy, PartialEq, Eq, Structural)]
pub enum LogLevel {
    Info,
    Debug,
}

/// Configuration of the server: the environment (development unless said
/// otherwise) and the TCP port (3000 unless said otherwise).
#[derive(Debug, Clone, Copy, PartialEq, Eq, Structural)]
pub struct Configuration {
    pub env: Environment,
    pub port: u16,
}

/// The port of a configuration that names none.
pub fn default_port() -> (r: u16)
    ensures
        r == 3000,
{
    3000
}

/// The environment of a configuration that names none.
pub fn default_env() -> (r: Environment)
    ensures
        r == Environment::Development,
{
    Environment::Development
}

/// The address to bind to: all interfaces in production, the local host in
/// development.
pub open spec fn address_of(env: Environment) -> Seq<u8> {
    match env {
        Environment::Production => seq![0u8, 0u8, 0u8, 0u8],
        Environment::Development => seq![127u8, 0u8, 0u8, 1u8],
    }
}

impl Default for Configuration {
    fn default() -> (r: Configuration)
        ensures
            r == (Configuration { env: Environment::Development, port: 3000 }),
    {
        Configuration { env: default_env(), port: default_port() }
    }
}

impl Configuration {
    /// The address to bind to: `0.0.0.0` in production, `127.0.0.1` in
    /// development.
    pub fn socket_addr(&self) -> (r: [u8; 4])
        ensures
            r@ == address_of(self.env),
    {
        match self.env {
            Environment::Production => {
                let socket: [u8; 4] = [0, 0, 0, 0];
                assert(socket@ =~= address_of(self.env));
                socket
            },
            Environment::Development => {
                let socket: [u8; 4] = [127, 0, 0, 1];
                assert(socket@ =~= address_of(self.env));
                socket
            },
        }
    }

    /// The log level: `Info` in production, `Debug` in development.
    pub fn log_level(&self) -> (r: LogLevel)
        ensures
            r == (match self.env {
                Environment::Production => LogLevel::Info,
                Environment::Development => LogLevel::Debug,
            }),
    {
        match self.env {
            Environment::Production => LogLevel::Info,
            Environment::Development => LogLevel::Debug,
        }
    }
}

} // verus!
