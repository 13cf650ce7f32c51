//! What a server and a client are configured with.

use vstd::prelude::*;
use vstd::string::*;

verus! {

/// The settings of a server.
#[derive(Debug, PartialEq, Eq)]
pub struct ServerConfig {
    pub name: String,
    pub version: String,
    /// The protocol version that the server speaks.
    pub protocol_version: String,
    /// The address to listen on.
    pub host: String,
    /// The port to listen on.
    pub port: u16,
}

impl Default for ServerConfig {
    /// The server `mcp-server`, version `0.1.0`, on `127.0.0.1:3000`.
    fn default() -> (r: Self)
        ensures
            r.name@ == "mcp-server"@,
            r.version@ == "0.1.0"@,
            r.protocol_version@ == "2024-11-05"@,
            r.host@ == "127.0.0.1"@,
            r.port == 3000,
    {
        ServerConfig {
            name: "mcp-server".to_owned(),
            version: "0.1.0".to_owned(),
            protocol_version: "2024-11-05".to_owned(),
            host: "127.0.0.1".to_owned(),
            port: 3000,
        }
    }
}

impl Clone for ServerConfig {
    fn clone(&self) -> (r: Self)
        ensures
            r.name@ == self.name@,
            r.version@ == self.version@,
            r.protocol_version@ == self.protocol_version@,
            r.host@ == self.host@,
            r.port == self.port,
    {
        ServerConfig {
            name: self.name.clone(),
            version: self.version.clone(),
            protocol_version: self.protocol_version.clone(),
            host: self.host.clone(),
            port: self.port,
        }
    }
}

/// The settings of a client.
#[derive(Debug, PartialEq, Eq)]
pub struct ClientConfig {
    /// Where the server is.
    pub server_url: String,
    /// The protocol version to ask for.
    pub protocol_version: String,
}

impl Default for ClientConfig {
    /// A client of the server at `http://localhost:3000`.
    fn default() -> (r: Self)
        ensures
            r.server_url@ == "http://localhost:3000"@,
            r.protocol_version@ == "2024-11-05"@,
    {
        ClientConfig {
            server_url: "http://localhost:3000".to_owned(),
            protocol_version: "2024-11-05".to_owned(),
        }
    }
}

impl Clone for ClientConfig {
    fn clone(&self) -> (r: Self)
        ensures
            r.server_url@ == self.server_url@,
            r.protocol_version@ == self.protocol_version@,
    {
        ClientConfig {
            server_url: self.server_url.clone(),
            protocol_version: self.protocol_version.clone(),
        }
    }
}

} // verus!
