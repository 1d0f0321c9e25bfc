//! Configuration of the scheduler and of the node agents.
use vstd::prelude::*;

verus! {

/// Configuration of the scheduler: where its gRPC server listens.
#[derive(Debug, Clone, PartialEq)]
pub struct Config {
    pub host: String,
    pub port: u16,
}

impl Default for Config {
    /// Listens on 127.0.0.1, port 50052.
    fn default() -> (r: Config)
        ensures
            r.host@ == "127.0.0.1"@,
            r.port == 50052,
    {
        Config { host: "127.0.0.1".to_string(), port: 50052 }
    }
}

/// Where the controller's gRPC server listens.
#[derive(Debug, Clone, PartialEq)]
pub struct ControllerConfig {
    pub host: String,
    pub port: u16,
}

/// Address of a gRPC server.
#[derive(Debug, Clone, PartialEq)]
pub struct GrpcServerConfig {
    pub host: String,
    pub port: u16,
}

/// Configuration of a node agent: `server` is where its own gRPC server listens, `client`
/// where the scheduler it registers to listens.
#[derive(Debug, Clone, PartialEq)]
pub struct NodeAgentConfig {
    pub server: GrpcServerConfig,
    pub client: GrpcServerConfig,
}

impl Default for NodeAgentConfig {
    /// The agent listens on 127.0.0.1:50053 and reaches the scheduler on 127.0.0.1:50052.
    fn default() -> (r: NodeAgentConfig)
        ensures
            r.server.host@ == "127.0.0.1"@,
            r.server.port == 50053,
            r.client.host@ == "127.0.0.1"@,
            r.client.port == 50052,
    {
        NodeAgentConfig {
            server: GrpcServerConfig { host: "127.0.0.1".to_string(), port: 50053 },
            client: GrpcServerConfig { host: "127.0.0.1".to_string(), port: 50052 },
        }
    }
}

/// How many times a node agent tries again to reach the scheduler before it gives up.
pub const NUMBER_OF_CONNECTION_ATTEMPTS: u16 = 10;

/// What a node agent does after a failed attempt to reach the scheduler, when `attempts`
/// attempts were already made again: it tries once more while that count is at most
/// `NUMBER_OF_CONNECTION_ATTEMPTS`, and gives up after that.
pub fn retry_connection(attempts: u16) -> (r: bool)
    ensures
        r == (attempts <= NUMBER_OF_CONNECTION_ATTEMPTS),
{
    attempts <= NUMBER_OF_CONNECTION_ATTEMPTS
}

} // verus!
