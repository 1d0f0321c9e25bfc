use crate::proto::{agent, scheduler};
use vstd::prelude::*;

verus! {

/// The agent form of a port: the same source and destination.
pub open spec fn agent_port(p: scheduler::Port) -> agent::Port {
    agent::Port { source: p.source, destination: p.destination }
}

/// The scheduler form of an agent port: the same source and destination.
pub open spec fn port_of_agent(p: agent::Port) -> scheduler::Port {
    scheduler::Port { source: p.source, destination: p.destination }
}

/// Converts port lists between the scheduler and the node agent forms.
pub struct PortParser {}

impl PortParser {
    /// Converts each port to the agent form, keeping the order.
    pub fn to_agent_ports(ports: Vec<scheduler::Port>) -> (r: Vec<agent::Port>)
        ensures
            r@ == ports@.map_values(|p: scheduler::Port| agent_port(p)),
    {
        let mut r: Vec<agent::Port> = Vec::new();
        let n = ports.len();
        let mut i: usize = 0;
        while i < n
            invariant
                n == ports@.len(),
                0 <= i <= n,
                r@ == ports@.take(i as int).map_values(|p: scheduler::Port| agent_port(p)),
            decreases n - i,
        {
            let p = ports[i];
            r.push(agent::Port { source: p.source, destination: p.destination });
            assert(ports@.take(i + 1) =~= ports@.take(i as int).push(p));
            i += 1;
        }
        assert(ports@.take(n as int) =~= ports@);
        r
    }

    /// Converts each agent port to the scheduler form, keeping the order.
    pub fn from_agent_ports(ports: Vec<agent::Port>) -> (r: Vec<scheduler::Port>)
        ensures
            r@ == ports@.map_values(|p: agent::Port| port_of_agent(p)),
    {
        let mut r: Vec<scheduler::Port> = Vec::new();
        let n = ports.len();
        let mut i: usize = 0;
        while i < n
            invariant
                n == ports@.len(),
                0 <= i <= n,
                r@ == ports@.take(i as int).map_values(|p: agent::Port| port_of_agent(p)),
            decreases n - i,
        {
            let p = ports[i];
            r.push(scheduler::Port { source: p.source, destination: p.destination });
            assert(ports@.take(i + 1) =~= ports@.take(i as int).push(p));
            i += 1;
        }
        assert(ports@.take(n as int) =~= ports@);
        r
    }

    /// Converting ports to the agent form and back gives the same ports.
    pub proof fn lemma_ports_round_trip(ports: Seq<scheduler::Port>)
        ensures
            ports.map_values(|p: scheduler::Port| agent_port(p)).map_values(
                |p: agent::Port| port_of_agent(p),
            ) == ports,
    {
        assert(ports.map_values(|p: scheduler::Port| agent_port(p)).map_values(
            |p: agent::Port| port_of_agent(p),
        ) =~= ports);
    }
}

} // verus!
