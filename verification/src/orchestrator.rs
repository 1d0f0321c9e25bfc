//! The orchestrator: the registered nodes, the instances scheduled on them, and the
//! choice of a node for a new instance.
use crate::config::Config;
use crate::instance::{instance_status_report, with_instance_status, InstanceScheduled};
use crate::node::{description_text, node_status_report, Node, NodeRegistered};
use crate::parser::instance::{is_agent_instance_of, is_fake_agent_instance, InstanceParser};
use crate::text::{debug_form, scheduled_description};
use crate::proto::scheduler::{Instance, InstanceStatus, NodeStatus, Resource, ResourceSummary, Status};
use crate::proto::{agent, controller};
use crate::ProxyError;
use crate::storage::Storage;
use crate::wide;
use crate::{InstanceIdentifier, NodeIdentifier, OrchestratorError};
use vstd::prelude::*;

verus! {

/// The limit of an optional resource, when the resource and its limit are both present.
pub open spec fn limit_of(r: Option<Resource>) -> Option<ResourceSummary> {
    match r {
        Some(res) => res.limit,
        None => None,
    }
}

/// Sum of the limits of a sequence of scheduled instances, component by component
/// (cpu, memory, disk); an instance without a limit counts for nothing.
pub open spec fn limits_sum(s: Seq<InstanceScheduled>) -> (int, int, int)
    decreases s.len(),
{
    if s.len() == 0 {
        (0, 0, 0)
    } else {
        let prev = limits_sum(s.drop_last());
        match limit_of(s.last().instance.resource) {
            Some(l) => (prev.0 + l.cpu, prev.1 + l.memory, prev.2 + l.disk),
            None => prev,
        }
    }
}

/// The needed amounts stay below 95% of the available ones, for cpu, memory and disk.
pub open spec fn has_enough(available: ResourceSummary, needed: (int, int, int)) -> bool {
    &&& 100 * needed.0 < 95 * available.cpu
    &&& 100 * needed.1 < 95 * available.memory
    &&& 100 * needed.2 < 95 * available.disk
}

/// Numerator of needed.cpu/limit.cpu + needed.memory/limit.memory + needed.disk/limit.disk,
/// over the denominator limit.cpu * limit.memory * limit.disk.
pub open spec fn load_num(needed: (int, int, int), limit: ResourceSummary) -> int {
    needed.0 * limit.memory * limit.disk + needed.1 * limit.cpu * limit.disk + needed.2
        * limit.cpu * limit.memory
}

/// Denominator of the load ratio sum.
pub open spec fn load_den(limit: ResourceSummary) -> int {
    limit.cpu * limit.memory * limit.disk
}

/// The load of a node with needs `na` and limits `la` (the sum of the three ratios
/// needed/limit) is below the load of a node with needs `nb` and limits `lb`; compared
/// exactly, by cross-multiplication.
pub open spec fn lower_load(
    na: (int, int, int),
    la: ResourceSummary,
    nb: (int, int, int),
    lb: ResourceSummary,
) -> bool {
    load_num(na, la) * lb.cpu * lb.memory * lb.disk < load_num(nb, lb) * la.cpu * la.memory
        * la.disk
}

/// The resources a node would need with a new instance, and its limits.
#[derive(Debug, Clone, Copy)]
pub struct NodeScore {
    pub needed: ResourceSummary,
    pub limit: ResourceSummary,
}

impl NodeScore {
    /// The needs as integers.
    pub open spec fn needs(self) -> (int, int, int) {
        (self.needed.cpu as int, self.needed.memory as int, self.needed.disk as int)
    }
}

/// The instance `instance` as the orchestrator starts scheduling it: scheduled under its
/// own id, on no recorded node, in the `Scheduling` status.
pub open spec fn scheduling_of(instance: Instance) -> InstanceScheduled {
    with_instance_status(
        InstanceScheduled { id: instance.id, instance, node_id: None },
        Status::Scheduling,
    )
}

/// Where a new instance goes: the chosen node, the request that creates the instance on
/// that node's agent, the report that the instance is scheduled there, and the instance to
/// store on the node once its agent accepted it.
#[derive(Debug)]
pub struct Placement {
    pub node_id: NodeIdentifier,
    pub request: agent::Instance,
    pub scheduled_report: InstanceStatus,
    pub scheduled: InstanceScheduled,
}

/// The decisions of scheduling a new instance, taken before any message is sent: the
/// report that the instance is being scheduled (sent first), the node chosen for it or
/// why none was, and the placement on that node or why it cannot be made.
#[derive(Debug)]
pub struct CreationPlan {
    pub scheduling_report: InstanceStatus,
    pub chosen: Result<NodeIdentifier, OrchestratorError>,
    pub placement: Result<Placement, OrchestratorError>,
}

/// Every node of the store is well formed, and so is the store of its instances.
pub open spec fn nodes_wf(nodes: Storage<NodeRegistered>) -> bool {
    &&& nodes.wf()
    &&& forall|i: int|
        0 <= i < nodes.value_seq().len() ==> (#[trigger] nodes.value_seq()[i]).instances.wf()
}

/// The orchestrator: the registered nodes and the configuration of the scheduler.
#[derive(Debug)]
pub struct Orchestrator {
    nodes: Storage<NodeRegistered>,
    config: Config,
}

proof fn lemma_limits_sum_prefix(s: Seq<InstanceScheduled>, i: int)
    requires
        0 <= i <= s.len(),
    ensures
        limits_sum(s.take(i)).0 <= limits_sum(s).0,
        limits_sum(s.take(i)).1 <= limits_sum(s).1,
        limits_sum(s.take(i)).2 <= limits_sum(s).2,
    decreases s.len(),
{
    if i == s.len() {
        assert(s.take(i) =~= s);
    } else {
        lemma_limits_sum_prefix(s.drop_last(), i);
        assert(s.drop_last().take(i) =~= s.take(i));
    }
}

proof fn lemma_limits_sum_step(s: Seq<InstanceScheduled>, i: int)
    requires
        0 <= i < s.len(),
    ensures
        limits_sum(s.take(i + 1)) == (match limit_of(s[i].instance.resource) {
            Some(l) => (
                limits_sum(s.take(i)).0 + l.cpu,
                limits_sum(s.take(i)).1 + l.memory,
                limits_sum(s.take(i)).2 + l.disk,
            ),
            None => limits_sum(s.take(i)),
        }),
{
    assert(s.take(i + 1).drop_last() =~= s.take(i));
}

proof fn lemma_limits_sum_nonneg(s: Seq<InstanceScheduled>)
    ensures
        limits_sum(s).0 >= 0,
        limits_sum(s).1 >= 0,
        limits_sum(s).2 >= 0,
    decreases s.len(),
{
    if s.len() > 0 {
        lemma_limits_sum_nonneg(s.drop_last());
    }
}

proof fn lemma_limits_sum_bound(s: Seq<InstanceScheduled>)
    ensures
        limits_sum(s).0 <= s.len() * u64::MAX,
        limits_sum(s).1 <= s.len() * u64::MAX,
        limits_sum(s).2 <= s.len() * u64::MAX,
    decreases s.len(),
{
    if s.len() > 0 {
        lemma_limits_sum_bound(s.drop_last());
        assert((s.len() - 1) * u64::MAX + u64::MAX == s.len() * u64::MAX) by (nonlinear_arith);
    }
}

proof fn lemma_mul3_assoc(n: int, c: int, m: int, d: int)
    by (nonlinear_arith)
    ensures
        n * c * m * d == n * (c * m * d),
{
}

/// Lower load, stated on the ratio numerators and denominators.
proof fn lemma_lower_load_ratio(na: (int, int, int), la: ResourceSummary, nb: (int, int, int), lb: ResourceSummary)
    ensures
        lower_load(na, la, nb, lb) == (load_num(na, la) * load_den(lb) < load_num(nb, lb) * load_den(la)),
{
    lemma_mul3_assoc(load_num(na, la), lb.cpu as int, lb.memory as int, lb.disk as int);
    lemma_mul3_assoc(load_num(nb, lb), la.cpu as int, la.memory as int, la.disk as int);
}

proof fn lemma_ratio_trans(ni: int, di: int, nk: int, dk: int, nj: int, dj: int)
    requires
        di > 0,
        dk > 0,
        dj > 0,
        ni * dk < nk * di,
        nk * dj <= nj * dk,
    ensures
        ni * dj < nj * di,
{
    assert(ni * dk * dj < nk * di * dj) by (nonlinear_arith)
        requires
            ni * dk < nk * di,
            dj > 0,
    ;
    assert(nk * dj * di <= nj * dk * di) by (nonlinear_arith)
        requires
            nk * dj <= nj * dk,
            di > 0,
    ;
    assert(nk * di * dj == nk * dj * di) by (nonlinear_arith);
    assert(ni * dj * dk < nj * di * dk) by (nonlinear_arith)
        requires
            ni * dk * dj < nj * dk * di,
    ;
    assert(ni * dj < nj * di) by (nonlinear_arith)
        requires
            ni * dj * dk < nj * di * dk,
            dk > 0,
    ;
}

/// A node whose needs stay within its limits has a positive load denominator.
proof fn lemma_enough_den_pos(limit: ResourceSummary, needed: (int, int, int))
    requires
        has_enough(limit, needed),
        needed.0 >= 0,
        needed.1 >= 0,
        needed.2 >= 0,
    ensures
        load_den(limit) > 0,
{
    assert(limit.cpu * limit.memory * limit.disk > 0) by (nonlinear_arith)
        requires
            limit.cpu > 0,
            limit.memory > 0,
            limit.disk > 0,
    ;
}

impl Orchestrator {
    /// The registered nodes.
    pub closed spec fn node_store(&self) -> Storage<NodeRegistered> {
        self.nodes
    }

    /// The configuration.
    pub closed spec fn config_spec(&self) -> Config {
        self.config
    }

    /// The node store and each store of instances are well formed.
    pub open spec fn wf(&self) -> bool {
        nodes_wf(self.node_store())
    }

    /// The node at position `i` of the store.
    pub open spec fn node_at(&self, i: int) -> NodeRegistered {
        self.node_store().value_seq()[i]
    }

    /// The node at position `i` is running.
    pub open spec fn is_running(&self, i: int) -> bool {
        self.node_at(i).node.status == Status::Running
    }

    /// Resources that placing `instance` on the node described by `node` would need: the
    /// instance's limit plus the limits of the instances already scheduled on the registered
    /// node whose key is `node.id`. `None` when that node is not registered or the instance
    /// has no limit.
    pub open spec fn load_with(&self, node: Node, instance: Instance) -> Option<(int, int, int)> {
        match self.node_store().lookup(node.id@) {
            None => None,
            Some(nr) => match limit_of(instance.resource) {
                None => None,
                Some(il) => {
                    let s = limits_sum(nr.instances.value_seq());
                    Some((il.cpu + s.0, il.memory + s.1, il.disk + s.2))
                },
            },
        }
    }

    /// The outcome of scoring `node` for `instance`: `NodeNotFound` when no node is
    /// registered under `node.id`, `InvalidWorkload` when the instance or the node has no
    /// limit, `None` when the needs would not stay below 95% of the node's limits (a zero
    /// score), and otherwise the needs and the limits, which make a positive score.
    pub open spec fn score_of(&self, node: Node, instance: Instance) -> Result<
        Option<((int, int, int), ResourceSummary)>,
        OrchestratorError,
    > {
        match self.node_store().lookup(node.id@) {
            None => Err(OrchestratorError::NodeNotFound),
            Some(nr) => match limit_of(instance.resource) {
                None => Err(OrchestratorError::InvalidWorkload),
                Some(il) => match limit_of(node.resource) {
                    None => Err(OrchestratorError::InvalidWorkload),
                    Some(nl) => {
                        let needed = self.load_with(node, instance)->0;
                        if has_enough(nl, needed) {
                            Ok(Some((needed, nl)))
                        } else {
                            Ok(None)
                        }
                    },
                },
            },
        }
    }

    /// The running node at position `i` can take `instance` (it has a positive score).
    pub open spec fn is_candidate(&self, i: int, instance: Instance) -> bool {
        &&& self.is_running(i)
        &&& self.score_of(self.node_at(i).node, instance) matches Ok(Some(_))
    }

    /// Needs of the candidate at position `i`.
    pub open spec fn candidate_needs(&self, i: int, instance: Instance) -> (int, int, int) {
        match self.score_of(self.node_at(i).node, instance) {
            Ok(Some(p)) => p.0,
            _ => (0, 0, 0),
        }
    }

    /// Limits of the candidate at position `i`.
    pub open spec fn candidate_limit(&self, i: int, instance: Instance) -> ResourceSummary {
        match self.score_of(self.node_at(i).node, instance) {
            Ok(Some(p)) => p.1,
            _ => ResourceSummary { cpu: 0, memory: 0, disk: 0 },
        }
    }

    /// The candidate at position `i` has a lower load than the one at position `j`.
    pub open spec fn lower_at(&self, i: int, j: int, instance: Instance) -> bool {
        lower_load(
            self.candidate_needs(i, instance),
            self.candidate_limit(i, instance),
            self.candidate_needs(j, instance),
            self.candidate_limit(j, instance),
        )
    }

    /// The sums of limits that scoring computes for `instance` fit in 64 bits on every
    /// running node.
    pub open spec fn limits_fit(&self, instance: Instance) -> bool {
        forall|i: int|
            0 <= i < self.node_store().value_seq().len() && #[trigger] self.is_running(i) ==> match self.load_with(
                self.node_at(i).node,
                instance,
            ) {
                Some(n) => n.0 <= u64::MAX && n.1 <= u64::MAX && n.2 <= u64::MAX,
                None => true,
            }
    }

    /// A candidate has a positive load denominator.
    proof fn lemma_candidate_den_pos(&self, i: int, instance: Instance)
        requires
            self.is_candidate(i, instance),
        ensures
            load_den(self.candidate_limit(i, instance)) > 0,
    {
        let nr = self.node_store().lookup(self.node_at(i).node.id@)->0;
        lemma_limits_sum_nonneg(nr.instances.value_seq());
        lemma_enough_den_pos(self.candidate_limit(i, instance), self.candidate_needs(i, instance));
    }

    /// An orchestrator over the given nodes.
    pub fn new(nodes: Storage<NodeRegistered>, config: Config) -> (r: Orchestrator)
        requires
            nodes_wf(nodes),
        ensures
            r.wf(),
            r.node_store() == nodes,
            r.config_spec() == config,
    {
        Orchestrator { nodes, config }
    }

    /// The registered nodes.
    pub fn nodes(&self) -> (r: &Storage<NodeRegistered>)
        ensures
            *r == self.node_store(),
    {
        &self.nodes
    }

    /// Whether the needs stay below 95% of the available amounts, for cpu, memory and disk.
    fn has_enough_resources(available: ResourceSummary, needed: ResourceSummary) -> (r: bool)
        ensures
            r == has_enough(available, (needed.cpu as int, needed.memory as int, needed.disk as int)),
            r == (100 * needed.cpu < 95 * available.cpu && 100 * needed.memory < 95 * available.memory
                && 100 * needed.disk < 95 * available.disk),
    {
        (needed.cpu as u128) * 100 < (available.cpu as u128) * 95 && (needed.memory as u128) * 100
            < (available.memory as u128) * 95 && (needed.disk as u128) * 100 < (
        available.disk as u128) * 95
    }

    /// The amounts left between a resource's limit and its usage; `NotEnoughResources` when
    /// either is missing.
    fn compute_available_resources(resource: Resource) -> (r: Result<ResourceSummary, OrchestratorError>)
        requires
            resource.limit matches Some(l) ==> (resource.usage matches Some(u) ==> u.cpu <= l.cpu
                && u.memory <= l.memory && u.disk <= l.disk),
        ensures
            match (resource.limit, resource.usage) {
                (Some(l), Some(u)) => r == Ok::<ResourceSummary, OrchestratorError>(
                    ResourceSummary {
                        cpu: (l.cpu - u.cpu) as u64,
                        memory: (l.memory - u.memory) as u64,
                        disk: (l.disk - u.disk) as u64,
                    },
                ),
                _ => r == Err::<ResourceSummary, OrchestratorError>(
                    OrchestratorError::NotEnoughResources,
                ),
            },
    {
        let available_limit = match resource.limit {
            Some(l) => l,
            None => return Err(OrchestratorError::NotEnoughResources),
        };
        let available_usage = match resource.usage {
            Some(u) => u,
            None => return Err(OrchestratorError::NotEnoughResources),
        };
        Ok(
            ResourceSummary {
                cpu: available_limit.cpu - available_usage.cpu,
                memory: available_limit.memory - available_usage.memory,
                disk: available_limit.disk - available_usage.disk,
            },
        )
    }

    /// Scores `node` for `instance` (see `score_of`).
    fn score_node_for_an_new_instance(&self, node: &Node, instance: &Instance) -> (r: Result<
        Option<NodeScore>,
        OrchestratorError,
    >)
        requires
            self.wf(),
            self.load_with(*node, *instance) matches Some(n) ==> n.0 <= u64::MAX && n.1
                <= u64::MAX && n.2 <= u64::MAX,
        ensures
            match (r, self.score_of(*node, *instance)) {
                (Err(e1), Err(e2)) => e1 == e2,
                (Ok(None), Ok(None)) => true,
                (Ok(Some(sc)), Ok(Some(s))) => sc.needs() == s.0 && sc.limit == s.1,
                _ => false,
            },
    {
        let registered = match self.nodes.get(node.id.as_str()) {
            Some(nr) => nr,
            None => return Err(OrchestratorError::NodeNotFound),
        };
        let instance_limit = match instance.resource {
            Some(res) => match res.limit {
                Some(l) => l,
                None => return Err(OrchestratorError::InvalidWorkload),
            },
            None => return Err(OrchestratorError::InvalidWorkload),
        };
        let values = registered.instances.get_all();
        let n = values.len();
        let ghost total = limits_sum(values@);
        proof {
            self.node_store().lemma_has(node.id@);
            lemma_limits_sum_nonneg(values@);
            assert(values@.take(0) =~= Seq::<InstanceScheduled>::empty());
        }
        let mut cpu: u64 = instance_limit.cpu;
        let mut memory: u64 = instance_limit.memory;
        let mut disk: u64 = instance_limit.disk;
        let mut i: usize = 0;
        while i < n
            invariant
                n == values@.len(),
                0 <= i <= n,
                total == limits_sum(values@),
                instance_limit.cpu + total.0 <= u64::MAX,
                instance_limit.memory + total.1 <= u64::MAX,
                instance_limit.disk + total.2 <= u64::MAX,
                cpu == instance_limit.cpu + limits_sum(values@.take(i as int)).0,
                memory == instance_limit.memory + limits_sum(values@.take(i as int)).1,
                disk == instance_limit.disk + limits_sum(values@.take(i as int)).2,
            decreases n - i,
        {
            proof {
                lemma_limits_sum_step(values@, i as int);
                lemma_limits_sum_prefix(values@, i as int + 1);
            }
            match values[i].instance.resource {
                Some(res) => match res.limit {
                    Some(l) => {
                        cpu = cpu + l.cpu;
                        memory = memory + l.memory;
                        disk = disk + l.disk;
                    },
                    None => {},
                },
                None => {},
            }
            i += 1;
        }
        proof {
            assert(values@.take(n as int) =~= values@);
        }
        let node_limit = match node.resource {
            Some(res) => match res.limit {
                Some(l) => l,
                None => return Err(OrchestratorError::InvalidWorkload),
            },
            None => return Err(OrchestratorError::InvalidWorkload),
        };
        let needed = ResourceSummary { cpu, memory, disk };
        if Self::has_enough_resources(node_limit, needed) {
            Ok(Some(NodeScore { needed, limit: node_limit }))
        } else {
            Ok(None)
        }
    }

    /// What choosing a node for `instance` gives (see `find_best_node`).
    pub open spec fn best_node_outcome(
        &self,
        instance: Instance,
        r: Result<NodeIdentifier, OrchestratorError>,
    ) -> bool {
        let n = self.node_store().value_seq().len();
        &&& (r is Ok || r == Err::<NodeIdentifier, OrchestratorError>(OrchestratorError::NoAvailableNodes)
            || r == Err::<NodeIdentifier, OrchestratorError>(OrchestratorError::NotEnoughResources))
        &&& (r == Err::<NodeIdentifier, OrchestratorError>(OrchestratorError::NoAvailableNodes)
            <==> !exists|i: int| 0 <= i < n && #[trigger] self.is_running(i))
        &&& (r == Err::<NodeIdentifier, OrchestratorError>(OrchestratorError::NotEnoughResources)
            <==> ((exists|i: int| 0 <= i < n && #[trigger] self.is_running(i))
            && !exists|i: int| 0 <= i < n && #[trigger] self.is_candidate(i, instance)))
        &&& (r is Ok ==> exists|k: int|
            0 <= k < n && #[trigger] self.is_candidate(k, instance) && r->Ok_0 == self.node_at(k).id
                && (forall|j: int|
                0 <= j < n && #[trigger] self.is_candidate(j, instance) ==> !self.lower_at(
                    j,
                    k,
                    instance,
                )) && (forall|j: int|
                0 <= j < k && #[trigger] self.is_candidate(j, instance) ==> self.lower_at(
                    k,
                    j,
                    instance,
                )))
    }

    /// Finds the node on which to schedule `instance`. Among the running nodes that can take
    /// it (their needs with the instance stay below 95% of their limits), the chosen node is
    /// the one whose sum of ratios needed/limit for cpu, memory and disk is the lowest, that
    /// is, whose score 1 - (sum of ratios) / 3 is the highest; among nodes with equal
    /// scores, the first in storage order. `NoAvailableNodes` when no node is running,
    /// `NotEnoughResources` when no running node can take the instance.
    pub fn find_best_node(&self, instance: &Instance) -> (r: Result<NodeIdentifier, OrchestratorError>)
        requires
            self.wf(),
            self.limits_fit(*instance),
        ensures
            self.best_node_outcome(*instance, r),
    {
        let values = self.nodes.get_all();
        let n = values.len();
        let mut any_running = false;
        let mut i: usize = 0;
        while i < n
            invariant
                n == values@.len(),
                values@ == self.node_store().value_seq(),
                0 <= i <= n,
                any_running == exists|j: int| 0 <= j < i && #[trigger] self.is_running(j),
            decreases n - i,
        {
            if values[i].node.status == Status::Running {
                assert(self.is_running(i as int));
                any_running = true;
            } else {
                assert(!self.is_running(i as int));
            }
            i += 1;
        }
        if !any_running {
            return Err(OrchestratorError::NoAvailableNodes);
        }
        let mut best: Option<(usize, NodeScore)> = None;
        let mut i: usize = 0;
        while i < n
            invariant
                n == values@.len(),
                values@ == self.node_store().value_seq(),
                0 <= i <= n,
                self.wf(),
                self.limits_fit(*instance),
                best is None ==> forall|j: int| 0 <= j < i ==> !#[trigger] self.is_candidate(j, *instance),
                best matches Some(b) ==> {
                    &&& b.0 < i
                    &&& self.is_candidate(b.0 as int, *instance)
                    &&& b.1.needs() == self.candidate_needs(b.0 as int, *instance)
                    &&& b.1.limit == self.candidate_limit(b.0 as int, *instance)
                    &&& forall|j: int|
                        0 <= j < i && #[trigger] self.is_candidate(j, *instance) ==> !self.lower_at(
                            j,
                            b.0 as int,
                            *instance,
                        )
                    &&& forall|j: int|
                        0 <= j < b.0 && #[trigger] self.is_candidate(j, *instance) ==> self.lower_at(
                            b.0 as int,
                            j,
                            *instance,
                        )
                },
            decreases n - i,
        {
            if values[i].node.status == Status::Running {
                proof {
                    assert(self.is_running(i as int));
                }
                match self.score_node_for_an_new_instance(&values[i].node, instance) {
                    Ok(Some(score)) => {
                        let replace = match best {
                            None => true,
                            Some(b) => Self::is_lower_load(&score, &b.1),
                        };
                        proof {
                            assert(self.is_candidate(i as int, *instance));
                            if let Some(b) = best {
                                let k = b.0 as int;
                                let ii = i as int;
                                let ni = load_num(self.candidate_needs(ii, *instance), self.candidate_limit(ii, *instance));
                                let di = load_den(self.candidate_limit(ii, *instance));
                                let nk = load_num(self.candidate_needs(k, *instance), self.candidate_limit(k, *instance));
                                let dk = load_den(self.candidate_limit(k, *instance));
                                self.lemma_candidate_den_pos(ii, *instance);
                                self.lemma_candidate_den_pos(k, *instance);
                                lemma_lower_load_ratio(self.candidate_needs(ii, *instance), self.candidate_limit(ii, *instance), self.candidate_needs(k, *instance), self.candidate_limit(k, *instance));
                                if replace {
                                    assert forall|j: int|
                                        0 <= j < ii + 1 && #[trigger] self.is_candidate(j, *instance)
                                        implies !self.lower_at(j, ii, *instance) by {
                                        let nj = load_num(self.candidate_needs(j, *instance), self.candidate_limit(j, *instance));
                                        let dj = load_den(self.candidate_limit(j, *instance));
                                        self.lemma_candidate_den_pos(j, *instance);
                                        lemma_lower_load_ratio(self.candidate_needs(j, *instance), self.candidate_limit(j, *instance), self.candidate_needs(ii, *instance), self.candidate_limit(ii, *instance));
                                        lemma_lower_load_ratio(self.candidate_needs(j, *instance), self.candidate_limit(j, *instance), self.candidate_needs(k, *instance), self.candidate_limit(k, *instance));
                                        if j < ii {
                                            lemma_ratio_trans(ni, di, nk, dk, nj, dj);
                                        }
                                    }
                                    assert forall|j: int|
                                        0 <= j < ii && #[trigger] self.is_candidate(j, *instance)
                                        implies self.lower_at(ii, j, *instance) by {
                                        let nj = load_num(self.candidate_needs(j, *instance), self.candidate_limit(j, *instance));
                                        let dj = load_den(self.candidate_limit(j, *instance));
                                        self.lemma_candidate_den_pos(j, *instance);
                                        lemma_lower_load_ratio(self.candidate_needs(ii, *instance), self.candidate_limit(ii, *instance), self.candidate_needs(j, *instance), self.candidate_limit(j, *instance));
                                        lemma_lower_load_ratio(self.candidate_needs(j, *instance), self.candidate_limit(j, *instance), self.candidate_needs(k, *instance), self.candidate_limit(k, *instance));
                                        lemma_ratio_trans(ni, di, nk, dk, nj, dj);
                                    }
                                }
                            } else {
                                lemma_lower_load_ratio(self.candidate_needs(i as int, *instance), self.candidate_limit(i as int, *instance), self.candidate_needs(i as int, *instance), self.candidate_limit(i as int, *instance));
                            }
                        }
                        if replace {
                            best = Some((i, score));
                        }
                    },
                    _ => {},
                }
            }
            i += 1;
        }
        match best {
            Some(b) => Ok(values[b.0].id.clone()),
            None => Err(OrchestratorError::NotEnoughResources),
        }
    }

    /// Decides how to schedule `instance`. The first report says the instance is being
    /// scheduled; the node is the one `find_best_node` chooses for it; when that node is
    /// registered and its agent reachable, the placement holds the request for the agent,
    /// the report that the instance is scheduled on that node, and the instance, in the
    /// `Scheduled` status, to store on the node. Nothing is recorded here: a failed
    /// scheduling leaves the orchestrator as it was.
    pub fn plan_instance_creation(&self, instance: Instance) -> (r: CreationPlan)
        requires
            self.wf(),
            self.limits_fit(instance),
        ensures
            instance_status_report(
                scheduling_of(instance),
                Status::Scheduling,
                Seq::<char>::empty(),
                r.scheduling_report,
            ),
            self.best_node_outcome(scheduling_of(instance).instance, r.chosen),
            match r.chosen {
                Err(e) => r.placement == Err::<Placement, OrchestratorError>(e),
                Ok(n) => match self.node_store().lookup(n@) {
                    None => r.placement == Err::<Placement, OrchestratorError>(
                        OrchestratorError::NodeNotFound,
                    ),
                    Some(nr) => if nr.grpc_connected {
                        &&& r.placement matches Ok(p)
                        &&& p.node_id == n
                        &&& is_agent_instance_of(p.request, scheduling_of(instance).instance)
                        &&& p.scheduled == with_instance_status(scheduling_of(instance), Status::Scheduled)
                        &&& instance_status_report(
                            p.scheduled,
                            Status::Scheduled,
                            "Instance is scheduled on node: "@ + debug_form(n@),
                            p.scheduled_report,
                        )
                    } else {
                        r.placement == Err::<Placement, OrchestratorError>(
                            OrchestratorError::FromProxyError(ProxyError::GrpcClientNotFound),
                        )
                    },
                },
            },
    {
        let mut scheduled = InstanceScheduled::new(instance.id.clone(), instance, None);
        let scheduling_report = scheduled.change_status(Status::Scheduling, None);
        proof {
            assert forall|i: int|
                0 <= i < self.node_store().value_seq().len() && #[trigger] self.is_running(i)
                implies match self.load_with(self.node_at(i).node, scheduled.instance) {
                Some(n) => n.0 <= u64::MAX && n.1 <= u64::MAX && n.2 <= u64::MAX,
                None => true,
            } by {
                assert(self.load_with(self.node_at(i).node, scheduled.instance) == self.load_with(
                    self.node_at(i).node,
                    instance,
                ));
            }
        }
        let chosen = self.find_best_node(&scheduled.instance);
        let placement = match &chosen {
            Err(e) => Err(e.duplicate()),
            Ok(n) => match self.nodes.get(n.as_str()) {
                None => Err(OrchestratorError::NodeNotFound),
                Some(nr) => {
                    if !nr.grpc_connected {
                        Err(OrchestratorError::FromProxyError(ProxyError::GrpcClientNotFound))
                    } else {
                        let request = InstanceParser::agent_request(&scheduled.instance);
                        let scheduled_report = scheduled.change_status(
                            Status::Scheduled,
                            Some(scheduled_description(n.as_str())),
                        );
                        Ok(Placement { node_id: n.clone(), request, scheduled_report, scheduled })
                    }
                },
            },
        };
        CreationPlan { scheduling_report, chosen, placement }
    }

    /// The product x * y * z.
    fn product3(x: u64, y: u64, z: u64) -> (r: Vec<u64>)
        ensures
            wide::val(r@) == x * y * z,
            r@.len() == 3,
    {
        let a = wide::from_u64(x);
        let b = wide::mul_small(&a, y);
        wide::mul_small(&b, z)
    }

    /// The numerator of the load of a node (see `load_num`).
    fn load_numerator(needed: ResourceSummary, limit: ResourceSummary) -> (r: Vec<u64>)
        ensures
            wide::val(r@) == load_num(
                (needed.cpu as int, needed.memory as int, needed.disk as int),
                limit,
            ),
            r@.len() == 5,
    {
        let p1 = Self::product3(needed.cpu, limit.memory, limit.disk);
        let p2 = Self::product3(needed.memory, limit.cpu, limit.disk);
        let mut p3 = Self::product3(needed.disk, limit.cpu, limit.memory);
        let s = wide::add(&p1, &p2);
        wide::pad(&mut p3, 4);
        wide::add(&s, &p3)
    }

    /// The product of the load numerator of `a` and the limits of `b`.
    fn cross_product(a: &NodeScore, b: &NodeScore) -> (r: Vec<u64>)
        ensures
            wide::val(r@) == load_num(a.needs(), a.limit) * b.limit.cpu * b.limit.memory
                * b.limit.disk,
            r@.len() == 8,
    {
        let na = Self::load_numerator(a.needed, a.limit);
        let x = wide::mul_small(&na, b.limit.cpu);
        let y = wide::mul_small(&x, b.limit.memory);
        wide::mul_small(&y, b.limit.disk)
    }

    /// Whether the load of `a` is below the load of `b`, compared exactly.
    fn is_lower_load(a: &NodeScore, b: &NodeScore) -> (r: bool)
        ensures
            r == lower_load(a.needs(), a.limit, b.needs(), b.limit),
    {
        let lhs = Self::cross_product(a, b);
        let rhs = Self::cross_product(b, a);
        wide::lt(&lhs, &rhs)
    }

    /// The node at position `i` has an instance stored under `id`.
    pub open spec fn holds_instance(&self, i: int, id: Seq<char>) -> bool {
        self.node_at(i).instances.has(id)
    }

    /// Position of the last node among the first `n` that has an instance stored under `id`.
    pub open spec fn last_holder_in(&self, id: Seq<char>, n: int) -> Option<int>
        decreases n,
    {
        if n <= 0 {
            None
        } else if self.holds_instance(n - 1, id) {
            Some(n - 1)
        } else {
            self.last_holder_in(id, n - 1)
        }
    }

    /// Position of the last node, in storage order, that has an instance stored under `id`.
    pub open spec fn last_holder(&self, id: Seq<char>) -> Option<int> {
        self.last_holder_in(id, self.node_store().value_seq().len() as int)
    }

    /// The last holder among the first `n` nodes holds the instance, and none after it does;
    /// when there is none, no node among the first `n` holds it.
    pub proof fn lemma_last_holder_in(&self, id: Seq<char>, n: int)
        ensures
            match self.last_holder_in(id, n) {
                Some(k) => 0 <= k < n && self.holds_instance(k, id) && forall|j: int|
                    k < j < n ==> !self.holds_instance(j, id),
                None => forall|j: int| 0 <= j < n ==> !self.holds_instance(j, id),
            },
        decreases n,
    {
        if n > 0 {
            self.lemma_last_holder_in(id, n - 1);
        }
    }

    /// The instance stored under `id` on its last holder.
    pub open spec fn held_instance(&self, id: Seq<char>) -> InstanceScheduled {
        self.node_at(self.last_holder(id)->0).instances.lookup(id)->0
    }

    /// The node store is the same as in `old`, except that the node at position `k` is `nr`.
    pub open spec fn replaced_node(&self, old: &Orchestrator, k: int, nr: NodeRegistered) -> bool {
        &&& self.node_store().key_seq() == old.node_store().key_seq()
        &&& self.node_store().value_seq() == old.node_store().value_seq().update(k, nr)
        &&& self.config_spec() == old.config_spec()
    }

    /// Finds the last node that holds the instance `id`.
    fn locate_instance(&self, id: &str) -> (r: Option<usize>)
        requires
            self.wf(),
        ensures
            r == match self.last_holder(id@) {
                Some(k) => Some(k as usize),
                None => None::<usize>,
            },
            r matches Some(k) ==> k < self.node_store().value_seq().len() && self.holds_instance(k as int, id@)
                && self.last_holder(id@) == Some(k as int),
            r is None ==> self.last_holder(id@) is None,
    {
        let values = self.nodes.get_all();
        let n = values.len();
        let mut found: Option<usize> = None;
        let mut i: usize = 0;
        while i < n
            invariant
                n == values@.len(),
                values@ == self.node_store().value_seq(),
                self.wf(),
                0 <= i <= n,
                found == match self.last_holder_in(id@, i as int) {
                    Some(k) => Some(k as usize),
                    None => None::<usize>,
                },
                found matches Some(k) ==> self.last_holder_in(id@, i as int) == Some(k as int),
            decreases n - i,
        {
            proof {
                assert(values@[i as int].instances.wf());
                self.lemma_last_holder_in(id@, i as int);
            }
            if values[i].instances.contains_key(id) {
                found = Some(i);
            }
            i += 1;
        }
        proof {
            self.lemma_last_holder_in(id@, n as int);
        }
        found
    }

    /// Decides how to stop the instance `id`: `Ok(None)` when it is already stopping or
    /// stopped, otherwise the key of the node that holds it and the stop instruction to send
    /// to that node's agent. `InstanceNotFound` when no node holds it; the error of the node
    /// when no gRPC client is connected to its agent.
    pub fn stop_instance(&self, id: InstanceIdentifier) -> (r: Result<
        Option<(NodeIdentifier, agent::SignalInstruction)>,
        OrchestratorError,
    >)
        requires
            self.wf(),
        ensures
            self.signal_decision(id@, r, Status::Stopped, Status::Stopping, agent::Signal::Stop),
    {
        self.signal_if_needed(id, Status::Stopped, Status::Stopping, false)
    }

    /// Decides how to destroy the instance `id`: `Ok(None)` when it is already being
    /// destroyed or terminated, otherwise the key of the node that holds it and the kill
    /// instruction to send to that node's agent. `InstanceNotFound` when no node holds it;
    /// the error of the node when no gRPC client is connected to its agent.
    pub fn destroy_instance(&self, id: InstanceIdentifier) -> (r: Result<
        Option<(NodeIdentifier, agent::SignalInstruction)>,
        OrchestratorError,
    >)
        requires
            self.wf(),
        ensures
            self.signal_decision(id@, r, Status::Destroying, Status::Terminated, agent::Signal::Kill),
    {
        self.signal_if_needed(id, Status::Destroying, Status::Terminated, true)
    }

    /// What deciding to signal the instance `id` with `signal` gives, when the statuses `done1`
    /// and `done2` mean that nothing is left to do.
    pub open spec fn signal_decision(
        &self,
        id: Seq<char>,
        r: Result<Option<(NodeIdentifier, agent::SignalInstruction)>, OrchestratorError>,
        done1: Status,
        done2: Status,
        signal: agent::Signal,
    ) -> bool {
        match self.last_holder(id) {
            None => r == Err::<Option<(NodeIdentifier, agent::SignalInstruction)>, OrchestratorError>(
                OrchestratorError::InstanceNotFound,
            ),
            Some(k) => {
                let status = Status::from_value_or_default(self.held_instance(id).instance.status);
                if status == done1 || status == done2 {
                    r == Ok::<Option<(NodeIdentifier, agent::SignalInstruction)>, OrchestratorError>(None)
                } else if !self.node_at(k).grpc_connected {
                    r == Err::<Option<(NodeIdentifier, agent::SignalInstruction)>, OrchestratorError>(
                        OrchestratorError::FromProxyError(ProxyError::GrpcClientNotFound),
                    )
                } else {
                    r matches Ok(Some((key, instr))) && key@ == self.node_store().key_seq()[k]
                        && instr.signal == signal.value() && (instr.instance matches Some(inst)
                        && is_fake_agent_instance(inst, id))
                }
            },
        }
    }

    fn signal_if_needed(&self, id: InstanceIdentifier, done1: Status, done2: Status, kill: bool) -> (r: Result<
        Option<(NodeIdentifier, agent::SignalInstruction)>,
        OrchestratorError,
    >)
        requires
            self.wf(),
        ensures
            self.signal_decision(
                id@,
                r,
                done1,
                done2,
                if kill { agent::Signal::Kill } else { agent::Signal::Stop },
            ),
    {
        let k = match self.locate_instance(id.as_str()) {
            Some(k) => k,
            None => {
                assert(self.last_holder(id@) is None);
                return Err(OrchestratorError::InstanceNotFound);
            },
        };
        let values = self.nodes.get_all();
        let registered = &values[k];
        proof {
            assert(registered.instances.wf());
            registered.instances.lemma_has(id@);
        }
        let scheduled = match registered.instances.get(id.as_str()) {
            Some(s) => s,
            None => return Err(OrchestratorError::InstanceNotFound),
        };
        let status = scheduled.instance.status();
        if status == done1 || status == done2 {
            return Ok(None);
        }
        let keys = self.nodes.keys();
        let instruction = if kill {
            registered.kill_instance(id)
        } else {
            registered.stop_instance(id)
        };
        match instruction {
            Ok(instr) => {
                let key = keys[k].clone();
                proof {
                    assert(keys@.map_values(|s: String| s@)[k as int] == keys@[k as int]@);
                }
                Ok(Some((key, instr)))
            },
            Err(e) => Err(OrchestratorError::FromProxyError(e)),
        }
    }

    /// Records the registered node `node_registered` under its id, replacing any node stored
    /// under the same key.
    pub fn register_node(&mut self, node_registered: NodeRegistered)
        requires
            old(self).wf(),
            node_registered.instances.wf(),
        ensures
            final(self).wf(),
            final(self).node_store().as_map() == old(self).node_store().as_map().insert(
                node_registered.id@,
                node_registered,
            ),
            final(self).config_spec() == old(self).config_spec(),
    {
        let id = node_registered.id.clone();
        let ghost old_nodes = self.nodes;
        self.nodes.update(id.as_str(), node_registered);
        proof {
            assert forall|i: int| 0 <= i < self.nodes.value_seq().len() implies (
            #[trigger] self.nodes.value_seq()[i]).instances.wf() by {
                if i < old_nodes.value_seq().len() {
                    assert(old_nodes.value_seq()[i].instances.wf());
                }
            }
        }
    }

    /// Records the new status reported by the node registered under `id` and returns the
    /// report to forward to the controller. `NodeNotFound` when no node is registered under
    /// `id`; `GrpcStreamNotFound` when its status stream is not open (the status is recorded
    /// either way).
    pub fn update_node_status(&mut self, id: &str, status: NodeStatus) -> (r: Result<
        controller::NodeStatus,
        OrchestratorError,
    >)
        requires
            old(self).wf(),
            (old(self).node_store().lookup(id@) matches Some(nr) && nr.status_stream_open)
                && Status::from_value_or_default(status.status) == Status::Running ==> status.resource is Some,
        ensures
            final(self).wf(),
            Orchestrator::node_update(
                old(self),
                final(self),
                id@,
                Status::from_value_or_default(status.status),
                status.status_description@,
                status.resource,
                r,
            ),
    {
        let s = status.status();
        self.set_node_status(id, s, Some(status.status_description), status.resource)
    }

    /// Records that the node registered under `id` is terminated and returns the report to
    /// forward to the controller. `NodeNotFound` when no node is registered under `id`;
    /// `GrpcStreamNotFound` when its status stream is not open (the status is recorded
    /// either way).
    pub fn mark_node_terminated(&mut self, id: &str, description: Option<String>) -> (r: Result<
        controller::NodeStatus,
        OrchestratorError,
    >)
        requires
            old(self).wf(),
        ensures
            final(self).wf(),
            Orchestrator::node_update(
                old(self),
                final(self),
                id@,
                Status::Terminated,
                description_text(description),
                None,
                r,
            ),
    {
        self.set_node_status(id, Status::Terminated, description, None)
    }

    /// How recording `status`, `description` and `resource` for the node `id` changes the
    /// orchestrator from `before` to `after`, and what it answers.
    pub open spec fn node_update(
        before: &Orchestrator,
        after: &Orchestrator,
        id: Seq<char>,
        status: Status,
        description: Seq<char>,
        resource: Option<Resource>,
        r: Result<controller::NodeStatus, OrchestratorError>,
    ) -> bool {
        match before.node_store().position(id) {
            None => {
                &&& r == Err::<controller::NodeStatus, OrchestratorError>(OrchestratorError::NodeNotFound)
                &&& after == before
            },
            Some(k) => {
                let nr = before.node_at(k);
                let updated = NodeRegistered {
                    node: Node { status, resource, ..nr.node },
                    ..nr
                };
                &&& after.replaced_node(before, k, updated)
                &&& if nr.status_stream_open {
                    r matches Ok(report) && node_status_report(updated, description, report)
                } else {
                    r == Err::<controller::NodeStatus, OrchestratorError>(
                        OrchestratorError::FromProxyError(ProxyError::GrpcStreamNotFound),
                    )
                }
            },
        }
    }

    fn set_node_status(
        &mut self,
        id: &str,
        status: Status,
        description: Option<String>,
        resource: Option<Resource>,
    ) -> (r: Result<controller::NodeStatus, OrchestratorError>)
        requires
            old(self).wf(),
            (old(self).node_store().lookup(id@) matches Some(nr) && nr.status_stream_open)
                && status == Status::Running ==> resource is Some,
        ensures
            final(self).wf(),
            Orchestrator::node_update(old(self), final(self), id@, status, description_text(description), resource, r),
    {
        let ghost old_self = *self;
        proof {
            self.nodes.lemma_has(id@);
        }
        let registered = match self.nodes.get_mut(id) {
            Some(nr) => nr,
            None => return Err(OrchestratorError::NodeNotFound),
        };
        proof {
            let k = old_self.node_store().position(id@)->0;
            assert(old_self.node_store().value_seq()[k].instances.wf());
        }
        let res = registered.update_status(status, description, resource);
        proof {
            let k = old_self.node_store().position(id@)->0;
            assert forall|i: int| 0 <= i < self.nodes.value_seq().len() implies (
            #[trigger] self.nodes.value_seq()[i]).instances.wf() by {
                assert(old_self.node_store().value_seq()[i].instances.wf());
            }
        }
        match res {
            Ok(report) => Ok(report),
            Err(e) => Err(OrchestratorError::FromProxyError(e)),
        }
    }

    /// The orchestrator `after` is `before` except that the instances of the node at position
    /// `k` hold `inst` at position `p`.
    pub open spec fn instance_replaced(
        before: &Orchestrator,
        after: &Orchestrator,
        k: int,
        p: int,
        inst: InstanceScheduled,
    ) -> bool {
        let old_nr = before.node_at(k);
        let new_nr = after.node_at(k);
        &&& after.node_store().key_seq() == before.node_store().key_seq()
        &&& after.node_store().value_seq().len() == before.node_store().value_seq().len()
        &&& forall|i: int|
            0 <= i < before.node_store().value_seq().len() && i != k ==> after.node_at(i)
                == before.node_at(i)
        &&& new_nr.id == old_nr.id
        &&& new_nr.node == old_nr.node
        &&& new_nr.address == old_nr.address
        &&& new_nr.status_stream_open == old_nr.status_stream_open
        &&& new_nr.grpc_connected == old_nr.grpc_connected
        &&& new_nr.instances.key_seq() == old_nr.instances.key_seq()
        &&& new_nr.instances.value_seq() == old_nr.instances.value_seq().update(p, inst)
        &&& after.config_spec() == before.config_spec()
    }

    /// Records that the instance `id`, on the last node that holds it, is terminated, and
    /// returns the report to send to the controller. `InstanceNotFound` when no node holds it.
    pub fn terminate_instance(&mut self, id: &str, description: Option<String>) -> (r: Result<
        InstanceStatus,
        OrchestratorError,
    >)
        requires
            old(self).wf(),
        ensures
            final(self).wf(),
            match old(self).last_holder(id@) {
                None => r == Err::<InstanceStatus, OrchestratorError>(
                    OrchestratorError::InstanceNotFound,
                ) && *final(self) == *old(self),
                Some(k) => {
                    let p = old(self).node_at(k).instances.position(id@)->0;
                    let inst = with_instance_status(old(self).held_instance(id@), Status::Terminated);
                    &&& Orchestrator::instance_replaced(old(self), final(self), k, p, inst)
                    &&& r matches Ok(report) && instance_status_report(
                        inst,
                        Status::Terminated,
                        description_text(description),
                        report,
                    )
                },
            },
    {
        let k = match self.locate_instance(id) {
            Some(k) => k,
            None => return Err(OrchestratorError::InstanceNotFound),
        };
        let ghost old_self = *self;
        proof {
            assert(old_self.node_at(k as int).instances.wf());
            old_self.node_at(k as int).instances.lemma_has(id@);
        }
        let registered = self.nodes.get_at_mut(k);
        let scheduled = match registered.instances.get_mut(id) {
            Some(s) => s,
            None => return Err(OrchestratorError::InstanceNotFound),
        };
        let report = scheduled.change_status(Status::Terminated, description);
        proof {
            assert forall|i: int| 0 <= i < self.nodes.value_seq().len() implies (
            #[trigger] self.nodes.value_seq()[i]).instances.wf() by {
                assert(old_self.node_store().value_seq()[i].instances.wf());
            }
        }
        Ok(report)
    }

    /// The first step of deleting the instance `id`: when `change_status` holds, records
    /// that the instance is terminated and returns the report to send about it before the
    /// instance is removed; otherwise changes nothing and has no report to send.
    /// `InstanceNotFound`, with nothing changed, when no node holds the instance.
    pub fn begin_instance_deletion(&mut self, id: &str, description: Option<String>, change_status: bool) -> (r:
        Result<Option<InstanceStatus>, OrchestratorError>)
        requires
            old(self).wf(),
        ensures
            final(self).wf(),
            match old(self).last_holder(id@) {
                None => r == Err::<Option<InstanceStatus>, OrchestratorError>(
                    OrchestratorError::InstanceNotFound,
                ) && *final(self) == *old(self),
                Some(k) => if change_status {
                    let p = old(self).node_at(k).instances.position(id@)->0;
                    let inst = with_instance_status(old(self).held_instance(id@), Status::Terminated);
                    &&& Orchestrator::instance_replaced(old(self), final(self), k, p, inst)
                    &&& r matches Ok(Some(report)) && instance_status_report(
                        inst,
                        Status::Terminated,
                        description_text(description),
                        report,
                    )
                } else {
                    r == Ok::<Option<InstanceStatus>, OrchestratorError>(None) && *final(self) == *old(self)
                },
            },
    {
        if change_status {
            match self.terminate_instance(id, description) {
                Ok(report) => Ok(Some(report)),
                Err(e) => Err(e),
            }
        } else {
            match self.locate_instance(id) {
                Some(_) => Ok(None),
                None => Err(OrchestratorError::InstanceNotFound),
            }
        }
    }

    /// Removes the instance `id` from the last node that holds it. `InstanceNotFound` when no
    /// node holds it.
    pub fn delete_instance(&mut self, id: &str) -> (r: Result<(), OrchestratorError>)
        requires
            old(self).wf(),
        ensures
            final(self).wf(),
            match old(self).last_holder(id@) {
                None => r == Err::<(), OrchestratorError>(OrchestratorError::InstanceNotFound)
                    && *final(self) == *old(self),
                Some(k) => {
                    let old_nr = old(self).node_at(k);
                    let new_nr = final(self).node_at(k);
                    &&& r is Ok
                    &&& final(self).node_store().key_seq() == old(self).node_store().key_seq()
                    &&& final(self).node_store().value_seq().len() == old(self).node_store().value_seq().len()
                    &&& forall|i: int|
                        0 <= i < old(self).node_store().value_seq().len() && i != k
                            ==> final(self).node_at(i) == old(self).node_at(i)
                    &&& new_nr.id == old_nr.id
                    &&& new_nr.node == old_nr.node
                    &&& new_nr.address == old_nr.address
                    &&& new_nr.status_stream_open == old_nr.status_stream_open
                    &&& new_nr.grpc_connected == old_nr.grpc_connected
                    &&& new_nr.instances.as_map() == old_nr.instances.as_map().remove(id@)
                    &&& !new_nr.instances.has(id@)
                    &&& final(self).config_spec() == old(self).config_spec()
                },
            },
    {
        let k = match self.locate_instance(id) {
            Some(k) => k,
            None => return Err(OrchestratorError::InstanceNotFound),
        };
        let ghost old_self = *self;
        proof {
            assert(old_self.node_at(k as int).instances.wf());
        }
        let registered = self.nodes.get_at_mut(k);
        registered.instances.delete(id);
        proof {
            assert forall|i: int| 0 <= i < self.nodes.value_seq().len() implies (
            #[trigger] self.nodes.value_seq()[i]).instances.wf() by {
                assert(old_self.node_store().value_seq()[i].instances.wf());
            }
            let nr = self.node_at(k as int);
            nr.instances.lemma_has(id@);
            assert(!nr.instances.as_map().contains_key(id@));
        }
        Ok(())
    }

    /// Number of instances on the node registered under `node_id`, if there is one.
    pub fn instance_count(&self, node_id: &str) -> (r: Option<usize>)
        requires
            self.wf(),
        ensures
            match self.node_store().lookup(node_id@) {
                Some(nr) => r matches Some(c) && c == nr.instances.spec_len(),
                None => r is None,
            },
    {
        proof {
            self.node_store().lemma_has(node_id@);
        }
        match self.nodes.get(node_id) {
            Some(nr) => {
                proof {
                    let k = self.node_store().position(node_id@)->0;
                    assert(self.node_store().value_seq()[k].instances.wf());
                }
                Some(nr.instances.len())
            },
            None => None,
        }
    }

    /// Records that the instance at position `index` on the node registered under `node_id`
    /// is terminated because its node is, and returns the report to send to the controller.
    /// `NodeNotFound` when no node is registered under `node_id`, `InstanceNotFound` when the
    /// node has fewer instances.
    pub fn terminate_node_instance(&mut self, node_id: &str, index: usize) -> (r: Result<
        InstanceStatus,
        OrchestratorError,
    >)
        requires
            old(self).wf(),
        ensures
            final(self).wf(),
            match old(self).node_store().position(node_id@) {
                None => r == Err::<InstanceStatus, OrchestratorError>(OrchestratorError::NodeNotFound)
                    && *final(self) == *old(self),
                Some(k) => if index >= old(self).node_at(k).instances.spec_len() {
                    r == Err::<InstanceStatus, OrchestratorError>(OrchestratorError::InstanceNotFound)
                        && final(self).node_store() == old(self).node_store()
                        && final(self).config_spec() == old(self).config_spec()
                } else {
                    let inst = with_instance_status(
                        old(self).node_at(k).instances.value_seq()[index as int],
                        Status::Terminated,
                    );
                    &&& Orchestrator::instance_replaced(old(self), final(self), k, index as int, inst)
                    &&& r matches Ok(report) && instance_status_report(
                        inst,
                        Status::Terminated,
                        "Node is terminated"@,
                        report,
                    )
                },
            },
    {
        let ghost old_self = *self;
        proof {
            self.nodes.lemma_has(node_id@);
        }
        match self.instance_count(node_id) {
            None => return Err(OrchestratorError::NodeNotFound),
            Some(count) => if index >= count {
                return Err(OrchestratorError::InstanceNotFound);
            },
        }
        let registered = match self.nodes.get_mut(node_id) {
            Some(nr) => nr,
            None => return Err(OrchestratorError::NodeNotFound),
        };
        proof {
            let k = old_self.node_store().position(node_id@)->0;
            assert(old_self.node_store().value_seq()[k].instances.wf());
        }
        let scheduled = registered.instances.get_at_mut(index);
        let report = scheduled.change_status(
            Status::Terminated,
            Some("Node is terminated".to_string()),
        );
        proof {
            assert forall|i: int| 0 <= i < self.nodes.value_seq().len() implies (
            #[trigger] self.nodes.value_seq()[i]).instances.wf() by {
                assert(old_self.node_store().value_seq()[i].instances.wf());
            }
        }
        Ok(report)
    }

    /// Removes the node registered under `id`, after closing its status stream.
    /// `NodeNotFound` when no node is registered under `id`.
    pub fn unregister_node(&mut self, id: &str) -> (r: Result<(), OrchestratorError>)
        requires
            old(self).wf(),
        ensures
            final(self).wf(),
            match old(self).node_store().position(id@) {
                None => r == Err::<(), OrchestratorError>(OrchestratorError::NodeNotFound)
                    && *final(self) == *old(self),
                Some(k) => {
                    &&& r is Ok
                    &&& final(self).node_store().as_map() == old(self).node_store().as_map().remove(id@)
                    &&& !final(self).node_store().has(id@)
                    &&& final(self).config_spec() == old(self).config_spec()
                },
            },
    {
        let ghost old_self = *self;
        proof {
            self.nodes.lemma_has(id@);
        }
        match self.nodes.get_mut(id) {
            Some(registered) => registered.close_node_status_stream(),
            None => return Err(OrchestratorError::NodeNotFound),
        }
        let ghost mid = self.nodes;
        proof {
            let k = old_self.node_store().position(id@)->0;
            old_self.node_store().lemma_replace_at(&mid, k, mid.value_seq()[k]);
            assert(old_self.node_store().as_map().insert(id@, mid.value_seq()[k]).remove(id@)
                =~= old_self.node_store().as_map().remove(id@));
        }
        self.nodes.delete(id);
        proof {
            let k = old_self.node_store().position(id@)->0;
            assert forall|i: int| 0 <= i < self.nodes.value_seq().len() implies (
            #[trigger] self.nodes.value_seq()[i]).instances.wf() by {
                let i2 = if i < k { i } else { i + 1 };
                assert(mid.value_seq()[i2].instances.wf() || i2 == k);
                assert(old_self.node_store().value_seq()[i2].instances.wf());
            }
            self.nodes.lemma_has(id@);
            assert(!self.nodes.as_map().contains_key(id@));
        }
        Ok(())
    }

    /// Whether a node is registered under `id`.
    pub fn contains_node(&self, id: &str) -> (r: bool)
        requires
            self.wf(),
        ensures
            r == self.node_store().has(id@),
    {
        self.nodes.contains_key(id)
    }

    /// The request that creates `instance` on the node registered under `node_id`.
    /// `NodeNotFound` when no node is registered under `node_id`; the error of the node when
    /// no gRPC client is connected to its agent. This builds the request only: scheduling a
    /// new instance is `plan_instance_creation`, then, once the agent accepted it,
    /// `store_instance`.
    pub fn create_instance(&self, node_id: &str, instance: Instance) -> (r: Result<
        agent::Instance,
        OrchestratorError,
    >)
        requires
            self.wf(),
        ensures
            match self.node_store().lookup(node_id@) {
                None => r == Err::<agent::Instance, OrchestratorError>(OrchestratorError::NodeNotFound),
                Some(nr) => if nr.grpc_connected {
                    r matches Ok(a) && is_agent_instance_of(a, instance)
                } else {
                    r == Err::<agent::Instance, OrchestratorError>(
                        OrchestratorError::FromProxyError(ProxyError::GrpcClientNotFound),
                    )
                },
            },
    {
        match self.nodes.get(node_id) {
            Some(nr) => match nr.create_instance(instance) {
                Ok(a) => Ok(a),
                Err(e) => Err(OrchestratorError::FromProxyError(e)),
            },
            None => Err(OrchestratorError::NodeNotFound),
        }
    }

    /// Stores the scheduled instance on the node registered under `node_id`, under the
    /// instance's id. `NodeNotFound` when no node is registered under `node_id`.
    pub fn store_instance(&mut self, node_id: &str, scheduled: InstanceScheduled) -> (r: Result<
        (),
        OrchestratorError,
    >)
        requires
            old(self).wf(),
        ensures
            final(self).wf(),
            match old(self).node_store().position(node_id@) {
                None => r == Err::<(), OrchestratorError>(OrchestratorError::NodeNotFound)
                    && *final(self) == *old(self),
                Some(k) => {
                    let old_nr = old(self).node_at(k);
                    let new_nr = final(self).node_at(k);
                    &&& r is Ok
                    &&& final(self).node_store().key_seq() == old(self).node_store().key_seq()
                    &&& final(self).node_store().value_seq().len() == old(self).node_store().value_seq().len()
                    &&& forall|i: int|
                        0 <= i < old(self).node_store().value_seq().len() && i != k
                            ==> final(self).node_at(i) == old(self).node_at(i)
                    &&& new_nr.id == old_nr.id
                    &&& new_nr.node == old_nr.node
                    &&& new_nr.address == old_nr.address
                    &&& new_nr.status_stream_open == old_nr.status_stream_open
                    &&& new_nr.grpc_connected == old_nr.grpc_connected
                    &&& new_nr.instances.as_map() == old_nr.instances.as_map().insert(scheduled.id@, scheduled)
                    &&& final(self).config_spec() == old(self).config_spec()
                },
            },
    {
        let ghost old_self = *self;
        proof {
            self.nodes.lemma_has(node_id@);
        }
        let registered = match self.nodes.get_mut(node_id) {
            Some(nr) => nr,
            None => return Err(OrchestratorError::NodeNotFound),
        };
        proof {
            let k = old_self.node_store().position(node_id@)->0;
            assert(old_self.node_store().value_seq()[k].instances.wf());
        }
        let key = scheduled.id.clone();
        registered.instances.update(key.as_str(), scheduled);
        proof {
            assert forall|i: int| 0 <= i < self.nodes.value_seq().len() implies (
            #[trigger] self.nodes.value_seq()[i]).instances.wf() by {
                assert(old_self.node_store().value_seq()[i].instances.wf());
            }
        }
        Ok(())
    }

    /// Sum of the limits of the instances stored on a node, computed on 128 bits.
    fn limits_sum_wide(instances: &Storage<InstanceScheduled>) -> (r: (u128, u128, u128))
        ensures
            r.0 == limits_sum(instances.value_seq()).0,
            r.1 == limits_sum(instances.value_seq()).1,
            r.2 == limits_sum(instances.value_seq()).2,
            r.0 <= 0xFFFF_FFFF_FFFF_FFFE_0000_0000_0000_0001u128,
            r.1 <= 0xFFFF_FFFF_FFFF_FFFE_0000_0000_0000_0001u128,
            r.2 <= 0xFFFF_FFFF_FFFF_FFFE_0000_0000_0000_0001u128,
    {
        let values = instances.get_all();
        let n = values.len();
        let mut cpu: u128 = 0;
        let mut memory: u128 = 0;
        let mut disk: u128 = 0;
        let mut i: usize = 0;
        assert(values@.take(0) =~= Seq::<InstanceScheduled>::empty());
        while i < n
            invariant
                n == values@.len(),
                0 <= i <= n,
                cpu == limits_sum(values@.take(i as int)).0,
                memory == limits_sum(values@.take(i as int)).1,
                disk == limits_sum(values@.take(i as int)).2,
            decreases n - i,
        {
            proof {
                lemma_limits_sum_step(values@, i as int);
                lemma_limits_sum_bound(values@.take(i as int));
                lemma_limits_sum_nonneg(values@.take(i as int));
                assert(i * u64::MAX + u64::MAX <= 0xFFFF_FFFF_FFFF_FFFF_FFFF_FFFF_FFFF_FFFF) by (nonlinear_arith)
                    requires
                        i <= 0xFFFF_FFFF_FFFF_FFFF,
                ;
            }
            match values[i].instance.resource {
                Some(res) => match res.limit {
                    Some(l) => {
                        cpu = cpu + l.cpu as u128;
                        memory = memory + l.memory as u128;
                        disk = disk + l.disk as u128;
                    },
                    None => {},
                },
                None => {},
            }
            i += 1;
        }
        assert(values@.take(n as int) =~= values@);
        proof {
            lemma_limits_sum_bound(values@);
            assert(n * u64::MAX <= 0xFFFF_FFFF_FFFF_FFFE_0000_0000_0000_0001int) by (nonlinear_arith)
                requires
                    n <= 0xFFFF_FFFF_FFFF_FFFF,
            ;
        }
        (cpu, memory, disk)
    }

    /// Whether the sums of limits that scoring `instance` computes fit in 64 bits on every
    /// running node, as `find_best_node` requires.
    pub fn check_limits_fit(&self, instance: &Instance) -> (r: bool)
        requires
            self.wf(),
        ensures
            r == self.limits_fit(*instance),
    {
        let instance_limit = match instance.resource {
            Some(res) => match res.limit {
                Some(l) => l,
                None => return true,
            },
            None => return true,
        };
        let values = self.nodes.get_all();
        let n = values.len();
        let mut i: usize = 0;
        while i < n
            invariant
                n == values@.len(),
                values@ == self.node_store().value_seq(),
                0 <= i <= n,
                self.wf(),
                limit_of(instance.resource) == Some(instance_limit),
                forall|j: int|
                    0 <= j < i && #[trigger] self.is_running(j) ==> match self.load_with(
                        self.node_at(j).node,
                        *instance,
                    ) {
                        Some(m) => m.0 <= u64::MAX && m.1 <= u64::MAX && m.2 <= u64::MAX,
                        None => true,
                    },
            decreases n - i,
        {
            if values[i].node.status == Status::Running {
                proof {
                    assert(self.is_running(i as int));
                    self.node_store().lemma_has(values@[i as int].node.id@);
                }
                match self.nodes.get(values[i].node.id.as_str()) {
                    Some(nr) => {
                        proof {
                            let k = self.node_store().position(values@[i as int].node.id@)->0;
                            assert(self.node_store().value_seq()[k].instances.wf());
                        }
                        let sums = Self::limits_sum_wide(&nr.instances);
                        if sums.0 + instance_limit.cpu as u128 > u64::MAX as u128 || sums.1
                            + instance_limit.memory as u128 > u64::MAX as u128 || sums.2
                            + instance_limit.disk as u128 > u64::MAX as u128 {
                            return false;
                        }
                    },
                    None => {},
                }
            } else {
                assert(!self.is_running(i as int));
            }
            i += 1;
        }
        true
    }

    /// The node chosen for an instance has room for it: it is running, and for each of cpu,
    /// memory and disk, the instance's limit plus the limits of the instances already
    /// scheduled on it stay below 95% of its own limit.
    pub proof fn lemma_chosen_node_has_room(
        &self,
        instance: Instance,
        r: Result<NodeIdentifier, OrchestratorError>,
    )
        requires
            self.best_node_outcome(instance, r),
            r is Ok,
        ensures
            exists|k: int|
                0 <= k < self.node_store().value_seq().len() && #[trigger] self.is_running(k)
                    && self.node_at(k).id == r->Ok_0 && ({
                    let il = limit_of(instance.resource)->0;
                    let nl = limit_of(self.node_at(k).node.resource)->0;
                    let s = limits_sum(self.node_store().lookup(self.node_at(k).node.id@)->0.instances.value_seq());
                    &&& limit_of(instance.resource) is Some
                    &&& limit_of(self.node_at(k).node.resource) is Some
                    &&& self.node_store().lookup(self.node_at(k).node.id@) is Some
                    &&& 100 * (il.cpu + s.0) < 95 * nl.cpu
                    &&& 100 * (il.memory + s.1) < 95 * nl.memory
                    &&& 100 * (il.disk + s.2) < 95 * nl.disk
                }),
    {
        let n = self.node_store().value_seq().len();
        let k = choose|k: int|
            0 <= k < n && #[trigger] self.is_candidate(k, instance) && r->Ok_0 == self.node_at(k).id
                && (forall|j: int|
                0 <= j < n && #[trigger] self.is_candidate(j, instance) ==> !self.lower_at(j, k, instance))
                && (forall|j: int| 0 <= j < k && #[trigger] self.is_candidate(j, instance) ==> self.lower_at(k, j, instance));
        assert(self.is_candidate(k, instance));
        assert(self.is_running(k));
    }

    /// An instance whose disk limit alone reaches 95% of the disk limit of every running
    /// node is placed nowhere: no node has room for it.
    pub proof fn lemma_no_room_for_disk(
        &self,
        instance: Instance,
        r: Result<NodeIdentifier, OrchestratorError>,
    )
        requires
            self.wf(),
            self.best_node_outcome(instance, r),
            limit_of(instance.resource) is Some,
            forall|i: int|
                0 <= i < self.node_store().value_seq().len() && #[trigger] self.is_running(i)
                    && limit_of(self.node_at(i).node.resource) is Some ==> 100 * limit_of(
                    instance.resource,
                )->0.disk >= 95 * limit_of(self.node_at(i).node.resource)->0.disk,
        ensures
            r is Err,
            (exists|i: int| 0 <= i < self.node_store().value_seq().len() && #[trigger] self.is_running(i))
                ==> r == Err::<NodeIdentifier, OrchestratorError>(OrchestratorError::NotEnoughResources),
    {
        if r is Ok {
            self.lemma_chosen_node_has_room(instance, r);
            let k = choose|k: int|
                0 <= k < self.node_store().value_seq().len() && #[trigger] self.is_running(k)
                    && self.node_at(k).id == r->Ok_0 && ({
                    let il = limit_of(instance.resource)->0;
                    let nl = limit_of(self.node_at(k).node.resource)->0;
                    let s = limits_sum(self.node_store().lookup(self.node_at(k).node.id@)->0.instances.value_seq());
                    &&& limit_of(instance.resource) is Some
                    &&& limit_of(self.node_at(k).node.resource) is Some
                    &&& self.node_store().lookup(self.node_at(k).node.id@) is Some
                    &&& 100 * (il.cpu + s.0) < 95 * nl.cpu
                    &&& 100 * (il.memory + s.1) < 95 * nl.memory
                    &&& 100 * (il.disk + s.2) < 95 * nl.disk
                });
            lemma_limits_sum_nonneg(self.node_store().lookup(self.node_at(k).node.id@)->0.instances.value_seq());
            assert(false);
        }
    }

    /// Stopping an instance that its last holder records in any status other than stopped
    /// or stopping, on a node whose agent is connected, sends that node a stop instruction
    /// for the instance; in particular a running instance is always told to stop.
    pub proof fn lemma_stop_signals_live_instance(
        &self,
        id: Seq<char>,
        r: Result<Option<(NodeIdentifier, agent::SignalInstruction)>, OrchestratorError>,
    )
        requires
            self.signal_decision(id, r, Status::Stopped, Status::Stopping, agent::Signal::Stop),
            self.last_holder(id) is Some,
            self.node_at(self.last_holder(id)->0).grpc_connected,
            Status::from_value_or_default(self.held_instance(id).instance.status) != Status::Stopped,
            Status::from_value_or_default(self.held_instance(id).instance.status) != Status::Stopping,
        ensures
            r matches Ok(Some((key, instr))) && key@ == self.node_store().key_seq()[self.last_holder(id)->0]
                && instr.signal == agent::Signal::Stop.value() && (instr.instance matches Some(inst)
                && inst.id@ == id),
    {
    }

    /// Destroying an instance that its last holder records in any status other than
    /// destroying or terminated, on a node whose agent is connected, sends that node a kill
    /// instruction for the instance; in particular a running instance is always killed.
    pub proof fn lemma_destroy_signals_live_instance(
        &self,
        id: Seq<char>,
        r: Result<Option<(NodeIdentifier, agent::SignalInstruction)>, OrchestratorError>,
    )
        requires
            self.signal_decision(id, r, Status::Destroying, Status::Terminated, agent::Signal::Kill),
            self.last_holder(id) is Some,
            self.node_at(self.last_holder(id)->0).grpc_connected,
            Status::from_value_or_default(self.held_instance(id).instance.status) != Status::Destroying,
            Status::from_value_or_default(self.held_instance(id).instance.status) != Status::Terminated,
        ensures
            r matches Ok(Some((key, instr))) && key@ == self.node_store().key_seq()[self.last_holder(id)->0]
                && instr.signal == agent::Signal::Kill.value() && (instr.instance matches Some(inst)
                && inst.id@ == id),
    {
    }

    /// Once the instance `id` has been recorded as terminated, destroying it asks nothing of
    /// its node: the decision is `Ok(None)`.
    pub proof fn lemma_destroy_after_terminate(
        before: &Orchestrator,
        after: &Orchestrator,
        id: Seq<char>,
        k: int,
        r: Result<Option<(NodeIdentifier, agent::SignalInstruction)>, OrchestratorError>,
    )
        requires
            before.wf(),
            before.last_holder(id) == Some(k),
            Orchestrator::instance_replaced(
                before,
                after,
                k,
                before.node_at(k).instances.position(id)->0,
                with_instance_status(before.held_instance(id), Status::Terminated),
            ),
            after.signal_decision(id, r, Status::Destroying, Status::Terminated, agent::Signal::Kill),
        ensures
            r == Ok::<Option<(NodeIdentifier, agent::SignalInstruction)>, OrchestratorError>(None),
    {
        let n = before.node_store().value_seq().len() as int;
        before.lemma_last_holder_in(id, n);
        let nr = before.node_at(k);
        assert(nr.instances.wf());
        nr.instances.lemma_has(id);
        let p = nr.instances.position(id)->0;
        let new_nr = after.node_at(k);
        assert forall|j: int| 0 <= j < n implies after.holds_instance(j, id) == before.holds_instance(j, id) by {
            if j == k {
                assert(new_nr.instances.key_seq() == nr.instances.key_seq());
            }
        }
        assert forall|m: int| 0 <= m <= n implies after.last_holder_in(id, m) == before.last_holder_in(id, m) by {
            lemma_last_holder_in_eq(before, after, id, m);
        }
        assert(new_nr.instances.value_seq()[p] == with_instance_status(before.held_instance(id), Status::Terminated));
        assert(new_nr.instances.wf());
        new_nr.instances.lemma_position(p);
        Status::lemma_value_round_trip(Status::Terminated, 0);
    }
}

/// Two orchestrators in which the same nodes hold the instance `id` agree on its last
/// holder among the first `m` nodes.
proof fn lemma_last_holder_in_eq(before: &Orchestrator, after: &Orchestrator, id: Seq<char>, m: int)
    requires
        0 <= m <= before.node_store().value_seq().len(),
        forall|j: int|
            0 <= j < before.node_store().value_seq().len() ==> after.holds_instance(j, id)
                == before.holds_instance(j, id),
    ensures
        after.last_holder_in(id, m) == before.last_holder_in(id, m),
    decreases m,
{
    if m > 0 {
        lemma_last_holder_in_eq(before, after, id, m - 1);
    }
}

} // verus!
