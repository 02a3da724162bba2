//! Per-domain dispatch: the node descriptor, its processing entry point, and
//! the broadcast to same-domain children.

use vstd::prelude::*;
use crate::data::{Records, batch_content};
use crate::message::{Message, MsgContent, NodeAddress, Timestamp, TokenCarrier, clone_message};
use crate::state::{StateMap, map_apply_at};
use crate::node::{NodeType, Operator};
use crate::graph::{Graph, GraphNode};
use crate::channel::filter_kept;
use crate::reader::reader_step;

verus! {

/// The arena index an address points at; children and handoff queues are
/// addressed locally.
pub open spec fn addr_index(a: NodeAddress) -> int {
    match a {
        NodeAddress::Local(i) => i as int,
        NodeAddress::Global(i) => i as int,
    }
}

/// The addresses of those successors that share the node's domain, in
/// successor order.
pub open spec fn same_domain_children<O>(
    nodes: Seq<GraphNode<O>>,
    succ: Seq<usize>,
    dom: usize,
) -> Seq<NodeAddress>
    decreases succ.len(),
{
    if succ.len() == 0 {
        Seq::empty()
    } else {
        let rest = same_domain_children(nodes, succ.drop_last(), dom);
        if nodes[succ.last() as int].domain == dom {
            rest.push(nodes[succ.last() as int].addr)
        } else {
            rest
        }
    }
}

/// The per-child outbound queues a domain broadcasts into, indexed by local
/// address.
pub struct Handoffs {
    pub queues: Vec<Vec<Message>>,
}

impl View for Handoffs {
    type V = Seq<Seq<MsgContent>>;

    open spec fn view(&self) -> Seq<Seq<MsgContent>> {
        self.queues@.map_values(|q: Vec<Message>| q@.map_values(|m: Message| m.content()))
    }
}

/// The queues after a message content is enqueued once per child, in child
/// order.
pub open spec fn broadcast_spec(
    qs: Seq<Seq<MsgContent>>,
    mc: MsgContent,
    children: Seq<NodeAddress>,
) -> Seq<Seq<MsgContent>>
    decreases children.len(),
{
    if children.len() == 0 {
        qs
    } else {
        let prev = broadcast_spec(qs, mc, children.drop_last());
        let j = addr_index(children.last());
        if 0 <= j < prev.len() {
            prev.update(j, prev[j].push(mc))
        } else {
            prev
        }
    }
}

/// Broadcasting never changes how many queues there are.
pub proof fn lemma_broadcast_spec_len(
    qs: Seq<Seq<MsgContent>>,
    mc: MsgContent,
    children: Seq<NodeAddress>,
)
    ensures
        broadcast_spec(qs, mc, children).len() == qs.len(),
    decreases children.len(),
{
    if children.len() > 0 {
        lemma_broadcast_spec_len(qs, mc, children.drop_last());
    }
}

/// How often an address pointing at queue `j` occurs among the children.
pub open spec fn count_addr(children: Seq<NodeAddress>, j: int) -> nat
    decreases children.len(),
{
    if children.len() == 0 {
        0
    } else {
        count_addr(children.drop_last(), j) + if addr_index(children.last()) == j {
            1nat
        } else {
            0nat
        }
    }
}

/// Law: broadcast fidelity. After a broadcast, each queue has grown by
/// exactly one message per occurrence of its address among the children,
/// every one content-equal to the stamped template; all other queues are
/// untouched. Only the allocation, never the content, distinguishes the last
/// child's message from the others.
pub proof fn lemma_broadcast_fidelity(
    qs: Seq<Seq<MsgContent>>,
    mc: MsgContent,
    children: Seq<NodeAddress>,
    j: int,
)
    requires
        0 <= j < qs.len(),
        forall|x: int| 0 <= x < children.len() ==> 0 <= addr_index(#[trigger] children[x])
            < qs.len(),
    ensures
        broadcast_spec(qs, mc, children)[j] == qs[j] + Seq::new(
            count_addr(children, j),
            |k: int| mc,
        ),
    decreases children.len(),
{
    lemma_broadcast_spec_len(qs, mc, children);
    if children.len() == 0 {
        assert(qs[j] + Seq::new(0, |k: int| mc) =~= qs[j]);
    } else {
        let rest = children.drop_last();
        assert forall|x: int| 0 <= x < rest.len() implies 0 <= addr_index(#[trigger] rest[x])
            < qs.len() by {
            assert(rest[x] == children[x]);
        }
        lemma_broadcast_fidelity(qs, mc, rest, j);
        lemma_broadcast_spec_len(qs, mc, rest);
        let prev = broadcast_spec(qs, mc, rest);
        let li = addr_index(children.last());
        assert(0 <= li < prev.len());
        if li == j {
            assert(count_addr(children, j) == count_addr(rest, j) + 1);
            assert((qs[j] + Seq::new(count_addr(rest, j), |k: int| mc)).push(mc) =~= qs[j]
                + Seq::new(count_addr(rest, j) + 1, |k: int| mc));
        }
    }
}

/// Appends one message to the queue of one local address.
fn enqueue(handoffs: &mut Handoffs, to: NodeAddress, msg: Message)
    requires
        to is Local,
        addr_index(to) < old(handoffs)@.len(),
    ensures
        final(handoffs)@ == old(handoffs)@.update(
            addr_index(to),
            old(handoffs)@[addr_index(to)].push(msg.content()),
        ),
{
    let idx = to.as_local();
    let mut q = handoffs.queues.remove(idx);
    q.push(msg);
    handoffs.queues.insert(idx, q);
    proof {
        let gidx = addr_index(to);
        assert(handoffs.queues@ =~= old(handoffs).queues@.update(
            gidx,
            handoffs.queues@[gidx],
        ));
        assert(handoffs.queues@[gidx]@ == old(handoffs).queues@[gidx]@.push(msg));
        assert(final(handoffs)@[gidx] =~= old(handoffs)@[gidx].push(msg.content()));
        assert(final(handoffs)@ =~= old(handoffs)@.update(
            gidx,
            old(handoffs)@[gidx].push(msg.content()),
        ));
    }
}

/// Stamps the template's `from` field, then enqueues the message once per
/// child: a clone for every child but the last, which receives the original
/// allocation.
pub fn broadcast(from: NodeAddress, handoffs: &mut Handoffs, m: Message, children: &Vec<
    NodeAddress,
>)
    requires
        forall|x: int| 0 <= x < children@.len() ==> (#[trigger] children@[x]) is Local
            && addr_index(children@[x]) < old(handoffs)@.len(),
    ensures
        final(handoffs)@ == broadcast_spec(
            old(handoffs)@,
            ((from, m.to, batch_content(m.data@), m.ts, m.token is Some)),
            children@,
        ),
{
    let mut m = m;
    m.from = from;
    let ghost mc: MsgContent = m.content();
    let n = children.len();
    if n == 0 {
        return ;
    }
    let mut i: usize = 0;
    while n - i > 1
        invariant
            n == children@.len(),
            n > 0,
            i + 1 <= n,
            m.content() == mc,
            forall|x: int| 0 <= x < children@.len() ==> (#[trigger] children@[x]) is Local
                && addr_index(children@[x]) < old(handoffs)@.len(),
            handoffs@ == broadcast_spec(old(handoffs)@, mc, children@.take(i as int)),
            handoffs@.len() == old(handoffs)@.len(),
        decreases n - i,
    {
        proof {
            assert(children@.take(i + 1).drop_last() =~= children@.take(i as int));
            assert(children@.take(i + 1).last() == children@[i as int]);
            lemma_broadcast_spec_len(old(handoffs)@, mc, children@.take(i as int));
        }
        enqueue(handoffs, children[i], clone_message(&m));
        proof {
            lemma_broadcast_spec_len(old(handoffs)@, mc, children@.take(i + 1));
        }
        i += 1;
    }
    proof {
        assert(children@.take(n - 1 + 1).drop_last() =~= children@.take(n - 1));
        assert(children@.take(n - 1 + 1).last() == children@[n - 1]);
        lemma_broadcast_spec_len(old(handoffs)@, mc, children@.take(n - 1));
        assert(children@.take(n as int) =~= children@);
    }
    enqueue(handoffs, children[n - 1], m);
}

/// One node of a domain: the node payload moved out of the graph, the node's
/// graph position, and the same-domain children computed once at
/// construction. Cross-domain successors are reached only through egress
/// nodes, never through this list.
pub struct NodeDescriptor<O> {
    /// The node's graph-global index.
    pub index: usize,
    /// The node's address within its domain.
    pub addr: NodeAddress,
    /// The node variant this descriptor owns.
    pub inner: NodeType<O>,
    /// The addresses of same-domain children, fixed at construction.
    pub children: Vec<NodeAddress>,
}

impl<O: Operator> NodeDescriptor<O> {
    /// Builds the descriptor for one graph node: takes the payload out of the
    /// arena slot and precomputes the same-domain children.
    pub fn new(graph: &mut Graph<O>, node: usize) -> (d: NodeDescriptor<O>)
        requires
            old(graph).wf(),
            node < old(graph).nodes@.len(),
            old(graph).nodes@[node as int].payload is Some,
        ensures
            d.index == node,
            d.addr == old(graph).nodes@[node as int].addr,
            d.inner == old(graph).nodes@[node as int].payload.unwrap(),
            d.children@ == same_domain_children(
                old(graph).nodes@,
                old(graph).nodes@[node as int].successors@,
                old(graph).nodes@[node as int].domain,
            ),
            final(graph).nodes@ == old(graph).nodes@.update(
                node as int,
                (GraphNode {
                    payload: None,
                    ..old(graph).nodes@[node as int]
                }),
            ),
            final(graph).wf(),
    {
        let ghost nodes0 = graph.nodes@;
        let ghost succ0 = graph.nodes@[node as int].successors@;
        let ghost dom0 = graph.nodes@[node as int].domain;
        let mut children: Vec<NodeAddress> = Vec::new();
        let succ_len = graph.nodes[node].successors.len();
        let mut k: usize = 0;
        while k < succ_len
            invariant
                old(graph).wf(),
                graph.nodes@ == nodes0,
                nodes0 == old(graph).nodes@,
                succ0 == nodes0[node as int].successors@,
                dom0 == nodes0[node as int].domain,
                node < nodes0.len(),
                succ_len == succ0.len(),
                k <= succ_len,
                children@ == same_domain_children(nodes0, succ0.take(k as int), dom0),
            decreases succ_len - k,
        {
            proof {
                assert(succ0.take(k + 1).drop_last() =~= succ0.take(k as int));
                assert(succ0.take(k + 1).last() == succ0[k as int]);
            }
            let s = graph.nodes[node].successors[k];
            if graph.nodes[s].domain == graph.nodes[node].domain {
                children.push(graph.nodes[s].addr);
            }
            k += 1;
        }
        proof {
            assert(succ0.take(succ_len as int) =~= succ0);
        }
        let mut gn = graph.nodes.remove(node);
        let inner = gn.payload.take().unwrap();
        let addr = gn.addr;
        let index = node;
        graph.nodes.insert(node, gn);
        proof {
            assert(final(graph).nodes@ =~= old(graph).nodes@.update(
                node as int,
                (GraphNode { payload: None, ..old(graph).nodes@[node as int] }),
            ));
            assert forall|i: int, k2: int|
                0 <= i < final(graph).nodes@.len() && 0 <= k2
                    < final(graph).nodes@[i].successors@.len() implies (#[trigger] final(
                graph).nodes@[i].successors@[k2]) < final(graph).nodes@.len() by {
                assert(final(graph).nodes@[i].successors@ == old(graph).nodes@[i].successors@);
            }
        }
        NodeDescriptor { index, addr, inner, children }
    }

    /// Dispatches one message at this node. Per variant:
    /// - Ingress materializes the batch into this node's state slot and hands
    ///   batch, timestamp and transaction metadata back unchanged for the
    ///   caller to broadcast.
    /// - Internal runs the operator, materializes its output, and hands the
    ///   output back with the timestamp; transaction metadata stops here.
    /// - Egress sends the batch to every registered destination (addressed
    ///   from this node's global index, transaction metadata cleared) and
    ///   hands the batch back only when same-domain children still need it.
    /// - Reader merges the batch into its view, publishes it on the swap
    ///   signal, fans the batch out to its subscribers and drops the dead
    ///   ones; nothing is handed back.
    /// - TimestampEgress relays a carried timestamp onward, without data.
    /// Dispatch on Source or TimestampIngress is a malformed graph and is
    /// ruled out by precondition.
    pub fn process(&mut self, m: Message, state: &mut StateMap, swap: bool) -> (r: Option<
        (Records, Option<Timestamp>, Option<TokenCarrier>),
    >)
        requires
            !(old(self).inner is Source),
            !(old(self).inner is TimestampIngress),
            old(self).addr is Local,
            old(self).inner matches NodeType::Reader(rd) ==> rd.wf(),
        ensures
            final(self).index == old(self).index,
            final(self).addr == old(self).addr,
            final(self).children == old(self).children,
            old(self).inner is Ingress ==> ({
                &&& final(self).inner is Ingress
                &&& final(state)@ == map_apply_at(
                    old(state)@,
                    addr_index(old(self).addr),
                    batch_content(m.data@),
                )
                &&& r matches Some(out) && out.0 == m.data && out.1 == m.ts && out.2 == m.token
            }),
            old(self).inner matches NodeType::Internal(op) ==> ({
                &&& final(self).inner is Internal
                &&& r matches Some(out) && batch_content(out.0@) == op.output_content(
                    m.from,
                    batch_content(m.data@),
                    old(state)@,
                ) && out.1 == m.ts && out.2 is None
                &&& final(state)@ == map_apply_at(
                    old(state)@,
                    addr_index(old(self).addr),
                    op.output_content(m.from, batch_content(m.data@), old(state)@),
                )
            }),
            old(self).inner matches NodeType::Egress(e) ==> ({
                &&& final(state)@ == old(state)@
                &&& final(self).inner matches NodeType::Egress(e2) && (exists|kept: Seq<bool>|
                    kept.len() == e.txs@.len() && e2.txs@ == #[trigger] filter_kept(
                        e.txs@,
                        kept,
                    ))
                &&& old(self).children@.len() > 0 ==> (r matches Some(out) && out.0 == m.data
                    && out.1 == m.ts && out.2 is None)
                &&& old(self).children@.len() == 0 ==> r is None
            }),
            old(self).inner matches NodeType::Reader(rd) ==> ({
                &&& r is None
                &&& final(state)@ == old(state)@
                &&& final(self).inner matches NodeType::Reader(rd2) && ({
                    &&& rd2.wf()
                    &&& rd.state matches Some(v) ==> rd2.state matches Some(v2) && reader_step(
                        v,
                        v2,
                        batch_content(m.data@),
                        m.ts,
                        swap,
                    )
                    &&& rd.state is None ==> rd2.state is None
                    &&& exists|kept: Seq<bool>|
                        kept.len() == rd.streamers@.len() && rd2.streamers@ == #[trigger] filter_kept(
                            rd.streamers@,
                            kept,
                        )
                })
            }),
            old(self).inner matches NodeType::TimestampEgress(t) ==> ({
                &&& r is None
                &&& final(state)@ == old(state)@
                &&& final(self).inner matches NodeType::TimestampEgress(t2) && (m.ts is Some
                    ==> exists|kept: Seq<bool>|
                    kept.len() == t.txs@.len() && t2.txs@ == #[trigger] filter_kept(
                        t.txs@,
                        kept,
                    )) && (m.ts is None ==> t2.txs@ == t.txs@)
            }),
    {
        let addr = self.addr.as_local();
        match &mut self.inner {
            NodeType::Ingress => {
                state.materialize_at(addr, &m.data);
                Some((m.data, m.ts, m.token))
            },
            NodeType::Internal(op) => {
                let u = op.on_input(m.from, m.data, state);
                state.materialize_at(addr, &u);
                Some((u, m.ts, None))
            },
            NodeType::Egress(e) => {
                let keep_data = self.children.len() > 0;
                let (out, kept) = e.process(self.index, m.data, m.ts, keep_data);
                proof {
                    assert(final(self).inner matches NodeType::Egress(e2) && e2.txs@
                        == filter_kept(old(self).inner->Egress_0.txs@, kept@));
                }
                match out {
                    Some(d) => Some((d, m.ts, None)),
                    None => None,
                }
            },
            NodeType::Reader(rd) => {
                let kept = rd.process(m.data, m.ts, swap);
                proof {
                    assert(final(self).inner matches NodeType::Reader(rd2) && rd2.streamers@
                        == filter_kept(old(self).inner->Reader_0.streamers@, kept@));
                }
                None
            },
            NodeType::TimestampEgress(t) => {
                let kept = t.process(m.ts);
                proof {
                    if m.ts is Some {
                        assert(final(self).inner matches NodeType::TimestampEgress(t2) && t2.txs@
                            == filter_kept(old(self).inner->TimestampEgress_0.txs@, kept@));
                    }
                }
                None
            },
            NodeType::Source => {
                proof {
                    assert(false);
                }
                None
            },
            NodeType::TimestampIngress => {
                proof {
                    assert(false);
                }
                None
            },
        }
    }
}

} // verus!
