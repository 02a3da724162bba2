use dataflow::channel::keep_where;
use dataflow::data::Record;
use dataflow::domain::{broadcast, Handoffs, NodeDescriptor};
use dataflow::graph::{Graph, GraphNode};
use dataflow::message::{Message, NodeAddress, Token};
use dataflow::node::{EgressNode, Identity, NodeType, TimestampEgressNode};
use dataflow::reader::{ReaderNode, ReaderView};
use dataflow::state::{materialize, State, StateMap};
use std::sync::mpsc;

fn pos(row: Vec<i64>) -> Record {
    Record::Positive(row)
}

fn neg(row: Vec<i64>) -> Record {
    Record::Negative(row)
}

fn ingress_descriptor(addr: usize) -> NodeDescriptor<Identity> {
    NodeDescriptor { index: addr, addr: NodeAddress::Local(addr), inner: NodeType::Ingress, children: Vec::new() }
}

#[test]
fn materialize_insert_then_remove_restores() {
    let mut state = Some(State { rows: vec![vec![9, 9]] });
    let batch = vec![pos(vec![1, 2]), neg(vec![1, 2])];
    materialize(&batch, &mut state);
    assert_eq!(state.unwrap().rows, vec![vec![9, 9]]);
}

#[test]
fn materialize_replay_of_distinct_batches_matches_union() {
    let mut once = Some(State { rows: Vec::new() });
    materialize(&vec![pos(vec![1]), pos(vec![2])], &mut once);
    let mut split = Some(State { rows: Vec::new() });
    materialize(&vec![pos(vec![1])], &mut split);
    materialize(&vec![pos(vec![2])], &mut split);
    assert_eq!(once.unwrap().rows, split.unwrap().rows);
}

#[test]
fn materialize_without_state_is_noop() {
    let mut state: Option<State> = None;
    materialize(&vec![pos(vec![1])], &mut state);
    assert!(state.is_none());
}

#[test]
fn remove_missing_row_is_noop() {
    let mut s = State { rows: vec![vec![1]] };
    s.remove(&vec![2]);
    assert_eq!(s.rows, vec![vec![1]]);
}

#[test]
fn remove_takes_one_occurrence() {
    let mut s = State { rows: vec![vec![5], vec![5]] };
    s.remove(&vec![5]);
    assert_eq!(s.rows.len(), 1);
    assert_eq!(s.rows[0], vec![5]);
}

#[test]
fn ingress_materializes_and_forwards_metadata() {
    let mut d = ingress_descriptor(0);
    let mut state = StateMap::new();
    state.push_slot(true);
    let m = Message {
        from: NodeAddress::Global(3),
        to: NodeAddress::Local(0),
        data: vec![pos(vec![1, 10]), pos(vec![2, 20])],
        ts: Some((5, 7)),
        token: None,
    };
    let r = d.process(m, &mut state, false).unwrap();
    assert_eq!(r.0, vec![pos(vec![1, 10]), pos(vec![2, 20])]);
    assert_eq!(r.1, Some((5, 7)));
    assert!(r.2.is_none());
    let slot = state.slots[0].as_ref().unwrap();
    assert_eq!(slot.rows, vec![vec![1, 10], vec![2, 20]]);
}

#[test]
fn ingress_carries_transaction_token() {
    let mut d = ingress_descriptor(0);
    let mut state = StateMap::new();
    state.push_slot(false);
    let (tx, _rx) = mpsc::channel();
    let m = Message {
        from: NodeAddress::Global(1),
        to: NodeAddress::Local(0),
        data: vec![pos(vec![4])],
        ts: None,
        token: Some((Token { id: 11 }, tx)),
    };
    let r = d.process(m, &mut state, false).unwrap();
    let carrier = r.2.unwrap();
    assert_eq!(carrier.0, Token { id: 11 });
}

#[test]
fn internal_runs_operator_and_drops_token() {
    let mut d: NodeDescriptor<Identity> = NodeDescriptor {
        index: 2,
        addr: NodeAddress::Local(1),
        inner: NodeType::Internal(Identity),
        children: Vec::new(),
    };
    let mut state = StateMap::new();
    state.push_slot(false);
    state.push_slot(true);
    let (tx, _rx) = mpsc::channel();
    let m = Message {
        from: NodeAddress::Global(0),
        to: NodeAddress::Local(1),
        data: vec![pos(vec![8])],
        ts: Some((2, 0)),
        token: Some((Token { id: 5 }, tx)),
    };
    let r = d.process(m, &mut state, false).unwrap();
    assert_eq!(r.0, vec![pos(vec![8])]);
    assert_eq!(r.1, Some((2, 0)));
    assert!(r.2.is_none());
    assert_eq!(state.slots[1].as_ref().unwrap().rows, vec![vec![8]]);
}

#[test]
fn egress_fans_out_with_own_global_address() {
    let (tx1, rx1) = mpsc::channel();
    let (tx2, rx2) = mpsc::channel();
    let d1 = NodeAddress::Global(21);
    let d2 = NodeAddress::Global(22);
    let mut d: NodeDescriptor<Identity> = NodeDescriptor {
        index: 4,
        addr: NodeAddress::Local(0),
        inner: NodeType::Egress(EgressNode { txs: vec![(d1, tx1), (d2, tx2)] }),
        children: Vec::new(),
    };
    let mut state = StateMap::new();
    state.push_slot(false);
    let m = Message {
        from: NodeAddress::Global(0),
        to: NodeAddress::Local(0),
        data: vec![pos(vec![3])],
        ts: Some((9, 1)),
        token: None,
    };
    let r = d.process(m, &mut state, false);
    assert!(r.is_none());
    let m1 = rx1.try_recv().unwrap();
    assert_eq!(m1.from, NodeAddress::Global(4));
    assert_eq!(m1.to, d1);
    assert_eq!(m1.data, vec![pos(vec![3])]);
    assert_eq!(m1.ts, Some((9, 1)));
    assert!(m1.token.is_none());
    let m2 = rx2.try_recv().unwrap();
    assert_eq!(m2.from, NodeAddress::Global(4));
    assert_eq!(m2.to, d2);
    assert_eq!(m2.data, vec![pos(vec![3])]);
}

#[test]
fn egress_returns_batch_for_same_domain_children() {
    let (tx1, rx1) = mpsc::channel();
    let mut d: NodeDescriptor<Identity> = NodeDescriptor {
        index: 6,
        addr: NodeAddress::Local(0),
        inner: NodeType::Egress(EgressNode { txs: vec![(NodeAddress::Global(9), tx1)] }),
        children: vec![NodeAddress::Local(1)],
    };
    let mut state = StateMap::new();
    state.push_slot(false);
    let m = Message {
        from: NodeAddress::Global(0),
        to: NodeAddress::Local(0),
        data: vec![pos(vec![7])],
        ts: None,
        token: None,
    };
    let r = d.process(m, &mut state, false).unwrap();
    assert_eq!(r.0, vec![pos(vec![7])]);
    assert!(r.2.is_none());
    assert_eq!(rx1.try_recv().unwrap().data, vec![pos(vec![7])]);
}

#[test]
fn egress_drops_disconnected_destination() {
    let (tx1, rx1) = mpsc::channel();
    let (tx2, rx2) = mpsc::channel();
    drop(rx1);
    let mut d: NodeDescriptor<Identity> = NodeDescriptor {
        index: 0,
        addr: NodeAddress::Local(0),
        inner: NodeType::Egress(EgressNode {
            txs: vec![(NodeAddress::Global(1), tx1), (NodeAddress::Global(2), tx2)],
        }),
        children: Vec::new(),
    };
    let mut state = StateMap::new();
    state.push_slot(false);
    let m = Message {
        from: NodeAddress::Global(0),
        to: NodeAddress::Local(0),
        data: vec![pos(vec![1])],
        ts: None,
        token: None,
    };
    let r = d.process(m, &mut state, false);
    assert!(r.is_none());
    match &d.inner {
        NodeType::Egress(e) => {
            assert_eq!(e.txs.len(), 1);
            assert_eq!(e.txs[0].0, NodeAddress::Global(2));
        },
        _ => panic!(),
    }
    assert_eq!(rx2.try_recv().unwrap().data, vec![pos(vec![1])]);
}

#[test]
fn reader_publishes_on_swap_and_prunes_subscribers() {
    let (tx1, rx1) = mpsc::channel();
    let (tx2, rx2) = mpsc::channel();
    let (tx3, rx3) = mpsc::channel();
    drop(rx2);
    let mut d: NodeDescriptor<Identity> = NodeDescriptor {
        index: 3,
        addr: NodeAddress::Local(2),
        inner: NodeType::Reader(ReaderNode {
            state: Some(ReaderView::new()),
            streamers: vec![tx1, tx2, tx3],
        }),
        children: Vec::new(),
    };
    let mut state = StateMap::new();
    let m = Message {
        from: NodeAddress::Global(0),
        to: NodeAddress::Local(2),
        data: vec![pos(vec![6, 60])],
        ts: None,
        token: None,
    };
    let r = d.process(m, &mut state, true);
    assert!(r.is_none());
    match &d.inner {
        NodeType::Reader(rd) => {
            assert_eq!(rd.streamers.len(), 2);
            let view = rd.state.as_ref().unwrap();
            assert_eq!(view.read_side.rows, vec![vec![6, 60]]);
            assert!(view.backlog.is_empty());
        },
        _ => panic!(),
    }
    assert_eq!(rx1.try_recv().unwrap(), vec![pos(vec![6, 60])]);
    assert_eq!(rx3.try_recv().unwrap(), vec![pos(vec![6, 60])]);
}

#[test]
fn reader_without_swap_keeps_snapshot_stale() {
    let mut rd = ReaderNode { state: Some(ReaderView::new()), streamers: Vec::new() };
    rd.process(vec![pos(vec![1])], None, false);
    {
        let view = rd.state.as_ref().unwrap();
        assert!(view.read_side.rows.is_empty());
        assert_eq!(view.write_side.rows, vec![vec![1]]);
    }
    rd.process(vec![pos(vec![2])], Some((4, 0)), true);
    let view = rd.state.as_ref().unwrap();
    assert_eq!(view.read_side.rows, vec![vec![1], vec![2]]);
    assert_eq!(view.write_side.rows, vec![vec![1], vec![2]]);
    assert_eq!(view.ts, Some(4));
}

#[test]
fn timestamp_egress_relays_sequence_only() {
    let (tx, rx) = mpsc::channel();
    let mut d: NodeDescriptor<Identity> = NodeDescriptor {
        index: 1,
        addr: NodeAddress::Local(0),
        inner: NodeType::TimestampEgress(TimestampEgressNode { txs: vec![tx] }),
        children: Vec::new(),
    };
    let mut state = StateMap::new();
    let m = Message {
        from: NodeAddress::Global(0),
        to: NodeAddress::Local(0),
        data: Vec::new(),
        ts: Some((42, 3)),
        token: None,
    };
    let r = d.process(m, &mut state, false);
    assert!(r.is_none());
    assert_eq!(rx.try_recv().unwrap(), 42);
}

#[test]
fn timestamp_egress_without_timestamp_sends_nothing() {
    let (tx, rx) = mpsc::channel();
    let mut node = TimestampEgressNode { txs: vec![tx] };
    node.process(None);
    assert!(rx.try_recv().is_err());
    assert_eq!(node.txs.len(), 1);
}

#[test]
fn broadcast_delivers_content_equal_batches() {
    let mut handoffs = Handoffs { queues: vec![Vec::new(), Vec::new(), Vec::new()] };
    let m = Message {
        from: NodeAddress::Global(0),
        to: NodeAddress::Local(9),
        data: vec![pos(vec![1]), neg(vec![2])],
        ts: Some((1, 0)),
        token: None,
    };
    let children = vec![NodeAddress::Local(0), NodeAddress::Local(2)];
    broadcast(NodeAddress::Local(5), &mut handoffs, m, &children);
    assert_eq!(handoffs.queues[0].len(), 1);
    assert!(handoffs.queues[1].is_empty());
    assert_eq!(handoffs.queues[2].len(), 1);
    for q in [&handoffs.queues[0], &handoffs.queues[2]] {
        assert_eq!(q[0].from, NodeAddress::Local(5));
        assert_eq!(q[0].to, NodeAddress::Local(9));
        assert_eq!(q[0].data, vec![pos(vec![1]), neg(vec![2])]);
        assert_eq!(q[0].ts, Some((1, 0)));
        assert!(q[0].token.is_none());
    }
}

#[test]
fn broadcast_to_no_children_changes_nothing() {
    let mut handoffs = Handoffs { queues: vec![Vec::new()] };
    let m = Message {
        from: NodeAddress::Global(0),
        to: NodeAddress::Local(0),
        data: vec![pos(vec![1])],
        ts: None,
        token: None,
    };
    broadcast(NodeAddress::Local(0), &mut handoffs, m, &Vec::new());
    assert!(handoffs.queues[0].is_empty());
}

#[test]
fn keep_where_filters_by_flags() {
    let kept = keep_where(vec![10, 20, 30], &vec![true, false, true]);
    assert_eq!(kept, vec![10, 30]);
}

#[test]
fn descriptor_takes_payload_and_same_domain_children() {
    let mut graph: Graph<Identity> = Graph {
        nodes: vec![
            GraphNode {
                domain: 0,
                addr: NodeAddress::Local(0),
                payload: Some(NodeType::Ingress),
                successors: vec![1, 2],
            },
            GraphNode {
                domain: 0,
                addr: NodeAddress::Local(1),
                payload: Some(NodeType::Internal(Identity)),
                successors: Vec::new(),
            },
            GraphNode {
                domain: 1,
                addr: NodeAddress::Local(0),
                payload: Some(NodeType::Ingress),
                successors: Vec::new(),
            },
        ],
    };
    let d = NodeDescriptor::new(&mut graph, 0);
    assert_eq!(d.index, 0);
    assert_eq!(d.addr, NodeAddress::Local(0));
    assert!(matches!(d.inner, NodeType::Ingress));
    assert_eq!(d.children, vec![NodeAddress::Local(1)]);
    assert!(graph.nodes[0].payload.is_none());
    assert!(graph.nodes[1].payload.is_some());
}
