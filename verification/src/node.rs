//! The node variants a descriptor can wrap, and their variant-specific logic.

use vstd::prelude::*;
use vstd::multiset::Multiset;
use crate::data::{Records, RecContent, batch_content, clone_records};
use crate::message::{Message, NodeAddress, Timestamp};
use crate::state::StateMap;
use crate::reader::ReaderNode;
use crate::channel::{filter_kept, keep_where, send_message, send_sequence};

verus! {

/// The operator capability of an Internal node: supplied by query-plan
/// compilation, opaque to this core. An implementation declares what it emits
/// as a function of the source address, the input batch and the sibling state
/// table, and its processing entry point is held to that declaration.
pub trait Operator: Sized {
    /// The content of the records the operator emits for one input batch.
    spec fn output_content(
        &self,
        from: NodeAddress,
        input: Seq<RecContent>,
        state: Seq<Option<Multiset<Seq<i64>>>>,
    ) -> Seq<RecContent>;

    /// Processes one input batch, with read access to the domain's
    /// materialized state for operators that consult a sibling's output.
    fn on_input(&mut self, from: NodeAddress, data: Records, state: &StateMap) -> (u: Records)
        ensures
            batch_content(u@) == old(self).output_content(from, batch_content(data@), state@),
    ;
}

/// The operator that passes every batch through unchanged; the simplest
/// operator an Internal node can wrap.
pub struct Identity;

impl Operator for Identity {
    open spec fn output_content(
        &self,
        from: NodeAddress,
        input: Seq<RecContent>,
        state: Seq<Option<Multiset<Seq<i64>>>>,
    ) -> Seq<RecContent> {
        input
    }

    fn on_input(&mut self, from: NodeAddress, data: Records, state: &StateMap) -> (u: Records) {
        data
    }
}

/// An egress node: the registered (destination, channel) pairs leading to
/// other domains.
pub struct EgressNode {
    pub txs: Vec<(NodeAddress, std::sync::mpsc::Sender<Message>)>,
}

/// The fully addressed message an egress node sends to one destination:
/// stamped with the egress node's own global address, cleared of transaction
/// metadata.
pub fn egress_message(index: usize, dst: NodeAddress, data: Records, ts: Option<Timestamp>) -> (m:
    Message)
    ensures
        m.content() == ((NodeAddress::Global(index), dst, batch_content(data@), ts, false)),
        m.data == data,
{
    Message { from: NodeAddress::Global(index), to: dst, data, ts, token: None }
}

impl EgressNode {
    /// Sends the batch to every registered destination, addressed from this
    /// node's global index; the last destination receives the original
    /// allocation unless the batch must be preserved for same-domain
    /// children, in which case it is returned. Destinations whose receiver is
    /// gone are dropped; the returned flags say, per destination, whether its
    /// send was delivered.
    pub fn process(&mut self, index: usize, data: Records, ts: Option<Timestamp>, keep_data: bool)
        -> (r: (Option<Records>, Vec<bool>))
        ensures
            r.1@.len() == old(self).txs@.len(),
            final(self).txs@ == filter_kept(old(self).txs@, r.1@),
            keep_data ==> r.0 == Some(data),
            !keep_data ==> r.0 is None,
    {
        let n = self.txs.len();
        let mut kept: Vec<bool> = Vec::new();
        let mut i: usize = 0;
        while n - i > 1
            invariant
                n == self.txs@.len(),
                i <= n,
                n > 0 ==> i + 1 <= n,
                n == 0 ==> i == 0,
                kept@.len() == i,
            decreases n - i,
        {
            let dst = self.txs[i].0;
            let m = egress_message(index, dst, clone_records(&data), ts);
            let ok = send_message(&self.txs[i].1, m);
            kept.push(ok);
            i += 1;
        }
        if n > 0 {
            let dst = self.txs[n - 1].0;
            if keep_data {
                let m = egress_message(index, dst, clone_records(&data), ts);
                let ok = send_message(&self.txs[n - 1].1, m);
                kept.push(ok);
            } else {
                let m = egress_message(index, dst, data, ts);
                let ok = send_message(&self.txs[n - 1].1, m);
                kept.push(ok);
                let mut txs: Vec<(NodeAddress, std::sync::mpsc::Sender<Message>)> = Vec::new();
                core::mem::swap(&mut self.txs, &mut txs);
                let pruned = keep_where(txs, &kept);
                self.txs = pruned;
                return (None, kept);
            }
        }
        let mut txs: Vec<(NodeAddress, std::sync::mpsc::Sender<Message>)> = Vec::new();
        core::mem::swap(&mut self.txs, &mut txs);
        let pruned = keep_where(txs, &kept);
        self.txs = pruned;
        if keep_data {
            (Some(data), kept)
        } else {
            (None, kept)
        }
    }
}

/// A timestamp egress node: channels over which bare sequence numbers are
/// relayed to domains that track progress without receiving the rows.
pub struct TimestampEgressNode {
    pub txs: Vec<std::sync::mpsc::Sender<i64>>,
}

impl TimestampEgressNode {
    /// Relays a carried timestamp's sequence number (no data) to every
    /// registered channel; without a timestamp nothing is sent and nothing
    /// changes. Channels whose receiver is gone are dropped.
    pub fn process(&mut self, ts: Option<Timestamp>) -> (kept: Vec<bool>)
        ensures
            ts is Some ==> kept@.len() == old(self).txs@.len() && final(self).txs@ == filter_kept(
                old(self).txs@,
                kept@,
            ),
            ts is None ==> final(self).txs@ == old(self).txs@ && kept@.len() == 0,
    {
        let mut kept: Vec<bool> = Vec::new();
        match ts {
            Some(t) => {
                let n = self.txs.len();
                let mut i: usize = 0;
                while i < n
                    invariant
                        n == self.txs@.len(),
                        i <= n,
                        kept@.len() == i,
                    decreases n - i,
                {
                    let ok = send_sequence(&self.txs[i], t.0);
                    kept.push(ok);
                    i += 1;
                }
                let mut txs: Vec<std::sync::mpsc::Sender<i64>> = Vec::new();
                core::mem::swap(&mut self.txs, &mut txs);
                let pruned = keep_where(txs, &kept);
                self.txs = pruned;
                kept
            },
            None => kept,
        }
    }
}

/// The closed set of node variants; dispatch matches exhaustively on it.
pub enum NodeType<O> {
    /// Root sentinel; never dispatched.
    Source,
    /// Entry point from another domain; passes data through unchanged.
    Ingress,
    /// Exit point to other domains.
    Egress(EgressNode),
    /// Wraps an opaque operator instance.
    Internal(O),
    /// Terminal node exposing data to external readers.
    Reader(ReaderNode),
    /// Relays timestamps, without data, across domains.
    TimestampEgress(TimestampEgressNode),
    /// Timestamps are injected at the domain boundary; never dispatched.
    TimestampIngress,
}

} // verus!
