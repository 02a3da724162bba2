//! The message envelope: addresses, timestamp and transaction metadata, and
//! the record batch they ride with.

use vstd::prelude::*;
use crate::data::{Records, RecContent, batch_content, clone_records};
use crate::channel::dup_result_sender;

verus! {

/// Identifies a node, either by its index local to one domain or by its
/// graph-global index.
#[derive(Clone, Copy, PartialEq, Eq, Structural, Debug)]
pub enum NodeAddress {
    Local(usize),
    Global(usize),
}

impl NodeAddress {
    /// The local index; dispatch only ever runs on locally addressed nodes.
    pub fn as_local(&self) -> (i: usize)
        requires
            *self is Local,
        ensures
            *self == NodeAddress::Local(i),
    {
        match self {
            NodeAddress::Local(i) => *i,
            NodeAddress::Global(_) => {
                proof {
                    assert(false);
                }
                0
            },
        }
    }
}

/// An opaque handle for a pending multi-node transactional write, issued and
/// interpreted by the external coordinator; this core only carries it.
#[derive(Clone, Copy, PartialEq, Eq, Structural, Debug)]
pub struct Token {
    pub id: u64,
}

/// The coordinator's verdict on a transactional write, reported over the
/// result channel that rides in the message.
#[derive(Clone, Copy, PartialEq, Eq, Structural, Debug)]
pub enum TransactionResult {
    Committed,
    Aborted,
}

/// A timestamp: a sequence number and the graph index of its origin node.
pub type Timestamp = (i64, usize);

/// The transaction metadata a message may carry: the token and the one-shot
/// channel on which the coordinator reports the outcome.
pub type TokenCarrier = (Token, std::sync::mpsc::Sender<TransactionResult>);

/// The unit of transport between nodes.
pub struct Message {
    pub from: NodeAddress,
    pub to: NodeAddress,
    pub data: Records,
    pub ts: Option<Timestamp>,
    pub token: Option<TokenCarrier>,
}

/// A message's content: everything but allocation identity and the opaque
/// result channel, of which only presence is observable.
pub type MsgContent = (NodeAddress, NodeAddress, Seq<RecContent>, Option<Timestamp>, bool);

impl Message {
    pub open spec fn content(&self) -> MsgContent {
        (self.from, self.to, batch_content(self.data@), self.ts, self.token is Some)
    }
}

/// A copy of a message with the same content; the copy's token shares the
/// original's result channel.
pub fn clone_message(m: &Message) -> (res: Message)
    ensures
        res.content() == m.content(),
{
    let token: Option<TokenCarrier> = match &m.token {
        Some(pair) => Some((pair.0, dup_result_sender(&pair.1))),
        None => None,
    };
    Message {
        from: m.from,
        to: m.to,
        data: clone_records(&m.data),
        ts: m.ts,
        token,
    }
}

} // verus!
