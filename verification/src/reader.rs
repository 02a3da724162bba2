//! Reader nodes: a double-buffered materialized view plus subscriber fan-out.
//!
//! Updates stream into a pending buffer; an externally controlled swap signal
//! publishes the pending buffer as the snapshot visible to readers. Readers
//! therefore only ever observe a view to which whole batches were applied.

use vstd::prelude::*;
use vstd::multiset::Multiset;
use crate::data::{Records, RecContent, apply_batch, batch_content, clone_records,
    lemma_apply_batch_append};
use crate::message::Timestamp;
use crate::state::State;
use crate::channel::{filter_kept, keep_where, send_records};

verus! {

/// A swappable materialized view: the published snapshot readers see, the
/// pending buffer updates land in, and the backlog of records that the
/// pending buffer is ahead by.
pub struct ReaderView {
    /// The stable snapshot visible to external readers.
    pub read_side: State,
    /// The buffer that incoming updates are applied to.
    pub write_side: State,
    /// The records applied to the write side since the last publication.
    pub backlog: Records,
    /// The timestamp visible alongside the snapshot.
    pub ts: Option<i64>,
}

impl ReaderView {
    /// The rows a reader observes now.
    pub open spec fn published(&self) -> Multiset<Seq<i64>> {
        self.read_side@
    }

    /// The rows the next publication will expose.
    pub open spec fn pending(&self) -> Multiset<Seq<i64>> {
        self.write_side@
    }

    /// The updates not yet published.
    pub open spec fn log(&self) -> Seq<RecContent> {
        batch_content(self.backlog@)
    }

    /// The pending buffer is exactly the published snapshot with the backlog
    /// applied.
    pub open spec fn wf(&self) -> bool {
        self.pending() == apply_batch(self.published(), self.log())
    }

    /// An empty view: nothing published, nothing pending.
    pub fn new() -> (v: ReaderView)
        ensures
            v.wf(),
            v.published() == Multiset::<Seq<i64>>::empty(),
            v.pending() == Multiset::<Seq<i64>>::empty(),
            v.log() == Seq::<RecContent>::empty(),
            v.ts is None,
    {
        let v = ReaderView { read_side: State::new(), write_side: State::new(), backlog: Vec::new(), ts: None };
        proof {
            assert(v.log() =~= Seq::<RecContent>::empty());
        }
        v
    }

    /// Applies a batch to the pending buffer; the published snapshot is
    /// untouched.
    pub fn add(&mut self, rs: &Records)
        ensures
            final(self).pending() == apply_batch(old(self).pending(), batch_content(rs@)),
            final(self).published() == old(self).published(),
            final(self).log() == old(self).log() + batch_content(rs@),
            final(self).ts == old(self).ts,
            old(self).wf() ==> final(self).wf(),
    {
        let mut copy = clone_records(rs);
        self.write_side.apply(rs);
        self.backlog.append(&mut copy);
        proof {
            assert(final(self).log() =~= old(self).log() + batch_content(rs@));
            if old(self).wf() {
                lemma_apply_batch_append(
                    old(self).published(),
                    old(self).log(),
                    batch_content(rs@),
                );
            }
        }
    }

    /// Records the visible timestamp.
    pub fn update_ts(&mut self, t: i64)
        ensures
            final(self).ts == Some(t),
            final(self).pending() == old(self).pending(),
            final(self).published() == old(self).published(),
            final(self).log() == old(self).log(),
            old(self).wf() ==> final(self).wf(),
    {
        self.ts = Some(t);
    }

    /// Publishes the pending updates: the snapshot catches up by the whole
    /// backlog in one step, and the buffers are level again.
    pub fn swap(&mut self)
        ensures
            final(self).published() == apply_batch(old(self).published(), old(self).log()),
            final(self).pending() == old(self).pending(),
            final(self).log() == Seq::<RecContent>::empty(),
            final(self).ts == old(self).ts,
            old(self).wf() ==> final(self).published() == old(self).pending(),
            old(self).wf() ==> final(self).wf(),
    {
        self.read_side.apply(&self.backlog);
        self.backlog = Vec::new();
        proof {
            assert(final(self).log() =~= Seq::<RecContent>::empty());
        }
    }
}

/// How one processed message changes a reader's view: the batch lands in the
/// pending buffer, a carried timestamp becomes visible, and the swap signal
/// decides whether the batch is published.
pub open spec fn reader_step(
    pre: ReaderView,
    post: ReaderView,
    c: Seq<RecContent>,
    ts: Option<Timestamp>,
    publish: bool,
) -> bool {
    &&& post.pending() == apply_batch(pre.pending(), c)
    &&& post.published() == (if publish {
        apply_batch(pre.pending(), c)
    } else {
        pre.published()
    })
    &&& post.log() == (if publish {
        Seq::<RecContent>::empty()
    } else {
        pre.log() + c
    })
    &&& post.ts == (match ts {
        Some(t) => Some(t.0),
        None => pre.ts,
    })
    &&& post.wf()
}

/// Law: the swap is atomic for readers. Without the swap signal a reader
/// observes nothing of the processed batch; with it, the reader observes the
/// batch applied whole, never a partially-applied one.
pub proof fn lemma_reader_swap_atomicity(
    pre: ReaderView,
    post: ReaderView,
    c: Seq<RecContent>,
    ts: Option<Timestamp>,
    publish: bool,
)
    requires
        pre.wf(),
        reader_step(pre, post, c, ts, publish),
    ensures
        !publish ==> post.published() == pre.published(),
        publish ==> post.published() == apply_batch(pre.pending(), c),
        post.wf(),
{
}

/// A reader node: the optional swappable view, and the subscriber channels the
/// batch is fanned out to.
pub struct ReaderNode {
    /// The materialized view, absent for readers that only stream.
    pub state: Option<ReaderView>,
    /// The live subscriber channels.
    pub streamers: Vec<std::sync::mpsc::Sender<Records>>,
}

impl ReaderNode {
    /// A held view is well formed.
    pub open spec fn wf(&self) -> bool {
        self.state matches Some(v) ==> v.wf()
    }

    /// Processes one message at a reader: merge the batch into the view,
    /// publish on the swap signal, then fan the batch out to every subscriber,
    /// the last one receiving the original allocation. Subscribers whose
    /// receiver is gone are dropped from the set; the returned flags say, per
    /// subscriber, whether its send was delivered, and the surviving set is
    /// exactly the delivered ones.
    pub fn process(&mut self, data: Records, ts: Option<Timestamp>, publish: bool) -> (kept: Vec<
        bool,
    >)
        requires
            old(self).wf(),
        ensures
            final(self).wf(),
            old(self).state matches Some(v) ==> (final(self).state matches Some(v2)
                && reader_step(v, v2, batch_content(data@), ts, publish)),
            old(self).state is None ==> final(self).state is None,
            kept@.len() == old(self).streamers@.len(),
            final(self).streamers@ == filter_kept(old(self).streamers@, kept@),
    {
        match &mut self.state {
            Some(v) => {
                v.add(&data);
                match ts {
                    Some(t) => v.update_ts(t.0),
                    None => {},
                }
                if publish {
                    v.swap();
                }
            },
            None => {},
        }
        let n = self.streamers.len();
        let mut kept: Vec<bool> = Vec::new();
        let mut i: usize = 0;
        while n - i > 1
            invariant
                n == self.streamers@.len(),
                i <= n,
                n > 0 ==> i + 1 <= n,
                n == 0 ==> i == 0,
                kept@.len() == i,
            decreases n - i,
        {
            let ok = send_records(&self.streamers[i], clone_records(&data));
            kept.push(ok);
            i += 1;
        }
        if n > 0 {
            let ok = send_records(&self.streamers[n - 1], data);
            kept.push(ok);
        }
        let mut txs: Vec<std::sync::mpsc::Sender<Records>> = Vec::new();
        core::mem::swap(&mut self.streamers, &mut txs);
        let pruned = keep_where(txs, &kept);
        self.streamers = pruned;
        kept
    }
}

} // verus!
