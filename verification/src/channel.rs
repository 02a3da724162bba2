//! The outbound channel primitive, and pruning of dead subscribers.
//!
//! Egress, Reader and TimestampEgress fan out over `std::sync::mpsc` channels
//! whose remote ends live on other threads or domains. A send either delivers
//! or reports the receiver as gone; nothing else is observable from this side,
//! so the wrappers promise nothing of the outcome, and the pruning that
//! depends on it is a verified function of the outcomes alone.

use vstd::prelude::*;
use crate::data::Records;
use crate::message::{Message, TransactionResult};

verus! {

#[verifier::external_type_specification]
#[verifier::external_body]
#[verifier::reject_recursive_types(T)]
pub struct ExSender<T>(std::sync::mpsc::Sender<T>);

/// Relies on std::sync::mpsc::Sender::send: it delivers the message in order
/// unless the receiver has been dropped, and fails fast in that case.
#[verifier::external_body]
pub(crate) fn send_message(tx: &std::sync::mpsc::Sender<Message>, m: Message) -> (ok: bool) {
    tx.send(m).is_ok()
}

/// Relies on std::sync::mpsc::Sender::send: it delivers the batch in order
/// unless the receiver has been dropped, and fails fast in that case.
#[verifier::external_body]
pub(crate) fn send_records(tx: &std::sync::mpsc::Sender<Records>, rs: Records) -> (ok: bool) {
    tx.send(rs).is_ok()
}

/// Relies on std::sync::mpsc::Sender::send: it delivers the timestamp in order
/// unless the receiver has been dropped, and fails fast in that case.
#[verifier::external_body]
pub(crate) fn send_sequence(tx: &std::sync::mpsc::Sender<i64>, seq_no: i64) -> (ok: bool) {
    tx.send(seq_no).is_ok()
}

/// Relies on std::sync::mpsc::Sender::clone: the copy is another handle on the
/// same channel.
#[verifier::external_body]
pub(crate) fn dup_result_sender(
    tx: &std::sync::mpsc::Sender<TransactionResult>,
) -> std::sync::mpsc::Sender<TransactionResult> {
    tx.clone()
}

/// The elements of `s` whose flag in `keep` is true, in order.
pub open spec fn filter_kept<T>(s: Seq<T>, keep: Seq<bool>) -> Seq<T>
    decreases s.len(),
{
    if s.len() == 0 {
        Seq::empty()
    } else if keep.len() == s.len() && keep.last() {
        filter_kept(s.drop_last(), keep.drop_last()).push(s.last())
    } else {
        filter_kept(s.drop_last(), keep.drop_last())
    }
}

/// Keeps exactly the elements whose flag is true, preserving their order:
/// given the outcome of each send, this is all that pruning a subscriber set
/// may do.
pub fn keep_where<T>(v: Vec<T>, keep: &Vec<bool>) -> (res: Vec<T>)
    requires
        v@.len() == keep@.len(),
    ensures
        res@ == filter_kept(v@, keep@),
{
    let ghost orig = v@;
    let mut v = v;
    let mut out: Vec<T> = Vec::new();
    let mut i: usize = 0;
    let n = v.len();
    while i < n
        invariant
            i <= n,
            n == orig.len(),
            orig.len() == keep@.len(),
            v@ == orig.skip(i as int),
            out@ == filter_kept(orig.take(i as int), keep@.take(i as int)),
        decreases n - i,
    {
        proof {
            assert(orig.skip(i as int)[0] == orig[i as int]);
            assert(orig.skip(i as int).remove(0) =~= orig.skip(i + 1));
            assert(orig.take(i + 1).drop_last() =~= orig.take(i as int));
            assert(keep@.take(i + 1).drop_last() =~= keep@.take(i as int));
            assert(orig.take(i + 1).last() == orig[i as int]);
            assert(keep@.take(i + 1).last() == keep@[i as int]);
        }
        let x = v.remove(0);
        if keep[i] {
            out.push(x);
        }
        i += 1;
    }
    proof {
        assert(orig.take(n as int) =~= orig);
        assert(keep@.take(n as int) =~= keep@);
    }
    out
}

} // verus!
