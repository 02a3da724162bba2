//! Differential records: the unit of change flowing through the graph.
//!
//! A record is a row tagged positive (insertion) or negative (deletion); an
//! ordered batch of records is the payload of every message. The meaning of a
//! batch is given by `apply_batch`, which folds it over a bag of rows: this one
//! spec function is the reference for materialized state and reader views
//! alike.

use vstd::prelude::*;
use vstd::multiset::Multiset;

verus! {

/// A row of column values.
pub type Row = Vec<i64>;

/// One differential update: a row inserted (positive) or deleted (negative).
#[derive(Debug, PartialEq, Eq)]
pub enum Record {
    Positive(Row),
    Negative(Row),
}

/// An ordered batch of records.
pub type Records = Vec<Record>;

/// The content of a record: its sign (true for positive) and its row.
pub type RecContent = (bool, Seq<i64>);

impl Record {
    /// The record's content, free of allocation identity.
    pub open spec fn content(&self) -> RecContent {
        match self {
            Record::Positive(r) => (true, r@),
            Record::Negative(r) => (false, r@),
        }
    }

}

/// The contents of a batch, in order.
pub open spec fn batch_content(rs: Seq<Record>) -> Seq<RecContent> {
    rs.map_values(|r: Record| r.content())
}

/// The effect of one record on a bag of rows: a positive record inserts its
/// row; a negative one removes one occurrence, and is a no-op if the row is
/// absent (absence is an upstream bug, not checked here).
pub open spec fn apply_record(m: Multiset<Seq<i64>>, r: RecContent) -> Multiset<Seq<i64>> {
    if r.0 {
        m.insert(r.1)
    } else if m.contains(r.1) {
        m.remove(r.1)
    } else {
        m
    }
}

/// The effect of a whole batch, applied in order.
pub open spec fn apply_batch(m: Multiset<Seq<i64>>, rs: Seq<RecContent>) -> Multiset<Seq<i64>>
    decreases rs.len(),
{
    if rs.len() == 0 {
        m
    } else {
        apply_record(apply_batch(m, rs.drop_last()), rs.last())
    }
}

/// Applying a concatenation of batches is applying them one after the other.
pub proof fn lemma_apply_batch_append(m: Multiset<Seq<i64>>, a: Seq<RecContent>, b: Seq<RecContent>)
    ensures
        apply_batch(m, a + b) == apply_batch(apply_batch(m, a), b),
    decreases b.len(),
{
    if b.len() == 0 {
        assert(a + b =~= a);
    } else {
        assert((a + b).drop_last() =~= a + b.drop_last());
        lemma_apply_batch_append(m, a, b.drop_last());
    }
}

/// Law: a batch that inserts a row and then deletes the same row restores the
/// state it was applied to, whatever that state held before. This is why
/// replaying a net-cancelling pair over materialized state leaves no trace.
pub proof fn lemma_insert_then_remove_restores(m: Multiset<Seq<i64>>, row: Seq<i64>)
    ensures
        apply_batch(m, seq![(true, row), (false, row)]) == m,
{
    let pair = seq![(true, row), (false, row)];
    assert(pair.drop_last() =~= seq![(true, row)]);
    assert(seq![(true, row)].drop_last() =~= Seq::<RecContent>::empty());
    assert(seq![(true, row)].last() == (true, row));
    assert(pair.last() == (false, row));
    assert(apply_batch(m, Seq::<RecContent>::empty()) == m);
    assert(apply_batch(m, seq![(true, row)]) == m.insert(row));
    assert(m.insert(row).contains(row));
    assert(m.insert(row).remove(row) =~= m);
}

/// A copy of a row with the same contents.
pub fn clone_row(r: &Row) -> (res: Row)
    ensures
        res@ == r@,
{
    let res = r.clone();
    proof {
        assert(res@ =~= r@);
    }
    res
}

impl Clone for Record {
    /// A copy of a record with the same content.
    fn clone(&self) -> (res: Self)
        ensures
            res.content() == self.content(),
    {
        match self {
            Record::Positive(r) => Record::Positive(clone_row(r)),
            Record::Negative(r) => Record::Negative(clone_row(r)),
        }
    }
}

/// A copy of a batch with the same contents in the same order.
pub fn clone_records(rs: &Records) -> (res: Records)
    ensures
        batch_content(res@) == batch_content(rs@),
{
    let res = rs.clone();
    proof {
        assert forall|i: int| 0 <= i < rs@.len() implies res@[i].content() == rs@[i].content() by {
            assert(cloned::<Record>(rs@[i], res@[i]));
        }
        assert(batch_content(res@) =~= batch_content(rs@));
    }
    res
}

} // verus!
