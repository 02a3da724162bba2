//! Materialized state: a per-node bag of rows mirroring the node's output.
//!
//! All mutation flows through `materialize`, the single choke point that keeps
//! a node's stored rows in step with the logical output described by
//! `apply_batch`.

use vstd::prelude::*;
use vstd::multiset::Multiset;
use crate::data::{Row, Record, Records, RecContent, apply_batch, batch_content, clone_row};

verus! {

broadcast use vstd::seq_lib::group_to_multiset_ensures;

/// The rows of a node's materialized output, as values.
pub open spec fn rows_content(s: Seq<Row>) -> Seq<Seq<i64>> {
    s.map_values(|r: Row| r@)
}

/// One node's materialized store. Rows are kept by content: inserting adds an
/// occurrence, removing deletes one.
pub struct State {
    pub rows: Vec<Row>,
}

impl View for State {
    type V = Multiset<Seq<i64>>;

    open spec fn view(&self) -> Multiset<Seq<i64>> {
        rows_content(self.rows@).to_multiset()
    }
}

/// Whether two rows hold the same column values.
pub fn rows_equal(a: &Row, b: &Row) -> (r: bool)
    ensures
        r == (a@ == b@),
{
    if a.len() != b.len() {
        proof {
            assert(a@ != b@);
        }
        return false;
    }
    let mut i: usize = 0;
    while i < a.len()
        invariant
            i <= a.len(),
            a.len() == b.len(),
            forall|j: int| 0 <= j < i ==> a@[j] == b@[j],
        decreases a.len() - i,
    {
        if a[i] != b[i] {
            return false;
        }
        i += 1;
    }
    proof {
        assert(a@ =~= b@);
    }
    true
}

impl State {
    /// An empty store.
    pub fn new() -> (s: State)
        ensures
            s@ == Multiset::<Seq<i64>>::empty(),
    {
        let s = State { rows: Vec::new() };
        proof {
            assert(rows_content(s.rows@) =~= Seq::<Seq<i64>>::empty());
            assert(Seq::<Seq<i64>>::empty().to_multiset() =~= Multiset::<Seq<i64>>::empty());
        }
        s
    }

    /// Adds one occurrence of a row.
    pub fn insert(&mut self, r: Row)
        ensures
            final(self)@ == old(self)@.insert(r@),
    {
        let ghost before = self.rows@;
        self.rows.push(r);
        proof {
            assert(rows_content(self.rows@) =~= rows_content(before).push(r@));
        }
    }

    /// Removes one occurrence of a row, by content; a no-op if the row is
    /// absent (a missing negative is an upstream bug, not checked here).
    pub fn remove(&mut self, r: &Row)
        ensures
            final(self)@ == if old(self)@.contains(r@) {
                old(self)@.remove(r@)
            } else {
                old(self)@
            },
    {
        let ghost before = self.rows@;
        let mut i: usize = 0;
        while i < self.rows.len()
            invariant
                i <= self.rows.len(),
                self.rows@ == before,
                before == old(self).rows@,
                forall|j: int| 0 <= j < i ==> rows_content(before)[j] != r@,
            decreases self.rows.len() - i,
        {
            if rows_equal(&self.rows[i], r) {
                self.rows.remove(i);
                proof {
                    assert(rows_content(before)[i as int] == r@);
                    assert(rows_content(before).contains(r@));
                    assert(rows_content(before).to_multiset().count(r@) > 0);
                    assert(old(self).rows@ == before);
                    assert(old(self)@ == rows_content(before).to_multiset());
                    assert(old(self)@.contains(r@));
                    assert(rows_content(self.rows@) =~= rows_content(before).remove(i as int));
                    assert(rows_content(before).remove(i as int).to_multiset()
                        == rows_content(before).to_multiset().remove(rows_content(before)[i as int]));
                }
                return;
            }
            i += 1;
        }
        proof {
            assert forall|j: int| 0 <= j < rows_content(before).len() implies rows_content(
                before,
            )[j] != r@ by {}
            assert(!rows_content(before).contains(r@));
            assert(!old(self)@.contains(r@));
        }
    }

    /// Applies a whole batch in order: positive rows are inserted, negative
    /// ones removed.
    pub fn apply(&mut self, rs: &Records)
        ensures
            final(self)@ == apply_batch(old(self)@, batch_content(rs@)),
    {
        let ghost c = batch_content(rs@);
        let mut i: usize = 0;
        while i < rs.len()
            invariant
                i <= rs.len(),
                c == batch_content(rs@),
                self@ == apply_batch(old(self)@, c.take(i as int)),
            decreases rs.len() - i,
        {
            proof {
                assert(c.take(i + 1).drop_last() =~= c.take(i as int));
                assert(c.take(i + 1).last() == c[i as int]);
            }
            match &rs[i] {
                Record::Positive(r) => {
                    self.insert(clone_row(r));
                },
                Record::Negative(r) => {
                    self.remove(r);
                },
            }
            i += 1;
        }
        proof {
            assert(c.take(rs@.len() as int) =~= c);
        }
    }
}

/// The per-domain table of materialized stores, indexed by local address.
/// A `None` slot is a node whose output is not materialized.
pub struct StateMap {
    pub slots: Vec<Option<State>>,
}

/// The content of one optional store.
pub open spec fn slot_content(o: Option<State>) -> Option<Multiset<Seq<i64>>> {
    match o {
        Some(s) => Some(s@),
        None => None,
    }
}

impl View for StateMap {
    type V = Seq<Option<Multiset<Seq<i64>>>>;

    open spec fn view(&self) -> Seq<Option<Multiset<Seq<i64>>>> {
        self.slots@.map_values(|o: Option<State>| slot_content(o))
    }
}

/// The effect of a batch on one optional store: nothing when no state is
/// materialized there.
pub open spec fn slot_apply(
    o: Option<Multiset<Seq<i64>>>,
    c: Seq<RecContent>,
) -> Option<Multiset<Seq<i64>>> {
    match o {
        Some(m) => Some(apply_batch(m, c)),
        None => None,
    }
}

/// The effect of materializing a batch at one address of the table; an address
/// outside the table leaves it unchanged.
pub open spec fn map_apply_at(
    sv: Seq<Option<Multiset<Seq<i64>>>>,
    addr: int,
    c: Seq<RecContent>,
) -> Seq<Option<Multiset<Seq<i64>>>> {
    if 0 <= addr < sv.len() {
        sv.update(addr, slot_apply(sv[addr], c))
    } else {
        sv
    }
}

/// Applies a batch to an optional store: the single choke point through which
/// all materialized state changes flow. Does nothing when no state is
/// materialized.
pub fn materialize(rs: &Records, state: &mut Option<State>)
    ensures
        slot_content(*final(state)) == slot_apply(slot_content(*old(state)), batch_content(rs@)),
{
    match state {
        Some(s) => {
            s.apply(rs);
        },
        None => {},
    }
}

impl StateMap {
    /// An empty table.
    pub fn new() -> (m: StateMap)
        ensures
            m@ == Seq::<Option<Multiset<Seq<i64>>>>::empty(),
    {
        let m = StateMap { slots: Vec::new() };
        proof {
            assert(m@ =~= Seq::<Option<Multiset<Seq<i64>>>>::empty());
        }
        m
    }

    /// Appends a slot: an empty store for a materialized node, none otherwise.
    pub fn push_slot(&mut self, materialized: bool)
        ensures
            final(self)@ == old(self)@.push(
                if materialized {
                    Some(Multiset::<Seq<i64>>::empty())
                } else {
                    None
                },
            ),
    {
        if materialized {
            let s = State::new();
            self.slots.push(Some(s));
        } else {
            self.slots.push(None);
        }
        proof {
            assert(final(self)@ =~= old(self)@.push(
                if materialized {
                    Some(Multiset::<Seq<i64>>::empty())
                } else {
                    None
                },
            ));
        }
    }

    /// Materializes a batch into the slot of one local address.
    pub fn materialize_at(&mut self, addr: usize, rs: &Records)
        ensures
            final(self)@ == map_apply_at(old(self)@, addr as int, batch_content(rs@)),
    {
        if addr < self.slots.len() {
            let mut slot = self.slots.remove(addr);
            materialize(rs, &mut slot);
            self.slots.insert(addr, slot);
            proof {
                assert(final(self)@ =~= map_apply_at(old(self)@, addr as int, batch_content(rs@)));
            }
        }
    }
}

} // verus!
