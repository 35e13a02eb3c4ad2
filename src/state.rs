//! The store of completed transactions: records kept in the order they were
//! added, each under an id assigned on addition.
use vstd::prelude::*;
use crate::recorder::{is_head_of, Head, Traffic};

verus! {

/// A record as it is stored under `id`.
pub open spec fn stamped(t: Traffic, id: u64) -> Traffic {
    Traffic { id: id, ..t }
}

/// Records whose ids are 1, 2, ... in the order they stand.
pub open spec fn ids_in_order(v: Seq<Traffic>) -> bool {
    forall|i: int| 0 <= i < v.len() ==> (#[trigger] v[i]).id == i + 1
}

/// The record stored under `id`, if any.
pub open spec fn lookup(v: Seq<Traffic>, id: u64) -> Option<Traffic> {
    if 1 <= id <= v.len() {
        Some(v[id - 1])
    } else {
        None
    }
}

/// The store after `t` has been added to `v`.
pub open spec fn added(v: Seq<Traffic>, t: Traffic) -> Seq<Traffic> {
    v.push(stamped(t, (v.len() + 1) as u64))
}

/// Whether `heads` are the heads of `v`, in the same order.
pub open spec fn heads_of(heads: Seq<Head>, v: Seq<Traffic>) -> bool {
    heads.len() == v.len() && forall|i: int| 0 <= i < v.len() ==> is_head_of(#[trigger] heads[i], v[i])
}

/// The ordered collection of completed records.
pub struct State {
    traffics: Vec<Traffic>,
}

impl View for State {
    type V = Seq<Traffic>;

    closed spec fn view(&self) -> Seq<Traffic> {
        self.traffics@
    }
}

impl State {
    /// Ids run 1, 2, ... in the order of addition.
    pub closed spec fn wf(&self) -> bool {
        ids_in_order(self.traffics@)
    }

    /// An empty store.
    pub fn new() -> (r: State)
        ensures
            r.wf(),
            r@.len() == 0,
    {
        State { traffics: Vec::new() }
    }

    /// The number of stored records.
    pub fn len(&self) -> (r: usize)
        ensures
            r == self@.len(),
    {
        self.traffics.len()
    }

    /// Stores `traffic` under the next id and returns its head, which is
    /// what the live feed publishes.
    pub fn add_traffic(&mut self, traffic: Traffic) -> (r: Head)
        requires
            old(self).wf(),
            old(self)@.len() < u64::MAX,
        ensures
            final(self).wf(),
            final(self)@ == added(old(self)@, traffic),
            r.id == old(self)@.len() + 1,
            is_head_of(r, stamped(traffic, r.id)),
    {
        let id = self.traffics.len() as u64 + 1;
        let mut t = traffic;
        t.id = id;
        let head = t.head();
        self.traffics.push(t);
        head
    }

    /// The heads of all stored records, in id order.
    pub fn list(&self) -> (r: Vec<Head>)
        ensures
            heads_of(r@, self@),
    {
        let mut out: Vec<Head> = Vec::new();
        let mut k: usize = 0;
        while k < self.traffics.len()
            invariant
                k <= self.traffics.len(),
                heads_of(out@, self.traffics@.subrange(0, k as int)),
            decreases self.traffics.len() - k,
        {
            out.push(self.traffics[k].head());
            k = k + 1;
        }
        assert(self.traffics@.subrange(0, k as int) =~= self.traffics@);
        out
    }

    /// The record stored under `id`, if any.
    pub fn get_traffic(&self, id: u64) -> (r: Option<&Traffic>)
        ensures
            match r {
                Some(t) => lookup(self@, id) == Some(*t),
                None => lookup(self@, id) is None,
            },
    {
        if id >= 1 && id <= self.traffics.len() as u64 {
            Some(&self.traffics[(id - 1) as usize])
        } else {
            None
        }
    }
}

/// After N additions to an empty store, listing gives N heads whose ids are
/// 1..N in the order of addition.
pub proof fn law_list_ids_in_arrival_order(s: State, heads: Seq<Head>)
    requires
        s.wf(),
        heads_of(heads, s@),
    ensures
        heads.len() == s@.len(),
        forall|i: int| 0 <= i < heads.len() ==> (#[trigger] heads[i]).id == i + 1,
{
    assert forall|i: int| 0 <= i < heads.len() implies (#[trigger] heads[i]).id == i + 1 by {
        assert(is_head_of(heads[i], s@[i]));
    }
}

/// Looking up the id a record was added under gives that record back.
pub proof fn law_get_returns_added(v: Seq<Traffic>, t: Traffic)
    requires
        v.len() < u64::MAX,
    ensures
        lookup(added(v, t), (v.len() + 1) as u64) == Some(stamped(t, (v.len() + 1) as u64)),
{
}

/// Adding keeps ids in order, so every reachable store has them so.
pub proof fn law_add_keeps_order(v: Seq<Traffic>, t: Traffic)
    requires
        ids_in_order(v),
        v.len() < u64::MAX,
    ensures
        ids_in_order(added(v, t)),
{
}

/// The id of a record added after a listing was taken is not among the ids
/// of that listing.
pub proof fn law_new_id_is_fresh(v: Seq<Traffic>, heads: Seq<Head>, t: Traffic)
    requires
        ids_in_order(v),
        heads_of(heads, v),
        v.len() < u64::MAX,
    ensures
        forall|i: int| 0 <= i < heads.len() ==> (#[trigger] heads[i]).id != added(v, t).last().id,
{
    assert forall|i: int| 0 <= i < heads.len() implies (#[trigger] heads[i]).id != added(v, t).last().id by {
        assert(is_head_of(heads[i], v[i]));
    }
}

} // verus!
