//! The links of an actor: the actors to notify when it dies, keyed by their ids.
use std::collections::HashMap;
use vstd::prelude::*;
use vstd::std_specs::hash::spec_keys_iter;
use vstd::std_specs::iter::IteratorSpec;

verus! {

broadcast use vstd::std_specs::hash::group_hash_axioms;

/// The actors linked to one actor, each under its id. `R` is the reference
/// through which a linked actor is notified.
#[derive(Debug)]
pub struct Links<R> {
    map: HashMap<u64, R>,
}

impl<R> View for Links<R> {
    type V = Map<u64, R>;

    closed spec fn view(&self) -> Map<u64, R> {
        self.map@
    }
}

/// The links of actor `this` after linking `other` under `other_id`: unchanged
/// where `other` is `this` itself.
pub open spec fn linked<R>(m: Map<u64, R>, this: u64, other_id: u64, other: R) -> Map<u64, R> {
    if this == other_id { m } else { m.insert(other_id, other) }
}

/// The links of actor `this` after unlinking `other_id`: unchanged where
/// `other_id` is `this` itself.
pub open spec fn unlinked<R>(m: Map<u64, R>, this: u64, other_id: u64) -> Map<u64, R> {
    if this == other_id { m } else { m.remove(other_id) }
}

/// The map that a list of (id, reference) pairs describes.
pub open spec fn entries_map<R>(s: Seq<(u64, R)>) -> Map<u64, R>
    decreases s.len(),
{
    if s.len() == 0 {
        Map::empty()
    } else {
        entries_map(s.drop_last()).insert(s.last().0, s.last().1)
    }
}

/// The ids of a list of (id, reference) pairs.
pub open spec fn entry_ids<R>(s: Seq<(u64, R)>) -> Seq<u64> {
    s.map_values(|e: (u64, R)| e.0)
}

impl<R> Links<R> {
    /// No links.
    pub fn new() -> (l: Self)
        ensures
            l@ == Map::<u64, R>::empty(),
    {
        Links { map: HashMap::new() }
    }

    /// Whether the actor with this id is linked.
    pub fn contains(&self, id: u64) -> (b: bool)
        ensures
            b == self@.contains_key(id),
    {
        self.map.contains_key(&id)
    }

    /// How many actors are linked.
    pub fn len(&self) -> (n: usize)
        ensures
            n == self@.len(),
    {
        self.map.len()
    }

    /// Links the actor `this`, whose links these are, with a child, so that
    /// the child is told when `this` dies; an actor is never linked with itself.
    pub fn link_child(&mut self, this: u64, child_id: u64, child: R)
        ensures
            final(self)@ == linked(old(self)@, this, child_id, child),
    {
        if this == child_id {
            return;
        }
        self.map.insert(child_id, child);
    }

    /// Unlinks a previously linked child from the actor `this`.
    pub fn unlink_child(&mut self, this: u64, child_id: u64)
        ensures
            final(self)@ == unlinked(old(self)@, this, child_id),
    {
        if this == child_id {
            return;
        }
        self.map.remove(&child_id);
    }

    /// Links two actors with one another, so that each is told when the other
    /// dies: `a_links` are the links of actor `a_id`, reached through `a_ref`,
    /// and `b_links` those of actor `b_id`, reached through `b_ref`. Nothing
    /// changes where both ids are the same.
    pub fn link_together(a_id: u64, a_links: &mut Links<R>, a_ref: R, b_id: u64, b_links: &mut Links<R>, b_ref: R)
        ensures
            final(a_links)@ == linked(old(a_links)@, a_id, b_id, b_ref),
            final(b_links)@ == linked(old(b_links)@, b_id, a_id, a_ref),
    {
        if a_id == b_id {
            return;
        }
        a_links.map.insert(b_id, b_ref);
        b_links.map.insert(a_id, a_ref);
    }

    /// Unlinks two previously linked actors from one another.
    pub fn unlink_together(a_id: u64, a_links: &mut Links<R>, b_id: u64, b_links: &mut Links<R>)
        ensures
            final(a_links)@ == unlinked(old(a_links)@, a_id, b_id),
            final(b_links)@ == unlinked(old(b_links)@, b_id, a_id),
    {
        if a_id == b_id {
            return;
        }
        a_links.map.remove(&b_id);
        b_links.map.remove(&a_id);
    }

    /// Removes every link and returns them, each once, in no particular order.
    pub fn take_all(&mut self) -> (taken: Vec<(u64, R)>)
        ensures
            final(self)@ == Map::<u64, R>::empty(),
            entries_map(taken@) == old(self)@,
            entry_ids(taken@).no_duplicates(),
    {
        let ghost start = self.map@;
        let ghost keys = spec_keys_iter(&self.map).remaining().unref();
        let mut ids: Vec<u64> = Vec::new();
        for k in it: self.map.keys()
            invariant
                ids@.len() == it.index(),
                it.seq().unref() == keys,
                forall|i: int| 0 <= i < ids@.len() ==> ids@[i] == *it.seq()[i],
        {
            ids.push(*k);
        }
        assert(ids@ =~= keys);
        let mut taken: Vec<(u64, R)> = Vec::new();
        let mut i: usize = 0;
        while i < ids.len()
            invariant
                0 <= i <= ids.len(),
                ids@.to_set() == start.dom(),
                ids@.no_duplicates(),
                self.map@ == start.remove_keys(ids@.take(i as int).to_set()),
                entries_map(taken@) == start.restrict(ids@.take(i as int).to_set()),
                entry_ids(taken@) == ids@.take(i as int),
            decreases ids.len() - i,
        {
            let id = ids[i];
            let ghost before = ids@.take(i as int);
            let ghost after = ids@.take(i + 1);
            let ghost prev_taken = taken@;
            proof {
                assert(after =~= before.push(id));
                assert(after.to_set() =~= before.to_set().insert(id)) by {
                    assert forall|x: u64| after.contains(x) <==> (before.contains(x) || x == id) by {
                        if after.contains(x) {
                            let j = choose|j: int| 0 <= j < after.len() && after[j] == x;
                            if j < before.len() {
                                assert(before[j] == x);
                            }
                        }
                        if before.contains(x) {
                            let j = choose|j: int| 0 <= j < before.len() && before[j] == x;
                            assert(after[j] == x);
                        }
                        if x == id {
                            assert(after[before.len() as int] == x);
                        }
                    }
                }
                assert(ids@.contains(id));
                assert(ids@.to_set().contains(id));
                assert(start.contains_key(id));
                assert(!before.contains(id)) by {
                    if before.contains(id) {
                        let j = choose|j: int| 0 <= j < before.len() && before[j] == id;
                        assert(ids@[j] == ids@[i as int]);
                    }
                }
                assert(self.map@.contains_key(id));
            }
            let removed = self.map.remove(&id);
            match removed {
                Some(r) => {
                    taken.push((id, r));
                    proof {
                        assert(r == start[id]);
                        assert(taken@.drop_last() =~= prev_taken);
                        assert(entries_map(taken@) == entries_map(prev_taken).insert(id, r));
                        assert(entries_map(taken@) =~= start.restrict(after.to_set()));
                        assert(entry_ids(taken@) =~= after);
                    }
                },
                None => {},
            }
            assert(self.map@ =~= start.remove_keys(after.to_set()));
            i = i + 1;
        }
        proof {
            assert(ids@.take(ids@.len() as int) =~= ids@);
            assert(self.map@ =~= Map::<u64, R>::empty());
            assert(entries_map(taken@) =~= start);
        }
        taken
    }
}

/// Unlinking undoes linking: linking an actor that was not linked and then
/// unlinking it leaves the links as they were.
pub proof fn lemma_unlink_undoes_link<R>(m: Map<u64, R>, this: u64, other_id: u64, other: R)
    requires
        !m.contains_key(other_id),
    ensures
        unlinked(linked(m, this, other_id, other), this, other_id) == m,
{
    assert(unlinked(linked(m, this, other_id, other), this, other_id) =~= m);
}

/// Linking is idempotent: linking the same actor twice is linking it once.
pub proof fn lemma_link_idempotent<R>(m: Map<u64, R>, this: u64, other_id: u64, other: R)
    ensures
        linked(linked(m, this, other_id, other), this, other_id, other) == linked(m, this, other_id, other),
{
    assert(linked(linked(m, this, other_id, other), this, other_id, other) =~= linked(m, this, other_id, other));
}

/// An actor is never linked with itself.
pub proof fn lemma_no_self_link<R>(m: Map<u64, R>, this: u64, other: R)
    ensures
        linked(m, this, this, other) == m,
        unlinked(m, this, this) == m,
{
}

/// Linking two distinct actors together makes each reach the other; linking a
/// child makes only the parent reach the child.
pub proof fn lemma_link_together_is_mutual<R>(
    a: Map<u64, R>,
    a_id: u64,
    a_ref: R,
    b: Map<u64, R>,
    b_id: u64,
    b_ref: R,
)
    requires
        a_id != b_id,
    ensures
        linked(a, a_id, b_id, b_ref).contains_key(b_id),
        linked(a, a_id, b_id, b_ref)[b_id] == b_ref,
        linked(b, b_id, a_id, a_ref).contains_key(a_id),
        linked(b, b_id, a_id, a_ref)[a_id] == a_ref,
{
}

/// Linking or unlinking one actor leaves every other link as it was.
pub proof fn lemma_link_is_local<R>(m: Map<u64, R>, this: u64, other_id: u64, other: R, k: u64)
    requires
        k != other_id,
    ensures
        linked(m, this, other_id, other).contains_key(k) == m.contains_key(k),
        unlinked(m, this, other_id).contains_key(k) == m.contains_key(k),
        m.contains_key(k) ==> linked(m, this, other_id, other)[k] == m[k],
        m.contains_key(k) ==> unlinked(m, this, other_id)[k] == m[k],
{
}

} // verus!
