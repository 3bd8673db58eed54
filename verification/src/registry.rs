//! The callback registry: where a callback cell lives while the host holds
//! the token that stands for it.
//!
//! A cell is stored under a token of pointer width that is never zero. The
//! token is what the host receives in place of a pointer to the cell, and the
//! only way back to the cell is through the registry, which gives a cell up
//! exactly once.

use vstd::prelude::*;

verus! {

/// The cell stored under `token`, if the token is live.
pub open spec fn cell_at<C>(live: Map<usize, C>, token: usize) -> Option<C> {
    if live.contains_key(token) {
        Some(live[token])
    } else {
        None
    }
}

/// A table of callback cells keyed by the tokens handed to the host.
pub struct CallbackRegistry<C> {
    slots: Vec<Option<C>>,
}

impl<C> CallbackRegistry<C> {
    /// The live cells by token. Token zero stands for the null pointer and is
    /// never live.
    pub closed spec fn view(&self) -> Map<usize, C> {
        Map::new(
            |t: usize| 0 < t < self.slots@.len() && self.slots@[t as int] is Some,
            |t: usize| self.slots@[t as int]->0,
        )
    }

    /// Zero is never the token of a live cell.
    pub proof fn lemma_null_is_never_live(&self)
        ensures
            !self@.contains_key(0),
    {
    }

    /// An empty registry.
    pub fn new() -> (registry: Self)
        ensures
            registry@ == Map::<usize, C>::empty(),
    {
        let registry = CallbackRegistry { slots: Vec::new() };
        assert(registry@ =~= Map::<usize, C>::empty());
        registry
    }

    /// Whether `token` stands for a live cell.
    pub fn contains(&self, token: usize) -> (live: bool)
        ensures
            live == self@.contains_key(token),
    {
        token != 0 && token < self.slots.len() && self.slots[token].is_some()
    }

    /// Whether no cell is live.
    pub fn is_empty(&self) -> (empty: bool)
        ensures
            empty == (self@ == Map::<usize, C>::empty()),
    {
        let mut i: usize = 1;
        while i < self.slots.len()
            invariant
                1 <= i,
                forall|t: usize| 0 < t < i && t < self.slots@.len() ==> self.slots@[t as int] is None,
            decreases self.slots.len() - i,
        {
            if self.slots[i].is_some() {
                assert(self@.contains_key(i));
                return false;
            }
            i += 1;
        }
        assert(self@ =~= Map::<usize, C>::empty());
        true
    }

    /// The number of live cells.
    pub fn live_count(&self) -> (count: usize)
        ensures
            self@.dom().finite(),
            count == self@.dom().len(),
    {
        let mut count: usize = 0;
        let mut i: usize = 1;
        let ghost mut seen: Set<usize> = Set::empty();
        while i < self.slots.len()
            invariant
                1 <= i,
                seen.finite(),
                count == seen.len(),
                count < i,
                forall|t: usize|
                    seen.contains(t) <==> 0 < t < i && t < self.slots@.len() && self.slots@[t as int]
                        is Some,
            decreases self.slots.len() - i,
        {
            if self.slots[i].is_some() {
                proof {
                    seen = seen.insert(i);
                }
                count += 1;
            }
            i += 1;
        }
        assert(seen =~= self@.dom());
        count
    }

    /// Stores `cell` and returns its token: never zero, and not the token of
    /// any cell that was live before.
    pub fn register(&mut self, cell: C) -> (token: usize)
        ensures
            token != 0,
            !old(self)@.contains_key(token),
            final(self)@ == old(self)@.insert(token, cell),
    {
        if self.slots.len() == 0 {
            self.slots.push(None);
            assert(self@ =~= old(self)@);
        }
        let mut i: usize = 1;
        while i < self.slots.len()
            invariant
                1 <= i,
                self.slots@.len() >= 1,
                self@ == old(self)@,
                forall|t: usize| 0 < t < i && t < self.slots@.len() ==> self.slots@[t as int] is Some,
            decreases self.slots.len() - i,
        {
            if self.slots[i].is_none() {
                self.slots[i] = Some(cell);
                assert(self@ =~= old(self)@.insert(i, cell));
                return i;
            }
            i += 1;
        }
        let token = self.slots.len();
        self.slots.push(Some(cell));
        assert(self@ =~= old(self)@.insert(token, cell));
        token
    }

    /// Gives up the cell stored under `token`. This is the single point at
    /// which a cell leaves the registry: afterwards the token is dead.
    pub fn reclaim(&mut self, token: usize) -> (cell: Option<C>)
        ensures
            cell == cell_at(old(self)@, token),
            final(self)@ == old(self)@.remove(token),
    {
        if token != 0 && token < self.slots.len() {
            let cell = self.slots[token].take();
            assert(self@ =~= old(self)@.remove(token));
            cell
        } else {
            assert(self@ =~= old(self)@.remove(token));
            None
        }
    }

    /// Puts `cell` in the place of the cell stored under `token` and returns
    /// the cell that was there. For a token that is not live nothing is
    /// stored, and `cell` comes back.
    pub fn replace(&mut self, token: usize, cell: C) -> (previous: Result<C, C>)
        ensures
            match previous {
                Ok(was) => cell_at(old(self)@, token) == Some(was) && final(self)@ == old(
                    self,
                )@.insert(token, cell),
                Err(back) => cell_at(old(self)@, token) is None && back == cell && final(self)@
                    == old(self)@,
            },
    {
        match self.borrow_mut(token) {
            Some(slot) => {
                let mut next = cell;
                core::mem::swap(slot, &mut next);
                Ok(next)
            },
            None => Err(cell),
        }
    }

    /// Stores `cell` under `token`, in the place of whatever is there.
    pub(crate) fn put(&mut self, token: usize, cell: C)
        requires
            token != 0,
        ensures
            final(self)@ == old(self)@.insert(token, cell),
    {
        while self.slots.len() <= token
            invariant
                self@ == old(self)@,
            decreases token + 1 - self.slots.len(),
        {
            let ghost before = self@;
            self.slots.push(None);
            assert(self@ =~= before);
        }
        self.slots[token] = Some(cell);
        assert(self@ =~= old(self)@.insert(token, cell));
    }

    /// The cell stored under `token`, left in place.
    pub fn get(&self, token: usize) -> (cell: Option<&C>)
        ensures
            cell == (match cell_at(self@, token) {
                Some(c) => Some(&c),
                None => None,
            }),
    {
        if token != 0 && token < self.slots.len() {
            self.slots[token].as_ref()
        } else {
            None
        }
    }

    /// Lends out the cell stored under `token` without giving it up: what the
    /// borrower leaves in the cell is what the registry holds afterwards, under
    /// the same token.
    pub fn borrow_mut(&mut self, token: usize) -> (cell: Option<&mut C>)
        ensures
            match cell {
                Some(c) => cell_at(old(self)@, token) == Some(*c) && final(self)@ == old(
                    self,
                )@.insert(token, *final(c)),
                None => cell_at(old(self)@, token) is None && final(self)@ == old(self)@,
            },
    {
        if token != 0 && token < self.slots.len() {
            let cell = self.slots[token].as_mut();
            cell
        } else {
            None
        }
    }
}

/// The live cells after the host has answered a registration under `token`:
/// an accepted one stays, a refused one is given up.
pub open spec fn after_settle<C>(live: Map<usize, C>, token: usize, accepted: bool) -> Map<usize, C> {
    if accepted {
        live
    } else {
        live.remove(token)
    }
}

/// The cell a borrower finds under `token` after the payloads have been
/// delivered to it one by one, where `step` says what a delivery leaves in
/// the cell.
pub open spec fn cell_after_deliveries<C>(
    cell: C,
    step: spec_fn(C, Seq<u8>) -> C,
    payloads: Seq<Seq<u8>>,
) -> C
    decreases payloads.len(),
{
    if payloads.len() == 0 {
        cell
    } else {
        cell_after_deliveries(step(cell, payloads[0]), step, payloads.drop_first())
    }
}

/// The live cells after the payloads have been delivered to the cell under
/// `token` one by one. Each delivery lends out what the registry holds under
/// the token and stores what the borrower leaves.
pub open spec fn after_deliveries<C>(
    live: Map<usize, C>,
    token: usize,
    step: spec_fn(C, Seq<u8>) -> C,
    payloads: Seq<Seq<u8>>,
) -> Map<usize, C>
    decreases payloads.len(),
{
    if payloads.len() == 0 || !live.contains_key(token) {
        live
    } else {
        after_deliveries(
            live.insert(token, step(live[token], payloads[0])),
            token,
            step,
            payloads.drop_first(),
        )
    }
}

/// A registration the host refuses leaves nothing behind. The cell stored for
/// it is given up when the refusal is known, so the registry is as it was
/// before the registration, and no later completion under the token finds a
/// cell.
pub proof fn lemma_refused_registration_is_reclaimed<C>(live: Map<usize, C>, token: usize, cell: C)
    requires
        !live.contains_key(token),
    ensures
        cell_at(live.insert(token, cell), token) == Some(cell),
        after_settle(live.insert(token, cell), token, false) == live,
        cell_at(after_settle(live.insert(token, cell), token, false), token) is None,
{
    assert(live.insert(token, cell).remove(token) =~= live);
}

/// A registration the host accepts is given up by its completion and by
/// nothing else. Until the host completes, the cell stays stored. The first
/// completion finds the cell and leaves the registry as it was before the
/// registration; a second completion under the same token finds nothing.
pub proof fn lemma_accepted_registration_fires_once<C>(live: Map<usize, C>, token: usize, cell: C)
    requires
        !live.contains_key(token),
    ensures
        after_settle(live.insert(token, cell), token, true) == live.insert(token, cell),
        cell_at(after_settle(live.insert(token, cell), token, true), token) == Some(cell),
        live.insert(token, cell).remove(token) == live,
        cell_at(live.insert(token, cell).remove(token), token) is None,
{
    assert(live.insert(token, cell).remove(token) =~= live);
}

/// Giving a cell up is final: whatever was live, a token that has been
/// reclaimed is dead, and reclaiming it again changes nothing.
pub proof fn lemma_reclaim_is_final<C>(live: Map<usize, C>, token: usize)
    ensures
        cell_at(live.remove(token), token) is None,
        live.remove(token).remove(token) == live.remove(token),
{
    assert(live.remove(token).remove(token) =~= live.remove(token));
}

/// Deliveries to a persistent cell see one another: after any number of
/// them the cell is still live under its token and holds what the deliveries
/// left in it, each having started from what the one before had left. No
/// other cell changes. Giving the cell up afterwards hands out exactly that
/// state, once.
pub proof fn lemma_deliveries_accumulate<C>(
    live: Map<usize, C>,
    token: usize,
    step: spec_fn(C, Seq<u8>) -> C,
    payloads: Seq<Seq<u8>>,
)
    requires
        live.contains_key(token),
    ensures
        after_deliveries(live, token, step, payloads) == live.insert(
            token,
            cell_after_deliveries(live[token], step, payloads),
        ),
        cell_at(after_deliveries(live, token, step, payloads), token) == Some(
            cell_after_deliveries(live[token], step, payloads),
        ),
        after_deliveries(live, token, step, payloads).remove(token) == live.remove(token),
        cell_at(after_deliveries(live, token, step, payloads).remove(token), token) is None,
    decreases payloads.len(),
{
    if payloads.len() == 0 {
        assert(live.insert(token, live[token]) =~= live);
    } else {
        let next = live.insert(token, step(live[token], payloads[0]));
        lemma_deliveries_accumulate(next, token, step, payloads.drop_first());
        assert(next.insert(token, cell_after_deliveries(next[token], step, payloads.drop_first()))
            =~= live.insert(token, cell_after_deliveries(live[token], step, payloads)));
    }
    assert(live.insert(token, cell_after_deliveries(live[token], step, payloads)).remove(token)
        =~= live.remove(token));
}

} // verus!
