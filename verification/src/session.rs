//! The per-user conversation state, keyed by user identity.
//!
//! Volatile by design: losing this table resets every in-flight flow to the
//! idle state without touching the durable tables, because flows write to
//! the store only at their final step. A user with no entry is idle.

use vstd::prelude::*;

use crate::schema::State;

verus! {

/// The conversation state of every user with an in-flight flow.
pub struct SessionStore {
    pub entries: Vec<(i64, State)>,
}

/// At most one entry per user.
pub open spec fn sessions_wf(entries: Seq<(i64, State)>) -> bool {
    forall|i: int, j: int|
        0 <= i < j < entries.len() ==> #[trigger] entries[i].0 != #[trigger] entries[j].0
}

pub open spec fn has_entry(entries: Seq<(i64, State)>, user_id: i64) -> bool {
    exists|i: int| 0 <= i < entries.len() && #[trigger] entries[i].0 == user_id
}

pub open spec fn entry_index(entries: Seq<(i64, State)>, user_id: i64) -> int {
    choose|i: int| 0 <= i < entries.len() && #[trigger] entries[i].0 == user_id
}

/// The state of `user_id`: the stored one, or idle if none is stored.
pub open spec fn state_of(entries: Seq<(i64, State)>, user_id: i64) -> State {
    if has_entry(entries, user_id) {
        entries[entry_index(entries, user_id)].1
    } else {
        State::Start
    }
}

/// An owned copy of a state (the `String` payloads are cloned).
fn copy_state(s: &State) -> (r: State)
    ensures
        r == s,
{
    match s {
        State::Start => State::Start,
        State::ReceiveProductName => State::ReceiveProductName,
        State::ReceiveProductDescription { product_name } => State::ReceiveProductDescription {
            product_name: product_name.clone(),
        },
        State::ReceiveProductPrice { product_name, product_description } => {
            State::ReceiveProductPrice {
                product_name: product_name.clone(),
                product_description: product_description.clone(),
            }
        },
        State::ReceiveProductImage { product_name, product_description, product_price } => {
            State::ReceiveProductImage {
                product_name: product_name.clone(),
                product_description: product_description.clone(),
                product_price: *product_price,
            }
        },
        State::ReceiveProductId => State::ReceiveProductId,
        State::ReceiveRemoveCartItemId => State::ReceiveRemoveCartItemId,
        State::ReceiveEditCartItemQuantityId => State::ReceiveEditCartItemQuantityId,
        State::ReceiveEditCartItemQuantityAmount { cart_item_id } => {
            State::ReceiveEditCartItemQuantityAmount { cart_item_id: *cart_item_id }
        },
    }
}

impl SessionStore {
    pub open spec fn wf(&self) -> bool {
        sessions_wf(self.entries@)
    }

    /// Index of the entry of `user_id`, if any.
    fn find(&self, user_id: i64) -> (r: Option<usize>)
        ensures
            r is Some <==> has_entry(self.entries@, user_id),
            r matches Some(i) ==> 0 <= i < self.entries@.len() && self.entries@[i as int].0
                == user_id,
    {
        let n = self.entries.len();
        let mut i: usize = 0;
        while i < n
            invariant
                n == self.entries@.len(),
                0 <= i <= n,
                forall|k: int| 0 <= k < i ==> #[trigger] self.entries@[k].0 != user_id,
            decreases n - i,
        {
            if self.entries[i].0 == user_id {
                return Some(i);
            }
            i = i + 1;
        }
        None
    }

    /// An empty session table: every user is idle.
    pub fn new() -> (s: SessionStore)
        ensures
            s.wf(),
            forall|u: i64| state_of(s.entries@, u) == State::Start,
    {
        let s = SessionStore { entries: Vec::new() };
        proof {
            assert(forall|u: i64| !has_entry(s.entries@, u));
        }
        s
    }

    /// The state of `user_id`, defaulting to idle when none is stored.
    pub fn get(&self, user_id: i64) -> (r: State)
        requires
            self.wf(),
        ensures
            r == state_of(self.entries@, user_id),
    {
        let n = self.entries.len();
        let mut i: usize = 0;
        while i < n
            invariant
                self.wf(),
                n == self.entries@.len(),
                0 <= i <= n,
                forall|k: int| 0 <= k < i ==> #[trigger] self.entries@[k].0 != user_id,
            decreases n - i,
        {
            if self.entries[i].0 == user_id {
                proof {
                    let j = entry_index(self.entries@, user_id);
                    assert(0 <= j < self.entries@.len() && self.entries@[j].0 == user_id);
                    assert(j == i);
                }
                return copy_state(&self.entries[i].1);
            }
            i = i + 1;
        }
        proof {
            assert(!has_entry(self.entries@, user_id));
        }
        State::Start
    }

    /// Store `state` for `user_id`, replacing whatever was there. No other
    /// user's state changes.
    pub fn set(&mut self, user_id: i64, state: State)
        requires
            old(self).wf(),
        ensures
            final(self).wf(),
            state_of(final(self).entries@, user_id) == state,
            forall|u: i64|
                u != user_id ==> #[trigger] state_of(final(self).entries@, u) == state_of(
                    old(self).entries@,
                    u,
                ),
    {
        let ghost e0 = self.entries@;
        let found = self.find(user_id);
        match found {
            Some(j) => {
                self.entries.set(j, (user_id, state));
                proof {
                    let ef = self.entries@;
                    assert(ef == e0.update(j as int, (user_id, state)));
                    crate::store::lemma_update_pairwise(
                        e0,
                        j as int,
                        (user_id, state),
                        |a: (i64, State), b: (i64, State)| a.0 != b.0,
                    );
                    lemma_state_of_after_write(e0, ef, j as int, user_id, state);
                }
            },
            None => {
                proof {
                    assert(!has_entry(e0, user_id));
                }
                self.entries.push((user_id, state));
                proof {
                    let ef = self.entries@;
                    crate::store::lemma_push_pairwise(
                        e0,
                        (user_id, state),
                        |a: (i64, State), b: (i64, State)| a.0 != b.0,
                    );
                    lemma_state_of_after_write(e0, ef, e0.len() as int, user_id, state);
                }
            },
        }
    }

    /// Reset `user_id` to the idle state.
    pub fn clear(&mut self, user_id: i64)
        requires
            old(self).wf(),
        ensures
            final(self).wf(),
            state_of(final(self).entries@, user_id) == State::Start,
            forall|u: i64|
                u != user_id ==> #[trigger] state_of(final(self).entries@, u) == state_of(
                    old(self).entries@,
                    u,
                ),
    {
        self.set(user_id, State::Start);
    }
}

/// After writing `(user_id, state)` at index `j` (an update of an existing
/// entry, or a push right past the end), `user_id` reads back `state` and
/// every other user reads what it read before.
proof fn lemma_state_of_after_write(
    e0: Seq<(i64, State)>,
    ef: Seq<(i64, State)>,
    j: int,
    user_id: i64,
    state: State,
)
    requires
        sessions_wf(ef),
        0 <= j < ef.len(),
        ef[j] == (user_id, state),
        (ef.len() == e0.len() && 0 <= j < e0.len() && e0[j].0 == user_id) || (ef.len() == e0.len()
            + 1 && j == e0.len() && !has_entry(e0, user_id)),
        forall|k: int| 0 <= k < ef.len() && k != j ==> #[trigger] ef[k] == e0[k],
    ensures
        state_of(ef, user_id) == state,
        forall|u: i64| u != user_id ==> #[trigger] state_of(ef, u) == state_of(e0, u),
{
    assert(ef[j].0 == user_id);
    assert(has_entry(ef, user_id));
    let w = entry_index(ef, user_id);
    assert(0 <= w < ef.len() && ef[w].0 == user_id);
    assert(w == j) by {
        if w != j {
            assert(ef[w].0 != ef[j].0);
        }
    }
    assert forall|u: i64| u != user_id implies #[trigger] state_of(ef, u) == state_of(e0, u) by {
        if has_entry(ef, u) {
            let k = entry_index(ef, u);
            assert(0 <= k < ef.len() && ef[k].0 == u);
            assert(k != j);
            assert(e0[k].0 == u);
            assert(has_entry(e0, u));
            let k0 = entry_index(e0, u);
            assert(0 <= k0 < e0.len() && e0[k0].0 == u);
            if k0 != k {
                if k0 == j {
                    assert(e0[j].0 == user_id);
                } else {
                    assert(ef[k0].0 == u);
                    assert(false);
                }
            }
            assert(state_of(ef, u) == ef[k].1 && state_of(e0, u) == e0[k0].1);
        } else {
            if has_entry(e0, u) {
                let k0 = entry_index(e0, u);
                assert(0 <= k0 < e0.len() && e0[k0].0 == u);
                assert(ef[k0].0 == u);
                assert(false);
            }
        }
    }
}

} // verus!
