//! The ceiling on how many sandboxes exist at once. Each sandbox holds one
//! slot of the pool from before it is provisioned until it has been torn
//! down, and the slot's number is the sandbox's identifier.

use crate::error::Error;
use vstd::prelude::*;

verus! {

/// The slots that are taken, and how many there may be.
#[derive(Debug)]
pub struct Pool {
    ceiling: usize,
    next_id: u64,
    busy: Vec<u64>,
}

pub struct PoolView {
    /// How many slots may be taken at once.
    pub ceiling: nat,
    /// The identifier that the next slot gets.
    pub next_id: u64,
    /// The identifiers of the slots that are taken, oldest first.
    pub busy: Seq<u64>,
}

impl PoolView {
    /// A pool with no slot taken.
    pub open spec fn empty(ceiling: nat) -> PoolView {
        PoolView { ceiling, next_id: 0, busy: Seq::empty() }
    }

    /// No more slots are taken than the ceiling allows, no identifier is
    /// in use twice, and none that is in use will be handed out again.
    pub open spec fn sound(self) -> bool {
        &&& self.busy.len() <= self.ceiling
        &&& self.busy.no_duplicates()
        &&& forall|i: int| 0 <= i < self.busy.len() ==> self.busy[i] < self.next_id
    }

    /// Whether a slot can be taken: the ceiling is not reached and an
    /// identifier is left.
    pub open spec fn has_room(self) -> bool {
        self.busy.len() < self.ceiling && self.next_id < u64::MAX
    }

    /// The pool after a slot was taken.
    pub open spec fn taken(self) -> PoolView {
        PoolView {
            ceiling: self.ceiling,
            next_id: (self.next_id + 1) as u64,
            busy: self.busy.push(self.next_id),
        }
    }

    /// The pool after the slot `id` was given back; the same pool where
    /// `id` holds no slot.
    pub open spec fn without(self, id: u64) -> PoolView {
        PoolView {
            ceiling: self.ceiling,
            next_id: self.next_id,
            busy: if self.busy.contains(id) {
                self.busy.remove(self.busy.index_of(id))
            } else {
                self.busy
            },
        }
    }
}

impl View for Pool {
    type V = PoolView;

    closed spec fn view(&self) -> PoolView {
        PoolView { ceiling: self.ceiling as nat, next_id: self.next_id, busy: self.busy@ }
    }
}

impl Pool {
    #[verifier::type_invariant]
    spec fn sound(&self) -> bool {
        self@.sound()
    }

    /// A pool of `ceiling` slots, none of them taken.
    pub fn new(ceiling: usize) -> (r: Pool)
        ensures
            r@ == PoolView::empty(ceiling as nat),
    {
        Pool { ceiling, next_id: 0, busy: Vec::new() }
    }

    /// How many slots are taken.
    pub fn busy_count(&self) -> (r: usize)
        ensures
            r == self@.busy.len(),
            self@.sound(),
    {
        proof {
            use_type_invariant(self);
        }
        self.busy.len()
    }

    /// Whether `id` holds a slot.
    pub fn is_busy(&self, id: u64) -> (r: bool)
        ensures
            r == self@.busy.contains(id),
    {
        self.position(id).is_some()
    }

    fn position(&self, id: u64) -> (r: Option<usize>)
        ensures
            match r {
                Some(i) => i < self.busy@.len() && self.busy@[i as int] == id,
                None => !self.busy@.contains(id),
            },
    {
        let mut i: usize = 0;
        while i < self.busy.len()
            invariant
                i <= self.busy@.len(),
                forall|j: int| 0 <= j < i ==> self.busy@[j] != id,
            decreases self.busy@.len() - i,
        {
            if self.busy[i] == id {
                return Some(i);
            }
            i += 1;
        }
        None
    }

    /// Takes a slot and hands out its identifier, which no slot holds and
    /// none has held before. Fails at once, with `ResourcesExhausted`,
    /// where the ceiling is reached or no identifier is left.
    pub fn acquire(&mut self) -> (r: Result<u64, Error>)
        ensures
            final(self)@.sound(),
            old(self)@.has_room() ==> r == Ok::<u64, Error>(old(self)@.next_id) && final(self)@
                == old(self)@.taken() && !old(self)@.busy.contains(old(self)@.next_id)
                && final(self)@.busy.contains(old(self)@.next_id),
            !old(self)@.has_room() ==> r == Err::<u64, Error>(Error::ResourcesExhausted)
                && final(self)@ == old(self)@,
    {
        proof {
            use_type_invariant(&*self);
        }
        if self.busy.len() >= self.ceiling || self.next_id == u64::MAX {
            return Err(Error::ResourcesExhausted);
        }
        let id = self.next_id;
        proof {
            lemma_taken_is_fresh(self@);
        }
        let mut busy: Vec<u64> = Vec::new();
        core::mem::swap(&mut self.busy, &mut busy);
        busy.push(id);
        self.next_id = id + 1;
        core::mem::swap(&mut self.busy, &mut busy);
        Ok(id)
    }

    /// Gives the slot `id` back, and says whether `id` held one. Where it
    /// held none, nothing changes.
    pub fn release(&mut self, id: u64) -> (held: bool)
        ensures
            final(self)@.sound(),
            held == old(self)@.busy.contains(id),
            final(self)@ == old(self)@.without(id),
            !final(self)@.busy.contains(id),
            final(self)@.busy.len() == old(self)@.busy.len() - if held {
                1int
            } else {
                0int
            },
    {
        proof {
            use_type_invariant(&*self);
            lemma_without_forgets(self@, id);
        }
        match self.position(id) {
            Some(i) => {
                proof {
                    lemma_first_position(self.busy@, id, i as int);
                }
                let mut busy: Vec<u64> = Vec::new();
                core::mem::swap(&mut self.busy, &mut busy);
                busy.remove(i);
                core::mem::swap(&mut self.busy, &mut busy);
                true
            },
            None => false,
        }
    }
}

/// In a sequence without repetition, the place where a value stands is
/// the place that `index_of` names.
proof fn lemma_first_position(s: Seq<u64>, id: u64, i: int)
    requires
        s.no_duplicates(),
        0 <= i < s.len(),
        s[i] == id,
    ensures
        s.index_of(id) == i,
{
    let k = s.index_of(id);
    assert(s.contains(id));
    assert(0 <= k < s.len() && s[k] == id);
}

/// Giving a slot back keeps the pool sound, frees the identifier, and
/// leaves every other slot as it was.
pub proof fn lemma_without_forgets(pool: PoolView, id: u64)
    requires
        pool.sound(),
    ensures
        pool.without(id).sound(),
        !pool.without(id).busy.contains(id),
        forall|other: u64|
            other != id ==> (pool.without(id).busy.contains(other) <==> pool.busy.contains(other)),
{
    if pool.busy.contains(id) {
        let k = pool.busy.index_of(id);
        let rest = pool.busy.remove(k);
        assert(0 <= k < pool.busy.len() && pool.busy[k] == id);
        assert forall|i: int, j: int| 0 <= i < rest.len() && 0 <= j < rest.len() && i != j implies rest[i]
            != rest[j] by {
            let a = if i < k { i } else { i + 1 };
            let b = if j < k { j } else { j + 1 };
            assert(rest[i] == pool.busy[a] && rest[j] == pool.busy[b]);
        }
        assert forall|i: int| 0 <= i < rest.len() implies rest[i] != id && rest[i]
            < pool.next_id by {
            let a = if i < k { i } else { i + 1 };
            assert(rest[i] == pool.busy[a]);
        }
        assert forall|other: u64| other != id implies (rest.contains(other)
            <==> pool.busy.contains(other)) by {
            if rest.contains(other) {
                let i = choose|i: int| 0 <= i < rest.len() && rest[i] == other;
                let a = if i < k { i } else { i + 1 };
                assert(pool.busy[a] == other);
            }
            if pool.busy.contains(other) {
                let a = choose|a: int| 0 <= a < pool.busy.len() && pool.busy[a] == other;
                let i = if a < k { a } else { a - 1 };
                assert(rest[i] == other);
            }
        }
    }
}

/// Giving a slot back twice is giving it back once.
pub proof fn lemma_release_is_idempotent(pool: PoolView, id: u64)
    requires
        pool.sound(),
    ensures
        pool.without(id).without(id) == pool.without(id),
{
    lemma_without_forgets(pool, id);
}

/// Taking a slot keeps the pool sound, and the identifier that is handed
/// out differs from that of every slot that is taken.
pub proof fn lemma_taken_is_fresh(pool: PoolView)
    requires
        pool.sound(),
        pool.has_room(),
    ensures
        pool.taken().sound(),
        !pool.busy.contains(pool.next_id),
        pool.taken().busy.contains(pool.next_id),
{
    let grown = pool.taken().busy;
    assert(grown[pool.busy.len() as int] == pool.next_id);
    assert forall|i: int, j: int| 0 <= i < grown.len() && 0 <= j < grown.len() && i != j implies grown[i]
        != grown[j] by {
        if i < pool.busy.len() {
            assert(grown[i] == pool.busy[i]);
        }
        if j < pool.busy.len() {
            assert(grown[j] == pool.busy[j]);
        }
    }
}

} // verus!
