//! Operations on the record of conversations, and the proof that they keep
//! it exclusive.

use vstd::prelude::*;
use crate::commands::Entity;
use crate::gameplay::player::components::{
    ConversationView, EntityPairConversationState, PairEntityConversationData,
};

verus! {

broadcast use vstd::std_specs::hash::group_hash_axioms;

/// The first index at or after `from` of a conversation that involves
/// `entity`, or the length of `pairs` if there is none.
pub open spec fn first_involving(
    pairs: Seq<PairEntityConversationData>,
    entity: Entity,
    from: int,
) -> int
    decreases pairs.len() - from,
{
    if from < 0 || from >= pairs.len() {
        pairs.len() as int
    } else if pairs[from].involves(entity) {
        from
    } else {
        first_involving(pairs, entity, from + 1)
    }
}

/// The first index at or after `from` of the conversation of `a` and `b`,
/// in either order, or the length of `pairs` if there is none.
pub open spec fn first_joining(
    pairs: Seq<PairEntityConversationData>,
    a: Entity,
    b: Entity,
    from: int,
) -> int
    decreases pairs.len() - from,
{
    if from < 0 || from >= pairs.len() {
        pairs.len() as int
    } else if pairs[from].joins(a, b) {
        from
    } else {
        first_joining(pairs, a, b, from + 1)
    }
}

/// `first_involving` finds a conversation that involves the entity exactly
/// when there is one at or after `from`.
pub proof fn lemma_first_involving(
    pairs: Seq<PairEntityConversationData>,
    entity: Entity,
    from: int,
)
    requires
        0 <= from <= pairs.len(),
    ensures
        from <= first_involving(pairs, entity, from) <= pairs.len(),
        first_involving(pairs, entity, from) < pairs.len() ==> pairs[first_involving(
            pairs,
            entity,
            from,
        )].involves(entity),
        forall|i: int|
            from <= i < first_involving(pairs, entity, from) ==> !(#[trigger] pairs[i]).involves(
                entity,
            ),
    decreases pairs.len() - from,
{
    if from < pairs.len() && !pairs[from].involves(entity) {
        lemma_first_involving(pairs, entity, from + 1);
    }
}

/// `first_joining` finds the conversation of `a` and `b` exactly when there
/// is one at or after `from`.
pub proof fn lemma_first_joining(
    pairs: Seq<PairEntityConversationData>,
    a: Entity,
    b: Entity,
    from: int,
)
    requires
        0 <= from <= pairs.len(),
    ensures
        from <= first_joining(pairs, a, b, from) <= pairs.len(),
        first_joining(pairs, a, b, from) < pairs.len() ==> pairs[first_joining(
            pairs,
            a,
            b,
            from,
        )].joins(a, b),
        forall|i: int|
            from <= i < first_joining(pairs, a, b, from) ==> !(#[trigger] pairs[i]).joins(a, b),
    decreases pairs.len() - from,
{
    if from < pairs.len() && !pairs[from].joins(a, b) {
        lemma_first_joining(pairs, a, b, from + 1);
    }
}

impl ConversationView {
    /// The record without the conversation at `index`, whose two members are
    /// struck from the ledger.
    pub open spec fn dissolved(self, index: int) -> ConversationView {
        ConversationView {
            pairs: self.pairs.remove(index),
            ledger: self.ledger.remove(self.pairs[index].entity_a).remove(
                self.pairs[index].entity_b,
            ),
        }
    }

    /// The record after `entity` has left: every conversation that involves
    /// it is dissolved, its partner is struck from the ledger with it, and
    /// so is the entity itself.
    pub open spec fn without_entity(self, entity: Entity) -> ConversationView
        decreases self.pairs.len(),
    {
        let index = first_involving(self.pairs, entity, 0);
        if 0 <= index < self.pairs.len() {
            self.dissolved(index).without_entity(entity)
        } else {
            ConversationView { pairs: self.pairs, ledger: self.ledger.remove(entity) }
        }
    }

    /// No two conversations join the same two pets.
    pub open spec fn keys_unique(self) -> bool {
        forall|i: int, j: int|
            0 <= i < self.pairs.len() && 0 <= j < self.pairs.len() && i != j ==> !(
            #[trigger] self.pairs[i]).joins(
                (#[trigger] self.pairs[j]).entity_a,
                self.pairs[j].entity_b,
            )
    }
}

/// Dissolving a conversation of an exclusive record leaves an exclusive
/// record in which neither of its two members is in any conversation.
pub proof fn lemma_dissolved_exclusive(v: ConversationView, index: int)
    requires
        v.exclusive(),
        0 <= index < v.pairs.len(),
    ensures
        v.dissolved(index).exclusive(),
        !v.dissolved(index).paired(v.pairs[index].entity_a),
        !v.dissolved(index).paired(v.pairs[index].entity_b),
        !v.dissolved(index).in_conversation(v.pairs[index].entity_a),
        !v.dissolved(index).in_conversation(v.pairs[index].entity_b),
        forall|e: Entity|
            !v.pairs[index].involves(e) ==> (v.dissolved(index).paired(e) <==> v.paired(e)),
{
    let w = v.dissolved(index);
    let p = v.pairs[index];
    assert forall|k: int| 0 <= k < w.pairs.len() implies #[trigger] w.pairs[k] == v.pairs[if k
        < index {
        k
    } else {
        k + 1
    }] by {}
    assert forall|e: Entity| #[trigger] w.in_conversation(e) <==> w.paired(e) by {
        if w.paired(e) {
            let k = choose|k: int| 0 <= k < w.pairs.len() && (#[trigger] w.pairs[k]).involves(e);
            let k0 = if k < index {
                k
            } else {
                k + 1
            };
            assert(v.pairs[k0].involves(e));
            assert(v.paired(e));
            if p.involves(e) {
                assert(v.pairs[k0].shares_entity(v.pairs[index]));
            }
            assert(v.in_conversation(e));
        }
        if w.in_conversation(e) {
            assert(v.in_conversation(e));
            assert(v.paired(e));
            let k0 = choose|k: int| 0 <= k < v.pairs.len() && (#[trigger] v.pairs[k]).involves(e);
            let k = if k0 < index {
                k0
            } else {
                k0 - 1
            };
            assert(w.pairs[k] == v.pairs[k0]);
            assert(w.pairs[k].involves(e));
        }
    }
    assert forall|e: Entity| !p.involves(e) implies (w.paired(e) <==> v.paired(e)) by {
        if v.paired(e) {
            let k0 = choose|k: int| 0 <= k < v.pairs.len() && (#[trigger] v.pairs[k]).involves(e);
            let k = if k0 < index {
                k0
            } else {
                k0 - 1
            };
            assert(w.pairs[k] == v.pairs[k0]);
            assert(w.pairs[k].involves(e));
        }
        if w.paired(e) {
            let k = choose|k: int| 0 <= k < w.pairs.len() && (#[trigger] w.pairs[k]).involves(e);
            let k0 = if k < index {
                k
            } else {
                k + 1
            };
            assert(v.pairs[k0].involves(e));
        }
    }
    assert(!w.in_conversation(p.entity_a));
    assert(!w.in_conversation(p.entity_b));
}

/// Taking an entity out of an exclusive record leaves an exclusive record in
/// which the entity is in no conversation.
pub proof fn lemma_without_entity_exclusive(v: ConversationView, entity: Entity)
    requires
        v.exclusive(),
    ensures
        v.without_entity(entity).exclusive(),
        !v.without_entity(entity).paired(entity),
        !v.without_entity(entity).in_conversation(entity),
    decreases v.pairs.len(),
{
    let index = first_involving(v.pairs, entity, 0);
    lemma_first_involving(v.pairs, entity, 0);
    if 0 <= index < v.pairs.len() {
        lemma_dissolved_exclusive(v, index);
        lemma_without_entity_exclusive(v.dissolved(index), entity);
    } else {
        let w = v.without_entity(entity);
        assert(!v.paired(entity));
        assert(!v.in_conversation(entity));
        assert(w.pairs == v.pairs);
        assert forall|e: Entity| #[trigger] w.in_conversation(e) <==> w.paired(e) by {
            assert(w.in_conversation(e) <==> v.in_conversation(e));
            assert(v.in_conversation(e) <==> v.paired(e));
            assert(w.paired(e) <==> v.paired(e));
        }
        assert(w.exclusive());
    }
}

/// In an exclusive record, taking out one member of a conversation frees its
/// partner too: afterwards neither is in any conversation, and nothing else
/// has changed hands.
pub proof fn lemma_without_entity_frees_partner(v: ConversationView, index: int, entity: Entity)
    requires
        v.exclusive(),
        0 <= index < v.pairs.len(),
        v.pairs[index].involves(entity),
    ensures
        v.without_entity(entity).pairs == v.pairs.remove(index),
        !v.without_entity(entity).in_conversation(v.pairs[index].entity_a),
        !v.without_entity(entity).in_conversation(v.pairs[index].entity_b),
        !v.without_entity(entity).paired(v.pairs[index].entity_a),
        !v.without_entity(entity).paired(v.pairs[index].entity_b),
{
    let first = first_involving(v.pairs, entity, 0);
    lemma_first_involving(v.pairs, entity, 0);
    if first != index {
        assert(v.pairs[first].shares_entity(v.pairs[index]));
    }
    lemma_dissolved_exclusive(v, index);
    let w = v.dissolved(index);
    lemma_first_involving(w.pairs, entity, 0);
    assert(!w.paired(entity));
    assert(first_involving(w.pairs, entity, 0) >= w.pairs.len());
    assert(v.without_entity(entity) == w.without_entity(entity));
}

/// Taking an entity out of a record brings nobody into a conversation.
pub proof fn lemma_without_entity_monotone(v: ConversationView, entity: Entity, other: Entity)
    ensures
        !v.paired(other) ==> !v.without_entity(entity).paired(other),
        !v.in_conversation(other) ==> !v.without_entity(entity).in_conversation(other),
    decreases v.pairs.len(),
{
    let index = first_involving(v.pairs, entity, 0);
    if 0 <= index < v.pairs.len() {
        let w = v.dissolved(index);
        lemma_without_entity_monotone(w, entity, other);
        if w.paired(other) {
            let k = choose|k: int| 0 <= k < w.pairs.len() && (#[trigger] w.pairs[k]).involves(other);
            let k0 = if k < index {
                k
            } else {
                k + 1
            };
            assert(v.pairs[k0].involves(other));
        }
    }
}

/// Taking an entity out of a record keeps every conversation that does not
/// involve it.
pub proof fn lemma_without_entity_keeps_others(v: ConversationView, entity: Entity, m: int)
    requires
        0 <= m < v.pairs.len(),
        !v.pairs[m].involves(entity),
    ensures
        v.without_entity(entity).pairs.contains(v.pairs[m]),
    decreases v.pairs.len(),
{
    let index = first_involving(v.pairs, entity, 0);
    lemma_first_involving(v.pairs, entity, 0);
    if 0 <= index < v.pairs.len() {
        let w = v.dissolved(index);
        let m1 = if m < index {
            m
        } else {
            m - 1
        };
        assert(w.pairs[m1] == v.pairs[m]);
        lemma_without_entity_keeps_others(w, entity, m1);
    } else {
        assert(v.without_entity(entity).pairs[m] == v.pairs[m]);
    }
}

impl EntityPairConversationState {
    /// Whether the ledger marks `entity` as being in a conversation.
    pub fn is_in_conversation(&self, entity: Entity) -> (b: bool)
        ensures
            b == self@.in_conversation(entity),
    {
        match self.entities_in_conversation.get(&entity) {
            Some(flag) => *flag,
            None => false,
        }
    }

    /// The index of the first conversation that involves `entity`, or the
    /// number of conversations if there is none.
    pub fn find_involving(&self, entity: Entity) -> (index: usize)
        ensures
            index == first_involving(self@.pairs, entity, 0),
            index <= self@.pairs.len(),
    {
        let mut i: usize = 0;
        while i < self.pair_entities_in_conversation.len()
            invariant
                i <= self.pair_entities_in_conversation.len(),
                first_involving(self@.pairs, entity, 0) == first_involving(
                    self@.pairs,
                    entity,
                    i as int,
                ),
            decreases self.pair_entities_in_conversation.len() - i,
        {
            let pair = &self.pair_entities_in_conversation[i];
            if pair.entity_a == entity || pair.entity_b == entity {
                return i;
            }
            i += 1;
        }
        i
    }

    /// The index of the conversation of `a` and `b`, in either order, or the
    /// number of conversations if there is none.
    pub fn find_pair(&self, a: Entity, b: Entity) -> (index: usize)
        ensures
            index == first_joining(self@.pairs, a, b, 0),
            index <= self@.pairs.len(),
    {
        let mut i: usize = 0;
        while i < self.pair_entities_in_conversation.len()
            invariant
                i <= self.pair_entities_in_conversation.len(),
                first_joining(self@.pairs, a, b, 0) == first_joining(self@.pairs, a, b, i as int),
            decreases self.pair_entities_in_conversation.len() - i,
        {
            let pair = &self.pair_entities_in_conversation[i];
            if (pair.entity_a == a && pair.entity_b == b) || (pair.entity_a == b && pair.entity_b
                == a) {
                return i;
            }
            i += 1;
        }
        i
    }
}

/// Takes `entity` out of every conversation: each conversation that involves
/// it is dissolved and both of its members are struck from the ledger.
pub fn remove_entity_from_conversation(
    entity: Entity,
    entity_pair_convo_state: &mut EntityPairConversationState,
)
    ensures
        final(entity_pair_convo_state)@.pairs == old(entity_pair_convo_state)@.without_entity(
            entity,
        ).pairs,
        final(entity_pair_convo_state)@.ledger == old(entity_pair_convo_state)@.without_entity(
            entity,
        ).ledger,
        old(entity_pair_convo_state)@.exclusive() ==> final(entity_pair_convo_state)@.exclusive(),
{
    proof {
        if old(entity_pair_convo_state)@.exclusive() {
            lemma_without_entity_exclusive(old(entity_pair_convo_state)@, entity);
        }
    }
    loop
        invariant
            entity_pair_convo_state@.without_entity(entity) == old(
                entity_pair_convo_state,
            )@.without_entity(entity),
        ensures
            entity_pair_convo_state@.without_entity(entity) == old(
                entity_pair_convo_state,
            )@.without_entity(entity),
            first_involving(entity_pair_convo_state@.pairs, entity, 0)
                >= entity_pair_convo_state@.pairs.len(),
        decreases entity_pair_convo_state@.pairs.len(),
    {
        let index = entity_pair_convo_state.find_involving(entity);
        if index >= entity_pair_convo_state.pair_entities_in_conversation.len() {
            break;
        }
        let ghost before = entity_pair_convo_state@;
        let pair = entity_pair_convo_state.pair_entities_in_conversation.remove(index);
        entity_pair_convo_state.entities_in_conversation.remove(&pair.entity_a);
        entity_pair_convo_state.entities_in_conversation.remove(&pair.entity_b);
        assert(entity_pair_convo_state@ == before.dissolved(index as int));
    }
    entity_pair_convo_state.entities_in_conversation.remove(&entity);
}

} // verus!
