//! The proximity pairing resolver: once per tick it scans the pets that are
//! free to talk and pairs up those that stand at talking distance.

use vstd::prelude::*;
use crate::commands::Entity;
use crate::config::{ENTITY_CONVO_DISTANCE, ENTITY_CONVO_MIN_DISTANCE};
use crate::gameplay::events::ConversationActionEvent;
use crate::gameplay::player::components::{
    ConversationView, EntityPairConversationState, EtherPet, PairEntityConversationData,
    Quadrants,
};
use crate::gameplay::player::conversation::{first_joining, lemma_first_joining};
use crate::math::{distance_squared_spec, distance_strictly_between, Vec3};

verus! {

broadcast use vstd::std_specs::hash::group_hash_axioms;

/// What the resolver reads of a pet: its handle, its position at the time of
/// the scan, and whether its cooldown lets it interact.
#[derive(Clone, Copy, Debug, PartialEq, Eq, Structural)]
pub struct Candidate {
    pub entity: Entity,
    pub position: Vec3,
    pub can_prox_chat: bool,
}

/// The outcome of a scan: the record of conversations and the notifications
/// sent, oldest first.
#[verifier::ext_equal]
pub struct Resolution {
    pub state: ConversationView,
    pub events: Seq<ConversationActionEvent>,
}

impl EtherPet {
    /// Whether the resolver considers the pet: it is not steered by hand and
    /// not in the middle of a conversation.
    pub open spec fn eligible(self) -> bool {
        !self.active && !self.interaction_timers.prox_chat_active
    }

    /// What the resolver reads of the pet.
    pub open spec fn candidate(self) -> Candidate {
        Candidate {
            entity: self.entity,
            position: self.translation,
            can_prox_chat: self.interaction_timers.can_prox_chat,
        }
    }
}

/// The eligible pets, in the order of the store.
pub open spec fn snapshot_spec(pets: Seq<EtherPet>) -> Seq<Candidate>
    decreases pets.len(),
{
    if pets.len() == 0 {
        Seq::empty()
    } else if pets.last().eligible() {
        snapshot_spec(pets.drop_last()).push(pets.last().candidate())
    } else {
        snapshot_spec(pets.drop_last())
    }
}

/// The bearing of `b` from `a`: the diagonal sector in which `b` lies, or
/// `Aligned` when the two share a coordinate.
pub open spec fn find_quadrant_spec(a: Vec3, b: Vec3) -> Quadrants {
    if b.y < a.y && b.x > a.x {
        Quadrants::BottomRight
    } else if b.y < a.y && b.x < a.x {
        Quadrants::BottomLeft
    } else if b.y > a.y && b.x > a.x {
        Quadrants::TopRight
    } else if b.y > a.y && b.x < a.x {
        Quadrants::TopLeft
    } else {
        Quadrants::Aligned
    }
}

/// Whether two positions are at talking distance: farther apart than
/// `ENTITY_CONVO_MIN_DISTANCE` and closer than `ENTITY_CONVO_DISTANCE`.
pub open spec fn at_talking_distance(a: Vec3, b: Vec3) -> bool {
    ENTITY_CONVO_MIN_DISTANCE * ENTITY_CONVO_MIN_DISTANCE < distance_squared_spec(a, b)
        < ENTITY_CONVO_DISTANCE * ENTITY_CONVO_DISTANCE
}

/// Whether two candidates may start a conversation: they stand at talking
/// distance and both can interact.
pub open spec fn may_pair(a: Candidate, b: Candidate) -> bool {
    at_talking_distance(a.position, b.position) && a.can_prox_chat && b.can_prox_chat
}

/// The conversation that `a` and `b` start: `a` is the anchor.
pub open spec fn new_pair(a: Candidate, b: Candidate) -> PairEntityConversationData {
    PairEntityConversationData {
        entity_a: a.entity,
        entity_b: b.entity,
        entity_a_pos: a.position,
        entity_b_pos: b.position,
        quadrant: find_quadrant_spec(a.position, b.position),
        chatting_icon_spawned: false,
        conversation_http_request_sent: false,
    }
}

/// The pairs without the one at `index`, if there is one.
pub open spec fn without_index(
    pairs: Seq<PairEntityConversationData>,
    index: int,
) -> Seq<PairEntityConversationData> {
    if 0 <= index < pairs.len() {
        pairs.remove(index)
    } else {
        pairs
    }
}

/// One step of the scan, for the candidates `a` and `b`.
///
/// Nothing happens if the two are the same entity or if the ledger marks
/// either as being in a conversation. If they may pair and no conversation
/// joins them yet, one is recorded, the ledger marks both, and a notification
/// is sent; a conversation that joins them already is left untouched. If they
/// may not pair, the conversation that joins them, if any, is removed and
/// the ledger clears both.
pub open spec fn resolve_pair(r: Resolution, a: Candidate, b: Candidate) -> Resolution {
    let found = first_joining(r.state.pairs, a.entity, b.entity, 0);
    if a.entity == b.entity {
        r
    } else if r.state.in_conversation(a.entity) || r.state.in_conversation(b.entity) {
        r
    } else if may_pair(a, b) {
        if found < r.state.pairs.len() {
            r
        } else {
            Resolution {
                state: ConversationView {
                    pairs: r.state.pairs.push(new_pair(a, b)),
                    ledger: r.state.ledger.insert(a.entity, true).insert(b.entity, true),
                },
                events: r.events.push(
                    ConversationActionEvent { entity_a: a.entity, entity_b: b.entity },
                ),
            }
        }
    } else {
        Resolution {
            state: ConversationView {
                pairs: without_index(r.state.pairs, found),
                ledger: r.state.ledger.insert(a.entity, false).insert(b.entity, false),
            },
            events: r.events,
        }
    }
}

/// The scan of the candidate at `i` against those at `i + 1` up to, but not
/// including, `j_end`.
pub open spec fn resolve_row(r: Resolution, snapshot: Seq<Candidate>, i: int, j_end: int) -> Resolution
    decreases j_end - i,
{
    if j_end <= i + 1 {
        r
    } else {
        resolve_pair(resolve_row(r, snapshot, i, j_end - 1), snapshot[i], snapshot[j_end - 1])
    }
}

/// The scan of each of the first `i_end` candidates against all that follow
/// it.
pub open spec fn resolve_rows(r: Resolution, snapshot: Seq<Candidate>, i_end: int) -> Resolution
    decreases i_end,
{
    if i_end <= 0 {
        r
    } else {
        resolve_row(
            resolve_rows(r, snapshot, i_end - 1),
            snapshot,
            i_end - 1,
            snapshot.len() as int,
        )
    }
}

/// The whole scan: every unordered pair of candidates, in the order of the
/// snapshot, the earlier candidate as the anchor.
pub open spec fn resolve(state: ConversationView, snapshot: Seq<Candidate>) -> Resolution {
    resolve_rows(Resolution { state, events: Seq::empty() }, snapshot, snapshot.len() as int)
}

/// Finds the bearing of `entity_b` from `entity_a`.
pub fn find_quadrant(entity_a: Vec3, entity_b: Vec3) -> (q: Quadrants)
    ensures
        q == find_quadrant_spec(entity_a, entity_b),
{
    if entity_b.y < entity_a.y && entity_b.x > entity_a.x {
        Quadrants::BottomRight
    } else if entity_b.y < entity_a.y && entity_b.x < entity_a.x {
        Quadrants::BottomLeft
    } else if entity_b.y > entity_a.y && entity_b.x > entity_a.x {
        Quadrants::TopRight
    } else if entity_b.y > entity_a.y && entity_b.x < entity_a.x {
        Quadrants::TopLeft
    } else {
        Quadrants::Aligned
    }
}

/// Takes the snapshot of the eligible pets.
pub fn snapshot(pets: &Vec<EtherPet>) -> (candidates: Vec<Candidate>)
    ensures
        candidates@ == snapshot_spec(pets@),
{
    let mut candidates: Vec<Candidate> = Vec::new();
    let mut i: usize = 0;
    while i < pets.len()
        invariant
            i <= pets.len(),
            candidates@ == snapshot_spec(pets@.take(i as int)),
        decreases pets.len() - i,
    {
        proof {
            assert(pets@.take(i + 1).drop_last() == pets@.take(i as int));
        }
        let pet = &pets[i];
        if !pet.active && !pet.interaction_timers.prox_chat_active {
            candidates.push(
                Candidate {
                    entity: pet.entity,
                    position: pet.translation,
                    can_prox_chat: pet.interaction_timers.can_prox_chat,
                },
            );
        }
        i += 1;
    }
    proof {
        assert(pets@.take(pets.len() as int) == pets@);
    }
    candidates
}

/// Performs one step of the scan, for the candidates `a` and `b`.
pub fn resolve_candidates(
    entity_pair_convo_state: &mut EntityPairConversationState,
    events: &mut Vec<ConversationActionEvent>,
    a: Candidate,
    b: Candidate,
)
    ensures
        (Resolution { state: final(entity_pair_convo_state)@, events: final(events)@ })
            == resolve_pair(
            Resolution { state: old(entity_pair_convo_state)@, events: old(events)@ },
            a,
            b,
        ),
{
    if a.entity == b.entity {
        return ;
    }
    if entity_pair_convo_state.is_in_conversation(a.entity)
        || entity_pair_convo_state.is_in_conversation(b.entity) {
        return ;
    }
    let quadrant = find_quadrant(a.position, b.position);
    let found = entity_pair_convo_state.find_pair(a.entity, b.entity);
    if distance_strictly_between(
        a.position,
        b.position,
        ENTITY_CONVO_MIN_DISTANCE,
        ENTITY_CONVO_DISTANCE,
    ) && a.can_prox_chat && b.can_prox_chat {
        if found >= entity_pair_convo_state.pair_entities_in_conversation.len() {
            entity_pair_convo_state.pair_entities_in_conversation.push(
                PairEntityConversationData {
                    entity_a: a.entity,
                    entity_b: b.entity,
                    entity_a_pos: a.position,
                    entity_b_pos: b.position,
                    quadrant,
                    chatting_icon_spawned: false,
                    conversation_http_request_sent: false,
                },
            );
            entity_pair_convo_state.entities_in_conversation.insert(a.entity, true);
            entity_pair_convo_state.entities_in_conversation.insert(b.entity, true);
            events.push(ConversationActionEvent { entity_a: a.entity, entity_b: b.entity });
        }
    } else {
        if found < entity_pair_convo_state.pair_entities_in_conversation.len() {
            entity_pair_convo_state.pair_entities_in_conversation.remove(found);
        }
        entity_pair_convo_state.entities_in_conversation.insert(a.entity, false);
        entity_pair_convo_state.entities_in_conversation.insert(b.entity, false);
    }
}

/// Scans the pets that are free to talk and pairs up those at talking
/// distance. Returns the notifications of the conversations that start, in
/// the order in which they were formed.
pub fn inactive_player_proximity_detection(
    entity_pair_convo_state: &mut EntityPairConversationState,
    pets: &Vec<EtherPet>,
) -> (events: Vec<ConversationActionEvent>)
    ensures
        (Resolution { state: final(entity_pair_convo_state)@, events: events@ }) == resolve(
            old(entity_pair_convo_state)@,
            snapshot_spec(pets@),
        ),
        old(entity_pair_convo_state)@.exclusive() ==> final(entity_pair_convo_state)@.exclusive(),
{
    proof {
        if old(entity_pair_convo_state)@.exclusive() {
            lemma_resolve_exclusive(old(entity_pair_convo_state)@, snapshot_spec(pets@));
        }
    }
    let inactive_players = snapshot(pets);
    let mut events: Vec<ConversationActionEvent> = Vec::new();
    let ghost start = Resolution { state: entity_pair_convo_state@, events: Seq::empty() };
    let n = inactive_players.len();
    let mut i: usize = 0;
    while i < n
        invariant
            i <= n,
            n == inactive_players.len(),
            (Resolution { state: entity_pair_convo_state@, events: events@ }) == resolve_rows(
                start,
                inactive_players@,
                i as int,
            ),
        decreases n - i,
    {
        let ghost row_start = Resolution { state: entity_pair_convo_state@, events: events@ };
        let mut j: usize = i + 1;
        while j < n
            invariant
                i < n,
                i + 1 <= j <= n,
                n == inactive_players.len(),
                (Resolution { state: entity_pair_convo_state@, events: events@ }) == resolve_row(
                    row_start,
                    inactive_players@,
                    i as int,
                    j as int,
                ),
            decreases n - j,
        {
            resolve_candidates(
                entity_pair_convo_state,
                &mut events,
                inactive_players[i],
                inactive_players[j],
            );
            j += 1;
        }
        i += 1;
    }
    events
}

/// Exclusivity survives one step of the scan.
pub proof fn lemma_resolve_pair_exclusive(r: Resolution, a: Candidate, b: Candidate)
    requires
        r.state.exclusive(),
    ensures
        resolve_pair(r, a, b).state.exclusive(),
{
    let v = r.state;
    let w = resolve_pair(r, a, b).state;
    let found = first_joining(v.pairs, a.entity, b.entity, 0);
    lemma_first_joining(v.pairs, a.entity, b.entity, 0);
    if a.entity != b.entity && !v.in_conversation(a.entity) && !v.in_conversation(b.entity) {
        assert(!v.paired(a.entity));
        assert(!v.paired(b.entity));
        if found < v.pairs.len() {
            assert(v.pairs[found].involves(a.entity));
        }
        assert(w.pairs == if may_pair(a, b) {
            v.pairs.push(new_pair(a, b))
        } else {
            v.pairs
        });
        if may_pair(a, b) {
            let p = new_pair(a, b);
            assert forall|i: int, j: int|
                0 <= i < w.pairs.len() && 0 <= j < w.pairs.len() && i != j implies !(
            #[trigger] w.pairs[i]).shares_entity(#[trigger] w.pairs[j]) by {
                if i == v.pairs.len() {
                    assert(v.pairs[j].involves(a.entity) ==> v.paired(a.entity));
                    assert(v.pairs[j].involves(b.entity) ==> v.paired(b.entity));
                } else if j == v.pairs.len() {
                    assert(v.pairs[i].involves(a.entity) ==> v.paired(a.entity));
                    assert(v.pairs[i].involves(b.entity) ==> v.paired(b.entity));
                }
            }
            assert forall|e: Entity| #[trigger] w.in_conversation(e) <==> w.paired(e) by {
                if e == a.entity || e == b.entity {
                    assert(w.pairs[v.pairs.len() as int].involves(e));
                } else {
                    assert(w.in_conversation(e) <==> v.in_conversation(e));
                    if v.paired(e) {
                        let k = choose|k: int|
                            0 <= k < v.pairs.len() && (#[trigger] v.pairs[k]).involves(e);
                        assert(w.pairs[k].involves(e));
                    }
                    if w.paired(e) {
                        let k = choose|k: int|
                            0 <= k < w.pairs.len() && (#[trigger] w.pairs[k]).involves(e);
                        assert(k < v.pairs.len());
                        assert(v.pairs[k].involves(e));
                    }
                }
            }
        } else {
            assert forall|e: Entity| #[trigger] w.in_conversation(e) <==> w.paired(e) by {
                assert(w.in_conversation(e) <==> v.in_conversation(e));
                assert(v.in_conversation(e) <==> v.paired(e));
                assert(w.paired(e) <==> v.paired(e));
            }
        }
    }
}

/// Exclusivity survives the scan of one candidate against those after it.
pub proof fn lemma_resolve_row_exclusive(r: Resolution, snapshot: Seq<Candidate>, i: int, j_end: int)
    requires
        r.state.exclusive(),
    ensures
        resolve_row(r, snapshot, i, j_end).state.exclusive(),
    decreases j_end - i,
{
    if j_end > i + 1 {
        lemma_resolve_row_exclusive(r, snapshot, i, j_end - 1);
        lemma_resolve_pair_exclusive(
            resolve_row(r, snapshot, i, j_end - 1),
            snapshot[i],
            snapshot[j_end - 1],
        );
    }
}

/// Exclusivity survives the scan of any number of rows.
pub proof fn lemma_resolve_rows_exclusive(r: Resolution, snapshot: Seq<Candidate>, i_end: int)
    requires
        r.state.exclusive(),
    ensures
        resolve_rows(r, snapshot, i_end).state.exclusive(),
    decreases i_end,
{
    if i_end > 0 {
        lemma_resolve_rows_exclusive(r, snapshot, i_end - 1);
        lemma_resolve_row_exclusive(
            resolve_rows(r, snapshot, i_end - 1),
            snapshot,
            i_end - 1,
            snapshot.len() as int,
        );
    }
}

/// Exclusivity: a scan that starts from an exclusive record ends in one.
/// After it no pet is in two conversations, and the ledger marks a pet
/// exactly when it is in one.
pub proof fn lemma_resolve_exclusive(state: ConversationView, snapshot: Seq<Candidate>)
    requires
        state.exclusive(),
    ensures
        resolve(state, snapshot).state.exclusive(),
{
    lemma_resolve_rows_exclusive(
        Resolution { state, events: Seq::empty() },
        snapshot,
        snapshot.len() as int,
    );
}

/// The threshold rule. Of two distinct pets that are in no conversation, a
/// step of the scan makes a pair exactly when they stand farther apart than
/// `ENTITY_CONVO_MIN_DISTANCE` and closer than `ENTITY_CONVO_DISTANCE` and
/// both can interact. Then the conversation is recorded with the first as
/// its anchor, the ledger marks both, and a notification is sent. Otherwise
/// no conversation is recorded, neither is marked and nothing is sent.
pub proof fn lemma_pair_forms_iff(r: Resolution, a: Candidate, b: Candidate)
    requires
        r.state.exclusive(),
        a.entity != b.entity,
        !r.state.in_conversation(a.entity),
        !r.state.in_conversation(b.entity),
    ensures
        may_pair(a, b) <==> resolve_pair(r, a, b).state.pairs == r.state.pairs.push(
            new_pair(a, b),
        ),
        may_pair(a, b) <==> resolve_pair(r, a, b).state.in_conversation(a.entity),
        may_pair(a, b) <==> resolve_pair(r, a, b).state.in_conversation(b.entity),
        may_pair(a, b) <==> resolve_pair(r, a, b).events == r.events.push(
            ConversationActionEvent { entity_a: a.entity, entity_b: b.entity },
        ),
        !may_pair(a, b) <==> resolve_pair(r, a, b).state.pairs == r.state.pairs,
        !may_pair(a, b) <==> resolve_pair(r, a, b).events == r.events,
{
    let v = r.state;
    let out = resolve_pair(r, a, b);
    let found = first_joining(v.pairs, a.entity, b.entity, 0);
    lemma_first_joining(v.pairs, a.entity, b.entity, 0);
    assert(!v.paired(a.entity));
    if found < v.pairs.len() {
        assert(v.pairs[found].involves(a.entity));
    }
    if may_pair(a, b) {
        assert(out.state.pairs.len() == v.pairs.len() + 1);
        assert(out.events.len() == r.events.len() + 1);
    } else {
        assert(out.state.pairs.len() == v.pairs.len());
        assert(v.pairs.push(new_pair(a, b)).len() == v.pairs.len() + 1);
        assert(r.events.push(
            ConversationActionEvent { entity_a: a.entity, entity_b: b.entity },
        ).len() == r.events.len() + 1);
    }
}

/// A step of the scan never records a second conversation for two pets that
/// one joins already.
pub proof fn lemma_resolve_pair_keys_unique(r: Resolution, a: Candidate, b: Candidate)
    requires
        r.state.keys_unique(),
    ensures
        resolve_pair(r, a, b).state.keys_unique(),
{
    let v = r.state;
    let w = resolve_pair(r, a, b).state;
    let found = first_joining(v.pairs, a.entity, b.entity, 0);
    lemma_first_joining(v.pairs, a.entity, b.entity, 0);
    if w.pairs != v.pairs {
        if may_pair(a, b) {
            assert(w.pairs == v.pairs.push(new_pair(a, b)));
            assert forall|i: int, j: int|
                0 <= i < w.pairs.len() && 0 <= j < w.pairs.len() && i != j implies !(
            #[trigger] w.pairs[i]).joins((#[trigger] w.pairs[j]).entity_a, w.pairs[j].entity_b) by {
                if i == v.pairs.len() {
                    assert(!v.pairs[j].joins(a.entity, b.entity));
                } else if j == v.pairs.len() {
                    assert(!v.pairs[i].joins(a.entity, b.entity));
                }
            }
        } else {
            assert(w.pairs == v.pairs.remove(found));
            assert forall|i: int, j: int|
                0 <= i < w.pairs.len() && 0 <= j < w.pairs.len() && i != j implies !(
            #[trigger] w.pairs[i]).joins((#[trigger] w.pairs[j]).entity_a, w.pairs[j].entity_b) by {
                let i0 = if i < found {
                    i
                } else {
                    i + 1
                };
                let j0 = if j < found {
                    j
                } else {
                    j + 1
                };
                assert(w.pairs[i] == v.pairs[i0]);
                assert(w.pairs[j] == v.pairs[j0]);
            }
        }
    }
}

/// Uniqueness of conversations survives the scan of one row.
pub proof fn lemma_resolve_row_keys_unique(
    r: Resolution,
    snapshot: Seq<Candidate>,
    i: int,
    j_end: int,
)
    requires
        r.state.keys_unique(),
    ensures
        resolve_row(r, snapshot, i, j_end).state.keys_unique(),
    decreases j_end - i,
{
    if j_end > i + 1 {
        lemma_resolve_row_keys_unique(r, snapshot, i, j_end - 1);
        lemma_resolve_pair_keys_unique(
            resolve_row(r, snapshot, i, j_end - 1),
            snapshot[i],
            snapshot[j_end - 1],
        );
    }
}

/// Uniqueness of conversations survives the scan of any number of rows.
pub proof fn lemma_resolve_rows_keys_unique(r: Resolution, snapshot: Seq<Candidate>, i_end: int)
    requires
        r.state.keys_unique(),
    ensures
        resolve_rows(r, snapshot, i_end).state.keys_unique(),
    decreases i_end,
{
    if i_end > 0 {
        lemma_resolve_rows_keys_unique(r, snapshot, i_end - 1);
        lemma_resolve_row_keys_unique(
            resolve_rows(r, snapshot, i_end - 1),
            snapshot,
            i_end - 1,
            snapshot.len() as int,
        );
    }
}

/// Scanning the same snapshot twice records no conversation twice: if no two
/// conversations join the same two pets before, none do after the second
/// scan, in whatever order the two are named.
pub proof fn lemma_resolve_twice_keys_unique(state: ConversationView, snapshot: Seq<Candidate>)
    requires
        state.keys_unique(),
    ensures
        resolve(state, snapshot).state.keys_unique(),
        resolve(resolve(state, snapshot).state, snapshot).state.keys_unique(),
{
    lemma_resolve_rows_keys_unique(
        Resolution { state, events: Seq::empty() },
        snapshot,
        snapshot.len() as int,
    );
    lemma_resolve_rows_keys_unique(
        Resolution { state: resolve(state, snapshot).state, events: Seq::empty() },
        snapshot,
        snapshot.len() as int,
    );
}

/// Whether the scan has nothing left to do for `a` and `b`: they are the
/// same entity, or one of them is in a conversation, or they may not pair
/// and the ledger has an entry for each.
pub open spec fn settled(v: ConversationView, a: Candidate, b: Candidate) -> bool {
    ||| a.entity == b.entity
    ||| v.in_conversation(a.entity)
    ||| v.in_conversation(b.entity)
    ||| (!may_pair(a, b) && v.ledger.contains_key(a.entity) && v.ledger.contains_key(b.entity))
}

/// A step for two candidates that are settled changes nothing.
pub proof fn lemma_settled_step_is_idle(r: Resolution, a: Candidate, b: Candidate)
    requires
        r.state.exclusive(),
        settled(r.state, a, b),
    ensures
        resolve_pair(r, a, b) == r,
{
    let v = r.state;
    let out = resolve_pair(r, a, b);
    if a.entity != b.entity && !v.in_conversation(a.entity) && !v.in_conversation(b.entity) {
        let found = first_joining(v.pairs, a.entity, b.entity, 0);
        lemma_first_joining(v.pairs, a.entity, b.entity, 0);
        assert(!v.paired(a.entity));
        if found < v.pairs.len() {
            assert(v.pairs[found].involves(a.entity));
        }
        assert(out.state.ledger =~= v.ledger);
        assert(out.state.pairs == v.pairs);
    }
    assert(out.state == v);
}

/// A step settles the two candidates it is made for, and unsettles no
/// others.
pub proof fn lemma_step_settles(r: Resolution, a: Candidate, b: Candidate)
    requires
        r.state.exclusive(),
    ensures
        settled(resolve_pair(r, a, b).state, a, b),
        forall|c: Candidate, d: Candidate| #[trigger]
            settled(r.state, c, d) ==> settled(resolve_pair(r, a, b).state, c, d),
        forall|e: Entity|
            r.state.in_conversation(e) ==> #[trigger] resolve_pair(r, a, b).state.in_conversation(
                e,
            ),
        forall|e: Entity|
            r.state.ledger.contains_key(e) ==> #[trigger] resolve_pair(
                r,
                a,
                b,
            ).state.ledger.contains_key(e),
{
    let v = r.state;
    let w = resolve_pair(r, a, b).state;
    let found = first_joining(v.pairs, a.entity, b.entity, 0);
    lemma_first_joining(v.pairs, a.entity, b.entity, 0);
    if !v.in_conversation(a.entity) {
        assert(!v.paired(a.entity));
        if found < v.pairs.len() {
            assert(v.pairs[found].involves(a.entity));
        }
    }
    assert forall|e: Entity| v.in_conversation(e) implies #[trigger] w.in_conversation(e) by {}
    assert forall|e: Entity| v.ledger.contains_key(e) implies #[trigger] w.ledger.contains_key(
        e,
    ) by {}
    assert forall|c: Candidate, d: Candidate| #[trigger] settled(v, c, d) implies settled(
        w,
        c,
        d,
    ) by {
        if v.in_conversation(c.entity) {
            assert(w.in_conversation(c.entity));
        }
        if v.in_conversation(d.entity) {
            assert(w.in_conversation(d.entity));
        }
        if v.ledger.contains_key(c.entity) {
            assert(w.ledger.contains_key(c.entity));
        }
        if v.ledger.contains_key(d.entity) {
            assert(w.ledger.contains_key(d.entity));
        }
    }
}

/// The scan of one row settles every pair of the row and unsettles none.
pub proof fn lemma_row_settles(r: Resolution, snapshot: Seq<Candidate>, i: int, j_end: int)
    requires
        r.state.exclusive(),
        0 <= i,
        j_end <= snapshot.len(),
    ensures
        resolve_row(r, snapshot, i, j_end).state.exclusive(),
        forall|j: int|
            i < j < j_end ==> settled(
                resolve_row(r, snapshot, i, j_end).state,
                snapshot[i],
                #[trigger] snapshot[j],
            ),
        forall|c: Candidate, d: Candidate| #[trigger]
            settled(r.state, c, d) ==> settled(resolve_row(r, snapshot, i, j_end).state, c, d),
    decreases j_end - i,
{
    if j_end > i + 1 {
        lemma_row_settles(r, snapshot, i, j_end - 1);
        let before = resolve_row(r, snapshot, i, j_end - 1);
        lemma_step_settles(before, snapshot[i], snapshot[j_end - 1]);
        lemma_resolve_pair_exclusive(before, snapshot[i], snapshot[j_end - 1]);
        let after = resolve_row(r, snapshot, i, j_end);
        assert forall|j: int| i < j < j_end implies settled(
            after.state,
            snapshot[i],
            #[trigger] snapshot[j],
        ) by {
            if j < j_end - 1 {
                assert(settled(before.state, snapshot[i], snapshot[j]));
            }
        }
        assert forall|c: Candidate, d: Candidate| #[trigger] settled(r.state, c, d) implies settled(
            after.state,
            c,
            d,
        ) by {
            assert(settled(before.state, c, d));
        }
    }
}

/// The scan of the first `i_end` rows settles every pair of those rows.
pub proof fn lemma_rows_settle(r: Resolution, snapshot: Seq<Candidate>, i_end: int)
    requires
        r.state.exclusive(),
        0 <= i_end <= snapshot.len(),
    ensures
        resolve_rows(r, snapshot, i_end).state.exclusive(),
        forall|i: int, j: int|
            0 <= i < i_end && i < j < snapshot.len() ==> settled(
                resolve_rows(r, snapshot, i_end).state,
                #[trigger] snapshot[i],
                #[trigger] snapshot[j],
            ),
    decreases i_end,
{
    if i_end > 0 {
        lemma_rows_settle(r, snapshot, i_end - 1);
        let before = resolve_rows(r, snapshot, i_end - 1);
        lemma_row_settles(before, snapshot, i_end - 1, snapshot.len() as int);
        let after = resolve_rows(r, snapshot, i_end);
        assert forall|i: int, j: int| 0 <= i < i_end && i < j < snapshot.len() implies settled(
            after.state,
            #[trigger] snapshot[i],
            #[trigger] snapshot[j],
        ) by {
            if i < i_end - 1 {
                assert(settled(before.state, snapshot[i], snapshot[j]));
            }
        }
    }
}

/// The scan of a row whose pairs are all settled changes nothing.
pub proof fn lemma_settled_row_is_idle(r: Resolution, snapshot: Seq<Candidate>, i: int, j_end: int)
    requires
        r.state.exclusive(),
        0 <= i,
        j_end <= snapshot.len(),
        forall|j: int| i < j < j_end ==> settled(r.state, snapshot[i], #[trigger] snapshot[j]),
    ensures
        resolve_row(r, snapshot, i, j_end) == r,
    decreases j_end - i,
{
    if j_end > i + 1 {
        lemma_settled_row_is_idle(r, snapshot, i, j_end - 1);
        assert(settled(r.state, snapshot[i], snapshot[j_end - 1]));
        lemma_settled_step_is_idle(r, snapshot[i], snapshot[j_end - 1]);
    }
}

/// The scan of rows whose pairs are all settled changes nothing.
pub proof fn lemma_settled_rows_are_idle(r: Resolution, snapshot: Seq<Candidate>, i_end: int)
    requires
        r.state.exclusive(),
        0 <= i_end <= snapshot.len(),
        forall|i: int, j: int|
            0 <= i < i_end && i < j < snapshot.len() ==> settled(
                r.state,
                #[trigger] snapshot[i],
                #[trigger] snapshot[j],
            ),
    ensures
        resolve_rows(r, snapshot, i_end) == r,
    decreases i_end,
{
    if i_end > 0 {
        lemma_settled_rows_are_idle(r, snapshot, i_end - 1);
        assert forall|j: int| i_end - 1 < j < snapshot.len() implies settled(
            r.state,
            snapshot[i_end - 1],
            #[trigger] snapshot[j],
        ) by {
            assert(settled(r.state, snapshot[i_end - 1], snapshot[j]));
        }
        lemma_settled_row_is_idle(r, snapshot, i_end - 1, snapshot.len() as int);
    }
}

/// Idempotent pairing. A second scan of an unchanged snapshot changes
/// nothing: it records no conversation, removes none, leaves the ledger as
/// it is and sends no notification.
pub proof fn lemma_resolve_idempotent(state: ConversationView, snapshot: Seq<Candidate>)
    requires
        state.exclusive(),
    ensures
        resolve(resolve(state, snapshot).state, snapshot) == (Resolution {
            state: resolve(state, snapshot).state,
            events: Seq::empty(),
        }),
{
    lemma_rows_settle(
        Resolution { state, events: Seq::empty() },
        snapshot,
        snapshot.len() as int,
    );
    lemma_settled_rows_are_idle(
        Resolution { state: resolve(state, snapshot).state, events: Seq::empty() },
        snapshot,
        snapshot.len() as int,
    );
}

} // verus!
