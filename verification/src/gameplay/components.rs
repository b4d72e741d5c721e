//! The attributes a simulated entity can carry.

use vstd::prelude::*;
use crate::config::{ENTITY_CONVO_COOLDOWN, ENTITY_CONVO_DURATION};
use crate::math::{Vec2, Vec3};
use crate::time::{lemma_total_time_grows, total_time, Timer, TimerMode};

verus! {

/// The direction an entity faces.
#[derive(Clone, Copy, Debug, PartialEq, Eq, Structural)]
pub enum DirectionIntent {
    Left,
    Right,
    Up,
    Down,
}

impl Default for DirectionIntent {
    fn default() -> (d: DirectionIntent)
        ensures
            d == DirectionIntent::Down,
    {
        DirectionIntent::Down
    }
}

/// What an entity is doing, for the sake of its animation.
#[derive(Clone, Copy, Debug, PartialEq, Eq, Structural)]
pub enum GenericActions {
    Idle,
    Walk,
    Attack,
    IntoRest,
    OutOfRest,
    Resting,
    Sleeping,
    Interacting,
    Eating,
    Emote,
}

impl Default for GenericActions {
    fn default() -> (a: GenericActions)
        ensures
            a == GenericActions::Idle,
    {
        GenericActions::Idle
    }
}

#[derive(Clone, Copy, Debug, PartialEq, Eq, Structural)]
pub struct EntityActionState {
    pub action: GenericActions,
}

/// Marks an entity that reacts to a click.
#[derive(Clone, Copy, Debug, PartialEq, Eq, Structural)]
pub struct Clickable;

/// One timer for each animation, setting its frame rate.
#[derive(Clone, Copy, Debug, PartialEq, Eq, Structural)]
pub struct AnimationTimers {
    pub idle_timer: Timer,
    pub walk_timer: Timer,
    pub attack_timer: Timer,
    pub eat_timer: Timer,
    pub emote_timer: Timer,
}

#[derive(Clone, Copy, Debug, PartialEq, Eq, Structural)]
pub struct Animation {
    pub last_direction: DirectionIntent,
    pub current_frame: usize,
    pub frame_count: usize,
}

#[derive(Clone, Copy, Debug, PartialEq, Eq, Structural)]
pub struct Attack {
    pub attack_active: bool,
    pub attack_dmg: i32,
}

#[derive(Clone, Copy, Debug, PartialEq, Eq, Structural)]
pub struct Health {
    pub current: i32,
    pub max: i32,
}

/// A heading and a speed. The speed is in sub-units.
#[derive(Clone, Copy, Debug, PartialEq, Eq, Structural)]
pub struct Movement {
    pub direction: Vec2,
    pub speed: u32,
}

/// The sub-state of a roaming entity. Exactly one holds at a time.
#[derive(Clone, Copy, Debug, PartialEq, Eq, Structural)]
pub enum RoamingPhase {
    /// Walking along the roam direction.
    Roaming,
    /// Standing still for a while.
    Idle,
    /// Eating for a while.
    Eating,
    /// Showing an emotion for a while.
    Emoting,
}

/// The roaming behaviour of an entity: its sub-state, its heading, and an
/// elapsed and a maximal time for each sub-state, in milliseconds.
#[derive(Clone, Copy, Debug, PartialEq, Eq, Structural)]
pub struct Roaming {
    pub phase: RoamingPhase,
    pub roam_direction: Vec3,
    pub roam_time: u64,
    pub roam_max_time: u64,
    pub roam_speed: u32,
    pub idle_time: u64,
    pub idle_max_time: u64,
    pub eating_time: u64,
    pub eating_max_time: u64,
    pub emote_time: u64,
    pub emote_max_time: u64,
}

/// The collision box of an entity, and whether it was hit since the last
/// roaming step.
#[derive(Clone, Copy, Debug, PartialEq, Eq, Structural)]
pub struct BasicEntityCollider {
    pub width: i64,
    pub height: i64,
    pub collided: bool,
}

/// The timers that gate an entity's conversations: a cooldown during which
/// it cannot start one, and the duration of the one it is in.
#[derive(Clone, Copy, Debug, PartialEq, Eq, Structural)]
pub struct InteractionTimers {
    pub prox_chat_cooldown_timer: Timer,
    pub can_prox_chat: bool,
    pub prox_chat_timer: Timer,
    pub prox_chat_active: bool,
}

#[derive(Clone, Copy, Debug, PartialEq, Eq, Structural)]
pub struct ChattingIconButton {
    pub chatting_icon_despawn_timer: Timer,
}

#[derive(Clone, Copy, Debug, PartialEq, Eq, Structural)]
pub struct EmoteIcon {
    pub emote_icon_despawn_timer: Timer,
}

#[derive(Clone, Copy, Debug, PartialEq, Eq, Structural)]
pub struct IconAnimation {
    pub current_frame: usize,
    pub frame_count: usize,
}

impl InteractionTimers {
    /// The timers of an entity that has never talked: it can start a
    /// conversation and is in none.
    pub open spec fn initial() -> InteractionTimers {
        InteractionTimers {
            prox_chat_cooldown_timer: Timer::fresh(ENTITY_CONVO_COOLDOWN, TimerMode::Once),
            can_prox_chat: true,
            prox_chat_timer: Timer::fresh(ENTITY_CONVO_DURATION, TimerMode::Once),
            prox_chat_active: false,
        }
    }

    /// The timers after a request to start a conversation: the entity
    /// becomes active if it can interact, and is left alone if it cannot.
    pub open spec fn activated(self) -> InteractionTimers {
        if self.can_prox_chat {
            InteractionTimers { prox_chat_active: true, ..self }
        } else {
            self
        }
    }

    /// The cooldown timer after `delta` milliseconds: it runs only while the
    /// entity cannot interact.
    pub open spec fn cooldown_after(self, delta: u64) -> Timer {
        if self.can_prox_chat {
            self.prox_chat_cooldown_timer
        } else {
            self.prox_chat_cooldown_timer.ticked(delta)
        }
    }

    /// Whether the entity can interact once the cooldown has been aged.
    pub open spec fn can_after(self, delta: u64) -> bool {
        self.can_prox_chat || self.cooldown_after(delta).finished
    }

    /// The conversation timer after `delta` milliseconds: it runs only while
    /// the entity can interact and is in a conversation.
    pub open spec fn chat_after(self, delta: u64) -> Timer {
        if self.can_after(delta) && self.prox_chat_active {
            self.prox_chat_timer.ticked(delta)
        } else {
            self.prox_chat_timer
        }
    }

    /// Whether the conversation ends on a tick of `delta` milliseconds.
    pub open spec fn completes(self, delta: u64) -> bool {
        self.chat_after(delta).finished
    }

    /// The timers after one tick of `delta` milliseconds.
    ///
    /// The cooldown ages while it is active, and ends by allowing the entity
    /// to interact. The conversation timer ages while the entity can
    /// interact and is active. When it completes, the entity leaves the
    /// conversation and enters its cooldown, and both timers start over.
    pub open spec fn ticked(self, delta: u64) -> InteractionTimers {
        if self.completes(delta) {
            InteractionTimers {
                prox_chat_cooldown_timer: self.cooldown_after(delta).rewound(),
                can_prox_chat: false,
                prox_chat_timer: self.chat_after(delta).rewound(),
                prox_chat_active: false,
            }
        } else {
            InteractionTimers {
                prox_chat_cooldown_timer: self.cooldown_after(delta),
                can_prox_chat: self.can_after(delta),
                prox_chat_timer: self.chat_after(delta),
                prox_chat_active: self.prox_chat_active,
            }
        }
    }

    /// Creates the timers of an entity that has never talked.
    pub fn new() -> (t: InteractionTimers)
        ensures
            t == InteractionTimers::initial(),
    {
        InteractionTimers {
            prox_chat_cooldown_timer: Timer::from_millis(ENTITY_CONVO_COOLDOWN, TimerMode::Once),
            can_prox_chat: true,
            prox_chat_timer: Timer::from_millis(ENTITY_CONVO_DURATION, TimerMode::Once),
            prox_chat_active: false,
        }
    }

    /// Answers a request to start a conversation.
    pub fn activate(&mut self)
        ensures
            *final(self) == old(self).activated(),
    {
        if self.can_prox_chat {
            self.prox_chat_active = true;
        }
    }

    /// Ages the timers by `delta` milliseconds and reports whether the
    /// conversation ended on this tick.
    pub fn tick(&mut self, delta: u64) -> (completed: bool)
        ensures
            *final(self) == old(self).ticked(delta),
            completed == old(self).completes(delta),
    {
        if !self.can_prox_chat {
            self.prox_chat_cooldown_timer.tick(delta);
        }
        if self.prox_chat_cooldown_timer.finished() {
            self.can_prox_chat = true;
        }
        if self.can_prox_chat && self.prox_chat_active {
            self.prox_chat_timer.tick(delta);
        }
        if self.prox_chat_timer.finished() {
            self.prox_chat_active = false;
            self.can_prox_chat = false;
            self.prox_chat_timer.reset();
            self.prox_chat_cooldown_timer.reset();
            true
        } else {
            false
        }
    }
}

impl InteractionTimers {
    /// The timers after one tick for each of `deltas`, in order.
    pub open spec fn aged(self, deltas: Seq<u64>) -> InteractionTimers
        decreases deltas.len(),
    {
        if deltas.len() == 0 {
            self
        } else {
            self.aged(deltas.drop_last()).ticked(deltas.last())
        }
    }

    /// An entity that has just entered a conversation: it can interact, is
    /// active, and its conversation timer is fresh.
    pub open spec fn entering_conversation(self) -> bool {
        &&& self.can_prox_chat
        &&& self.prox_chat_active
        &&& self.prox_chat_timer == Timer::fresh(self.prox_chat_timer.duration, TimerMode::Once)
    }

    /// An entity that has just entered its cooldown: it cannot interact, is
    /// not active, and both of its timers are fresh.
    pub open spec fn entering_cooldown(self) -> bool {
        &&& !self.can_prox_chat
        &&& !self.prox_chat_active
        &&& self.prox_chat_timer == Timer::fresh(self.prox_chat_timer.duration, TimerMode::Once)
        &&& self.prox_chat_cooldown_timer == Timer::fresh(
            self.prox_chat_cooldown_timer.duration,
            TimerMode::Once,
        )
    }

    /// While the ticks of a conversation add up to less than its duration,
    /// the entity stays active and only its conversation timer moves: it
    /// shows the time accumulated so far.
    pub proof fn lemma_conversation_lasts(self, deltas: Seq<u64>)
        requires
            self.entering_conversation(),
            total_time(deltas) < self.prox_chat_timer.duration,
        ensures
            self.aged(deltas) == (InteractionTimers {
                prox_chat_timer: Timer {
                    elapsed: total_time(deltas) as u64,
                    ..self.prox_chat_timer
                },
                ..self
            }),
        decreases deltas.len(),
    {
        lemma_total_time_grows(deltas);
        if deltas.len() > 0 {
            let before = self.aged(deltas.drop_last());
            self.lemma_conversation_lasts(deltas.drop_last());
            lemma_total_time_grows(deltas.drop_last());
            assert(before.prox_chat_timer.ticked(deltas.last()).elapsed == total_time(deltas));
            assert(!before.completes(deltas.last()));
        }
    }

    /// On the tick that brings the accumulated time of a conversation to its
    /// duration, the entity leaves the conversation and enters its cooldown.
    pub proof fn lemma_conversation_ends(self, deltas: Seq<u64>)
        requires
            self.entering_conversation(),
            self.prox_chat_cooldown_timer.mode == TimerMode::Once,
            deltas.len() > 0,
            total_time(deltas.drop_last()) < self.prox_chat_timer.duration <= total_time(deltas),
        ensures
            self.aged(deltas).entering_cooldown(),
            self.aged(deltas).prox_chat_timer.duration == self.prox_chat_timer.duration,
            self.aged(deltas).prox_chat_cooldown_timer == self.prox_chat_cooldown_timer.rewound(),
    {
        let before = self.aged(deltas.drop_last());
        self.lemma_conversation_lasts(deltas.drop_last());
        lemma_total_time_grows(deltas.drop_last());
        assert(before.completes(deltas.last()));
    }

    /// While the ticks of a cooldown add up to less than its duration, the
    /// entity cannot interact and only its cooldown timer moves.
    pub proof fn lemma_cooldown_lasts(self, deltas: Seq<u64>)
        requires
            self.entering_cooldown(),
            total_time(deltas) < self.prox_chat_cooldown_timer.duration,
        ensures
            self.aged(deltas) == (InteractionTimers {
                prox_chat_cooldown_timer: Timer {
                    elapsed: total_time(deltas) as u64,
                    ..self.prox_chat_cooldown_timer
                },
                ..self
            }),
        decreases deltas.len(),
    {
        lemma_total_time_grows(deltas);
        if deltas.len() > 0 {
            let before = self.aged(deltas.drop_last());
            self.lemma_cooldown_lasts(deltas.drop_last());
            lemma_total_time_grows(deltas.drop_last());
            assert(before.cooldown_after(deltas.last()).elapsed == total_time(deltas));
            assert(!before.completes(deltas.last()));
        }
    }

    /// On the tick that brings the accumulated time of a cooldown to its
    /// duration, the entity can interact again, and is still not active.
    pub proof fn lemma_cooldown_ends(self, deltas: Seq<u64>)
        requires
            self.entering_cooldown(),
            deltas.len() > 0,
            total_time(deltas.drop_last()) < self.prox_chat_cooldown_timer.duration
                <= total_time(deltas),
        ensures
            self.aged(deltas).can_prox_chat,
            !self.aged(deltas).prox_chat_active,
    {
        let before = self.aged(deltas.drop_last());
        self.lemma_cooldown_lasts(deltas.drop_last());
        lemma_total_time_grows(deltas.drop_last());
        assert(before.cooldown_after(deltas.last()).finished);
    }

    /// The cycle closes: an entity that enters a conversation reaches its
    /// cooldown exactly when the ticks `talking` have added up to the
    /// conversation's duration, and can interact again exactly when the
    /// ticks `resting` that follow have added up to the cooldown's duration.
    pub proof fn lemma_cycle_closes(self, talking: Seq<u64>, resting: Seq<u64>)
        requires
            self.entering_conversation(),
            self.prox_chat_cooldown_timer.mode == TimerMode::Once,
            talking.len() > 0,
            total_time(talking.drop_last()) < self.prox_chat_timer.duration <= total_time(talking),
            resting.len() > 0,
            total_time(resting.drop_last()) < self.prox_chat_cooldown_timer.duration
                <= total_time(resting),
        ensures
            self.aged(talking.drop_last()).prox_chat_active,
            !self.aged(talking).can_prox_chat,
            !self.aged(talking).prox_chat_active,
            !self.aged(talking).aged(resting.drop_last()).can_prox_chat,
            self.aged(talking).aged(resting).can_prox_chat,
            !self.aged(talking).aged(resting).prox_chat_active,
    {
        self.lemma_conversation_lasts(talking.drop_last());
        self.lemma_conversation_ends(talking);
        let cooling = self.aged(talking);
        cooling.lemma_cooldown_lasts(resting.drop_last());
        cooling.lemma_cooldown_ends(resting);
    }
}

} // verus!
