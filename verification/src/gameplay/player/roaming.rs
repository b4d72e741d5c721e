//! The roaming behaviour: a pet that is not talking walks in a direction of
//! its own, now and then picks a new one at random, and pauses when it runs
//! into something.

use vstd::prelude::*;
use crate::gameplay::components::{
    Animation, BasicEntityCollider, DirectionIntent, EntityActionState, GenericActions, Roaming,
    RoamingPhase,
};
use crate::gameplay::player::components::EtherPet;
use crate::gameplay::player::convergence::all_in_world;
use crate::gameplay::tile::systems::{basic_wall_collision_check, is_blocked};
use crate::math::{
    abs_spec, div_toward_zero, lemma_displaced_saturated, travelled, travelled_spec,
    unit_component_spec, unit_vector, Vec3, RATE_LIMIT,
};

verus! {

/// The generator of random numbers of the current thread.
#[verifier::external_type_specification]
#[verifier::external_body]
pub struct ExThreadRng(rand::rngs::ThreadRng);

/// What chance decides when a pet reconsiders its direction: whether it
/// holds still for this tick, and if not, the two coordinates of a random
/// vector, each between `-1000` and `1000`.
#[derive(Clone, Copy, Debug, PartialEq, Eq, Structural)]
pub struct RoamDraw {
    pub hold: bool,
    pub x: i64,
    pub y: i64,
}

impl RoamDraw {
    /// Both coordinates lie between `-1000` and `1000`.
    pub open spec fn in_range(self) -> bool {
        -1000 <= self.x <= 1000 && -1000 <= self.y <= 1000
    }
}

/// Calls `rand::thread_rng`, which hands out the generator of the current
/// thread. Nothing is claimed of it. It stops the program only if the
/// operating system cannot seed the generator.
#[verifier::external_body]
fn thread_rng() -> rand::rngs::ThreadRng {
    rand::thread_rng()
}

/// Calls `rand::Rng::gen_ratio` with the ratio 3 to 10, which is `true` with
/// probability three tenths. Nothing is claimed of the outcome.
#[verifier::external_body]
fn draw_hold(rng: &mut rand::rngs::ThreadRng) -> bool {
    rand::Rng::gen_ratio(rng, 3, 10)
}

/// Calls `rand::Rng::gen_range` on the range from `-1000` to `1000`, ends
/// included. The claim is that the outcome lies in that range.
#[verifier::external_body]
fn draw_coordinate(rng: &mut rand::rngs::ThreadRng) -> (v: i64)
    ensures
        -1000 <= v <= 1000,
{
    rand::Rng::gen_range(rng, -1000i64..=1000i64)
}

/// The unit vector along the planar vector `(x, y)`, on layer zero.
pub open spec fn heading_spec(x: int, y: int) -> Vec3 {
    Vec3 {
        x: unit_component_spec(x, x, y) as i64,
        y: unit_component_spec(y, x, y) as i64,
        z: 0,
    }
}

/// The way a pet faces when it walks along `direction`: sideways when the
/// direction is at least as wide as it is high, else up or down, and down
/// when the direction is zero.
pub open spec fn facing_spec(direction: Vec3) -> DirectionIntent {
    if abs_spec(direction.y as int) <= abs_spec(direction.x as int) && direction.x > 0 {
        DirectionIntent::Right
    } else if abs_spec(direction.y as int) <= abs_spec(direction.x as int) && direction.x < 0 {
        DirectionIntent::Left
    } else if direction.y > 0 {
        DirectionIntent::Up
    } else {
        DirectionIntent::Down
    }
}

/// The place a pet at `position` reaches in `delta` milliseconds when it
/// walks along `direction` at `speed` tiles per second, kept within the
/// world.
pub open spec fn roam_target_spec(position: Vec3, direction: Vec3, speed: u32, delta: u64) -> Vec3 {
    position.displaced(
        div_toward_zero(direction.x * speed * 16 * delta, 1_000_000),
        div_toward_zero(direction.y * speed * 16 * delta, 1_000_000),
        div_toward_zero(direction.z * speed * 16 * delta, 1_000_000),
    )
}

impl EtherPet {
    /// Whether the roaming behaviour applies: the pet is neither steered by
    /// hand nor in a conversation.
    pub open spec fn roams(self) -> bool {
        !self.active && !self.interaction_timers.prox_chat_active
    }

    /// The pet after a tick in one of the three holding phases: the time of
    /// the phase accumulates, and once it exceeds its maximum the pet returns
    /// to roaming and the time starts over.
    pub open spec fn held(self, delta: u64) -> EtherPet {
        match self.roaming.phase {
            RoamingPhase::Emoting => {
                let time = self.roaming.emote_time.saturating_add(delta);
                let over = time > self.roaming.emote_max_time;
                EtherPet {
                    action_state: EntityActionState { action: GenericActions::Emote },
                    roaming: Roaming {
                        phase: if over {
                            RoamingPhase::Roaming
                        } else {
                            RoamingPhase::Emoting
                        },
                        emote_time: if over {
                            0
                        } else {
                            time
                        },
                        ..self.roaming
                    },
                    ..self
                }
            },
            RoamingPhase::Eating => {
                let time = self.roaming.eating_time.saturating_add(delta);
                let over = time > self.roaming.eating_max_time;
                EtherPet {
                    action_state: EntityActionState { action: GenericActions::Eating },
                    roaming: Roaming {
                        phase: if over {
                            RoamingPhase::Roaming
                        } else {
                            RoamingPhase::Eating
                        },
                        eating_time: if over {
                            0
                        } else {
                            time
                        },
                        ..self.roaming
                    },
                    ..self
                }
            },
            RoamingPhase::Idle => {
                let time = self.roaming.idle_time.saturating_add(delta);
                let over = time > self.roaming.idle_max_time;
                EtherPet {
                    action_state: EntityActionState { action: GenericActions::Idle },
                    roaming: Roaming {
                        phase: if over {
                            RoamingPhase::Roaming
                        } else {
                            RoamingPhase::Idle
                        },
                        idle_time: if over {
                            0
                        } else {
                            time
                        },
                        ..self.roaming
                    },
                    ..self
                }
            },
            RoamingPhase::Roaming => self,
        }
    }

    /// The place the pet would reach on this tick along its roam direction.
    pub open spec fn roam_target(self, delta: u64) -> Vec3 {
        roam_target_spec(
            self.translation,
            self.roaming.roam_direction,
            self.roaming.roam_speed,
            delta,
        )
    }

    /// Whether a roaming pet reconsiders its direction on this tick: it has
    /// roamed, eaten or emoted for too long, it has no direction, the place
    /// ahead is blocked, or it has collided.
    pub open spec fn reconsiders(self, delta: u64, walls: Seq<Vec3>) -> bool {
        ||| self.roaming.roam_time.saturating_add(delta) > self.roaming.roam_max_time
        ||| self.roaming.eating_time > self.roaming.eating_max_time
        ||| self.roaming.emote_time > self.roaming.emote_max_time
        ||| self.roaming.roam_direction == Vec3::zero_spec()
        ||| is_blocked(walls, self.roam_target(delta))
        ||| self.collider.collided
    }

    /// Whether the pet draws on chance on this tick.
    pub open spec fn draws(self, delta: u64, walls: Seq<Vec3>) -> bool {
        self.roams() && self.roaming.phase == RoamingPhase::Roaming && self.reconsiders(
            delta,
            walls,
        )
    }

    /// The pet after it has turned to the heading that chance drew: it
    /// walks, faces along the heading, and its roam time starts over.
    pub open spec fn turned(self, draw: RoamDraw) -> EtherPet {
        EtherPet {
            action_state: EntityActionState { action: GenericActions::Walk },
            animation: Animation {
                last_direction: facing_spec(heading_spec(draw.x as int, draw.y as int)),
                ..self.animation
            },
            roaming: Roaming {
                roam_direction: heading_spec(draw.x as int, draw.y as int),
                roam_time: 0,
                ..self.roaming
            },
            ..self
        }
    }

    /// The pet after the move of this tick has been applied: if the place
    /// ahead is free and the pet has not collided, it goes there and walks;
    /// else it stays and turns idle. Either way the collision is forgotten.
    pub open spec fn moved(self, delta: u64, walls: Seq<Vec3>) -> EtherPet {
        if !is_blocked(walls, self.roam_target(delta)) && !self.collider.collided {
            EtherPet {
                translation: self.roam_target(delta),
                action_state: EntityActionState { action: GenericActions::Walk },
                collider: BasicEntityCollider { collided: false, ..self.collider },
                ..self
            }
        } else {
            EtherPet {
                action_state: EntityActionState { action: GenericActions::Idle },
                roaming: Roaming { phase: RoamingPhase::Idle, ..self.roaming },
                collider: BasicEntityCollider { collided: false, ..self.collider },
                ..self
            }
        }
    }

    /// The pet with the time of this tick added to its roam time.
    pub open spec fn clocked(self, delta: u64) -> EtherPet {
        EtherPet {
            roaming: Roaming {
                roam_time: self.roaming.roam_time.saturating_add(delta),
                ..self.roaming
            },
            ..self
        }
    }

    /// The pet after one tick of the roaming behaviour, given what chance
    /// drew.
    ///
    /// A pet that is steered by hand or in a conversation is left alone. A
    /// pet in a holding phase waits. A roaming pet adds the tick to its roam
    /// time. If it reconsiders its direction, it either holds still for this
    /// tick, or turns to the heading drawn; then, unless it held still, the
    /// move along its heading is applied.
    pub open spec fn roamed(self, delta: u64, walls: Seq<Vec3>, draw: RoamDraw) -> EtherPet {
        if !self.roams() {
            self
        } else if self.roaming.phase != RoamingPhase::Roaming {
            self.held(delta)
        } else if self.reconsiders(delta, walls) {
            if draw.hold {
                self.clocked(delta)
            } else {
                self.clocked(delta).turned(draw).moved(delta, walls)
            }
        } else {
            self.clocked(delta).moved(delta, walls)
        }
    }
}

/// Whether `after` is what one tick of the roaming behaviour can make of
/// `before`, for some outcome of chance.
pub open spec fn roamed_by_chance(
    before: EtherPet,
    after: EtherPet,
    delta: u64,
    walls: Seq<Vec3>,
) -> bool {
    exists|draw: RoamDraw| draw.in_range() && after == #[trigger] before.roamed(delta, walls, draw)
}

/// The heading along the planar vector `(x, y)`.
pub fn heading(x: i64, y: i64) -> (direction: Vec3)
    requires
        -1000 <= x <= 1000,
        -1000 <= y <= 1000,
    ensures
        direction == heading_spec(x as int, y as int),
        direction.is_direction(),
{
    let unit = unit_vector(x, y);
    Vec3 { x: unit.0, y: unit.1, z: 0 }
}

/// The way a pet faces when it walks along `direction`.
pub fn facing(direction: Vec3) -> (d: DirectionIntent)
    ensures
        d == facing_spec(direction),
{
    let wide: i128 = if direction.x < 0 {
        -(direction.x as i128)
    } else {
        direction.x as i128
    };
    let high: i128 = if direction.y < 0 {
        -(direction.y as i128)
    } else {
        direction.y as i128
    };
    if high <= wide && direction.x > 0 {
        DirectionIntent::Right
    } else if high <= wide && direction.x < 0 {
        DirectionIntent::Left
    } else if direction.y > 0 {
        DirectionIntent::Up
    } else {
        DirectionIntent::Down
    }
}

/// The rate at which a coordinate changes for a pet that walks along a
/// direction with this component at `speed` tiles per second.
fn roam_rate(component: i64, speed: u32) -> (rate: i128)
    ensures
        rate == component * speed * 16,
        -RATE_LIMIT <= rate <= RATE_LIMIT,
{
    let c: i128 = component as i128;
    let s: i128 = speed as i128;
    assert(-0x8000_0000_0000_0000 * 0x1_0000_0000 <= c * s <= 0x8000_0000_0000_0000
        * 0x1_0000_0000) by (nonlinear_arith)
        requires
            -0x8000_0000_0000_0000 <= c <= 0x8000_0000_0000_0000,
            0 <= s < 0x1_0000_0000,
    ;
    c * s * 16
}

/// The place a pet at `position` reaches in `delta` milliseconds when it
/// walks along `direction` at `speed` tiles per second.
pub fn roam_target(position: Vec3, direction: Vec3, speed: u32, delta: u64) -> (target: Vec3)
    ensures
        target == roam_target_spec(position, direction, speed, delta),
        target.in_world(),
{
    let dx = travelled(roam_rate(direction.x, speed), delta);
    let dy = travelled(roam_rate(direction.y, speed), delta);
    let dz = travelled(roam_rate(direction.z, speed), delta);
    proof {
        lemma_displaced_saturated(
            position,
            travelled_spec(direction.x * speed * 16, delta),
            travelled_spec(direction.y * speed * 16, delta),
            travelled_spec(direction.z * speed * 16, delta),
        );
    }
    position.displace(dx, dy, dz)
}

impl EtherPet {
    /// Decides whether the pet draws on chance on this tick.
    pub fn needs_draw(&self, delta: u64, walls: &Vec<Vec3>) -> (b: bool)
        ensures
            b == self.draws(delta, walls@),
    {
        if self.active || self.interaction_timers.prox_chat_active {
            return false;
        }
        match self.roaming.phase {
            RoamingPhase::Roaming => {},
            _ => {
                return false;
            },
        }
        let target = roam_target(
            self.translation,
            self.roaming.roam_direction,
            self.roaming.roam_speed,
            delta,
        );
        self.roaming.roam_time.saturating_add(delta) > self.roaming.roam_max_time
            || self.roaming.eating_time > self.roaming.eating_max_time || self.roaming.emote_time
            > self.roaming.emote_max_time || self.roaming.roam_direction.is_zero()
            || !basic_wall_collision_check(target, walls) || self.collider.collided
    }

    /// Waits for one tick in a holding phase.
    fn hold(&mut self, delta: u64)
        ensures
            *final(self) == old(self).held(delta),
    {
        match self.roaming.phase {
            RoamingPhase::Emoting => {
                self.action_state.action = GenericActions::Emote;
                self.roaming.emote_time = self.roaming.emote_time.saturating_add(delta);
                if self.roaming.emote_time > self.roaming.emote_max_time {
                    self.roaming.phase = RoamingPhase::Roaming;
                    self.roaming.emote_time = 0;
                }
            },
            RoamingPhase::Eating => {
                self.action_state.action = GenericActions::Eating;
                self.roaming.eating_time = self.roaming.eating_time.saturating_add(delta);
                if self.roaming.eating_time > self.roaming.eating_max_time {
                    self.roaming.phase = RoamingPhase::Roaming;
                    self.roaming.eating_time = 0;
                }
            },
            RoamingPhase::Idle => {
                self.action_state.action = GenericActions::Idle;
                self.roaming.idle_time = self.roaming.idle_time.saturating_add(delta);
                if self.roaming.idle_time > self.roaming.idle_max_time {
                    self.roaming.phase = RoamingPhase::Roaming;
                    self.roaming.idle_time = 0;
                }
            },
            RoamingPhase::Roaming => {},
        }
    }

    /// Applies the move of this tick.
    fn apply_move(&mut self, delta: u64, walls: &Vec<Vec3>)
        ensures
            *final(self) == old(self).moved(delta, walls@),
    {
        let target = roam_target(
            self.translation,
            self.roaming.roam_direction,
            self.roaming.roam_speed,
            delta,
        );
        if basic_wall_collision_check(target, walls) && !self.collider.collided {
            self.translation = target;
            self.action_state.action = GenericActions::Walk;
        } else {
            self.roaming.phase = RoamingPhase::Idle;
            self.action_state.action = GenericActions::Idle;
        }
        self.collider.collided = false;
    }

    /// Advances the pet by one tick of the roaming behaviour, given what
    /// chance drew. The pet never moves to a place that is blocked.
    pub fn roam(&mut self, delta: u64, walls: &Vec<Vec3>, draw: RoamDraw)
        requires
            draw.in_range(),
        ensures
            *final(self) == old(self).roamed(delta, walls@, draw),
            old(self).translation.in_world() ==> final(self).translation.in_world(),
            final(self).translation == old(self).translation || !is_blocked(
                walls@,
                final(self).translation,
            ),
    {
        if self.active || self.interaction_timers.prox_chat_active {
            return ;
        }
        match self.roaming.phase {
            RoamingPhase::Roaming => {},
            _ => {
                self.hold(delta);
                return ;
            },
        }
        let reconsider = self.needs_draw(delta, walls);
        self.roaming.roam_time = self.roaming.roam_time.saturating_add(delta);
        if reconsider {
            if draw.hold {
                return ;
            }
            self.roaming.roam_direction = heading(draw.x, draw.y);
            self.roaming.roam_time = 0;
            self.animation.last_direction = facing(self.roaming.roam_direction);
            self.action_state.action = GenericActions::Walk;
        }
        self.apply_move(delta, walls);
    }
}

/// Roaming containment. Whatever chance draws, a tick of the roaming
/// behaviour leaves the pet where it is or takes it to a place that no
/// obstacle blocks.
pub proof fn lemma_roaming_contained(pet: EtherPet, delta: u64, walls: Seq<Vec3>, draw: RoamDraw)
    ensures
        pet.roamed(delta, walls, draw).translation == pet.translation || !is_blocked(
            walls,
            pet.roamed(delta, walls, draw).translation,
        ),
{
}

/// Runs one tick of the roaming behaviour for every pet, drawing on chance
/// where a pet reconsiders its direction.
pub fn inactive_player_roaming_system(delta: u64, walls: &Vec<Vec3>, pets: &mut Vec<EtherPet>)
    ensures
        final(pets)@.len() == old(pets)@.len(),
        forall|i: int|
            0 <= i < old(pets)@.len() ==> roamed_by_chance(
                old(pets)@[i],
                #[trigger] final(pets)@[i],
                delta,
                walls@,
            ),
        all_in_world(old(pets)@) ==> all_in_world(final(pets)@),
        forall|i: int|
            0 <= i < old(pets)@.len() ==> (#[trigger] final(pets)@[i]).translation == old(
                pets,
            )@[i].translation || !is_blocked(walls@, final(pets)@[i].translation),
{
    let ghost pets0 = pets@;
    let mut rng = thread_rng();
    let n = pets.len();
    let mut i: usize = 0;
    while i < n
        invariant
            i <= n,
            n == pets@.len(),
            pets0.len() == n,
            all_in_world(pets0) ==> all_in_world(pets@),
            forall|j: int| i <= j < n ==> #[trigger] pets@[j] == pets0[j],
            forall|j: int|
                0 <= j < i ==> roamed_by_chance(pets0[j], #[trigger] pets@[j], delta, walls@),
            forall|j: int|
                0 <= j < i ==> (#[trigger] pets@[j]).translation == pets0[j].translation
                    || !is_blocked(walls@, pets@[j].translation),
        decreases n - i,
    {
        assert(pets@[i as int] == pets0[i as int]);
        let mut draw = RoamDraw { hold: false, x: 0, y: 0 };
        if pets[i].needs_draw(delta, walls) {
            draw.hold = draw_hold(&mut rng);
            if !draw.hold {
                draw.x = draw_coordinate(&mut rng);
                draw.y = draw_coordinate(&mut rng);
            }
        }
        let ghost before = pets@;
        pets[i].roam(delta, walls, draw);
        proof {
            assert(pets@[i as int] == pets0[i as int].roamed(delta, walls@, draw));
            assert forall|j: int| 0 <= j < i + 1 implies roamed_by_chance(
                pets0[j],
                #[trigger] pets@[j],
                delta,
                walls@,
            ) by {
                if j < i {
                    assert(pets@[j] == before[j]);
                }
            }
        }
        i += 1;
    }
}

} // verus!
