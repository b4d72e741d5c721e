//! The systems that steer, confine and animate the pets, together with the
//! names of the systems that live in the sibling modules.

use vstd::prelude::*;
use crate::commands::Entity;
use crate::gameplay::components::{
    Animation, AnimationTimers, DirectionIntent, EntityActionState, GenericActions,
};
use crate::gameplay::player::components::EtherPet;
use crate::gameplay::state::components::{CameraState, GameState};
use crate::gameplay::tile::systems::{
    basic_wall_collision_check, boxes_overlap, collide, is_blocked, tile_extent,
};
use crate::math::{
    div_toward_zero, lemma_displaced_saturated, travelled, travelled_spec, Vec2, Vec3, RATE_LIMIT,
};

pub use crate::gameplay::player::chatting::{
    chatting_icon_on_hover, chatting_icon_spawner, chatting_icon_tick,
};
pub use crate::gameplay::player::convergence::pair_entity_convergence_system;
pub use crate::gameplay::player::conversation::remove_entity_from_conversation;
pub use crate::gameplay::player::emote::{
    emote_event, emote_icon_tick, emote_movement_system, get_emotion_index, spawn_emote,
};
pub use crate::gameplay::player::interaction::{
    inactive_player_proximity_detection_event, tick_player_interaction_timers,
};
pub use crate::gameplay::player::pairing::{find_quadrant, inactive_player_proximity_detection};
pub use crate::gameplay::player::roaming::inactive_player_roaming_system;
pub use crate::gameplay::player::spawner::player_spawner;

verus! {

/// Farthest a pet may stand from the centre of the screen along the
/// horizontal axis: half the width of the screen, 1600 units, less half the
/// size of a pet, 16 units.
pub const SCREEN_REACH_X: i64 = 792_000;

/// Farthest a pet may stand from the centre of the screen along the
/// vertical axis: half the height of the screen, 960 units, less half the
/// size of a pet.
pub const SCREEN_REACH_Y: i64 = 472_000;

/// A coordinate kept between `-reach` and `reach`.
pub open spec fn clamp_spec(v: i64, reach: i64) -> i64 {
    if v < -reach {
        (-reach) as i64
    } else if v > reach {
        reach
    } else {
        v
    }
}

/// A position kept on the screen. The layer does not change.
pub open spec fn on_screen_spec(translation: Vec3) -> Vec3 {
    Vec3 {
        x: clamp_spec(translation.x, SCREEN_REACH_X),
        y: clamp_spec(translation.y, SCREEN_REACH_Y),
        z: translation.z,
    }
}

/// Keeps a coordinate between `-reach` and `reach`.
fn clamp(v: i64, reach: i64) -> (r: i64)
    requires
        0 <= reach,
    ensures
        r == clamp_spec(v, reach),
{
    if v < -reach {
        -reach
    } else if v > reach {
        reach
    } else {
        v
    }
}

/// Keeps the pet on the screen, if it is the only one.
pub fn player_confinement_system(pets: &mut Vec<EtherPet>)
    ensures
        final(pets)@.len() == old(pets)@.len(),
        old(pets)@.len() != 1 ==> final(pets)@ == old(pets)@,
        old(pets)@.len() == 1 ==> final(pets)@[0] == (EtherPet {
            translation: on_screen_spec(old(pets)@[0].translation),
            ..old(pets)@[0]
        }),
{
    if pets.len() == 1 {
        let translation = pets[0].translation;
        pets[0].translation = Vec3 {
            x: clamp(translation.x, SCREEN_REACH_X),
            y: clamp(translation.y, SCREEN_REACH_Y),
            z: translation.z,
        };
    }
}

impl EtherPet {
    /// The pet after it has moved along its heading for `delta`
    /// milliseconds, at its speed in sub-units per second.
    pub open spec fn carried(self, delta: u64) -> EtherPet {
        EtherPet {
            translation: self.translation.displaced(
                div_toward_zero(
                    self.movement.direction.x * self.movement.speed * delta,
                    1_000_000,
                ),
                div_toward_zero(
                    self.movement.direction.y * self.movement.speed * delta,
                    1_000_000,
                ),
                0,
            ),
            ..self
        }
    }

    /// Moves the pet along its heading for `delta` milliseconds.
    pub fn carry(&mut self, delta: u64)
        ensures
            *final(self) == old(self).carried(delta),
    {
        let dx = travelled(heading_rate(self.movement.direction.x, self.movement.speed), delta);
        let dy = travelled(heading_rate(self.movement.direction.y, self.movement.speed), delta);
        proof {
            lemma_displaced_saturated(
                self.translation,
                travelled_spec(self.movement.direction.x * self.movement.speed, delta),
                travelled_spec(self.movement.direction.y * self.movement.speed, delta),
                0,
            );
        }
        self.translation = self.translation.displace(dx, dy, 0);
    }
}

/// The rate at which a coordinate changes for a pet that is carried along a
/// heading with this component at `speed`.
fn heading_rate(component: i64, speed: u32) -> (rate: i128)
    ensures
        rate == component * speed,
        -RATE_LIMIT <= rate <= RATE_LIMIT,
{
    let c: i128 = component as i128;
    let s: i128 = speed as i128;
    assert(-0x8000_0000_0000_0000 * 0x1_0000_0000 <= c * s <= 0x8000_0000_0000_0000
        * 0x1_0000_0000) by (nonlinear_arith)
        requires
            -0x8000_0000_0000_0000 <= c <= 0x8000_0000_0000_0000,
            0 <= s < 0x1_0000_0000,
    ;
    c * s
}

/// Moves every pet along its heading for `delta` milliseconds.
pub fn player_movement_system(delta: u64, pets: &mut Vec<EtherPet>)
    ensures
        final(pets)@.len() == old(pets)@.len(),
        forall|i: int|
            0 <= i < old(pets)@.len() ==> #[trigger] final(pets)@[i] == old(pets)@[i].carried(delta),
{
    let n = pets.len();
    let mut i: usize = 0;
    while i < n
        invariant
            i <= n,
            n == pets@.len(),
            n == old(pets)@.len(),
            forall|j: int| 0 <= j < i ==> #[trigger] pets@[j] == old(pets)@[j].carried(delta),
            forall|j: int| i <= j < n ==> #[trigger] pets@[j] == old(pets)@[j],
        decreases n - i,
    {
        assert(pets@[i as int] == old(pets)@[i as int]);
        pets[i].carry(delta);
        i += 1;
    }
}

/// The first cell of the row of the sheet that shows a pet facing
/// `direction` and doing `action`.
pub open spec fn base_index_spec(direction: DirectionIntent, action: GenericActions) -> usize {
    match direction {
        DirectionIntent::Down => match action {
            GenericActions::Idle => 0,
            GenericActions::Walk => 32,
            GenericActions::Attack => 96,
            _ => 0,
        },
        DirectionIntent::Up => match action {
            GenericActions::Idle => 8,
            GenericActions::Walk => 40,
            GenericActions::Attack => 104,
            _ => 0,
        },
        DirectionIntent::Left => match action {
            GenericActions::Idle => 16,
            GenericActions::Walk => 56,
            GenericActions::Attack => 112,
            _ => 0,
        },
        DirectionIntent::Right => match action {
            GenericActions::Idle => 24,
            GenericActions::Walk => 48,
            GenericActions::Attack => 120,
            _ => 0,
        },
    }
}

/// Finds the first cell of the row of the sheet for a direction and an
/// action.
pub fn base_index(direction: DirectionIntent, action: GenericActions) -> (index: usize)
    ensures
        index == base_index_spec(direction, action),
        index <= 120,
{
    match direction {
        DirectionIntent::Down => match action {
            GenericActions::Idle => 0,
            GenericActions::Walk => 32,
            GenericActions::Attack => 96,
            _ => 0,
        },
        DirectionIntent::Up => match action {
            GenericActions::Idle => 8,
            GenericActions::Walk => 40,
            GenericActions::Attack => 104,
            _ => 0,
        },
        DirectionIntent::Left => match action {
            GenericActions::Idle => 16,
            GenericActions::Walk => 56,
            GenericActions::Attack => 112,
            _ => 0,
        },
        DirectionIntent::Right => match action {
            GenericActions::Idle => 24,
            GenericActions::Walk => 48,
            GenericActions::Attack => 120,
            _ => 0,
        },
    }
}

impl Animation {
    /// The animation has a frame to show, shows one of its frames, and its
    /// frames fit in the sheet behind any base index.
    pub open spec fn well_formed(self) -> bool {
        0 < self.frame_count <= usize::MAX - 120 && self.current_frame < self.frame_count
    }

    /// Decides whether the animation is well formed.
    pub fn is_well_formed(&self) -> (b: bool)
        ensures
            b == self.well_formed(),
    {
        0 < self.frame_count && self.frame_count <= usize::MAX - 120 && self.current_frame
            < self.frame_count
    }

    /// The frame after the current one, the first after the last.
    pub open spec fn next_frame(self) -> usize {
        ((self.current_frame + 1) % (self.frame_count as int)) as usize
    }
}

impl EtherPet {
    /// Whether the pet shows its next frame after `delta` milliseconds:
    /// the timer of what it is doing has run out.
    pub open spec fn frame_advances(self, delta: u64) -> bool {
        match self.action_state.action {
            GenericActions::Idle => self.animation_timers.idle_timer.ticked(delta).just_finished,
            GenericActions::Walk => self.animation_timers.walk_timer.ticked(delta).just_finished,
            GenericActions::Attack => self.animation_timers.attack_timer.ticked(delta).finished,
            _ => false,
        }
    }

    /// Whether the pet ends an attack after `delta` milliseconds: it shows
    /// the first frame again. This is when the sound of the blow is due.
    pub open spec fn attack_ends(self, delta: u64) -> bool {
        self.action_state.action == GenericActions::Attack && self.frame_advances(delta)
            && self.animation.next_frame() == 0
    }

    /// The pet after its animation has run for `delta` milliseconds. The
    /// timer of what the pet is doing ages. When it runs out the pet shows
    /// its next frame; an attack that comes round to its first frame is
    /// over, and the pet turns idle. The cell shown is the frame in the row
    /// of what the pet was doing.
    pub open spec fn animated(self, delta: u64) -> EtherPet {
        let frame = if self.frame_advances(delta) {
            self.animation.next_frame()
        } else {
            self.animation.current_frame
        };
        EtherPet {
            sprite_index: (base_index_spec(
                self.animation.last_direction,
                self.action_state.action,
            ) + frame) as usize,
            animation: Animation { current_frame: frame, ..self.animation },
            animation_timers: match self.action_state.action {
                GenericActions::Idle => AnimationTimers {
                    idle_timer: self.animation_timers.idle_timer.ticked(delta),
                    ..self.animation_timers
                },
                GenericActions::Walk => AnimationTimers {
                    walk_timer: self.animation_timers.walk_timer.ticked(delta),
                    ..self.animation_timers
                },
                GenericActions::Attack => AnimationTimers {
                    attack_timer: if self.attack_ends(delta) {
                        self.animation_timers.attack_timer.ticked(delta).rewound()
                    } else {
                        self.animation_timers.attack_timer.ticked(delta)
                    },
                    ..self.animation_timers
                },
                _ => self.animation_timers,
            },
            action_state: EntityActionState {
                action: if self.attack_ends(delta) {
                    GenericActions::Idle
                } else {
                    self.action_state.action
                },
            },
            ..self
        }
    }

    /// Runs the animation of the pet for `delta` milliseconds and reports
    /// whether the sound of a blow is due.
    pub fn animate(&mut self, delta: u64) -> (blow: bool)
        requires
            old(self).animation.well_formed(),
        ensures
            *final(self) == old(self).animated(delta),
            blow == old(self).attack_ends(delta),
            final(self).animation.well_formed(),
    {
        let base = base_index(self.animation.last_direction, self.action_state.action);
        let mut blow = false;
        match self.action_state.action {
            GenericActions::Idle => {
                self.animation_timers.idle_timer.tick(delta);
                if self.animation_timers.idle_timer.just_finished() {
                    self.animation.current_frame = (self.animation.current_frame + 1)
                        % self.animation.frame_count;
                }
            },
            GenericActions::Walk => {
                self.animation_timers.walk_timer.tick(delta);
                if self.animation_timers.walk_timer.just_finished() {
                    self.animation.current_frame = (self.animation.current_frame + 1)
                        % self.animation.frame_count;
                }
            },
            GenericActions::Attack => {
                self.animation_timers.attack_timer.tick(delta);
                if self.animation_timers.attack_timer.finished() {
                    self.animation.current_frame = (self.animation.current_frame + 1)
                        % self.animation.frame_count;
                    if self.animation.current_frame == 0 {
                        blow = true;
                        self.animation_timers.attack_timer.reset();
                        self.action_state.action = GenericActions::Idle;
                    }
                }
            },
            _ => {},
        }
        self.sprite_index = base + self.animation.current_frame;
        blow
    }
}

/// The handles of those of the first `k_end` pets that end an attack after
/// `delta` milliseconds, in order.
pub open spec fn blows(pets: Seq<EtherPet>, delta: u64, k_end: int) -> Seq<Entity>
    decreases k_end,
{
    if k_end <= 0 {
        Seq::empty()
    } else if pets[k_end - 1].attack_ends(delta) {
        blows(pets, delta, k_end - 1).push(pets[k_end - 1].entity)
    } else {
        blows(pets, delta, k_end - 1)
    }
}

/// Runs the animation of every pet for `delta` milliseconds. Returns the
/// pets for which the sound of a blow is due.
pub fn player_sprite_animation(delta: u64, pets: &mut Vec<EtherPet>) -> (sounds: Vec<Entity>)
    requires
        forall|i: int|
            0 <= i < old(pets)@.len() ==> (#[trigger] old(pets)@[i]).animation.well_formed(),
    ensures
        final(pets)@.len() == old(pets)@.len(),
        forall|i: int|
            0 <= i < old(pets)@.len() ==> #[trigger] final(pets)@[i] == old(pets)@[i].animated(
                delta,
            ),
        forall|i: int|
            0 <= i < final(pets)@.len() ==> (#[trigger] final(pets)@[i]).animation.well_formed(),
        sounds@ == blows(old(pets)@, delta, old(pets)@.len() as int),
{
    let mut sounds: Vec<Entity> = Vec::new();
    let n = pets.len();
    let mut i: usize = 0;
    while i < n
        invariant
            i <= n,
            n == pets@.len(),
            n == old(pets)@.len(),
            forall|j: int| 0 <= j < n ==> (#[trigger] pets@[j]).animation.well_formed(),
            forall|j: int| 0 <= j < i ==> #[trigger] pets@[j] == old(pets)@[j].animated(delta),
            forall|j: int| i <= j < n ==> #[trigger] pets@[j] == old(pets)@[j],
            sounds@ == blows(old(pets)@, delta, i as int),
        decreases n - i,
    {
        let entity = pets[i].entity;
        let blow = pets[i].animate(delta);
        if blow {
            sounds.push(entity);
        }
        i += 1;
    }
    sounds
}

/// The places of those of the first `k_end` pets that are not steered by
/// hand, in the order of the store.
pub open spec fn npc_places(pets: Seq<EtherPet>, k_end: int) -> Seq<Vec3>
    decreases k_end,
{
    if k_end <= 0 {
        Seq::empty()
    } else if pets[k_end - 1].active {
        npc_places(pets, k_end - 1)
    } else {
        npc_places(pets, k_end - 1).push(pets[k_end - 1].translation)
    }
}

/// Whether a probe at `target` overlaps the tile-sized box of a pet that is
/// not steered by hand.
pub open spec fn blocked_by_pets(pets: Seq<EtherPet>, target: Vec3) -> bool {
    is_blocked(npc_places(pets, pets.len() as int), target)
}

/// Lists the places of the pets that are not steered by hand.
pub fn places_of_npcs(pets: &Vec<EtherPet>) -> (places: Vec<Vec3>)
    ensures
        places@ == npc_places(pets@, pets@.len() as int),
{
    let mut places: Vec<Vec3> = Vec::new();
    let mut i: usize = 0;
    while i < pets.len()
        invariant
            i <= pets.len(),
            places@ == npc_places(pets@, i as int),
        decreases pets.len() - i,
    {
        if !pets[i].active {
            places.push(pets[i].translation);
        }
        i += 1;
    }
    places
}

/// Reports whether `target_player_pos` is free of the pets that are not
/// steered by hand: `true` when a probe there overlaps none of them.
pub fn basic_player_entity_collision_check(target_player_pos: Vec3, pets: &Vec<EtherPet>) -> (free:
    bool)
    ensures
        free == !blocked_by_pets(pets@, target_player_pos),
{
    let places = places_of_npcs(pets);
    basic_wall_collision_check(target_player_pos, &places)
}

/// The keys that steer the pet in hand, as they are held on this tick.
#[derive(Clone, Copy, Debug, PartialEq, Eq, Structural)]
pub struct Keys {
    pub left: bool,
    pub right: bool,
    pub up: bool,
    pub down: bool,
    /// The key to attack has just been pressed.
    pub attack: bool,
    /// The key to let go of the pet is held.
    pub release: bool,
}

impl Keys {
    /// What the keys ask the pet to do.
    pub open spec fn action(self) -> GenericActions {
        if self.attack {
            GenericActions::Attack
        } else if self.left || self.right || self.up || self.down {
            GenericActions::Walk
        } else {
            GenericActions::Idle
        }
    }

    /// The way the keys turn a pet that faces `facing`: the key looked at
    /// last wins, in the order left, right, up, down.
    pub open spec fn facing(self, facing: DirectionIntent) -> DirectionIntent {
        if self.down {
            DirectionIntent::Down
        } else if self.up {
            DirectionIntent::Up
        } else if self.right {
            DirectionIntent::Right
        } else if self.left {
            DirectionIntent::Left
        } else {
            facing
        }
    }

    /// The displacement the keys ask for along the horizontal axis, for a
    /// step of length `stride`.
    pub open spec fn horizontal(self, stride: int) -> int {
        (if self.right {
            stride
        } else {
            0
        }) - (if self.left {
            stride
        } else {
            0
        })
    }

    /// The displacement the keys ask for along the vertical axis, for a step
    /// of length `stride`.
    pub open spec fn vertical(self, stride: int) -> int {
        (if self.up {
            stride
        } else {
            0
        }) - (if self.down {
            stride
        } else {
            0
        })
    }
}

/// The length of the step of a steered pet in `delta` milliseconds, at
/// `speed` tiles per second.
pub open spec fn stride_spec(speed: u32, delta: u64) -> int {
    speed * 16 * delta / 1000
}

/// Whether a steered pet may stand at `target`: neither a wall nor one of
/// the pets at `others` is in the way.
pub open spec fn may_stand(walls: Seq<Vec3>, others: Seq<Vec3>, target: Vec3) -> bool {
    !is_blocked(walls, target) && !is_blocked(others, target)
}

impl EtherPet {
    /// The pet after the keys have steered it for `delta` milliseconds,
    /// among `walls` and the pets at `others`. A pet that is not steered by
    /// hand is left alone. The pet turns and acts as the keys ask, but does
    /// not break off an attack. It takes its step along each axis in turn,
    /// the horizontal one first, where nothing is in the way. If the key to
    /// let go is held, the pet is on its own again.
    pub open spec fn steered(
        self,
        keys: Keys,
        delta: u64,
        walls: Seq<Vec3>,
        others: Seq<Vec3>,
    ) -> EtherPet {
        if !self.active {
            self
        } else {
            let stride = stride_spec(self.movement.speed, delta);
            let sideways = self.translation.displaced(keys.horizontal(stride), 0, 0);
            let after_x = if may_stand(walls, others, sideways) {
                sideways
            } else {
                self.translation
            };
            let upward = after_x.displaced(0, keys.vertical(stride), 0);
            let after_y = if may_stand(walls, others, upward) {
                upward
            } else {
                after_x
            };
            EtherPet {
                active: !keys.release,
                translation: after_y,
                animation: Animation {
                    last_direction: keys.facing(self.animation.last_direction),
                    ..self.animation
                },
                action_state: EntityActionState {
                    action: if self.action_state.action == GenericActions::Attack {
                        GenericActions::Attack
                    } else {
                        keys.action()
                    },
                },
                ..self
            }
        }
    }

    /// Steers the pet as the keys ask, for `delta` milliseconds. Reports
    /// whether the pet was let go.
    pub fn steer(&mut self, keys: Keys, delta: u64, walls: &Vec<Vec3>, others: &Vec<Vec3>) -> (let_go:
        bool)
        ensures
            *final(self) == old(self).steered(keys, delta, walls@, others@),
            let_go == (old(self).active && keys.release),
    {
        if !self.active {
            return false;
        }
        let stride: i128 = stride(self.movement.speed, delta);
        let mut action = GenericActions::Idle;
        let mut x_delta: i128 = 0;
        if keys.left {
            x_delta = x_delta - stride;
            self.animation.last_direction = DirectionIntent::Left;
            action = GenericActions::Walk;
        }
        if keys.right {
            x_delta = x_delta + stride;
            self.animation.last_direction = DirectionIntent::Right;
            action = GenericActions::Walk;
        }
        let mut y_delta: i128 = 0;
        if keys.up {
            y_delta = y_delta + stride;
            self.animation.last_direction = DirectionIntent::Up;
            action = GenericActions::Walk;
        }
        if keys.down {
            y_delta = y_delta - stride;
            self.animation.last_direction = DirectionIntent::Down;
            action = GenericActions::Walk;
        }
        if keys.attack {
            action = GenericActions::Attack;
        }
        match self.action_state.action {
            GenericActions::Attack => {},
            _ => {
                self.action_state.action = action;
            },
        }
        let target = self.translation.displace(x_delta, 0, 0);
        if basic_wall_collision_check(target, walls) && basic_wall_collision_check(target, others) {
            self.translation = target;
        }
        let target = self.translation.displace(0, y_delta, 0);
        if basic_wall_collision_check(target, walls) && basic_wall_collision_check(target, others) {
            self.translation = target;
        }
        if keys.release {
            self.active = false;
        }
        keys.release
    }
}

/// Whether one of the first `k_end` pets is steered by hand.
pub open spec fn any_active_among(pets: Seq<EtherPet>, k_end: int) -> bool {
    exists|i: int| 0 <= i < k_end && i < pets.len() && (#[trigger] pets[i]).active
}

/// Whether one of the pets is steered by hand.
pub open spec fn any_active(pets: Seq<EtherPet>) -> bool {
    any_active_among(pets, pets.len() as int)
}

/// Steers every pet in hand as the keys ask, among the walls and the pets
/// that stood on their own before. Returns the state that the camera goes
/// to, if a pet was let go.
pub fn player_input(keys: Keys, delta: u64, pets: &mut Vec<EtherPet>, walls: &Vec<Vec3>) -> (camera:
    Option<CameraState>)
    ensures
        final(pets)@.len() == old(pets)@.len(),
        forall|i: int|
            0 <= i < old(pets)@.len() ==> #[trigger] final(pets)@[i] == old(pets)@[i].steered(
                keys,
                delta,
                walls@,
                npc_places(old(pets)@, old(pets)@.len() as int),
            ),
        camera == if keys.release && any_active(old(pets)@) {
            Some(CameraState::ManualCameraControl)
        } else {
            None
        },
{
    let others = places_of_npcs(pets);
    let mut let_go = false;
    let n = pets.len();
    let mut i: usize = 0;
    while i < n
        invariant
            i <= n,
            n == pets@.len(),
            n == old(pets)@.len(),
            forall|j: int|
                0 <= j < i ==> #[trigger] pets@[j] == old(pets)@[j].steered(
                    keys,
                    delta,
                    walls@,
                    others@,
                ),
            forall|j: int| i <= j < n ==> #[trigger] pets@[j] == old(pets)@[j],
            let_go == (keys.release && any_active_among(old(pets)@, i as int)),
        decreases n - i,
    {
        assert(pets@[i as int] == old(pets)@[i as int]);
        let released = pets[i].steer(keys, delta, walls, &others);
        proof {
            if any_active_among(old(pets)@, i + 1) && !old(pets)@[i as int].active {
                let j = choose|j: int|
                    0 <= j < i + 1 && j < old(pets)@.len() && (#[trigger] old(pets)@[j]).active;
                assert(j < i);
                assert(any_active_among(old(pets)@, i as int));
            }
            if any_active_among(old(pets)@, i as int) {
                let j = choose|j: int|
                    0 <= j < i && j < old(pets)@.len() && (#[trigger] old(pets)@[j]).active;
                assert(any_active_among(old(pets)@, i + 1));
            }
            if old(pets)@[i as int].active {
                assert(any_active_among(old(pets)@, i + 1));
            }
        }
        if released {
            let_go = true;
        }
        i += 1;
    }
    if let_go {
        Some(CameraState::ManualCameraControl)
    } else {
        None
    }
}

/// Computes the length of the step of a steered pet.
fn stride(speed: u32, delta: u64) -> (length: i128)
    ensures
        length == stride_spec(speed, delta),
        0 <= length <= 0x1_0000_0000_0000_0000_0000_0000,
{
    let s: i128 = speed as i128;
    let d: i128 = delta as i128;
    assert(0 <= s * 16 * d <= 16 * 0x1_0000_0000 * 0x1_0000_0000_0000_0000) by (nonlinear_arith)
        requires
            0 <= s < 0x1_0000_0000,
            0 <= d < 0x1_0000_0000_0000_0000,
    ;
    s * 16 * d / 1000
}

impl EtherPet {
    /// Whether a click at `point` hits the pet: the point lies inside the
    /// box of a tile around the pet.
    pub open spec fn hit_by(self, point: Vec3) -> bool {
        boxes_overlap(point, Vec2 { x: 0, y: 0 }, self.translation, tile_extent())
    }
}

/// Answers a click at the world position `click`: the pet under it is taken
/// in hand, and every other pet is let go. Without a click nothing changes.
pub fn player_activation_system(click: Option<Vec3>, pets: &mut Vec<EtherPet>)
    ensures
        final(pets)@.len() == old(pets)@.len(),
        click is None ==> final(pets)@ == old(pets)@,
        click matches Some(point) ==> forall|i: int|
            0 <= i < old(pets)@.len() ==> #[trigger] final(pets)@[i] == (EtherPet {
                active: old(pets)@[i].hit_by(point),
                ..old(pets)@[i]
            }),
{
    match click {
        None => {},
        Some(point) => {
            let n = pets.len();
            let mut i: usize = 0;
            while i < n
                invariant
                    i <= n,
                    n == pets@.len(),
                    n == old(pets)@.len(),
                    forall|j: int|
                        0 <= j < i ==> #[trigger] pets@[j] == (EtherPet {
                            active: old(pets)@[j].hit_by(point),
                            ..old(pets)@[j]
                        }),
                    forall|j: int| i <= j < n ==> #[trigger] pets@[j] == old(pets)@[j],
                decreases n - i,
            {
                let hit = collide(
                    point,
                    Vec2 { x: 0, y: 0 },
                    pets[i].translation,
                    Vec2 { x: 16_000, y: 16_000 },
                );
                pets[i].active = hit;
                i += 1;
            }
        },
    }
}

/// The state that the camera should go to while the game is played: it
/// follows the pet in hand if there is one, and is under manual control if
/// there is none. Nothing is asked for if the camera is there already.
pub open spec fn camera_wanted(active_player_exists: bool, camera: CameraState, game: GameState) -> Option<
    CameraState,
> {
    if active_player_exists && camera != CameraState::FollowPlayer && game == GameState::Playing {
        Some(CameraState::FollowPlayer)
    } else if !active_player_exists && camera != CameraState::ManualCameraControl && game
        == GameState::Playing {
        Some(CameraState::ManualCameraControl)
    } else {
        None
    }
}

/// Keeps the camera in step with the pets: decides the state that it should
/// go to.
pub fn update_app_state_system(
    camera_state: CameraState,
    game_state: GameState,
    pets: &Vec<EtherPet>,
) -> (next: Option<CameraState>)
    ensures
        next == camera_wanted(any_active(pets@), camera_state, game_state),
{
    let mut active_player_exists = false;
    let mut i: usize = 0;
    while i < pets.len()
        invariant
            i <= pets.len(),
            active_player_exists == any_active_among(pets@, i as int),
        decreases pets.len() - i,
    {
        proof {
            if any_active_among(pets@, i + 1) && !pets@[i as int].active {
                let j = choose|j: int|
                    0 <= j < i + 1 && j < pets@.len() && (#[trigger] pets@[j]).active;
                assert(j < i);
                assert(any_active_among(pets@, i as int));
            }
            if any_active_among(pets@, i as int) {
                let j = choose|j: int| 0 <= j < i && j < pets@.len() && (#[trigger] pets@[j]).active;
                assert(any_active_among(pets@, i + 1));
            }
            if pets@[i as int].active {
                assert(any_active_among(pets@, i + 1));
            }
        }
        if pets[i].active {
            active_player_exists = true;
        }
        i += 1;
    }
    let following = match camera_state {
        CameraState::FollowPlayer => true,
        _ => false,
    };
    let manual = match camera_state {
        CameraState::ManualCameraControl => true,
        _ => false,
    };
    let playing = match game_state {
        GameState::Playing => true,
        _ => false,
    };
    if active_player_exists && !following && playing {
        Some(CameraState::FollowPlayer)
    } else if !active_player_exists && !manual && playing {
        Some(CameraState::ManualCameraControl)
    } else {
        None
    }
}

/// Requests for the content of conversations are switched off: this system
/// does nothing.
pub fn queue_pair_entity_conversation_request() {
}

} // verus!
