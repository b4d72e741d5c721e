//! Entities and the buffer of deferred commands through which the
//! simulation asks for sprites to be created and entities to be removed.

use vstd::prelude::*;
use crate::math::Vec3;

verus! {

/// The handle of a simulated entity.
pub type Entity = u64;

/// The handle of a registered sprite sheet.
#[derive(Clone, Copy, Debug, PartialEq, Eq, Structural)]
pub struct Handle {
    pub id: usize,
}

/// A request to show one cell of a sprite sheet at a place in the world.
/// The scale is in thousandths.
#[derive(Clone, Copy, Debug, PartialEq, Eq, Structural)]
pub struct SpriteSheetBundle {
    pub atlas: Handle,
    pub index: usize,
    pub translation: Vec3,
    pub scale: Vec3,
}

/// One deferred command.
#[derive(Clone, Copy, Debug, PartialEq, Eq, Structural)]
pub enum Command {
    /// Create `entity` with a sprite.
    Spawn { entity: Entity, bundle: SpriteSheetBundle },
    /// Create `entity` without any attribute.
    SpawnEmpty { entity: Entity },
    /// Remove `entity` and all it carries.
    Despawn { entity: Entity },
}

/// A buffer of commands, and the source of fresh entity handles. Handles are
/// handed out in increasing order and never twice.
#[derive(Clone, Debug, PartialEq, Eq)]
pub struct Commands {
    pub next_entity: Entity,
    pub queue: Vec<Command>,
}

/// The scale of a sprite shown at its natural size.
pub open spec fn unit_scale() -> Vec3 {
    Vec3 { x: 1000, y: 1000, z: 1000 }
}

impl Commands {
    /// The buffer after `command` was queued for the handle it hands out.
    pub open spec fn issued(self, command: Command) -> (Seq<Command>, int) {
        (self.queue@.push(command), self.next_entity + 1)
    }

    /// Whether the buffer can still hand out `count` fresh handles.
    pub open spec fn has_room(self, count: int) -> bool {
        self.next_entity + count <= u64::MAX
    }

    /// Creates an empty buffer whose first handle is `first_entity`.
    pub fn new(first_entity: Entity) -> (c: Commands)
        ensures
            c.next_entity == first_entity,
            c.queue@ == Seq::<Command>::empty(),
    {
        Commands { next_entity: first_entity, queue: Vec::new() }
    }

    /// Decides whether the buffer can still hand out `count` fresh handles.
    pub fn room_for(&self, count: usize) -> (b: bool)
        ensures
            b == self.has_room(count as int),
    {
        self.next_entity as u128 + count as u128 <= u64::MAX as u128
    }

    /// Queues the creation of an entity with a sprite and returns its handle.
    pub fn spawn(&mut self, bundle: SpriteSheetBundle) -> (entity: Entity)
        requires
            old(self).has_room(1),
        ensures
            entity == old(self).next_entity,
            final(self).next_entity == old(self).next_entity + 1,
            final(self).queue@ == old(self).queue@.push(Command::Spawn { entity, bundle }),
    {
        let entity = self.next_entity;
        self.queue.push(Command::Spawn { entity, bundle });
        self.next_entity = entity + 1;
        entity
    }

    /// Queues the creation of a bare entity and returns its handle.
    pub fn spawn_empty(&mut self) -> (entity: Entity)
        requires
            old(self).has_room(1),
        ensures
            entity == old(self).next_entity,
            final(self).next_entity == old(self).next_entity + 1,
            final(self).queue@ == old(self).queue@.push(Command::SpawnEmpty { entity }),
    {
        let entity = self.next_entity;
        self.queue.push(Command::SpawnEmpty { entity });
        self.next_entity = entity + 1;
        entity
    }

    /// Queues the removal of `entity`.
    pub fn despawn(&mut self, entity: Entity)
        ensures
            final(self).next_entity == old(self).next_entity,
            final(self).queue@ == old(self).queue@.push(Command::Despawn { entity }),
    {
        self.queue.push(Command::Despawn { entity });
    }
}

} // verus!
