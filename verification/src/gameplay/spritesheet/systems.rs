//! Registering the sprite sheets and asking for sprites to be shown.

use vstd::prelude::*;
use crate::commands::{unit_scale, Command, Commands, Entity, Handle, SpriteSheetBundle};
use crate::gameplay::spritesheet::components::{
    ChattingIconSheet, EmotionIconSheet, PlayerSpriteSheet, PurpleCowSpriteSheet,
    SpriteSheetInfo, SpriteSheetKind, SpriteSheetResource, TextureAtlas, TextureAtlases,
    WaterSpriteSheet,
};
use crate::gameplay::tile::components::WaterSpriteAnimation;
use crate::math::{Vec2, Vec3};
use crate::time::{Timer, TimerMode};

verus! {

/// The sprite sheets of the game, in the order in which they are registered.
pub open spec fn sprite_sheets_spec() -> Seq<SpriteSheetInfo> {
    seq![
        SpriteSheetInfo {
            url: "spritesheets/spritesheet.png",
            sprite_size: Vec2 { x: 48_000, y: 48_000 },
            columns: 8,
            rows: 24,
            resource_type: SpriteSheetKind::Player,
        },
        SpriteSheetInfo {
            url: "spritesheets/purple_cow.png",
            sprite_size: Vec2 { x: 32_000, y: 32_000 },
            columns: 8,
            rows: 9,
            resource_type: SpriteSheetKind::PurpleCow,
        },
        SpriteSheetInfo {
            url: "spritesheets/forest_details_v2.png",
            sprite_size: Vec2 { x: 16_000, y: 16_000 },
            columns: 12,
            rows: 7,
            resource_type: SpriteSheetKind::ForestDetailsV2,
        },
        SpriteSheetInfo {
            url: "spritesheets/dark_hills_tall.png",
            sprite_size: Vec2 { x: 16_000, y: 16_000 },
            columns: 6,
            rows: 8,
            resource_type: SpriteSheetKind::Ramps,
        },
        SpriteSheetInfo {
            url: "spritesheets/apple_tree.png",
            sprite_size: Vec2 { x: 16_000, y: 16_000 },
            columns: 36,
            rows: 15,
            resource_type: SpriteSheetKind::AppleTree,
        },
        SpriteSheetInfo {
            url: "spritesheets/regular_tree.png",
            sprite_size: Vec2 { x: 16_000, y: 16_000 },
            columns: 36,
            rows: 15,
            resource_type: SpriteSheetKind::RegularTree,
        },
        SpriteSheetInfo {
            url: "spritesheets/wooden_house.png",
            sprite_size: Vec2 { x: 16_000, y: 16_000 },
            columns: 6,
            rows: 5,
            resource_type: SpriteSheetKind::WoodenHouse,
        },
        SpriteSheetInfo {
            url: "spritesheets/water_objects.png",
            sprite_size: Vec2 { x: 16_000, y: 16_000 },
            columns: 12,
            rows: 2,
            resource_type: SpriteSheetKind::WaterObjects,
        },
        SpriteSheetInfo {
            url: "spritesheets/bushes.png",
            sprite_size: Vec2 { x: 16_000, y: 16_000 },
            columns: 11,
            rows: 12,
            resource_type: SpriteSheetKind::Bushes,
        },
        SpriteSheetInfo {
            url: "spritesheets/fences.png",
            sprite_size: Vec2 { x: 16_000, y: 16_000 },
            columns: 8,
            rows: 4,
            resource_type: SpriteSheetKind::Fences,
        },
        SpriteSheetInfo {
            url: "spritesheets/forest_details.png",
            sprite_size: Vec2 { x: 16_000, y: 16_000 },
            columns: 12,
            rows: 5,
            resource_type: SpriteSheetKind::ForestDetails,
        },
        SpriteSheetInfo {
            url: "spritesheets/darker_grass_patch.png",
            sprite_size: Vec2 { x: 16_000, y: 16_000 },
            columns: 11,
            rows: 7,
            resource_type: SpriteSheetKind::DarkerGrassPatch,
        },
        SpriteSheetInfo {
            url: "spritesheets/dark_grass_patch.png",
            sprite_size: Vec2 { x: 16_000, y: 16_000 },
            columns: 11,
            rows: 7,
            resource_type: SpriteSheetKind::GrassPatch,
        },
        SpriteSheetInfo {
            url: "spritesheets/soil.png",
            sprite_size: Vec2 { x: 16_000, y: 16_000 },
            columns: 11,
            rows: 7,
            resource_type: SpriteSheetKind::Soil,
        },
        SpriteSheetInfo {
            url: "spritesheets/dark_grass_hills.png",
            sprite_size: Vec2 { x: 16_000, y: 16_000 },
            columns: 11,
            rows: 7,
            resource_type: SpriteSheetKind::SecondGround,
        },
        SpriteSheetInfo {
            url: "spritesheets/dark_grass_water.png",
            sprite_size: Vec2 { x: 16_000, y: 16_000 },
            columns: 9,
            rows: 8,
            resource_type: SpriteSheetKind::Ground,
        },
        SpriteSheetInfo {
            url: "spritesheets/water.png",
            sprite_size: Vec2 { x: 16_000, y: 16_000 },
            columns: 4,
            rows: 1,
            resource_type: SpriteSheetKind::Water,
        },
        SpriteSheetInfo {
            url: "icons/chatting_icon.png",
            sprite_size: Vec2 { x: 48_000, y: 48_000 },
            columns: 4,
            rows: 3,
            resource_type: SpriteSheetKind::ChattingIcon,
        },
        SpriteSheetInfo {
            url: "icons/emotion_icons.png",
            sprite_size: Vec2 { x: 24_000, y: 24_000 },
            columns: 6,
            rows: 1,
            resource_type: SpriteSheetKind::EmotionIcon,
        },
    ]
}

/// Builds the table of the sprite sheets of the game.
pub fn sprite_sheets() -> (table: Vec<SpriteSheetInfo>)
    ensures
        table@ == sprite_sheets_spec(),
{
    let mut table: Vec<SpriteSheetInfo> = Vec::new();
    table.push(
        SpriteSheetInfo {
            url: "spritesheets/spritesheet.png",
            sprite_size: Vec2 { x: 48_000, y: 48_000 },
            columns: 8,
            rows: 24,
            resource_type: SpriteSheetKind::Player,
        },
    );
    table.push(
        SpriteSheetInfo {
            url: "spritesheets/purple_cow.png",
            sprite_size: Vec2 { x: 32_000, y: 32_000 },
            columns: 8,
            rows: 9,
            resource_type: SpriteSheetKind::PurpleCow,
        },
    );
    table.push(
        SpriteSheetInfo {
            url: "spritesheets/forest_details_v2.png",
            sprite_size: Vec2 { x: 16_000, y: 16_000 },
            columns: 12,
            rows: 7,
            resource_type: SpriteSheetKind::ForestDetailsV2,
        },
    );
    table.push(
        SpriteSheetInfo {
            url: "spritesheets/dark_hills_tall.png",
            sprite_size: Vec2 { x: 16_000, y: 16_000 },
            columns: 6,
            rows: 8,
            resource_type: SpriteSheetKind::Ramps,
        },
    );
    table.push(
        SpriteSheetInfo {
            url: "spritesheets/apple_tree.png",
            sprite_size: Vec2 { x: 16_000, y: 16_000 },
            columns: 36,
            rows: 15,
            resource_type: SpriteSheetKind::AppleTree,
        },
    );
    table.push(
        SpriteSheetInfo {
            url: "spritesheets/regular_tree.png",
            sprite_size: Vec2 { x: 16_000, y: 16_000 },
            columns: 36,
            rows: 15,
            resource_type: SpriteSheetKind::RegularTree,
        },
    );
    table.push(
        SpriteSheetInfo {
            url: "spritesheets/wooden_house.png",
            sprite_size: Vec2 { x: 16_000, y: 16_000 },
            columns: 6,
            rows: 5,
            resource_type: SpriteSheetKind::WoodenHouse,
        },
    );
    table.push(
        SpriteSheetInfo {
            url: "spritesheets/water_objects.png",
            sprite_size: Vec2 { x: 16_000, y: 16_000 },
            columns: 12,
            rows: 2,
            resource_type: SpriteSheetKind::WaterObjects,
        },
    );
    table.push(
        SpriteSheetInfo {
            url: "spritesheets/bushes.png",
            sprite_size: Vec2 { x: 16_000, y: 16_000 },
            columns: 11,
            rows: 12,
            resource_type: SpriteSheetKind::Bushes,
        },
    );
    table.push(
        SpriteSheetInfo {
            url: "spritesheets/fences.png",
            sprite_size: Vec2 { x: 16_000, y: 16_000 },
            columns: 8,
            rows: 4,
            resource_type: SpriteSheetKind::Fences,
        },
    );
    table.push(
        SpriteSheetInfo {
            url: "spritesheets/forest_details.png",
            sprite_size: Vec2 { x: 16_000, y: 16_000 },
            columns: 12,
            rows: 5,
            resource_type: SpriteSheetKind::ForestDetails,
        },
    );
    table.push(
        SpriteSheetInfo {
            url: "spritesheets/darker_grass_patch.png",
            sprite_size: Vec2 { x: 16_000, y: 16_000 },
            columns: 11,
            rows: 7,
            resource_type: SpriteSheetKind::DarkerGrassPatch,
        },
    );
    table.push(
        SpriteSheetInfo {
            url: "spritesheets/dark_grass_patch.png",
            sprite_size: Vec2 { x: 16_000, y: 16_000 },
            columns: 11,
            rows: 7,
            resource_type: SpriteSheetKind::GrassPatch,
        },
    );
    table.push(
        SpriteSheetInfo {
            url: "spritesheets/soil.png",
            sprite_size: Vec2 { x: 16_000, y: 16_000 },
            columns: 11,
            rows: 7,
            resource_type: SpriteSheetKind::Soil,
        },
    );
    table.push(
        SpriteSheetInfo {
            url: "spritesheets/dark_grass_hills.png",
            sprite_size: Vec2 { x: 16_000, y: 16_000 },
            columns: 11,
            rows: 7,
            resource_type: SpriteSheetKind::SecondGround,
        },
    );
    table.push(
        SpriteSheetInfo {
            url: "spritesheets/dark_grass_water.png",
            sprite_size: Vec2 { x: 16_000, y: 16_000 },
            columns: 9,
            rows: 8,
            resource_type: SpriteSheetKind::Ground,
        },
    );
    table.push(
        SpriteSheetInfo {
            url: "spritesheets/water.png",
            sprite_size: Vec2 { x: 16_000, y: 16_000 },
            columns: 4,
            rows: 1,
            resource_type: SpriteSheetKind::Water,
        },
    );
    table.push(
        SpriteSheetInfo {
            url: "icons/chatting_icon.png",
            sprite_size: Vec2 { x: 48_000, y: 48_000 },
            columns: 4,
            rows: 3,
            resource_type: SpriteSheetKind::ChattingIcon,
        },
    );
    table.push(
        SpriteSheetInfo {
            url: "icons/emotion_icons.png",
            sprite_size: Vec2 { x: 24_000, y: 24_000 },
            columns: 6,
            rows: 1,
            resource_type: SpriteSheetKind::EmotionIcon,
        },
    );
    table
}

/// The resources that registering the first `k_end` sheets of `table`
/// yields, when the registry holds `registered` sheets before.
pub open spec fn loaded_resources(
    table: Seq<SpriteSheetInfo>,
    registered: int,
    k_end: int,
) -> Seq<SpriteSheetResource> {
    Seq::new(
        k_end as nat,
        |k: int| table[k].resource_type.resource_spec(Handle { id: (registered + k) as usize }),
    )
}

/// The grids that the first `k_end` sheets of `table` ask for.
pub open spec fn loaded_atlases(table: Seq<SpriteSheetInfo>, k_end: int) -> Seq<TextureAtlas> {
    Seq::new(k_end as nat, |k: int| table[k].atlas())
}

/// Registers every sprite sheet of the game, in the order of the table, and
/// returns one resource for each, which refers to the sheet by its handle.
pub fn load_spritesheets(texture_atlases: &mut TextureAtlases) -> (resources: Vec<
    SpriteSheetResource,
>)
    requires
        old(texture_atlases).atlases@.len() + sprite_sheets_spec().len() <= usize::MAX,
    ensures
        final(texture_atlases).atlases@ == old(texture_atlases).atlases@ + loaded_atlases(
            sprite_sheets_spec(),
            sprite_sheets_spec().len() as int,
        ),
        resources@ == loaded_resources(
            sprite_sheets_spec(),
            old(texture_atlases).atlases@.len() as int,
            sprite_sheets_spec().len() as int,
        ),
{
    let table = sprite_sheets();
    let ghost registered = texture_atlases.atlases@.len() as int;
    let mut resources: Vec<SpriteSheetResource> = Vec::new();
    let mut k: usize = 0;
    while k < table.len()
        invariant
            k <= table.len(),
            table@ == sprite_sheets_spec(),
            registered == old(texture_atlases).atlases@.len(),
            registered + table@.len() <= usize::MAX,
            texture_atlases.atlases@ == old(texture_atlases).atlases@ + loaded_atlases(
                table@,
                k as int,
            ),
            resources@ == loaded_resources(table@, registered, k as int),
        decreases table.len() - k,
    {
        let info = table[k];
        let texture_atlas = TextureAtlas {
            url: info.url,
            sprite_size: info.sprite_size,
            columns: info.columns,
            rows: info.rows,
        };
        let texture_atlas_handle = texture_atlases.add(texture_atlas);
        let resource = info.resource_type.resource(texture_atlas_handle);
        resources.push(resource);
        k += 1;
    }
    resources
}

/// The command that shows cell `index` of the sheet `atlas` at
/// `translation`, at its natural size, for the entity `entity`.
pub open spec fn sprite_command(
    entity: Entity,
    atlas: Handle,
    index: usize,
    translation: Vec3,
) -> Command {
    Command::Spawn {
        entity,
        bundle: SpriteSheetBundle { atlas, index, translation, scale: unit_scale() },
    }
}

/// Queues a sprite cut from any sheet and returns the handle of the entity
/// that will carry it.
pub fn spawn_map(
    commands: &mut Commands,
    spritesheet: &Handle,
    index: usize,
    translation: Vec3,
) -> (entity: Entity)
    requires
        old(commands).has_room(1),
    ensures
        entity == old(commands).next_entity,
        final(commands).next_entity == old(commands).next_entity + 1,
        final(commands).queue@ == old(commands).queue@.push(
            sprite_command(entity, *spritesheet, index, translation),
        ),
{
    commands.spawn(
        SpriteSheetBundle {
            atlas: *spritesheet,
            index,
            translation,
            scale: Vec3 { x: 1000, y: 1000, z: 1000 },
        },
    )
}

/// Queues a sprite of a pet.
pub fn spawn_player_spritesheet_sprite(
    commands: &mut Commands,
    player_spritesheet: &PlayerSpriteSheet,
    index: usize,
    translation: Vec3,
) -> (entity: Entity)
    requires
        old(commands).has_room(1),
    ensures
        entity == old(commands).next_entity,
        final(commands).next_entity == old(commands).next_entity + 1,
        final(commands).queue@ == old(commands).queue@.push(
            sprite_command(entity, player_spritesheet.0, index, translation),
        ),
{
    spawn_map(commands, &player_spritesheet.0, index, translation)
}

/// Queues a sprite of a cow.
pub fn spawn_cow_spritesheet_sprite(
    commands: &mut Commands,
    purple_cow_spritesheet: &PurpleCowSpriteSheet,
    index: usize,
    translation: Vec3,
) -> (entity: Entity)
    requires
        old(commands).has_room(1),
    ensures
        entity == old(commands).next_entity,
        final(commands).next_entity == old(commands).next_entity + 1,
        final(commands).queue@ == old(commands).queue@.push(
            sprite_command(entity, purple_cow_spritesheet.0, index, translation),
        ),
{
    spawn_map(commands, &purple_cow_spritesheet.0, index, translation)
}

/// The animation that a water tile starts with: four frames, half a second
/// each, from the first cell of the sheet.
pub open spec fn water_animation_spec() -> WaterSpriteAnimation {
    WaterSpriteAnimation {
        timer: Timer::fresh(500, TimerMode::Repeating),
        frame_count: 4,
        current_frame: 0,
        base_index: 0,
    }
}

/// Queues a sprite of a water tile and returns its handle together with the
/// animation that the tile starts with.
pub fn spawn_water_spritesheet_sprite(
    commands: &mut Commands,
    water_spritesheet: &WaterSpriteSheet,
    index: usize,
    translation: Vec3,
) -> (spawned: (Entity, WaterSpriteAnimation))
    requires
        old(commands).has_room(1),
    ensures
        spawned.0 == old(commands).next_entity,
        spawned.1 == water_animation_spec(),
        final(commands).next_entity == old(commands).next_entity + 1,
        final(commands).queue@ == old(commands).queue@.push(
            sprite_command(spawned.0, water_spritesheet.0, index, translation),
        ),
{
    let entity = spawn_map(commands, &water_spritesheet.0, index, translation);
    (
        entity,
        WaterSpriteAnimation {
            timer: Timer::from_millis(500, TimerMode::Repeating),
            frame_count: 4,
            current_frame: 0,
            base_index: 0,
        },
    )
}

/// The scale at which the icon of a conversation is shown.
pub open spec fn chatting_scale() -> Vec3 {
    Vec3 { x: 650, y: 650, z: 650 }
}

/// Queues the icon of a conversation, shown at 65 percent of its size.
pub fn spawn_chatting_sprite(
    commands: &mut Commands,
    chatting_icon: &ChattingIconSheet,
    index: usize,
    translation: Vec3,
) -> (entity: Entity)
    requires
        old(commands).has_room(1),
    ensures
        entity == old(commands).next_entity,
        final(commands).next_entity == old(commands).next_entity + 1,
        final(commands).queue@ == old(commands).queue@.push(
            Command::Spawn {
                entity,
                bundle: SpriteSheetBundle {
                    atlas: chatting_icon.0,
                    index,
                    translation,
                    scale: chatting_scale(),
                },
            },
        ),
{
    commands.spawn(
        SpriteSheetBundle {
            atlas: chatting_icon.0,
            index,
            translation,
            scale: Vec3 { x: 650, y: 650, z: 650 },
        },
    )
}

/// Queues a reaction icon.
pub fn spawn_emote_sprite(
    commands: &mut Commands,
    emotion_icon: &EmotionIconSheet,
    index: usize,
    translation: Vec3,
) -> (entity: Entity)
    requires
        old(commands).has_room(1),
    ensures
        entity == old(commands).next_entity,
        final(commands).next_entity == old(commands).next_entity + 1,
        final(commands).queue@ == old(commands).queue@.push(
            sprite_command(entity, emotion_icon.0, index, translation),
        ),
{
    spawn_map(commands, &emotion_icon.0, index, translation)
}

} // verus!
