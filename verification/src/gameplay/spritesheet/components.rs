//! The sprite sheets of the game: one resource for each, and the table that
//! describes how each is cut into cells.

use vstd::prelude::*;
use crate::commands::Handle;
use crate::math::Vec2;

verus! {

/// The sheet of the pets.
#[derive(Clone, Copy, Debug, PartialEq, Eq, Structural)]
pub struct PlayerSpriteSheet(pub Handle);

/// The sheet of the cattle.
#[derive(Clone, Copy, Debug, PartialEq, Eq, Structural)]
pub struct PurpleCowSpriteSheet(pub Handle);

/// The sheet of the fifteenth map layer.
#[derive(Clone, Copy, Debug, PartialEq, Eq, Structural)]
pub struct ForestDetailsV2Sheet(pub Handle);

/// The sheet of the fourteenth map layer.
#[derive(Clone, Copy, Debug, PartialEq, Eq, Structural)]
pub struct RampsSheet(pub Handle);

/// The sheet of the thirteenth map layer.
#[derive(Clone, Copy, Debug, PartialEq, Eq, Structural)]
pub struct AppleTreeSheet(pub Handle);

/// The sheet of the twelfth map layer.
#[derive(Clone, Copy, Debug, PartialEq, Eq, Structural)]
pub struct RegularTreeSheet(pub Handle);

/// The sheet of the eleventh map layer.
#[derive(Clone, Copy, Debug, PartialEq, Eq, Structural)]
pub struct WoodenHouseSheet(pub Handle);

/// The sheet of the tenth map layer.
#[derive(Clone, Copy, Debug, PartialEq, Eq, Structural)]
pub struct WaterObjectsSheet(pub Handle);

/// The sheet of the ninth map layer.
#[derive(Clone, Copy, Debug, PartialEq, Eq, Structural)]
pub struct BushesSheet(pub Handle);

/// The sheet of the eighth map layer.
#[derive(Clone, Copy, Debug, PartialEq, Eq, Structural)]
pub struct FencesSheet(pub Handle);

/// The sheet of the seventh map layer.
#[derive(Clone, Copy, Debug, PartialEq, Eq, Structural)]
pub struct ForestDetailsSheet(pub Handle);

/// The sheet of the sixth map layer.
#[derive(Clone, Copy, Debug, PartialEq, Eq, Structural)]
pub struct DarkerGrassPatchSheet(pub Handle);

/// The sheet of the fifth map layer.
#[derive(Clone, Copy, Debug, PartialEq, Eq, Structural)]
pub struct DarkGrassPatchSheet(pub Handle);

/// The sheet of the fourth map layer.
#[derive(Clone, Copy, Debug, PartialEq, Eq, Structural)]
pub struct SoilSpriteSheet(pub Handle);

/// The sheet of the third map layer.
#[derive(Clone, Copy, Debug, PartialEq, Eq, Structural)]
pub struct DarkGrassHillsSpriteSheet(pub Handle);

/// The sheet of the second map layer.
#[derive(Clone, Copy, Debug, PartialEq, Eq, Structural)]
pub struct DarkGrassWaterSpriteSheet(pub Handle);

/// The sheet of the first map layer.
#[derive(Clone, Copy, Debug, PartialEq, Eq, Structural)]
pub struct WaterSpriteSheet(pub Handle);

/// The sheet of the icon shown over a conversation.
#[derive(Clone, Copy, Debug, PartialEq, Eq, Structural)]
pub struct ChattingIconSheet(pub Handle);

/// The sheet of the reaction icons.
#[derive(Clone, Copy, Debug, PartialEq, Eq, Structural)]
pub struct EmotionIconSheet(pub Handle);

/// A sprite sheet resource of any kind.
#[derive(Clone, Copy, Debug, PartialEq, Eq, Structural)]
pub enum SpriteSheetResource {
    Player(PlayerSpriteSheet),
    PurpleCow(PurpleCowSpriteSheet),
    ForestDetailsV2(ForestDetailsV2Sheet),
    Ramps(RampsSheet),
    AppleTree(AppleTreeSheet),
    RegularTree(RegularTreeSheet),
    WoodenHouse(WoodenHouseSheet),
    WaterObjects(WaterObjectsSheet),
    Bushes(BushesSheet),
    Fences(FencesSheet),
    ForestDetails(ForestDetailsSheet),
    DarkerGrassPatch(DarkerGrassPatchSheet),
    GrassPatch(DarkGrassPatchSheet),
    Soil(SoilSpriteSheet),
    SecondGround(DarkGrassHillsSpriteSheet),
    Ground(DarkGrassWaterSpriteSheet),
    Water(WaterSpriteSheet),
    ChattingIcon(ChattingIconSheet),
    EmotionIcon(EmotionIconSheet),
}

/// The kinds of sprite sheet, one for each resource.
#[derive(Clone, Copy, Debug, PartialEq, Eq, Structural)]
pub enum SpriteSheetKind {
    Player,
    PurpleCow,
    ForestDetailsV2,
    Ramps,
    AppleTree,
    RegularTree,
    WoodenHouse,
    WaterObjects,
    Bushes,
    Fences,
    ForestDetails,
    DarkerGrassPatch,
    GrassPatch,
    Soil,
    SecondGround,
    Ground,
    Water,
    ChattingIcon,
    EmotionIcon,
}

/// A grid of equal cells cut from the image at `url`.
#[derive(Clone, Copy, Debug, PartialEq, Eq)]
pub struct TextureAtlas {
    pub url: &'static str,
    pub sprite_size: Vec2,
    pub columns: usize,
    pub rows: usize,
}

/// The registered sprite sheets. The handle of a sheet is its place here.
#[derive(Clone, Debug, PartialEq, Eq)]
pub struct TextureAtlases {
    pub atlases: Vec<TextureAtlas>,
}

/// The description of one sprite sheet: where its image is, how it is cut,
/// and which resource it becomes.
#[derive(Clone, Copy, Debug, PartialEq, Eq)]
pub struct SpriteSheetInfo {
    pub url: &'static str,
    pub sprite_size: Vec2,
    pub columns: usize,
    pub rows: usize,
    pub resource_type: SpriteSheetKind,
}

impl SpriteSheetKind {
    /// The resource of this kind that refers to the sheet at `handle`.
    pub open spec fn resource_spec(self, handle: Handle) -> SpriteSheetResource {
        match self {
            SpriteSheetKind::Player => SpriteSheetResource::Player(PlayerSpriteSheet(handle)),
            SpriteSheetKind::PurpleCow => SpriteSheetResource::PurpleCow(PurpleCowSpriteSheet(handle)),
            SpriteSheetKind::ForestDetailsV2 => SpriteSheetResource::ForestDetailsV2(ForestDetailsV2Sheet(handle)),
            SpriteSheetKind::Ramps => SpriteSheetResource::Ramps(RampsSheet(handle)),
            SpriteSheetKind::AppleTree => SpriteSheetResource::AppleTree(AppleTreeSheet(handle)),
            SpriteSheetKind::RegularTree => SpriteSheetResource::RegularTree(RegularTreeSheet(handle)),
            SpriteSheetKind::WoodenHouse => SpriteSheetResource::WoodenHouse(WoodenHouseSheet(handle)),
            SpriteSheetKind::WaterObjects => SpriteSheetResource::WaterObjects(WaterObjectsSheet(handle)),
            SpriteSheetKind::Bushes => SpriteSheetResource::Bushes(BushesSheet(handle)),
            SpriteSheetKind::Fences => SpriteSheetResource::Fences(FencesSheet(handle)),
            SpriteSheetKind::ForestDetails => SpriteSheetResource::ForestDetails(ForestDetailsSheet(handle)),
            SpriteSheetKind::DarkerGrassPatch => SpriteSheetResource::DarkerGrassPatch(DarkerGrassPatchSheet(handle)),
            SpriteSheetKind::GrassPatch => SpriteSheetResource::GrassPatch(DarkGrassPatchSheet(handle)),
            SpriteSheetKind::Soil => SpriteSheetResource::Soil(SoilSpriteSheet(handle)),
            SpriteSheetKind::SecondGround => SpriteSheetResource::SecondGround(DarkGrassHillsSpriteSheet(handle)),
            SpriteSheetKind::Ground => SpriteSheetResource::Ground(DarkGrassWaterSpriteSheet(handle)),
            SpriteSheetKind::Water => SpriteSheetResource::Water(WaterSpriteSheet(handle)),
            SpriteSheetKind::ChattingIcon => SpriteSheetResource::ChattingIcon(ChattingIconSheet(handle)),
            SpriteSheetKind::EmotionIcon => SpriteSheetResource::EmotionIcon(EmotionIconSheet(handle)),
        }
    }

    /// Makes the resource of this kind that refers to the sheet at `handle`.
    pub fn resource(self, handle: Handle) -> (resource: SpriteSheetResource)
        ensures
            resource == self.resource_spec(handle),
    {
        match self {
            SpriteSheetKind::Player => SpriteSheetResource::Player(PlayerSpriteSheet(handle)),
            SpriteSheetKind::PurpleCow => SpriteSheetResource::PurpleCow(PurpleCowSpriteSheet(handle)),
            SpriteSheetKind::ForestDetailsV2 => SpriteSheetResource::ForestDetailsV2(ForestDetailsV2Sheet(handle)),
            SpriteSheetKind::Ramps => SpriteSheetResource::Ramps(RampsSheet(handle)),
            SpriteSheetKind::AppleTree => SpriteSheetResource::AppleTree(AppleTreeSheet(handle)),
            SpriteSheetKind::RegularTree => SpriteSheetResource::RegularTree(RegularTreeSheet(handle)),
            SpriteSheetKind::WoodenHouse => SpriteSheetResource::WoodenHouse(WoodenHouseSheet(handle)),
            SpriteSheetKind::WaterObjects => SpriteSheetResource::WaterObjects(WaterObjectsSheet(handle)),
            SpriteSheetKind::Bushes => SpriteSheetResource::Bushes(BushesSheet(handle)),
            SpriteSheetKind::Fences => SpriteSheetResource::Fences(FencesSheet(handle)),
            SpriteSheetKind::ForestDetails => SpriteSheetResource::ForestDetails(ForestDetailsSheet(handle)),
            SpriteSheetKind::DarkerGrassPatch => SpriteSheetResource::DarkerGrassPatch(DarkerGrassPatchSheet(handle)),
            SpriteSheetKind::GrassPatch => SpriteSheetResource::GrassPatch(DarkGrassPatchSheet(handle)),
            SpriteSheetKind::Soil => SpriteSheetResource::Soil(SoilSpriteSheet(handle)),
            SpriteSheetKind::SecondGround => SpriteSheetResource::SecondGround(DarkGrassHillsSpriteSheet(handle)),
            SpriteSheetKind::Ground => SpriteSheetResource::Ground(DarkGrassWaterSpriteSheet(handle)),
            SpriteSheetKind::Water => SpriteSheetResource::Water(WaterSpriteSheet(handle)),
            SpriteSheetKind::ChattingIcon => SpriteSheetResource::ChattingIcon(ChattingIconSheet(handle)),
            SpriteSheetKind::EmotionIcon => SpriteSheetResource::EmotionIcon(EmotionIconSheet(handle)),
        }
    }
}

impl SpriteSheetInfo {
    /// The grid that this description asks for.
    pub open spec fn atlas(self) -> TextureAtlas {
        TextureAtlas {
            url: self.url,
            sprite_size: self.sprite_size,
            columns: self.columns,
            rows: self.rows,
        }
    }
}

impl TextureAtlases {
    /// Creates an empty registry.
    pub fn new() -> (registry: TextureAtlases)
        ensures
            registry.atlases@ == Seq::<TextureAtlas>::empty(),
    {
        TextureAtlases { atlases: Vec::new() }
    }

    /// Registers a sheet and returns its handle.
    pub fn add(&mut self, atlas: TextureAtlas) -> (handle: Handle)
        ensures
            handle.id == old(self).atlases@.len(),
            final(self).atlases@ == old(self).atlases@.push(atlas),
    {
        let handle = Handle { id: self.atlases.len() };
        self.atlases.push(atlas);
        handle
    }
}

} // verus!
